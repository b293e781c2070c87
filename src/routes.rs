//! Request dispatch: which route a method and path select, which routes
//! need a session, and the steps a request goes through before its handler.

use crate::auth::{admit_session, guard_outcome, found_view, session_token};
use crate::document::Document;
use crate::error::{handle_rejection, reply_for, Error, Rejection, Reply};
use crate::session::Session;
use vstd::prelude::*;
use vstd::string::StrSliceExecFns;

verus! {

/// A request method.
#[derive(Clone, Copy, Debug, PartialEq, Eq)]
pub enum Method {
    Get,
    Post,
    /// Any method that no route serves.
    Other,
}

/// The handlers a request can reach.
#[derive(Clone, Copy, Debug, PartialEq, Eq)]
pub enum RouteKind {
    Health,
    Metrics,
    Welcome,
    LoginForm,
    Login,
    BookList,
    NewBookForm,
    CreateBook,
    EditBookForm,
    EditBook,
    DeleteBook,
}

/// A matched route: the handler and the path parameter it captured (the
/// book identifier, untyped; empty where the route has none).
#[derive(Clone, Debug, PartialEq, Eq)]
pub struct Route {
    pub kind: RouteKind,
    pub param: String,
}

/// What the dispatch table gives for a method and a path.
pub enum Dispatch {
    To(RouteKind, Seq<char>),
    NotFound,
    MethodNotAllowed,
}

/// The segment after `prefix`, when `p` is `prefix` followed by one
/// non-empty segment.
pub open spec fn param_of(p: Seq<char>, prefix: Seq<char>) -> Option<Seq<char>> {
    if p.len() > prefix.len() && p.take(prefix.len() as int) == prefix && !p.skip(
        prefix.len() as int,
    ).contains('/') {
        Some(p.skip(prefix.len() as int))
    } else {
        None
    }
}

/// A path served by GET only.
pub open spec fn get_only(m: Method, k: RouteKind, param: Seq<char>) -> Dispatch {
    if m is Get {
        Dispatch::To(k, param)
    } else {
        Dispatch::MethodNotAllowed
    }
}

/// A path served by GET and POST.
pub open spec fn get_or_post(m: Method, get: RouteKind, post: RouteKind, param: Seq<char>) -> Dispatch {
    match m {
        Method::Get => Dispatch::To(get, param),
        Method::Post => Dispatch::To(post, param),
        Method::Other => Dispatch::MethodNotAllowed,
    }
}

/// The dispatch table. Paths match exactly; the first match wins, in the
/// order: infrastructure (health, metrics), public (welcome, login), then
/// the book routes. Health, metrics and welcome answer any method.
pub open spec fn route_of(m: Method, p: Seq<char>) -> Dispatch {
    if p == "/health"@ {
        Dispatch::To(RouteKind::Health, Seq::empty())
    } else if p == "/metrics"@ {
        Dispatch::To(RouteKind::Metrics, Seq::empty())
    } else if p == "/"@ {
        Dispatch::To(RouteKind::Welcome, Seq::empty())
    } else if p == "/login"@ {
        get_or_post(m, RouteKind::LoginForm, RouteKind::Login, Seq::empty())
    } else if p == "/books"@ || p == "/books/list"@ {
        get_only(m, RouteKind::BookList, Seq::empty())
    } else if p == "/books/new"@ {
        get_or_post(m, RouteKind::NewBookForm, RouteKind::CreateBook, Seq::empty())
    } else if param_of(p, "/books/edit/"@) is Some {
        get_or_post(
            m,
            RouteKind::EditBookForm,
            RouteKind::EditBook,
            param_of(p, "/books/edit/"@).unwrap(),
        )
    } else if param_of(p, "/books/delete/"@) is Some {
        get_only(m, RouteKind::DeleteBook, param_of(p, "/books/delete/"@).unwrap())
    } else {
        Dispatch::NotFound
    }
}

/// Whether a route sits behind the session guard: the book routes do.
pub open spec fn is_guarded(k: RouteKind) -> bool {
    match k {
        RouteKind::BookList | RouteKind::NewBookForm | RouteKind::CreateBook
        | RouteKind::EditBookForm | RouteKind::EditBook | RouteKind::DeleteBook => true,
        _ => false,
    }
}

/// `r` is what the dispatch table gives.
pub open spec fn dispatches(d: Dispatch, r: Result<Route, Rejection>) -> bool {
    match d {
        Dispatch::To(k, param) => r matches Ok(route) && route.kind == k && route.param@ == param,
        Dispatch::NotFound => r == Err::<Route, Rejection>(Rejection::NotFound),
        Dispatch::MethodNotAllowed => r == Err::<Route, Rejection>(Rejection::MethodNotAllowed),
    }
}

fn same_text(a: &str, b: &str) -> (r: bool)
    ensures
        r == (a@ == b@),
{
    String::from_str(a) == String::from_str(b)
}

fn param_after(path: &str, prefix: &str) -> (r: Option<String>)
    ensures
        r matches Some(s) ==> param_of(path@, prefix@) == Some(s@),
        r is None ==> param_of(path@, prefix@) is None,
{
    let n = path.unicode_len();
    let k = prefix.unicode_len();
    if n <= k {
        return None;
    }
    let head = path.substring_char(0, k);
    if !same_text(head, prefix) {
        assert(path@.take(k as int) =~= head@);
        return None;
    }
    assert(path@.take(k as int) =~= head@);
    let rest = path.substring_char(k, n);
    assert(path@.skip(k as int) =~= rest@);
    let m = n - k;
    let mut i: usize = 0;
    while i < m
        invariant
            m == rest@.len(),
            rest@ == path@.skip(k as int),
            k == prefix@.len(),
            0 <= i <= m,
            forall|j: int| 0 <= j < i ==> rest@[j] != '/',
        decreases m - i,
    {
        if rest.get_char(i) == '/' {
            assert(path@.skip(k as int)[i as int] == '/');
            assert(path@.skip(k as int).contains('/'));
            return None;
        }
        i = i + 1;
    }
    Some(String::from_str(rest))
}

fn route(kind: RouteKind, param: String) -> (r: Result<Route, Rejection>)
    ensures
        r matches Ok(route) && route.kind == kind && route.param@ == param@,
{
    Ok(Route { kind, param })
}

fn get_only_route(m: Method, kind: RouteKind, param: String) -> (r: Result<Route, Rejection>)
    ensures
        dispatches(get_only(m, kind, param@), r),
{
    match m {
        Method::Get => route(kind, param),
        _ => Err(Rejection::MethodNotAllowed),
    }
}

fn get_or_post_route(m: Method, get: RouteKind, post: RouteKind, param: String) -> (r: Result<
    Route,
    Rejection,
>)
    ensures
        dispatches(get_or_post(m, get, post, param@), r),
{
    match m {
        Method::Get => route(get, param),
        Method::Post => route(post, param),
        Method::Other => Err(Rejection::MethodNotAllowed),
    }
}

/// The route that `method` and `path` select, or why none does: no path
/// matches (`NotFound`), or the path matches but not the method
/// (`MethodNotAllowed`).
pub fn router(method: Method, path: &str) -> (r: Result<Route, Rejection>)
    ensures
        dispatches(route_of(method, path@), r),
{
    if same_text(path, "/health") {
        route(RouteKind::Health, String::new())
    } else if same_text(path, "/metrics") {
        route(RouteKind::Metrics, String::new())
    } else if same_text(path, "/") {
        route(RouteKind::Welcome, String::new())
    } else if same_text(path, "/login") {
        get_or_post_route(method, RouteKind::LoginForm, RouteKind::Login, String::new())
    } else if same_text(path, "/books") || same_text(path, "/books/list") {
        get_only_route(method, RouteKind::BookList, String::new())
    } else if same_text(path, "/books/new") {
        get_or_post_route(method, RouteKind::NewBookForm, RouteKind::CreateBook, String::new())
    } else {
        match param_after(path, "/books/edit/") {
            Some(id) => get_or_post_route(
                method,
                RouteKind::EditBookForm,
                RouteKind::EditBook,
                id,
            ),
            None => match param_after(path, "/books/delete/") {
                Some(id) => get_only_route(method, RouteKind::DeleteBook, id),
                None => Err(Rejection::NotFound),
            },
        }
    }
}

/// Whether a route sits behind the session guard.
pub fn needs_session(kind: RouteKind) -> (r: bool)
    ensures
        r == is_guarded(kind),
{
    match kind {
        RouteKind::BookList | RouteKind::NewBookForm | RouteKind::CreateBook
        | RouteKind::EditBookForm | RouteKind::EditBook | RouteKind::DeleteBook => true,
        _ => false,
    }
}

/// The next thing to do for a request.
#[derive(Clone, Debug, PartialEq, Eq)]
pub enum Step {
    /// Send this reply; no handler runs.
    Respond(Reply),
    /// Query the store with `session_filter(token)`, then hand the answer to
    /// `after_session_lookup`.
    LookUpSession { route: Route, token: String },
    /// Run the route's handler; a guarded route gets its admitted session.
    Handle { route: Route, session: Option<Session> },
}

/// `r` is a reply that redirects to the login view.
pub open spec fn is_login_redirect(r: Step) -> bool {
    r matches Step::Respond(reply) && reply.parts() == ("/login"@, 301u16)
}

/// `r` is the first step of a request: a reply for a path or method that no
/// route serves; for a guarded route, a redirect to the login view when no
/// cookie came, else a session lookup of the cookie's token; for any other
/// route, its handler.
pub open spec fn begins(method: Method, path: Seq<char>, cookie: Option<String>, r: Step) -> bool {
    match route_of(method, path) {
        Dispatch::To(k, param) => if is_guarded(k) {
            match cookie {
                None => is_login_redirect(r),
                Some(c) => r matches Step::LookUpSession { route, token } && route.kind == k
                    && route.param@ == param && token == c,
            }
        } else {
            r matches Step::Handle { route, session } && route.kind == k && route.param@ == param
                && session is None
        },
        Dispatch::NotFound => r matches Step::Respond(reply) && reply.parts() == reply_for(
            Rejection::NotFound,
        ),
        Dispatch::MethodNotAllowed => r matches Step::Respond(reply) && reply.parts()
            == reply_for(Rejection::MethodNotAllowed),
    }
}

/// The first step of a request, from its method, its path and the value of
/// the session cookie, if it carried one.
pub fn begin_request(method: Method, path: &str, cookie: Option<String>) -> (r: Step)
    ensures
        begins(method, path@, cookie, r),
{
    match router(method, path) {
        Err(rejection) => Step::Respond(handle_rejection(&rejection)),
        Ok(route) => {
            if needs_session(route.kind) {
                match session_token(cookie) {
                    Ok(token) => Step::LookUpSession { route, token },
                    Err(e) => Step::Respond(handle_rejection(&Rejection::App(e))),
                }
            } else {
                Step::Handle { route, session: None }
            }
        },
    }
}

/// The step after the guard's session lookup for `route`: the handler with
/// the admitted session, or, whatever kept the session from being admitted,
/// a redirect to the login view.
pub fn after_session_lookup(route: Route, token: &str, found: Result<Option<Document>, Error>) -> (r:
    Step)
    ensures
        guard_outcome(found_view(found)) matches Some(s) ==> (r matches Step::Handle {
            route: next,
            session: Some(admitted),
        } && next == route && admitted@ == s),
        guard_outcome(found_view(found)) is None ==> is_login_redirect(r),
{
    match admit_session(token, found) {
        Ok(s) => Step::Handle { route, session: Some(s) },
        Err(e) => Step::Respond(handle_rejection(&Rejection::App(e))),
    }
}

/// The health check's answer from the store probe: `OK`, or the probe's
/// failure.
pub fn health_handler(probe: Result<(), Error>) -> (r: Result<String, Error>)
    ensures
        r is Ok <==> probe is Ok,
        r matches Ok(s) ==> s@ == "OK"@,
        probe matches Err(e) ==> r == Err::<String, Error>(e),
{
    match probe {
        Ok(()) => Ok(String::from_str("OK")),
        Err(e) => Err(e),
    }
}

} // verus!
