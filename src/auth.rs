//! Login and the session guard: credential checks, the session cookie, and
//! admitting a request on the session its cookie names.

use crate::document::{find_one, id_field, lemma_document_ids_are_12_bytes, DocView, Document, ValueView};
use crate::error::Error;
use crate::ids::{hex_encode, id_of_text, lemma_id_text_round_trip, RecordId};
use crate::session::{
    find_session, lemma_session_reads_back, session_fields, session_of_doc, token_filter,
    Session, SessionView,
};
use crate::user::{user_of_doc, User, UserView};
use vstd::prelude::*;

verus! {

/// The name of the cookie that carries the session token.
pub const COOKIE_NAME: &'static str = "toodeloo";

/// A well-formed hash checked against when the email is unknown, so that an
/// unknown email costs as much time as a wrong password.
const DECOY_HASH: &'static str = "$2y$12$L6Bc/AlTQHyd9liGgGEZyOFLPHNgyxeEPfgYfBCVxJ7JIlwxyVU3u";

/// The submitted login form.
#[derive(Clone, Debug, PartialEq, Eq)]
pub struct LoginUser {
    pub email: String,
    pub password: String,
}

/// What bcrypt's `verify` answers for a password against a stored hash:
/// whether they match, or `None` when the hash cannot be read.
pub uninterp spec fn bcrypt_verdict(password: Seq<char>, hash: Seq<char>) -> Option<bool>;

/// Relies on bcrypt's `verify`: it re-hashes the password with the cost and
/// salt read from the hash and compares; a hash it cannot read is an error.
#[verifier::external_body]
fn bcrypt_verify(password: &str, hash: &str) -> (r: Option<bool>)
    ensures
        r == bcrypt_verdict(password@, hash@),
{
    bcrypt::verify(password, hash).ok()
}

/// The user admitted by a login, from the user lookup and the verdict of the
/// password check: only a found user whose hash matches is admitted.
pub open spec fn login_outcome(user: Result<UserView, Error>, verdict: Option<bool>) -> Option<
    UserView,
> {
    match user {
        Ok(u) => if verdict == Some(true) {
            Some(u)
        } else {
            None
        },
        Err(_) => None,
    }
}

/// The view of a lookup's answer.
pub open spec fn user_result_view(user: Result<User, Error>) -> Result<UserView, Error> {
    match user {
        Ok(u) => Ok(u@),
        Err(e) => Err(e),
    }
}

/// Decides a login from the user lookup and the verdict of the password
/// check. Every failure, a lookup failure, a wrong password or an unreadable
/// hash, is the same `InvalidCredentials`.
pub fn accept_login(user: Result<User, Error>, verdict: Option<bool>) -> (r: Result<User, Error>)
    ensures
        r matches Ok(u) ==> login_outcome(user_result_view(user), verdict) == Some(u@),
        r matches Err(e) ==> login_outcome(user_result_view(user), verdict) is None
            && e is InvalidCredentials,
{
    match user {
        Ok(u) => match verdict {
            Some(true) => Ok(u),
            _ => Err(Error::InvalidCredentials),
        },
        Err(_) => Err(Error::InvalidCredentials),
    }
}

/// Checks the submitted password against the looked-up user's hash. A
/// failed lookup still runs one hash check, against a decoy hash, so that it
/// takes as long as a wrong password; its verdict is not used.
pub fn check_credentials(body: &LoginUser, user: Result<User, Error>) -> (r: Result<User, Error>)
    ensures
        r matches Ok(u) ==> (user matches Ok(found) && found@ == u@ && bcrypt_verdict(
            body.password@,
            found.password@,
        ) == Some(true)),
        r is Err <==> !(user matches Ok(found) && bcrypt_verdict(
            body.password@,
            found.password@,
        ) == Some(true)),
        r matches Err(e) ==> e is InvalidCredentials,
{
    match user {
        Ok(u) => {
            let verdict = bcrypt_verify(body.password.as_str(), u.password.as_str());
            accept_login(Ok(u), verdict)
        },
        Err(e) => {
            let _ = bcrypt_verify(body.password.as_str(), DECOY_HASH);
            accept_login(Err(e), None)
        },
    }
}

/// The `Set-Cookie` value carrying a session token.
pub open spec fn cookie_for(token: Seq<char>) -> Seq<char> {
    "toodeloo="@ + token + ";Max-Age=1296000;HTTPOnly;Secure"@
}

/// The `Set-Cookie` value for a session token: cookie `toodeloo`, kept for
/// fifteen days, HTTP-only and secure-only. The token is not encrypted.
pub fn create_cookie(session_id: &str) -> (r: String)
    ensures
        r@ == cookie_for(session_id@),
{
    let mut c = String::from_str(COOKIE_NAME);
    c.append("=");
    c.append(session_id);
    c.append(";Max-Age=1296000;HTTPOnly;Secure");
    proof {
        reveal_strlit("toodeloo");
        reveal_strlit("=");
        reveal_strlit("toodeloo=");
        assert(c@ =~= cookie_for(session_id@));
    }
    c
}

/// The cookie for a login once its session has been stored; when storing
/// failed, `CreateSessionError`.
pub fn issue_cookie(token: &str, stored: Result<(), Error>) -> (r: Result<String, Error>)
    ensures
        r matches Ok(c) ==> stored is Ok && c@ == cookie_for(token@),
        r matches Err(e) ==> stored is Err && e is CreateSessionError,
        r is Ok <==> stored is Ok,
{
    match stored {
        Ok(()) => Ok(create_cookie(token)),
        Err(_) => Err(Error::CreateSessionError),
    }
}

/// The session token named by the request's cookie; no cookie is
/// `NoSessionFoundError`.
pub fn session_token(cookie: Option<String>) -> (r: Result<String, Error>)
    ensures
        cookie matches Some(c) ==> r == Ok::<String, Error>(c),
        cookie is None ==> r == Err::<String, Error>(Error::NoSessionFoundError),
{
    match cookie {
        Some(c) => Ok(c),
        None => Err(Error::NoSessionFoundError),
    }
}

/// Passes a resolved session on; any failure to resolve it, whatever its
/// kind, becomes `NoSessionFoundError`, so that the reason is not revealed.
pub fn with_valid_session(found: Result<Session, Error>) -> (r: Result<Session, Error>)
    ensures
        found matches Ok(s) ==> r == Ok::<Session, Error>(s),
        found is Err ==> r == Err::<Session, Error>(Error::NoSessionFoundError),
{
    match found {
        Ok(s) => Ok(s),
        Err(_) => Err(Error::NoSessionFoundError),
    }
}

/// The session the guard admits, from the document the store found for the
/// token; nothing is admitted when no document was found or it does not read
/// as a session.
pub open spec fn guard_outcome(found: Option<DocView>) -> Option<SessionView> {
    match found {
        Some(d) => match session_of_doc(d) {
            Ok(s) => Some(s),
            Err(_) => None,
        },
        None => None,
    }
}

/// The document in a store answer, if one was found.
pub open spec fn found_view(found: Result<Option<Document>, Error>) -> Option<DocView> {
    match found {
        Ok(Some(d)) => Some(d@),
        _ => None,
    }
}

/// The guard's decision on a request whose cookie carried `token`, from the
/// store's answer `found` to the query made with `session_filter(token)`.
/// Every rejection is `NoSessionFoundError`.
pub fn admit_session(token: &str, found: Result<Option<Document>, Error>) -> (r: Result<
    Session,
    Error,
>)
    ensures
        r matches Ok(s) ==> guard_outcome(found_view(found)) == Some(s@),
        r is Err ==> guard_outcome(found_view(found)) is None,
        r matches Err(e) ==> e is NoSessionFoundError,
{
    with_valid_session(find_session(token, found))
}

/// A login with an email that is unknown, and one with a wrong password or
/// an unreadable hash, end alike: nothing is admitted.
pub proof fn lemma_rejected_logins_alike(
    missing: Error,
    user: UserView,
    unknown_verdict: Option<bool>,
    verdict: Option<bool>,
)
    requires
        verdict != Some(true),
    ensures
        login_outcome(Err(missing), unknown_verdict) is None,
        login_outcome(Ok(user), verdict) is None,
        login_outcome(Err(missing), unknown_verdict) == login_outcome(Ok(user), verdict),
{
}

/// A token that no stored session carries is never admitted.
pub proof fn lemma_unknown_token_rejected(sessions: Seq<DocView>, token: Seq<char>)
    requires
        find_one(sessions, token_filter(token)) is None,
    ensures
        guard_outcome(find_one(sessions, token_filter(token))) is None,
{
}

/// A stored user whose password matches is admitted, and once the session
/// created for them with a fresh token `token` (the document
/// `session_document(user.id, token)` builds) is stored under the
/// store-assigned identifier `new_id`, the guard admits a request carrying
/// `token` as that user's session.
pub proof fn lemma_login_then_admitted(
    user_doc: Document,
    password: Seq<char>,
    token: Seq<char>,
    new_id: RecordId,
    sessions: Seq<DocView>,
)
    requires
        user_of_doc(user_doc@) is Ok,
        bcrypt_verdict(password, user_of_doc(user_doc@)->Ok_0.password) == Some(true),
        find_one(sessions, token_filter(token)) is None,
    ensures
        ({
            let user = user_of_doc(user_doc@)->Ok_0;
            let user_id = id_field(user_doc@, "_id"@)->Some_0;
            &&& login_outcome(Ok(user), bcrypt_verdict(password, user.password)) == Some(user)
            &&& id_of_text(user.id) == Some(user_id)
            &&& guard_outcome(
                find_one(
                    sessions.push(
                        seq![("_id"@, ValueView::ObjectId(new_id.bytes@))] + session_fields(
                            token,
                            user_id,
                        ),
                    ),
                    token_filter(token),
                ),
            ) == Some(
                SessionView {
                    id: hex_encode(new_id.bytes@),
                    session_id: token,
                    user_id: user.id,
                },
            )
        }),
{
    let user_id = id_field(user_doc@, "_id"@)->Some_0;
    lemma_document_ids_are_12_bytes(user_doc, "_id"@);
    lemma_id_text_round_trip(user_id);
    lemma_session_reads_back(new_id.bytes@, token, user_id);
    let d = seq![("_id"@, ValueView::ObjectId(new_id.bytes@))] + session_fields(token, user_id);
    crate::document::lemma_find_one_appended(sessions, d, token_filter(token));
}

} // verus!
