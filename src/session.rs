//! Session records: issuing a token, storing it, and looking it up.

use crate::document::{
    field_of, id_field, names_field, str_field, DocView, Document, Value, ValueView,
};
use crate::error::Error;
use crate::ids::{hex_encode, id_of_text, parse_record_id};
use vstd::prelude::*;

verus! {

/// A live session: the token that a client presents and the user it belongs to.
#[derive(Clone, Debug, PartialEq, Eq)]
pub struct Session {
    /// The identifier's text form.
    pub id: String,
    /// The token carried in the session cookie.
    pub session_id: String,
    /// The text form of the user's identifier.
    pub user_id: String,
}

/// The mathematical form of a `Session`.
pub struct SessionView {
    pub id: Seq<char>,
    pub session_id: Seq<char>,
    pub user_id: Seq<char>,
}

impl View for Session {
    type V = SessionView;

    open spec fn view(&self) -> SessionView {
        SessionView { id: self.id@, session_id: self.session_id@, user_id: self.user_id@ }
    }
}

/// The session that a stored document holds, or the first field (in the
/// order `_id`, `session_id`, `user_id`) that is missing or mistyped.
pub open spec fn session_of_doc(d: DocView) -> Result<SessionView, Seq<char>> {
    if id_field(d, "_id"@) is None {
        Err("_id"@)
    } else if str_field(d, "session_id"@) is None {
        Err("session_id"@)
    } else if id_field(d, "user_id"@) is None {
        Err("user_id"@)
    } else {
        Ok(
            SessionView {
                id: hex_encode(id_field(d, "_id"@).unwrap()),
                session_id: str_field(d, "session_id"@).unwrap(),
                user_id: hex_encode(id_field(d, "user_id"@).unwrap()),
            },
        )
    }
}

/// `r` is what reading `d` as a session gives.
pub open spec fn read_as_session(d: DocView, r: Result<Session, Error>) -> bool {
    match r {
        Ok(s) => session_of_doc(d) == Ok::<SessionView, Seq<char>>(s@),
        Err(e) => session_of_doc(d) matches Err(f) && names_field(e, f),
    }
}

/// The filter that selects the session with token `token`.
pub open spec fn token_filter(token: Seq<char>) -> DocView {
    seq![("session_id"@, ValueView::Str(token))]
}

/// The stored fields of a new session.
pub open spec fn session_fields(token: Seq<char>, user_id: Seq<u8>) -> DocView {
    seq![("session_id"@, ValueView::Str(token)), ("user_id"@, ValueView::ObjectId(user_id))]
}

/// Reads a stored document as a session.
pub fn doc_to_session(doc: &Document) -> (r: Result<Session, Error>)
    ensures
        read_as_session(doc@, r),
{
    let id = doc.get_object_id("_id")?;
    let session_id = doc.get_str("session_id")?;
    let user_id = doc.get_object_id("user_id")?;
    Ok(Session { id: id.to_hex(), session_id: session_id.clone(), user_id: user_id.to_hex() })
}

/// The filter selecting the session with token `token`.
pub fn session_filter(token: &str) -> (r: Document)
    ensures
        r@ == token_filter(token@),
{
    let mut fields: Vec<(String, Value)> = Vec::new();
    fields.push((String::from_str("session_id"), Value::Str(String::from_str(token))));
    let r = Document { fields };
    assert(r@ =~= token_filter(token@));
    r
}

/// Is `s` the hyphenated lower-case text of a UUID: 36 characters, hyphens
/// at positions 8, 13, 18 and 23, lower-case hexadecimal digits elsewhere.
pub open spec fn is_token_text(s: Seq<char>) -> bool {
    &&& s.len() == 36
    &&& forall|i: int|
        0 <= i < 36 ==> if i == 8 || i == 13 || i == 18 || i == 23 {
            #[trigger] s[i] == '-'
        } else {
            ('0' <= s[i] && s[i] <= '9') || ('a' <= s[i] && s[i] <= 'f')
        }
}

/// Relies on uuid's `Uuid::new_v4` (random, version 4) and its `Display`
/// form, the hyphenated lower-case text.
#[verifier::external_body]
fn new_session_token() -> (r: String)
    ensures
        is_token_text(r@),
{
    uuid::Uuid::new_v4().to_string()
}

/// The document storing a session with token `token` for the user whose
/// identifier's text is `user_id`; `CreateSessionError` when that text is
/// malformed.
pub fn session_document(user_id: &str, token: &str) -> (r: Result<Document, Error>)
    ensures
        r is Err <==> id_of_text(user_id@) is None,
        r matches Err(e) ==> e is CreateSessionError,
        r matches Ok(d) ==> (id_of_text(user_id@) matches Some(b) && d@ == session_fields(
            token@,
            b,
        )),
{
    match parse_record_id(user_id) {
        None => Err(Error::CreateSessionError),
        Some(uid) => {
            let mut fields: Vec<(String, Value)> = Vec::new();
            fields.push((String::from_str("session_id"), Value::Str(String::from_str(token))));
            fields.push((String::from_str("user_id"), Value::ObjectId(uid)));
            let d = Document { fields };
            assert(d@ =~= session_fields(token@, uid.bytes@));
            Ok(d)
        },
    }
}

/// A fresh random token and the document that stores it for the user whose
/// identifier's text is `user_id`; `CreateSessionError` when that text is
/// malformed.
pub fn create_session(user_id: &str) -> (r: Result<(String, Document), Error>)
    ensures
        r is Err <==> id_of_text(user_id@) is None,
        r matches Err(e) ==> e is CreateSessionError,
        r matches Ok((t, d)) ==> is_token_text(t@) && (id_of_text(user_id@) matches Some(b) && d@
            == session_fields(t@, b)),
{
    let token = new_session_token();
    let d = session_document(user_id, token.as_str())?;
    Ok((token, d))
}

/// The session with token `token`, from the store's answer `found` to the
/// query made with `session_filter(token)`: a store failure passes through,
/// no document is `NoEntryFoundError(token)`, and a document is read as a
/// session.
pub fn find_session(token: &str, found: Result<Option<Document>, Error>) -> (r: Result<
    Session,
    Error,
>)
    ensures
        found matches Err(e) ==> r == Err::<Session, Error>(e),
        found matches Ok(None) ==> (r matches Err(Error::NoEntryFoundError(k)) && k@ == token@),
        found matches Ok(Some(d)) ==> read_as_session(d@, r),
{
    match found {
        Err(e) => Err(e),
        Ok(None) => Err(Error::NoEntryFoundError(String::from_str(token))),
        Ok(Some(d)) => doc_to_session(&d),
    }
}

/// `r` is the outcome of a deletion that the store answered with `outcome`
/// (the number of documents removed): success exactly when the store
/// answered, whatever the count, and the store's failure otherwise.
pub open spec fn deletion_outcome(outcome: Result<u64, Error>, r: Result<(), Error>) -> bool {
    &&& r is Ok <==> outcome is Ok
    &&& outcome matches Err(e) ==> r == Err::<(), Error>(e)
}

/// The outcome of deleting the session selected by `session_filter(token)`:
/// a store failure passes through; a missing session is no error.
pub fn delete_session(outcome: Result<u64, Error>) -> (r: Result<(), Error>)
    ensures
        deletion_outcome(outcome, r),
{
    match outcome {
        Ok(_) => Ok(()),
        Err(e) => Err(e),
    }
}

/// Deleting a session is idempotent: when the store answers both of two
/// deletions, the second of which removes nothing, both succeed.
pub proof fn lemma_delete_session_idempotent(
    removed: u64,
    first: Result<(), Error>,
    second: Result<(), Error>,
)
    requires
        deletion_outcome(Ok(removed), first),
        deletion_outcome(Ok(0), second),
    ensures
        first is Ok,
        second is Ok,
{
}

/// A session stored with a store-assigned identifier reads back with that
/// identifier, its token, and the user's identifier.
pub proof fn lemma_session_reads_back(id: Seq<u8>, token: Seq<char>, user_id: Seq<u8>)
    ensures
        matches_token(seq![("_id"@, ValueView::ObjectId(id))] + session_fields(token, user_id), token),
        session_of_doc(seq![("_id"@, ValueView::ObjectId(id))] + session_fields(token, user_id))
            == Ok::<SessionView, Seq<char>>(
            SessionView { id: hex_encode(id), session_id: token, user_id: hex_encode(user_id) },
        ),
{
    reveal_strlit("_id");
    reveal_strlit("session_id");
    reveal_strlit("user_id");
    reveal_with_fuel(field_of, 4);
    let d = seq![("_id"@, ValueView::ObjectId(id))] + session_fields(token, user_id);
    assert("_id"@.len() == 3 && "session_id"@.len() == 10 && "user_id"@.len() == 7);
    assert(d.drop_first() =~= d.subrange(1, 3));
    assert(d.subrange(1, 3).drop_first() =~= d.subrange(2, 3));
    assert(field_of(d, "session_id"@) == Some(ValueView::Str(token)));
    assert(token_filter(token)[0].0 == "session_id"@);
}

/// Does `d` match the filter for token `token`.
pub open spec fn matches_token(d: DocView, token: Seq<char>) -> bool {
    crate::document::matches_filter(d, token_filter(token))
}

} // verus!
