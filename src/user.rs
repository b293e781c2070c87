//! User records, read-only here: looked up by email at login.

use crate::document::{id_field, names_field, str_field, DocView, Document, Value, ValueView};
use crate::error::Error;
use crate::ids::hex_encode;
use vstd::prelude::*;

verus! {

/// A registered user.
#[derive(Clone, Debug, PartialEq, Eq)]
pub struct User {
    /// The identifier's text form.
    pub id: String,
    pub email: String,
    /// The stored password hash.
    pub password: String,
}

/// The mathematical form of a `User`.
pub struct UserView {
    pub id: Seq<char>,
    pub email: Seq<char>,
    pub password: Seq<char>,
}

impl View for User {
    type V = UserView;

    open spec fn view(&self) -> UserView {
        UserView { id: self.id@, email: self.email@, password: self.password@ }
    }
}

/// The user that a stored document holds, or the first field (in the order
/// `_id`, `email`, `password`) that is missing or mistyped.
pub open spec fn user_of_doc(d: DocView) -> Result<UserView, Seq<char>> {
    if id_field(d, "_id"@) is None {
        Err("_id"@)
    } else if str_field(d, "email"@) is None {
        Err("email"@)
    } else if str_field(d, "password"@) is None {
        Err("password"@)
    } else {
        Ok(
            UserView {
                id: hex_encode(id_field(d, "_id"@).unwrap()),
                email: str_field(d, "email"@).unwrap(),
                password: str_field(d, "password"@).unwrap(),
            },
        )
    }
}

/// `r` is what reading `d` as a user gives.
pub open spec fn read_as_user(d: DocView, r: Result<User, Error>) -> bool {
    match r {
        Ok(u) => user_of_doc(d) == Ok::<UserView, Seq<char>>(u@),
        Err(e) => user_of_doc(d) matches Err(f) && names_field(e, f),
    }
}

/// The filter that selects the user with email `email`.
pub open spec fn email_filter(email: Seq<char>) -> DocView {
    seq![("email"@, ValueView::Str(email))]
}

/// Reads a stored document as a user.
pub fn doc_to_user(doc: &Document) -> (r: Result<User, Error>)
    ensures
        read_as_user(doc@, r),
{
    let id = doc.get_object_id("_id")?;
    let email = doc.get_str("email")?;
    let password = doc.get_str("password")?;
    Ok(User { id: id.to_hex(), email: email.clone(), password: password.clone() })
}

/// The filter selecting the user with email `email`.
pub fn user_filter(email: &str) -> (r: Document)
    ensures
        r@ == email_filter(email@),
{
    let mut fields: Vec<(String, Value)> = Vec::new();
    fields.push((String::from_str("email"), Value::Str(String::from_str(email))));
    let r = Document { fields };
    assert(r@ =~= email_filter(email@));
    r
}

/// The user with email `email`, from the store's answer `found` to the query
/// made with `user_filter(email)`: a store failure passes through, no
/// document is `NoEntryFoundError(email)`, and a document is read as a user.
pub fn fetch_user(email: &str, found: Result<Option<Document>, Error>) -> (r: Result<User, Error>)
    ensures
        found matches Err(e) ==> r == Err::<User, Error>(e),
        found matches Ok(None) ==> (r matches Err(Error::NoEntryFoundError(k)) && k@ == email@),
        found matches Ok(Some(d)) ==> read_as_user(d@, r),
{
    match found {
        Err(e) => Err(e),
        Ok(None) => Err(Error::NoEntryFoundError(String::from_str(email))),
        Ok(Some(d)) => doc_to_user(&d),
    }
}

} // verus!
