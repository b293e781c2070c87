//! Book records: the entity, its stored form, and the requests that create,
//! edit, fetch and delete it.

use crate::document::{
    datetime_field, field_of, field_view, i32_field, id_field, names_field, str_field, DocView, Document,
    Value, ValueView,
};
use crate::error::{is_invalid_id, Error};
use crate::ids::{hex_encode, id_of_text, lemma_id_text_round_trip, parse_record_id};
use vstd::prelude::*;

verus! {

/// The form submitted to create a book.
#[derive(Clone, Debug, PartialEq, Eq)]
pub struct NewBook {
    pub name: String,
    pub author: String,
    pub language: String,
    pub pages: i32,
}

/// The form submitted to edit a book.
#[derive(Clone, Debug, PartialEq, Eq)]
pub struct EditedBook {
    pub name: String,
    pub author: String,
    pub language: String,
    pub pages: i32,
}

/// A book of the catalogue.
#[derive(Clone, Debug, PartialEq, Eq)]
pub struct Book {
    /// The identifier's text form.
    pub id: String,
    pub name: String,
    pub author: String,
    pub language: String,
    /// Never negative.
    pub num_pages: i32,
    /// Milliseconds since the Unix epoch.
    pub added_at: i64,
}

/// The mathematical form of a `Book`.
pub struct BookView {
    pub id: Seq<char>,
    pub name: Seq<char>,
    pub author: Seq<char>,
    pub language: Seq<char>,
    pub num_pages: i32,
    pub added_at: i64,
}

impl View for Book {
    type V = BookView;

    open spec fn view(&self) -> BookView {
        BookView {
            id: self.id@,
            name: self.name@,
            author: self.author@,
            language: self.language@,
            num_pages: self.num_pages,
            added_at: self.added_at,
        }
    }
}

/// The fields of a stored book, without its identifier, in stored order.
pub open spec fn body_fields(
    name: Seq<char>,
    author: Seq<char>,
    language: Seq<char>,
    num_pages: i32,
    added_at: i64,
) -> DocView {
    seq![
        ("name"@, ValueView::Str(name)),
        ("author"@, ValueView::Str(author)),
        ("language"@, ValueView::Str(language)),
        ("num_pages"@, ValueView::Int32(num_pages)),
        ("added_at"@, ValueView::DateTime(added_at)),
    ]
}

/// A stored book: its identifier first, then the other fields.
pub open spec fn book_fields(
    id: Seq<u8>,
    name: Seq<char>,
    author: Seq<char>,
    language: Seq<char>,
    num_pages: i32,
    added_at: i64,
) -> DocView {
    seq![("_id"@, ValueView::ObjectId(id))] + body_fields(name, author, language, num_pages, added_at)
}

/// The book that a stored document holds, or the first field (in the order
/// `_id`, `name`, `author`, `language`, `num_pages`, `added_at`) that is
/// missing or mistyped. A negative page count counts as mistyped.
pub open spec fn book_of_doc(d: DocView) -> Result<BookView, Seq<char>> {
    if id_field(d, "_id"@) is None {
        Err("_id"@)
    } else if str_field(d, "name"@) is None {
        Err("name"@)
    } else if str_field(d, "author"@) is None {
        Err("author"@)
    } else if str_field(d, "language"@) is None {
        Err("language"@)
    } else if i32_field(d, "num_pages"@) is None || i32_field(d, "num_pages"@).unwrap() < 0 {
        Err("num_pages"@)
    } else if datetime_field(d, "added_at"@) is None {
        Err("added_at"@)
    } else {
        Ok(
            BookView {
                id: hex_encode(id_field(d, "_id"@).unwrap()),
                name: str_field(d, "name"@).unwrap(),
                author: str_field(d, "author"@).unwrap(),
                language: str_field(d, "language"@).unwrap(),
                num_pages: i32_field(d, "num_pages"@).unwrap(),
                added_at: datetime_field(d, "added_at"@).unwrap(),
            },
        )
    }
}

/// The stored document of a book; `None` when its identifier is malformed.
pub open spec fn doc_of_book(b: BookView) -> Option<DocView> {
    match id_of_text(b.id) {
        Some(id) => Some(book_fields(id, b.name, b.author, b.language, b.num_pages, b.added_at)),
        None => None,
    }
}

/// `r` is what reading `d` as a book gives: the book, or the data-access
/// error naming the offending field.
pub open spec fn read_as_book(d: DocView, r: Result<Book, Error>) -> bool {
    match r {
        Ok(b) => book_of_doc(d) == Ok::<BookView, Seq<char>>(b@),
        Err(e) => book_of_doc(d) matches Err(f) && names_field(e, f),
    }
}

/// Reads a stored document as a book.
pub fn doc_to_book(doc: &Document) -> (r: Result<Book, Error>)
    ensures
        read_as_book(doc@, r),
{
    let id = doc.get_object_id("_id")?;
    let name = doc.get_str("name")?;
    let author = doc.get_str("author")?;
    let language = doc.get_str("language")?;
    let num_pages = doc.get_i32("num_pages")?;
    if num_pages < 0 {
        return Err(Error::MongoDataError(String::from_str("num_pages")));
    }
    let added_at = doc.get_datetime("added_at")?;
    Ok(
        Book {
            id: id.to_hex(),
            name: name.clone(),
            author: author.clone(),
            language: language.clone(),
            num_pages,
            added_at,
        },
    )
}

fn push_field(fields: &mut Vec<(String, Value)>, key: &str, value: Value)
    ensures
        final(fields)@.len() == old(fields)@.len() + 1,
        forall|i: int| 0 <= i < old(fields)@.len() ==> #[trigger] final(fields)@[i] == old(fields)@[i],
        field_view(final(fields)@[old(fields)@.len() as int]) == (key@, value@),
{
    fields.push((String::from_str(key), value));
}

fn body_document(
    fields: Vec<(String, Value)>,
    name: &String,
    author: &String,
    language: &String,
    num_pages: i32,
    added_at: i64,
) -> (r: Document)
    ensures
        r@ == fields@.map_values(|f: (String, Value)| field_view(f)) + body_fields(
            name@,
            author@,
            language@,
            num_pages,
            added_at,
        ),
{
    let ghost start = fields@.map_values(|f: (String, Value)| field_view(f));
    let mut fields = fields;
    push_field(&mut fields, "name", Value::Str(name.clone()));
    push_field(&mut fields, "author", Value::Str(author.clone()));
    push_field(&mut fields, "language", Value::Str(language.clone()));
    push_field(&mut fields, "num_pages", Value::Int32(num_pages));
    push_field(&mut fields, "added_at", Value::DateTime(added_at));
    let r = Document { fields };
    assert(r@ =~= start + body_fields(name@, author@, language@, num_pages, added_at));
    r
}

/// The stored document of a book; `InvalidIDError` when its identifier is
/// malformed.
pub fn book_to_doc(book: &Book) -> (r: Result<Document, Error>)
    ensures
        r matches Ok(d) ==> doc_of_book(book@) == Some(d@),
        r matches Err(e) ==> doc_of_book(book@) is None && is_invalid_id(e, book.id@),
{
    match parse_record_id(book.id.as_str()) {
        None => Err(Error::InvalidIDError(book.id.clone())),
        Some(id) => {
            let mut fields: Vec<(String, Value)> = Vec::new();
            push_field(&mut fields, "_id", Value::ObjectId(id));
            let d = body_document(
                fields,
                &book.name,
                &book.author,
                &book.language,
                book.num_pages,
                book.added_at,
            );
            assert(d@ =~= book_fields(
                id.bytes@,
                book.name@,
                book.author@,
                book.language@,
                book.num_pages,
                book.added_at,
            ));
            Ok(d)
        },
    }
}

/// A well-formed stored book reads as the book with the same fields and the
/// identifier's text form, and storing that book gives back the same document.
pub proof fn lemma_book_round_trip(
    id: Seq<u8>,
    name: Seq<char>,
    author: Seq<char>,
    language: Seq<char>,
    num_pages: i32,
    added_at: i64,
)
    requires
        id.len() == 12,
        num_pages >= 0,
    ensures
        book_of_doc(book_fields(id, name, author, language, num_pages, added_at)) == Ok::<
            BookView,
            Seq<char>,
        >(BookView { id: hex_encode(id), name, author, language, num_pages, added_at }),
        doc_of_book(BookView { id: hex_encode(id), name, author, language, num_pages, added_at })
            == Some(book_fields(id, name, author, language, num_pages, added_at)),
{
    reveal_strlit("_id");
    reveal_strlit("name");
    reveal_strlit("author");
    reveal_strlit("language");
    reveal_strlit("num_pages");
    reveal_strlit("added_at");
    reveal_with_fuel(field_of, 7);
    let d = book_fields(id, name, author, language, num_pages, added_at);
    assert(d.drop_first() =~= d.subrange(1, 6));
    assert(d.subrange(1, 6).drop_first() =~= d.subrange(2, 6));
    assert(d.subrange(2, 6).drop_first() =~= d.subrange(3, 6));
    assert(d.subrange(3, 6).drop_first() =~= d.subrange(4, 6));
    assert(d.subrange(4, 6).drop_first() =~= d.subrange(5, 6));
    assert("_id"@[0] == '_' && "name"@[0] == 'n' && "author"@[0] == 'a');
    assert("language"@[0] == 'l' && "num_pages"@[1] == 'u' && "added_at"@[1] == 'd');
    assert("name"@.len() == 4 && "author"@.len() == 6 && "_id"@.len() == 3);
    lemma_id_text_round_trip(id);
}

/// Relies on chrono's `Utc::now`, read as milliseconds since the Unix epoch.
#[verifier::external_body]
fn utc_now_millis() -> (r: i64) {
    chrono::Utc::now().timestamp_millis()
}

/// The filter that selects the document with identifier `id`.
pub open spec fn id_filter(id: Seq<u8>) -> DocView {
    seq![("_id"@, ValueView::ObjectId(id))]
}

/// `r` is the filter for the identifier that `id` spells, or
/// `InvalidIDError(id)` when `id` is malformed.
pub open spec fn filters_id(id: Seq<char>, r: Result<Document, Error>) -> bool {
    match r {
        Ok(f) => id_of_text(id) matches Some(b) && f@ == id_filter(b),
        Err(e) => id_of_text(id) is None && is_invalid_id(e, id),
    }
}

/// The filter selecting the book with identifier `id`. A malformed `id` is
/// refused with `InvalidIDError` before any query is made.
pub fn book_filter(id: &str) -> (r: Result<Document, Error>)
    ensures
        filters_id(id@, r),
{
    match parse_record_id(id) {
        None => Err(Error::InvalidIDError(String::from_str(id))),
        Some(oid) => {
            let mut fields: Vec<(String, Value)> = Vec::new();
            push_field(&mut fields, "_id", Value::ObjectId(oid));
            let f = Document { fields };
            assert(f@ =~= id_filter(oid.bytes@));
            Ok(f)
        },
    }
}

/// The book with identifier `id`, from the store's answer `found` to the
/// query made with `book_filter(id)`: a store failure passes through, no
/// document is `NoEntryFoundError(id)`, and a document is read as a book.
pub fn fetch_book(id: &str, found: Result<Option<Document>, Error>) -> (r: Result<Book, Error>)
    ensures
        found matches Err(e) ==> r == Err::<Book, Error>(e),
        found matches Ok(None) ==> (r matches Err(Error::NoEntryFoundError(k)) && k@ == id@),
        found matches Ok(Some(d)) ==> read_as_book(d@, r),
{
    match found {
        Err(e) => Err(e),
        Ok(None) => Err(Error::NoEntryFoundError(String::from_str(id))),
        Ok(Some(d)) => doc_to_book(&d),
    }
}

/// Every document of `docs` reads as a book.
pub open spec fn all_books(docs: Seq<Document>) -> bool {
    forall|i: int| 0 <= i < docs.len() ==> (#[trigger] book_of_doc(docs[i]@)) is Ok
}

/// All books, from the documents the store listed: the books in the same
/// order, or the error of the first document that does not read as a book.
pub fn fetch_books(docs: &Vec<Document>) -> (r: Result<Vec<Book>, Error>)
    ensures
        r is Ok <==> all_books(docs@),
        r matches Ok(books) ==> books@.len() == docs@.len() && forall|i: int|
            0 <= i < docs@.len() ==> read_as_book(docs@[i]@, Ok(#[trigger] books@[i])),
        r matches Err(e) ==> exists|i: int|
            0 <= i < docs@.len() && all_books(docs@.take(i)) && #[trigger] read_as_book(
                docs@[i]@,
                Err(e),
            ),
{
    let mut books: Vec<Book> = Vec::new();
    let n = docs.len();
    let mut i: usize = 0;
    while i < n
        invariant
            n == docs@.len(),
            0 <= i <= n,
            books@.len() == i,
            forall|j: int| 0 <= j < i ==> read_as_book(docs@[j]@, Ok(#[trigger] books@[j])),
        decreases n - i,
    {
        match doc_to_book(&docs[i]) {
            Ok(b) => books.push(b),
            Err(e) => {
                assert(all_books(docs@.take(i as int))) by {
                    assert forall|j: int| 0 <= j < i implies (#[trigger] book_of_doc(
                        docs@.take(i as int)[j]@,
                    )) is Ok by {
                        assert(read_as_book(docs@[j]@, Ok(books@[j])));
                    }
                }
                assert(!all_books(docs@)) by {
                    assert(book_of_doc(docs@[i as int]@) is Err);
                }
                return Err(e);
            },
        }
        i = i + 1;
    }
    assert(all_books(docs@)) by {
        assert forall|j: int| 0 <= j < n implies (#[trigger] book_of_doc(docs@[j]@)) is Ok by {
            assert(read_as_book(docs@[j]@, Ok(books@[j])));
        }
    }
    Ok(books)
}

/// The document for a new book added at `added_at`; a negative page count is
/// refused as a malformed body.
pub fn new_book_document(entry: &NewBook, added_at: i64) -> (r: Result<Document, Error>)
    ensures
        r is Err <==> entry.pages < 0,
        r matches Err(e) ==> e is MalformedRequestBody,
        r matches Ok(d) ==> d@ == body_fields(
            entry.name@,
            entry.author@,
            entry.language@,
            entry.pages,
            added_at,
        ),
{
    if entry.pages < 0 {
        return Err(Error::MalformedRequestBody);
    }
    let d = body_document(
        Vec::new(),
        &entry.name,
        &entry.author,
        &entry.language,
        entry.pages,
        added_at,
    );
    assert(d@ =~= body_fields(entry.name@, entry.author@, entry.language@, entry.pages, added_at));
    Ok(d)
}

/// `d` is the document of a book's fields with some timestamp.
pub open spec fn is_stamped_body(
    d: DocView,
    name: Seq<char>,
    author: Seq<char>,
    language: Seq<char>,
    pages: i32,
) -> bool {
    d.len() == 5 && (d[4].1 matches ValueView::DateTime(t) && d == body_fields(
        name,
        author,
        language,
        pages,
        t,
    ))
}

/// The document to insert for a new book, stamped with the current time.
pub fn create_book(entry: &NewBook) -> (r: Result<Document, Error>)
    ensures
        r is Err <==> entry.pages < 0,
        r matches Err(e) ==> e is MalformedRequestBody,
        r matches Ok(d) ==> is_stamped_body(d@, entry.name@, entry.author@, entry.language@, entry.pages),
{
    new_book_document(entry, utc_now_millis())
}

/// The filter and the new field values for editing the book with identifier
/// `id` at `edited_at`. A malformed `id` is refused first, with
/// `InvalidIDError`; a negative page count then as a malformed body.
pub fn edited_book_document(id: &str, entry: &EditedBook, edited_at: i64) -> (r: Result<
    (Document, Document),
    Error,
>)
    ensures
        r is Err <==> (id_of_text(id@) is None || entry.pages < 0),
        id_of_text(id@) is None ==> (r matches Err(e) && is_invalid_id(e, id@)),
        id_of_text(id@) is Some && entry.pages < 0 ==> (r matches Err(e)
            && e is MalformedRequestBody),
        r matches Ok((f, d)) ==> id_of_text(id@) matches Some(b) && f@ == id_filter(b)
            && entry.pages >= 0 && d@ == body_fields(
            entry.name@,
            entry.author@,
            entry.language@,
            entry.pages,
            edited_at,
        ),
{
    let f = book_filter(id)?;
    if entry.pages < 0 {
        return Err(Error::MalformedRequestBody);
    }
    let d = body_document(
        Vec::new(),
        &entry.name,
        &entry.author,
        &entry.language,
        entry.pages,
        edited_at,
    );
    assert(d@ =~= body_fields(entry.name@, entry.author@, entry.language@, entry.pages, edited_at));
    Ok((f, d))
}

/// The filter and new field values for editing a book, stamped with the
/// current time.
pub fn edit_book(id: &str, entry: &EditedBook) -> (r: Result<(Document, Document), Error>)
    ensures
        r is Err <==> (id_of_text(id@) is None || entry.pages < 0),
        id_of_text(id@) is None ==> (r matches Err(e) && is_invalid_id(e, id@)),
        id_of_text(id@) is Some && entry.pages < 0 ==> (r matches Err(e)
            && e is MalformedRequestBody),
        r matches Ok((f, d)) ==> id_of_text(id@) matches Some(b) && f@ == id_filter(b)
            && entry.pages >= 0 && is_stamped_body(
            d@,
            entry.name@,
            entry.author@,
            entry.language@,
            entry.pages,
        ),
{
    edited_book_document(id, entry, utc_now_millis())
}

/// The filter for deleting the book with identifier `id`; a malformed `id`
/// is refused with `InvalidIDError` before any query is made.
pub fn delete_book(id: &str) -> (r: Result<Document, Error>)
    ensures
        filters_id(id@, r),
{
    book_filter(id)
}

/// The outcome of an edit from the store's answer to the update made with
/// `edit_book(id, ..)`'s filter (the number of documents it matched): a
/// store failure passes through, no match is `NoEntryFoundError(id)`, and
/// any match is success.
pub fn edit_outcome(id: &str, matched: Result<u64, Error>) -> (r: Result<(), Error>)
    ensures
        r is Ok <==> (matched matches Ok(n) && n > 0),
        matched matches Err(e) ==> r == Err::<(), Error>(e),
        matched == Ok::<u64, Error>(0) ==> (r matches Err(Error::NoEntryFoundError(k))
            && k@ == id@),
{
    match matched {
        Err(e) => Err(e),
        Ok(0) => Err(Error::NoEntryFoundError(String::from_str(id))),
        Ok(_) => Ok(()),
    }
}

} // verus!
