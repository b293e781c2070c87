use toodeloo::books::{
    book_filter, book_to_doc, create_book, delete_book, doc_to_book, edit_book, edit_outcome,
    edited_book_document, fetch_book, fetch_books, new_book_document, Book, EditedBook, NewBook,
};
use toodeloo::document::{Document, Value};
use toodeloo::error::Error;
use toodeloo::ids::{parse_record_id, RecordId};
use toodeloo::session::{
    create_session, delete_session, doc_to_session, find_session, session_document,
    session_filter,
};
use toodeloo::user::{doc_to_user, fetch_user, user_filter};

const HEX: &str = "5f1d7b2c9a0e4b3c2d1e0f12";

fn id_bytes() -> [u8; 12] {
    [0x5f, 0x1d, 0x7b, 0x2c, 0x9a, 0x0e, 0x4b, 0x3c, 0x2d, 0x1e, 0x0f, 0x12]
}

fn field(key: &str, value: Value) -> (String, Value) {
    (key.to_string(), value)
}

fn book_doc(pages: i32) -> Document {
    Document {
        fields: vec![
            field("_id", Value::ObjectId(RecordId { bytes: id_bytes() })),
            field("name", Value::Str("Siddhartha".to_string())),
            field("author", Value::Str("Hermann Hesse".to_string())),
            field("language", Value::Str("DE".to_string())),
            field("num_pages", Value::Int32(pages)),
            field("added_at", Value::DateTime(1_600_000_000_000)),
        ],
    }
}

fn siddhartha() -> NewBook {
    NewBook {
        name: "Siddhartha".to_string(),
        author: "Hermann Hesse".to_string(),
        language: "DE".to_string(),
        pages: 200,
    }
}

#[test]
fn parse_id_accepts_hex_of_either_case() {
    assert_eq!(parse_record_id(HEX), Some(RecordId { bytes: id_bytes() }));
    assert_eq!(
        parse_record_id("5F1D7B2C9A0E4B3C2D1E0F12"),
        Some(RecordId { bytes: id_bytes() })
    );
}

#[test]
fn parse_id_rejects_malformed_text() {
    assert_eq!(parse_record_id("not-a-valid-id"), None);
    assert_eq!(parse_record_id(""), None);
    assert_eq!(parse_record_id("5f1d7b2c9a0e4b3c2d1e0f1"), None);
    assert_eq!(parse_record_id("5f1d7b2c9a0e4b3c2d1e0f1g"), None);
    assert_eq!(parse_record_id("5f1d7b2c9a0e4b3c2d1e0f1234"), None);
}

#[test]
fn id_text_round_trip() {
    let id = RecordId { bytes: id_bytes() };
    assert_eq!(id.to_hex(), HEX);
    assert_eq!(parse_record_id(&id.to_hex()), Some(id));
    let zero = RecordId { bytes: [0; 12] };
    assert_eq!(zero.to_hex(), "000000000000000000000000");
    assert_eq!(parse_record_id(&zero.to_hex()), Some(zero));
}

#[test]
fn document_lookup_takes_first_field() {
    let d = Document {
        fields: vec![text_field("a", "one"), text_field("a", "two"), field("n", Value::Int32(3))],
    };
    assert_eq!(d.get("a"), Some(&Value::Str("one".to_string())));
    assert_eq!(d.get("b"), None);
    assert_eq!(d.get_i32("n"), Ok(3));
    assert_eq!(d.get_i32("a"), Err(Error::MongoDataError("a".to_string())));
    assert_eq!(d.get_str("n"), Err(Error::MongoDataError("n".to_string())));
    assert_eq!(d.get_datetime("z"), Err(Error::MongoDataError("z".to_string())));
    assert_eq!(d.get_object_id("a"), Err(Error::MongoDataError("a".to_string())));
}

#[test]
fn book_document_reads_as_book() {
    let b = doc_to_book(&book_doc(200)).unwrap();
    assert_eq!(
        b,
        Book {
            id: HEX.to_string(),
            name: "Siddhartha".to_string(),
            author: "Hermann Hesse".to_string(),
            language: "DE".to_string(),
            num_pages: 200,
            added_at: 1_600_000_000_000,
        }
    );
}

#[test]
fn book_round_trip() {
    let d = book_doc(200);
    let b = doc_to_book(&d).unwrap();
    assert_eq!(book_to_doc(&b), Ok(d));
}

#[test]
fn book_missing_field_is_named() {
    let mut d = book_doc(200);
    d.fields.remove(2);
    assert_eq!(doc_to_book(&d), Err(Error::MongoDataError("author".to_string())));
    let mut d = book_doc(200);
    d.fields[5] = field("added_at", Value::Str("yesterday".to_string()));
    assert_eq!(doc_to_book(&d), Err(Error::MongoDataError("added_at".to_string())));
    let empty = Document { fields: vec![] };
    assert_eq!(doc_to_book(&empty), Err(Error::MongoDataError("_id".to_string())));
}

#[test]
fn book_negative_pages_is_mistyped() {
    assert_eq!(
        doc_to_book(&book_doc(-1)),
        Err(Error::MongoDataError("num_pages".to_string()))
    );
}

#[test]
fn book_with_malformed_id_has_no_document() {
    let mut b = doc_to_book(&book_doc(1)).unwrap();
    b.id = "xyz".to_string();
    assert_eq!(book_to_doc(&b), Err(Error::InvalidIDError("xyz".to_string())));
}

#[test]
fn book_filter_checks_id_first() {
    assert_eq!(
        book_filter("not-a-valid-id"),
        Err(Error::InvalidIDError("not-a-valid-id".to_string()))
    );
    assert_eq!(
        book_filter(HEX),
        Ok(Document { fields: vec![field("_id", Value::ObjectId(RecordId { bytes: id_bytes() }))] })
    );
    assert_eq!(delete_book("nope"), Err(Error::InvalidIDError("nope".to_string())));
    assert_eq!(delete_book(HEX), book_filter(HEX));
}

#[test]
fn fetch_book_outcomes() {
    assert_eq!(fetch_book(HEX, Ok(None)), Err(Error::NoEntryFoundError(HEX.to_string())));
    assert_eq!(
        fetch_book(HEX, Err(Error::MongoQueryError("down".to_string()))),
        Err(Error::MongoQueryError("down".to_string()))
    );
    assert_eq!(fetch_book(HEX, Ok(Some(book_doc(12)))).unwrap().num_pages, 12);
}

#[test]
fn fetch_books_keeps_order_and_stops_at_first_bad_document() {
    let books = fetch_books(&vec![book_doc(1), book_doc(2), book_doc(3)]).unwrap();
    let pages: Vec<i32> = books.iter().map(|b| b.num_pages).collect();
    assert_eq!(pages, vec![1, 2, 3]);
    assert_eq!(fetch_books(&vec![]), Ok(vec![]));
    let mut bad = book_doc(2);
    bad.fields.remove(1);
    assert_eq!(
        fetch_books(&vec![book_doc(1), bad, book_doc(-3)]),
        Err(Error::MongoDataError("name".to_string()))
    );
}

#[test]
fn new_book_document_fields() {
    let d = new_book_document(&siddhartha(), 42).unwrap();
    assert_eq!(
        d,
        Document {
            fields: vec![
                text_field("name", "Siddhartha"),
                text_field("author", "Hermann Hesse"),
                text_field("language", "DE"),
                field("num_pages", Value::Int32(200)),
                field("added_at", Value::DateTime(42)),
            ],
        }
    );
    let mut negative = siddhartha();
    negative.pages = -5;
    assert_eq!(new_book_document(&negative, 42), Err(Error::MalformedRequestBody));
    assert_eq!(create_book(&negative), Err(Error::MalformedRequestBody));
}

#[test]
fn create_book_stamps_current_time() {
    let d = create_book(&siddhartha()).unwrap();
    assert_eq!(d.fields.len(), 5);
    match d.fields[4].1 {
        Value::DateTime(t) => assert!(t > 1_600_000_000_000),
        _ => panic!("added_at is not a timestamp"),
    }
    assert_eq!(d.get_str("name"), Ok(&"Siddhartha".to_string()));
}

#[test]
fn created_book_is_listed_after_storing() {
    let mut stored = create_book(&siddhartha()).unwrap();
    stored.fields.insert(0, field("_id", Value::ObjectId(RecordId { bytes: id_bytes() })));
    let listed = fetch_books(&vec![stored]).unwrap();
    assert_eq!(listed.len(), 1);
    assert_eq!(listed[0].name, "Siddhartha");
    assert_eq!(listed[0].author, "Hermann Hesse");
    assert_eq!(listed[0].language, "DE");
    assert_eq!(listed[0].num_pages, 200);
    assert_eq!(listed[0].id, HEX);
}

#[test]
fn edit_book_checks_id_then_pages() {
    let edited = EditedBook {
        name: "Demian".to_string(),
        author: "Hermann Hesse".to_string(),
        language: "DE".to_string(),
        pages: -1,
    };
    assert_eq!(
        edited_book_document("bad", &edited, 7),
        Err(Error::InvalidIDError("bad".to_string()))
    );
    assert_eq!(edited_book_document(HEX, &edited, 7), Err(Error::MalformedRequestBody));
    assert_eq!(edit_book(HEX, &edited), Err(Error::MalformedRequestBody));
    let ok = EditedBook { pages: 180, ..edited };
    let (filter, update) = edited_book_document(HEX, &ok, 7).unwrap();
    assert_eq!(filter, book_filter(HEX).unwrap());
    assert_eq!(update.get_i32("num_pages"), Ok(180));
    assert_eq!(update.get_datetime("added_at"), Ok(7));
    assert_eq!(update.get_str("name"), Ok(&"Demian".to_string()));
    assert!(edit_book(HEX, &ok).is_ok());
    assert_eq!(edit_book("bad", &ok), Err(Error::InvalidIDError("bad".to_string())));
}

#[test]
fn session_document_and_lookup() {
    assert_eq!(session_document("bad", "tok"), Err(Error::CreateSessionError));
    let d = session_document(HEX, "tok").unwrap();
    assert_eq!(
        d,
        Document {
            fields: vec![
                text_field("session_id", "tok"),
                field("user_id", Value::ObjectId(RecordId { bytes: id_bytes() })),
            ],
        }
    );
    assert_eq!(session_filter("tok"), Document { fields: vec![text_field("session_id", "tok")] });
    let mut stored = d.clone();
    stored.fields.insert(0, field("_id", Value::ObjectId(RecordId { bytes: [1; 12] })));
    let s = find_session("tok", Ok(Some(stored.clone()))).unwrap();
    assert_eq!(s.session_id, "tok");
    assert_eq!(s.user_id, HEX);
    assert_eq!(s.id, "010101010101010101010101");
    assert_eq!(doc_to_session(&stored), Ok(s));
    assert_eq!(find_session("tok", Ok(None)), Err(Error::NoEntryFoundError("tok".to_string())));
    assert_eq!(doc_to_session(&d), Err(Error::MongoDataError("_id".to_string())));
}

#[test]
fn create_session_issues_fresh_tokens() {
    let (t1, d1) = create_session(HEX).unwrap();
    let (t2, _) = create_session(HEX).unwrap();
    assert_eq!(t1.len(), 36);
    assert_ne!(t1, t2);
    assert_eq!(d1, session_document(HEX, &t1).unwrap());
    assert_eq!(create_session("x"), Err(Error::CreateSessionError));
}

#[test]
fn deleting_a_session_twice_succeeds() {
    assert_eq!(delete_session(Ok(1)), Ok(()));
    assert_eq!(delete_session(Ok(0)), Ok(()));
    assert_eq!(
        delete_session(Err(Error::MongoQueryError("down".to_string()))),
        Err(Error::MongoQueryError("down".to_string()))
    );
}

#[test]
fn user_lookup() {
    let d = Document {
        fields: vec![
            field("_id", Value::ObjectId(RecordId { bytes: id_bytes() })),
            text_field("email", "a@b.c"),
            text_field("password", "hash"),
        ],
    };
    let u = fetch_user("a@b.c", Ok(Some(d.clone()))).unwrap();
    assert_eq!(u.id, HEX);
    assert_eq!(u.email, "a@b.c");
    assert_eq!(u.password, "hash");
    assert_eq!(doc_to_user(&d), Ok(u));
    assert_eq!(fetch_user("x@y.z", Ok(None)), Err(Error::NoEntryFoundError("x@y.z".to_string())));
    assert_eq!(user_filter("a@b.c"), Document { fields: vec![text_field("email", "a@b.c")] });
    let mut no_password = d.clone();
    no_password.fields.pop();
    assert_eq!(doc_to_user(&no_password), Err(Error::MongoDataError("password".to_string())));
}

fn text_field(key: &str, value: &str) -> (String, Value) {
    (key.to_string(), Value::Str(value.to_string()))
}

#[test]
fn edit_outcome_needs_a_matched_book() {
    assert_eq!(edit_outcome(HEX, Ok(1)), Ok(()));
    assert_eq!(edit_outcome(HEX, Ok(0)), Err(Error::NoEntryFoundError(HEX.to_string())));
    assert_eq!(
        edit_outcome(HEX, Err(Error::MongoQueryError("down".to_string()))),
        Err(Error::MongoQueryError("down".to_string()))
    );
}

#[test]
fn session_tokens_are_hyphenated_lower_hex() {
    let (token, _) = create_session(HEX).unwrap();
    for (i, c) in token.chars().enumerate() {
        if i == 8 || i == 13 || i == 18 || i == 23 {
            assert_eq!(c, '-');
        } else {
            assert!(c.is_ascii_digit() || ('a'..='f').contains(&c));
        }
    }
}
