//! Book catalogue with session-based authentication: identifiers, document
//! mapping, credential checks, sessions, request routing and error replies.
//!
//! The store, the views and the transport are driven by the caller: the
//! functions here build the documents and filters to send, and decide from
//! what comes back.
//!
//! Known gaps, kept on purpose: the session token travels unencrypted in its
//! cookie, forms carry no CSRF token, and any admitted session may edit or
//! delete any book.

pub mod auth;
pub mod books;
pub mod document;
pub mod error;
pub mod ids;
pub mod routes;
pub mod session;
pub mod user;
