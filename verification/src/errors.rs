//! Two-level error taxonomy and the translation rules between its levels.
//!
//! Storage-level failures (`DBError`) distinguish malformed or unsatisfied
//! identifiers from every other storage fault; request-level failures
//! (`HandlerError`) distinguish caller-correctable input problems from
//! server-side faults. The mapping is total: `InvalidUUID` becomes
//! `BadRequest` carrying the same detail text, `Other` becomes
//! `InternalError` carrying a fixed message that leaks no internal detail.

use vstd::prelude::*;

verus! {

/// A storage-level failure, as classified by the data-access layer.
#[derive(Debug)]
pub enum DBError {
    /// The identifier is malformed, or a referenced entity does not exist.
    InvalidUUID(String),
    /// Any other storage failure; the text is kept for diagnostics only.
    Other(String),
}

/// A request-level failure, as reported to the transport layer.
#[derive(Debug)]
pub enum HandlerError {
    /// The caller sent something it can correct.
    BadRequest(String),
    /// A server-side fault; the message carries no internal detail.
    InternalError(String),
}

/// The fixed text shown to callers for every server-side fault.
pub open spec fn internal_error_text() -> Seq<char> {
    "internal server error"@
}

/// Builds the fixed server-fault message.
pub fn internal_error_message() -> (m: String)
    ensures
        m@ == internal_error_text(),
{
    "internal server error".to_owned()
}

/// Translates a storage-level failure into a request-level one.
///
/// The mapping is exhaustive: a malformed or unsatisfied identifier becomes
/// a caller-correctable failure with the same detail text, and every other
/// storage fault becomes an opaque server fault.
pub fn handler_error_of(e: DBError) -> (r: HandlerError)
    ensures
        (e matches DBError::InvalidUUID(d) ==> (r matches HandlerError::BadRequest(m) && m@
            == d@)),
        (e matches DBError::Other(_) ==> (r matches HandlerError::InternalError(m) && m@
            == internal_error_text())),
{
    match e {
        DBError::InvalidUUID(d) => HandlerError::BadRequest(d),
        DBError::Other(_) => HandlerError::InternalError(internal_error_message()),
    }
}

/// The HTTP-style status class of each request-level failure.
pub fn status_code_of(h: &HandlerError) -> (c: u16)
    ensures
        h is BadRequest ==> c == 400,
        h is InternalError ==> c == 500,
{
    match h {
        HandlerError::BadRequest(_) => 400,
        HandlerError::InternalError(_) => 500,
    }
}

/// The structured code a relational store reports for a rejected write whose
/// referenced row does not exist.
pub open spec fn fk_violation_code() -> Seq<char> {
    "23503"@
}

/// The referential-integrity violation code, as an owned value.
pub fn foreign_key_violation_code() -> (c: String)
    ensures
        c@ == fk_violation_code(),
{
    "23503".to_owned()
}

/// Classifies a storage driver failure from its structured code.
///
/// A reported referential-integrity violation is reclassified as an invalid
/// reference, indistinguishable from a malformed identifier; every other
/// failure stays opaque.
pub fn classify_db_error(code: Option<String>, detail: String) -> (r: DBError)
    ensures
        (code matches Some(c) && c@ == fk_violation_code() ==> (r matches DBError::InvalidUUID(
            d,
        ) && d@ == detail@)),
        (code matches Some(c) && c@ != fk_violation_code() ==> (r matches DBError::Other(d) && d@
            == detail@)),
        (code is None ==> (r matches DBError::Other(d) && d@ == detail@)),
{
    match code {
        Some(c) => {
            let fk = foreign_key_violation_code();
            if c == fk {
                DBError::InvalidUUID(detail)
            } else {
                DBError::Other(detail)
            }
        },
        None => DBError::Other(detail),
    }
}

} // verus!
