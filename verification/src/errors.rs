use vstd::prelude::*;

verus! {

/// Failure reported by the external data library itself: a nonzero result
/// code together with the message text that accompanies it.
#[derive(Debug)]
pub struct CgnsLibraryError {
    pub ier: i32,
    pub message: String,
}

/// The kinds of recoverable failure this layer distinguishes.
#[derive(Clone, Copy, Debug, PartialEq, Eq, Structural)]
pub enum CgnsErrorKind {
    /// An external call returned a nonzero result code.
    Library,
    /// Text could not be converted, e.g. it holds an embedded nul.
    ConversionError,
    /// An external call succeeded but returned a value outside the known set.
    InvalidLibraryResult,
    /// A sibling index fell outside `[1, child_count]`.
    OutOfBounds,
    /// A path resolved to no node.
    NodeNotFound,
    /// Any other failure.
    Other,
}

/// A recoverable error returned to callers: its kind, plus the underlying
/// library report when the kind is `Library`.
#[derive(Debug)]
pub struct CgnsError {
    pub kind: CgnsErrorKind,
    pub cause: Option<CgnsLibraryError>,
}

impl CgnsError {
    /// An external call failed with code `ier` and message text `message`.
    pub fn library(ier: i32, message: String) -> (r: Self)
        ensures
            r.kind == CgnsErrorKind::Library,
            r.cause matches Some(c) && c.ier == ier && c.message == message,
    {
        Self { kind: CgnsErrorKind::Library, cause: Some(CgnsLibraryError { ier, message }) }
    }

    /// A sibling index fell outside the valid range.
    pub fn out_of_bounds() -> (r: Self)
        ensures
            r.kind == CgnsErrorKind::OutOfBounds,
            r.cause is None,
    {
        Self { kind: CgnsErrorKind::OutOfBounds, cause: None }
    }

    /// An external call returned a value outside the known set.
    pub fn invalid_lib_result() -> (r: Self)
        ensures
            r.kind == CgnsErrorKind::InvalidLibraryResult,
            r.cause is None,
    {
        Self { kind: CgnsErrorKind::InvalidLibraryResult, cause: None }
    }

    /// A path resolved to no node.
    pub fn node_not_found() -> (r: Self)
        ensures
            r.kind == CgnsErrorKind::NodeNotFound,
            r.cause is None,
    {
        Self { kind: CgnsErrorKind::NodeNotFound, cause: None }
    }

    /// Text could not be converted to the form the external library takes.
    pub fn conversion_error() -> (r: Self)
        ensures
            r.kind == CgnsErrorKind::ConversionError,
            r.cause is None,
    {
        Self { kind: CgnsErrorKind::ConversionError, cause: None }
    }
}

pub type CgnsResult<T> = Result<T, CgnsError>;

/// Turns a result code of the external library into a typed result, given
/// the message text fetched for it: zero is success, anything else carries
/// the code and the message.
pub fn to_cgns_result(ier: i32, message: String) -> (r: CgnsResult<()>)
    ensures
        r is Ok <==> ier == 0,
        ier != 0 ==> (r matches Err(e) && e.kind == CgnsErrorKind::Library
            && (e.cause matches Some(c) && c.ier == ier && c.message == message)),
{
    if ier != 0 {
        Err(CgnsError::library(ier, message))
    } else {
        Ok(())
    }
}

/// Turns a result code of the low-level I/O layer into a typed result,
/// given the message text fetched for its code; the classification is the
/// same as for the main library's codes.
pub fn to_cgio_result(ier: i32, message: String) -> (r: CgnsResult<()>)
    ensures
        r is Ok <==> ier == 0,
        ier != 0 ==> (r matches Err(e) && e.kind == CgnsErrorKind::Library
            && (e.cause matches Some(c) && c.ier == ier && c.message == message)),
{
    to_cgns_result(ier, message)
}

} // verus!
