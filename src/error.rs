//! The structured error type, and the classification of the engine's failure signals.

use vstd::prelude::*;

use crate::bindgen::{
    FPDF_ERR_FILE, FPDF_ERR_FORMAT, FPDF_ERR_PAGE, FPDF_ERR_PASSWORD, FPDF_ERR_SECURITY,
    FPDF_ERR_SUCCESS, FPDF_HANDLE, NULL_HANDLE,
};

verus! {

/// A failure cause reported by the engine's last-error query.
#[derive(Clone, Copy, Debug, PartialEq, Eq, Structural)]
pub enum PdfiumInternalError {
    Unknown,
    FileError,
    FormatError,
    PasswordError,
    SecurityError,
    PageError,
}

/// Errors surfaced by this library.
#[derive(Clone, Copy, Debug, PartialEq, Eq, Structural)]
pub enum PdfiumError {
    /// A native call failed; the cause is what the last-error query reported, or
    /// `Unknown` when the query reported no error at all.
    PdfiumLibraryInternalError(PdfiumInternalError),
    /// The engine reported a form type code that is not a known form type.
    UnknownFormType,
    /// The engine reported a form field type code that is not a known field type.
    UnknownFormFieldType,
    /// An index lies outside the collection it was used on.
    IndexOutOfBounds,
}

/// The cause that a last-error code stands for; `None` for success.
pub open spec fn error_of_code(code: u32) -> Option<PdfiumInternalError> {
    if code == FPDF_ERR_SUCCESS {
        None
    } else if code == FPDF_ERR_FILE {
        Some(PdfiumInternalError::FileError)
    } else if code == FPDF_ERR_FORMAT {
        Some(PdfiumInternalError::FormatError)
    } else if code == FPDF_ERR_PASSWORD {
        Some(PdfiumInternalError::PasswordError)
    } else if code == FPDF_ERR_SECURITY {
        Some(PdfiumInternalError::SecurityError)
    } else if code == FPDF_ERR_PAGE {
        Some(PdfiumInternalError::PageError)
    } else {
        Some(PdfiumInternalError::Unknown)
    }
}

/// Decodes a code of the engine's last-error query. Codes that name no known cause
/// decode to `Unknown`: a failure is never read as success.
pub fn last_error_from_code(code: u32) -> (r: Option<PdfiumInternalError>)
    ensures
        r == error_of_code(code),
{
    if code == FPDF_ERR_SUCCESS {
        None
    } else if code == FPDF_ERR_FILE {
        Some(PdfiumInternalError::FileError)
    } else if code == FPDF_ERR_FORMAT {
        Some(PdfiumInternalError::FormatError)
    } else if code == FPDF_ERR_PASSWORD {
        Some(PdfiumInternalError::PasswordError)
    } else if code == FPDF_ERR_SECURITY {
        Some(PdfiumInternalError::SecurityError)
    } else if code == FPDF_ERR_PAGE {
        Some(PdfiumInternalError::PageError)
    } else {
        Some(PdfiumInternalError::Unknown)
    }
}

/// The error for a failed native call, given what the last-error query reported.
pub open spec fn failure_of(last_error: Option<PdfiumInternalError>) -> PdfiumError {
    match last_error {
        Some(cause) => PdfiumError::PdfiumLibraryInternalError(cause),
        None => PdfiumError::PdfiumLibraryInternalError(PdfiumInternalError::Unknown),
    }
}

/// The classified outcome of a native call that returns a handle.
pub open spec fn classify_handle_spec(
    handle: FPDF_HANDLE,
    last_error: Option<PdfiumInternalError>,
) -> Result<FPDF_HANDLE, PdfiumError> {
    if handle == NULL_HANDLE {
        Err(failure_of(last_error))
    } else {
        Ok(handle)
    }
}

/// Turns a failed native call into an error, preferring the reported cause over `Unknown`.
pub fn failure_from(last_error: Option<PdfiumInternalError>) -> (r: PdfiumError)
    ensures
        r == failure_of(last_error),
{
    match last_error {
        Some(cause) => PdfiumError::PdfiumLibraryInternalError(cause),
        None => PdfiumError::PdfiumLibraryInternalError(PdfiumInternalError::Unknown),
    }
}

/// Classifies the handle returned by a native call: a non-null handle is success; a
/// null handle is a failure whose cause is the one the last-error query reported.
pub fn classify_handle(handle: FPDF_HANDLE, last_error: Option<PdfiumInternalError>) -> (r: Result<
    FPDF_HANDLE,
    PdfiumError,
>)
    ensures
        r == classify_handle_spec(handle, last_error),
{
    if handle == NULL_HANDLE {
        Err(failure_from(last_error))
    } else {
        Ok(handle)
    }
}

/// A failed call never yields a value, and its error carries the cause that the
/// engine reported; only when the engine reported none is the cause `Unknown`.
pub proof fn lemma_failure_keeps_reported_cause(last_error: Option<PdfiumInternalError>)
    ensures
        classify_handle_spec(NULL_HANDLE, last_error) is Err,
        last_error matches Some(cause) ==> classify_handle_spec(NULL_HANDLE, last_error)
            == Err::<FPDF_HANDLE, PdfiumError>(PdfiumError::PdfiumLibraryInternalError(cause)),
        last_error is None ==> classify_handle_spec(NULL_HANDLE, last_error)
            == Err::<FPDF_HANDLE, PdfiumError>(
            PdfiumError::PdfiumLibraryInternalError(PdfiumInternalError::Unknown),
        ),
{
}

/// Every error code but success decodes to a cause: a failure is never read as
/// success.
pub proof fn lemma_only_success_code_has_no_cause(code: u32)
    ensures
        error_of_code(code) is None <==> code == FPDF_ERR_SUCCESS,
{
}

} // verus!
