//! The engine's call surface: one operation per native entry point.

use vstd::prelude::*;

use crate::bindgen::{
    FPDF_ACTION, FPDF_ANNOTATION, FPDF_DEST, FPDF_DOCUMENT, FPDF_FORMFILLINFO, FPDF_FORMHANDLE,
    FPDF_HANDLE, FPDF_PAGE,
};
use crate::error::{last_error_from_code, PdfiumInternalError};

verus! {

/// A link annotation's native handle.
pub type FPDF_LINK = FPDF_HANDLE;

/// The operations of the native engine. Each is a direct passthrough: it reports
/// failure only the way the engine does (a null handle, a negative count, a
/// `false` flag) and leaves the interpretation to the caller. Implementations differ
/// only in how they reach the engine (a loaded library, a static link, a sandbox).
pub trait PdfiumLibraryBindings {
    /// The code of the last error that the engine recorded on this thread.
    fn FPDF_GetLastError(&self) -> u32;

    /// Opens the document stored at a path, with an optional password.
    fn FPDF_LoadDocument(&self, path: &str, password: Option<&str>) -> FPDF_DOCUMENT;

    /// Opens a document from bytes held in memory, with an optional password. The
    /// engine reads from the bytes for as long as the document stays open.
    fn FPDF_LoadMemDocument(&self, bytes: &[u8], password: Option<&str>) -> FPDF_DOCUMENT;

    /// Closes a document that `FPDF_LoadMemDocument` opened.
    fn FPDF_CloseDocument(&self, document: FPDF_DOCUMENT)
    ;

    /// The number of pages of a document.
    fn FPDF_GetPageCount(&self, document: FPDF_DOCUMENT) -> i32;

    /// Loads the page at a zero-based index.
    fn FPDF_LoadPage(&self, document: FPDF_DOCUMENT, index: i32) -> FPDF_PAGE;

    /// Releases a page that `FPDF_LoadPage` loaded.
    fn FPDF_ClosePage(&self, page: FPDF_PAGE)
    ;

    /// Steps through the links of a page: from position `*start_pos`, writes the next
    /// link into `*link`, advances `*start_pos`, and returns `false` when none is left.
    fn FPDFLink_Enumerate(&self, page: FPDF_PAGE, start_pos: &mut i32, link: &mut FPDF_LINK) -> bool;

    /// The action of a link, or the null handle when it has none.
    fn FPDFLink_GetAction(&self, link: FPDF_LINK) -> FPDF_ACTION;

    /// The type code of an action.
    fn FPDFAction_GetType(&self, action: FPDF_ACTION) -> u32;

    /// The destination of a go-to action within the same document.
    fn FPDFAction_GetDest(&self, document: FPDF_DOCUMENT, action: FPDF_ACTION) -> FPDF_DEST;

    /// The zero-based page index that a destination points to, or a negative value.
    fn FPDFDest_GetDestPageIndex(&self, document: FPDF_DOCUMENT, dest: FPDF_DEST) -> i32;

    /// The number of page objects inside an annotation.
    fn FPDFAnnot_GetObjectCount(&self, annotation: FPDF_ANNOTATION) -> i32;

    /// Starts the form-fill environment of a document, configured by `form_info`.
    /// The engine keeps the address of the native configuration block until
    /// `FPDFDOC_ExitFormFillEnvironment`: an implementation that builds the native
    /// block from `form_info` must keep that block alive and unmoved until then.
    fn FPDFDOC_InitFormFillEnvironment(
        &self,
        document: FPDF_DOCUMENT,
        form_info: &mut FPDF_FORMFILLINFO,
    ) -> FPDF_FORMHANDLE;

    /// Tears down a form-fill environment.
    fn FPDFDOC_ExitFormFillEnvironment(&self, form: FPDF_FORMHANDLE)
    ;

    /// The form type code of a document.
    fn FPDF_GetFormType(&self, document: FPDF_DOCUMENT) -> i32;
}

/// Queries the engine's last error and decodes it; `None` when the engine recorded none.
pub fn get_pdfium_last_error<B: PdfiumLibraryBindings>(bindings: &B) -> (r: Option<
    PdfiumInternalError,
>)
{
    last_error_from_code(bindings.FPDF_GetLastError())
}

} // verus!
