//! Actions attached to links, go-to actions within the same document, and their
//! destinations.

use vstd::prelude::*;

use crate::bindgen::{
    FPDF_ACTION, FPDF_DEST, FPDF_DOCUMENT, NULL_HANDLE, PDFACTION_EMBEDDEDGOTO, PDFACTION_GOTO,
    PDFACTION_LAUNCH, PDFACTION_REMOTEGOTO, PDFACTION_URI,
};
use crate::bindings::{get_pdfium_last_error, PdfiumLibraryBindings};
use crate::error::{classify_handle, failure_from, failure_of, PdfiumError, PdfiumInternalError};

verus! {

/// The kind of an action.
#[derive(Clone, Copy, Debug, PartialEq, Eq, Structural)]
pub enum PdfActionType {
    Unsupported,
    GoToDestinationInSameDocument,
    GoToDestinationInRemoteDocument,
    Uri,
    Launch,
    GoToDestinationInEmbeddedDocument,
}

/// The action type that a native code stands for; codes the engine does not support
/// name the unsupported type.
pub open spec fn action_type_of_code(code: u32) -> PdfActionType {
    if code == PDFACTION_GOTO {
        PdfActionType::GoToDestinationInSameDocument
    } else if code == PDFACTION_REMOTEGOTO {
        PdfActionType::GoToDestinationInRemoteDocument
    } else if code == PDFACTION_URI {
        PdfActionType::Uri
    } else if code == PDFACTION_LAUNCH {
        PdfActionType::Launch
    } else if code == PDFACTION_EMBEDDEDGOTO {
        PdfActionType::GoToDestinationInEmbeddedDocument
    } else {
        PdfActionType::Unsupported
    }
}

impl PdfActionType {
    /// Decodes a native action type code.
    pub fn from_pdfium(code: u32) -> (r: PdfActionType)
        ensures
            r == action_type_of_code(code),
    {
        if code == PDFACTION_GOTO {
            PdfActionType::GoToDestinationInSameDocument
        } else if code == PDFACTION_REMOTEGOTO {
            PdfActionType::GoToDestinationInRemoteDocument
        } else if code == PDFACTION_URI {
            PdfActionType::Uri
        } else if code == PDFACTION_LAUNCH {
            PdfActionType::Launch
        } else if code == PDFACTION_EMBEDDEDGOTO {
            PdfActionType::GoToDestinationInEmbeddedDocument
        } else {
            PdfActionType::Unsupported
        }
    }
}

/// The outcome of asking for a destination's page index, given the engine's raw
/// answer and its last error: a negative answer is a failure.
pub open spec fn page_index_outcome_spec(raw: i32, last_error: Option<PdfiumInternalError>) -> Result<u32, PdfiumError> {
    if raw < 0 {
        Err(failure_of(last_error))
    } else {
        Ok(raw as u32)
    }
}

/// Classifies the engine's answer to a page index query.
pub fn page_index_outcome(raw: i32, last_error: Option<PdfiumInternalError>) -> (r: Result<u32, PdfiumError>)
    ensures
        r == page_index_outcome_spec(raw, last_error),
{
    if raw < 0 {
        Err(failure_from(last_error))
    } else {
        Ok(raw as u32)
    }
}

/// The target of a go-to action: a place inside the document.
pub struct PdfDestination<'a, B: PdfiumLibraryBindings> {
    handle: FPDF_DEST,
    document: FPDF_DOCUMENT,
    bindings: &'a B,
}

impl<'a, B: PdfiumLibraryBindings> PdfDestination<'a, B> {
    /// The native destination handle.
    pub closed spec fn spec_handle(&self) -> FPDF_DEST {
        self.handle
    }

    /// The document the destination lies in.
    pub closed spec fn spec_document(&self) -> FPDF_DOCUMENT {
        self.document
    }

    /// The engine bindings this wrapper reaches the engine through.
    pub closed spec fn spec_bindings(&self) -> B {
        *self.bindings
    }

    /// Wraps a destination handle of the given document.
    pub(crate) fn from_pdfium(handle: FPDF_DEST, document: FPDF_DOCUMENT, bindings: &'a B) -> (r: Self)
        ensures
            r.spec_handle() == handle,
            r.spec_document() == document,
            r.spec_bindings() == *bindings,
    {
        PdfDestination { handle, document, bindings }
    }

    /// The native destination handle.
    pub fn handle(&self) -> (r: &FPDF_DEST)
        ensures
            *r == self.spec_handle(),
    {
        &self.handle
    }

    /// The zero-based index of the page this destination points to.
    pub fn page_index(&self) -> (r: Result<u32, PdfiumError>)
        ensures
            r is Err ==> r->Err_0 is PdfiumLibraryInternalError,
    {
        let raw = self.bindings.FPDFDest_GetDestPageIndex(self.document, self.handle);
        let last_error = if raw < 0 {
            get_pdfium_last_error(self.bindings)
        } else {
            None
        };
        page_index_outcome(raw, last_error)
    }
}

/// An action of type `GoToDestinationInSameDocument`.
pub struct PdfActionLocalDestination<'a, B: PdfiumLibraryBindings> {
    handle: FPDF_ACTION,
    document: FPDF_DOCUMENT,
    bindings: &'a B,
}

impl<'a, B: PdfiumLibraryBindings> PdfActionLocalDestination<'a, B> {
    /// The native action handle.
    pub closed spec fn spec_handle(&self) -> FPDF_ACTION {
        self.handle
    }

    /// The document the action belongs to.
    pub closed spec fn spec_document(&self) -> FPDF_DOCUMENT {
        self.document
    }

    /// The engine bindings this wrapper reaches the engine through.
    pub closed spec fn spec_bindings(&self) -> B {
        *self.bindings
    }

    /// Wraps an action handle of the given document.
    pub(crate) fn from_pdfium(handle: FPDF_ACTION, document: FPDF_DOCUMENT, bindings: &'a B) -> (r: Self)
        ensures
            r.spec_handle() == handle,
            r.spec_document() == document,
            r.spec_bindings() == *bindings,
    {
        PdfActionLocalDestination { handle, document, bindings }
    }

    /// The target destination of this action. A null answer from the engine is an
    /// error carrying the cause the engine reports, or `Unknown` when it reports none.
    pub fn destination(&self) -> (r: Result<PdfDestination<'a, B>, PdfiumError>)
        ensures
            r matches Ok(d) ==> {
                &&& d.spec_document() == self.spec_document()
                &&& d.spec_handle() != NULL_HANDLE
                &&& d.spec_bindings() == self.spec_bindings()
            },
            r is Err ==> r->Err_0 is PdfiumLibraryInternalError,
    {
        let handle = self.bindings.FPDFAction_GetDest(self.document, self.handle);
        let last_error = if handle == NULL_HANDLE {
            get_pdfium_last_error(self.bindings)
        } else {
            None
        };
        match classify_handle(handle, last_error) {
            Ok(h) => Ok(PdfDestination::from_pdfium(h, self.document, self.bindings)),
            Err(e) => Err(e),
        }
    }

    /// The native action handle.
    pub fn handle(&self) -> (r: &FPDF_ACTION)
        ensures
            *r == self.spec_handle(),
    {
        &self.handle
    }

    /// The engine bindings this action was reached through.
    pub fn bindings(&self) -> (r: &'a B)
        ensures
            *r == self.spec_bindings(),
    {
        self.bindings
    }
}

/// An action attached to a link.
pub struct PdfAction<'a, B: PdfiumLibraryBindings> {
    handle: FPDF_ACTION,
    document: FPDF_DOCUMENT,
    action_type: PdfActionType,
    bindings: &'a B,
}

impl<'a, B: PdfiumLibraryBindings> PdfAction<'a, B> {
    /// The native action handle.
    pub closed spec fn spec_handle(&self) -> FPDF_ACTION {
        self.handle
    }

    /// The document the action belongs to.
    pub closed spec fn spec_document(&self) -> FPDF_DOCUMENT {
        self.document
    }

    /// The engine bindings this wrapper reaches the engine through.
    pub closed spec fn spec_bindings(&self) -> B {
        *self.bindings
    }

    /// The kind of the action.
    pub closed spec fn spec_action_type(&self) -> PdfActionType {
        self.action_type
    }

    /// Wraps an action handle of the given document, reading its kind from the engine.
    pub(crate) fn from_pdfium(handle: FPDF_ACTION, document: FPDF_DOCUMENT, bindings: &'a B) -> (r: Self)
        ensures
            r.spec_handle() == handle,
            r.spec_document() == document,
            r.spec_bindings() == *bindings,
    {
        let action_type = PdfActionType::from_pdfium(bindings.FPDFAction_GetType(handle));
        PdfAction { handle, document, action_type, bindings }
    }

    /// The kind of this action.
    pub fn action_type(&self) -> (r: PdfActionType)
        ensures
            r == self.spec_action_type(),
    {
        self.action_type
    }

    /// This action as a go-to action within the same document, if it is one.
    pub fn as_local_destination_action(&self) -> (r: Option<PdfActionLocalDestination<'a, B>>)
        ensures
            r is Some <==> self.spec_action_type() == PdfActionType::GoToDestinationInSameDocument,
            r matches Some(a) ==> {
                &&& a.spec_handle() == self.spec_handle()
                &&& a.spec_document() == self.spec_document()
                &&& a.spec_bindings() == self.spec_bindings()
            },
    {
        if self.action_type == PdfActionType::GoToDestinationInSameDocument {
            Some(PdfActionLocalDestination::from_pdfium(self.handle, self.document, self.bindings))
        } else {
            None
        }
    }
}

} // verus!
