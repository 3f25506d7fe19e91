//! A checked access layer over a native PDF engine's C interface: typed wrappers for
//! documents, pages, links, actions, destinations, annotations and forms, each tied
//! to the lifetime of what it was derived from, with every failure signal of the
//! engine turned into a structured error.
#![allow(non_camel_case_types)]
#![allow(non_snake_case)]

pub mod action_local_destination;
pub mod bindgen;
pub mod bindings;
pub mod document;
pub mod error;
pub mod form;
pub mod page_annotation_highlight;

pub use action_local_destination::{
    PdfAction, PdfActionLocalDestination, PdfActionType, PdfDestination,
};
pub use bindings::{get_pdfium_last_error, PdfiumLibraryBindings, FPDF_LINK};
pub use document::{PdfDocument, PdfLink, PdfPage, PdfPageLinks, PdfPages, Pdfium};
pub use error::{PdfiumError, PdfiumInternalError};
pub use form::{PdfForm, PdfFormFieldType, PdfFormType};
pub use page_annotation_highlight::{PdfPageAnnotationObjects, PdfPageHighlightAnnotation};
