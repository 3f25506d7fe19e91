//! Highlight annotations, and the page objects an annotation holds.

use vstd::prelude::*;

use crate::bindgen::{FPDF_ANNOTATION, FPDF_DOCUMENT, FPDF_PAGE};
use crate::bindings::PdfiumLibraryBindings;
use crate::document::PdfDocument;

verus! {

/// The page objects held inside one annotation. It carries every ancestor handle,
/// since the engine needs the document and the page as well as the annotation.
pub struct PdfPageAnnotationObjects<'a, B: PdfiumLibraryBindings> {
    document: FPDF_DOCUMENT,
    page: FPDF_PAGE,
    annotation: FPDF_ANNOTATION,
    bindings: &'a B,
}

/// The object count that a raw engine answer stands for: a negative answer counts none.
pub open spec fn object_count_spec(raw: i32) -> u32 {
    if raw < 0 {
        0
    } else {
        raw as u32
    }
}

/// Reads a raw object count.
pub fn object_count_from(raw: i32) -> (r: u32)
    ensures
        r == object_count_spec(raw),
{
    if raw < 0 {
        0
    } else {
        raw as u32
    }
}

impl<'a, B: PdfiumLibraryBindings> PdfPageAnnotationObjects<'a, B> {
    /// The document the annotation lies in.
    pub closed spec fn spec_document(&self) -> FPDF_DOCUMENT {
        self.document
    }

    /// The page the annotation lies on.
    pub closed spec fn spec_page(&self) -> FPDF_PAGE {
        self.page
    }

    /// The annotation that holds the objects.
    pub closed spec fn spec_annotation(&self) -> FPDF_ANNOTATION {
        self.annotation
    }

    /// The engine bindings this wrapper reaches the engine through.
    pub closed spec fn spec_bindings(&self) -> B {
        *self.bindings
    }

    /// Wraps the objects of an annotation.
    pub(crate) fn from_pdfium(
        document: FPDF_DOCUMENT,
        page: FPDF_PAGE,
        annotation: FPDF_ANNOTATION,
        bindings: &'a B,
    ) -> (r: Self)
        ensures
            r.spec_document() == document,
            r.spec_page() == page,
            r.spec_annotation() == annotation,
            r.spec_bindings() == *bindings,
    {
        PdfPageAnnotationObjects { document, page, annotation, bindings }
    }

    /// The number of objects in the annotation; a failed count counts none.
    pub fn len(&self) -> u32 {
        object_count_from(self.bindings.FPDFAnnot_GetObjectCount(self.annotation))
    }
}

/// A user annotation of type highlight.
pub struct PdfPageHighlightAnnotation<'a, B: PdfiumLibraryBindings> {
    handle: FPDF_ANNOTATION,
    bindings: &'a B,
    objects: PdfPageAnnotationObjects<'a, B>,
}

impl<'a, B: PdfiumLibraryBindings> PdfPageHighlightAnnotation<'a, B> {
    /// The native annotation handle.
    pub closed spec fn spec_handle(&self) -> FPDF_ANNOTATION {
        self.handle
    }

    /// The objects held by the annotation.
    pub closed spec fn spec_objects(&self) -> PdfPageAnnotationObjects<'a, B> {
        self.objects
    }

    /// The engine bindings this wrapper reaches the engine through.
    pub closed spec fn spec_bindings(&self) -> B {
        *self.bindings
    }

    /// Wraps a highlight annotation on a page of a document; its objects carry the
    /// document, page and annotation handles.
    pub fn from_pdfium(
        annotation_handle: FPDF_ANNOTATION,
        page_handle: FPDF_PAGE,
        document: &'a PdfDocument<'a, B>,
    ) -> (r: Self)
        ensures
            r.spec_handle() == annotation_handle,
            r.spec_objects().spec_annotation() == annotation_handle,
            r.spec_objects().spec_page() == page_handle,
            r.spec_objects().spec_document() == document.spec_handle(),
            r.spec_bindings() == document.spec_bindings(),
            r.spec_objects().spec_bindings() == document.spec_bindings(),
    {
        PdfPageHighlightAnnotation {
            handle: annotation_handle,
            bindings: document.bindings(),
            objects: PdfPageAnnotationObjects::from_pdfium(
                *document.handle(),
                page_handle,
                annotation_handle,
                document.bindings(),
            ),
        }
    }

    /// The native annotation handle.
    pub fn handle(&self) -> (r: &FPDF_ANNOTATION)
        ensures
            *r == self.spec_handle(),
    {
        &self.handle
    }

    /// The engine bindings this annotation was reached through.
    pub fn bindings(&self) -> (r: &'a B)
        ensures
            *r == self.spec_bindings(),
    {
        self.bindings
    }

    /// The objects held by this annotation.
    pub fn objects(&self) -> (r: &PdfPageAnnotationObjects<'a, B>)
        ensures
            *r == self.spec_objects(),
    {
        &self.objects
    }

    /// The objects held by this annotation, for change.
    pub fn objects_mut(&mut self) -> (r: &mut PdfPageAnnotationObjects<'a, B>)
        ensures
            *r == old(self).spec_objects(),
            final(self).spec_handle() == old(self).spec_handle(),
            final(self).spec_bindings() == old(self).spec_bindings(),
    {
        &mut self.objects
    }
}

} // verus!
