//! The runtime handle, documents, their pages, and the links on a page.

use vstd::prelude::*;

use crate::action_local_destination::PdfAction;
use crate::bindgen::{FPDF_DOCUMENT, FPDF_PAGE, NULL_HANDLE};
use crate::bindings::{get_pdfium_last_error, PdfiumLibraryBindings, FPDF_LINK};
use crate::error::{classify_handle, PdfiumError};
use crate::form::PdfForm;

verus! {

/// The entry point: holds the one binding implementation through which every
/// document, and everything derived from one, reaches the engine.
pub struct Pdfium<B: PdfiumLibraryBindings> {
    bindings: B,
}

impl<B: PdfiumLibraryBindings> Pdfium<B> {
    /// Creates the runtime around a binding implementation chosen by the caller.
    pub fn new(bindings: B) -> (r: Self)
        ensures
            r.spec_bindings() == bindings,
    {
        Pdfium { bindings }
    }

    /// The binding implementation.
    pub closed spec fn spec_bindings(&self) -> B {
        self.bindings
    }

    /// The binding implementation.
    pub fn bindings(&self) -> (r: &B)
        ensures
            *r == self.spec_bindings(),
    {
        &self.bindings
    }

    /// Opens a document from bytes in memory, with an optional password. The bytes
    /// are borrowed for as long as the document may live. A failure yields no
    /// document, only the error: the cause the engine reports, or `Unknown` when it
    /// reports none.
    pub fn load_pdf_from_byte_slice<'a>(&'a self, bytes: &'a [u8], password: Option<&str>) -> (r: Result<
        PdfDocument<'a, B>,
        PdfiumError,
    >)
        ensures
            r matches Ok(d) ==> d.spec_handle() != NULL_HANDLE && d.spec_bindings() == self.spec_bindings(),
            r is Err ==> r->Err_0 is PdfiumLibraryInternalError,
    {
        let handle = self.bindings.FPDF_LoadMemDocument(bytes, password);
        self.document_from(handle)
    }

    /// Opens the document stored at a path, with an optional password; the engine
    /// reads the file. Failures are reported as for `load_pdf_from_byte_slice`.
    pub fn load_pdf_from_file<'a>(&'a self, path: &str, password: Option<&str>) -> (r: Result<
        PdfDocument<'a, B>,
        PdfiumError,
    >)
        ensures
            r matches Ok(d) ==> d.spec_handle() != NULL_HANDLE && d.spec_bindings() == self.spec_bindings(),
            r is Err ==> r->Err_0 is PdfiumLibraryInternalError,
    {
        let handle = self.bindings.FPDF_LoadDocument(path, password);
        self.document_from(handle)
    }

    /// Wraps the handle that an open call returned, or classifies its failure.
    fn document_from<'a>(&'a self, handle: FPDF_DOCUMENT) -> (r: Result<PdfDocument<'a, B>, PdfiumError>)
        ensures
            r matches Ok(d) ==> {
                &&& d.spec_handle() == handle
                &&& handle != NULL_HANDLE
                &&& d.spec_bindings() == self.spec_bindings()
            },
            r is Err <==> handle == NULL_HANDLE,
            r is Err ==> r->Err_0 is PdfiumLibraryInternalError,
    {
        let last_error = if handle == NULL_HANDLE {
            get_pdfium_last_error(&self.bindings)
        } else {
            None
        };
        match classify_handle(handle, last_error) {
            Ok(h) => Ok(PdfDocument { handle: h, bindings: &self.bindings }),
            Err(e) => Err(e),
        }
    }
}

/// An open document. Everything derived from it borrows it, so nothing derived can
/// be used once the document is closed. A document must be released with `close`:
/// one that is merely dropped stays open inside the engine.
pub struct PdfDocument<'a, B: PdfiumLibraryBindings> {
    handle: FPDF_DOCUMENT,
    bindings: &'a B,
}

impl<'a, B: PdfiumLibraryBindings> PdfDocument<'a, B> {
    /// The native document handle.
    pub closed spec fn spec_handle(&self) -> FPDF_DOCUMENT {
        self.handle
    }

    /// The engine bindings this wrapper reaches the engine through.
    pub closed spec fn spec_bindings(&self) -> B {
        *self.bindings
    }

    /// The native document handle.
    pub(crate) fn handle(&self) -> (r: &FPDF_DOCUMENT)
        ensures
            *r == self.spec_handle(),
    {
        &self.handle
    }

    /// The engine bindings this document was opened through.
    pub fn bindings(&self) -> (r: &'a B)
        ensures
            *r == self.spec_bindings(),
    {
        self.bindings
    }

    /// The pages of this document, counted once as the engine reports them.
    pub fn pages<'b>(&'b self) -> (r: PdfPages<'b, B>)
        ensures
            r.spec_document() == self.spec_handle(),
            r.spec_bindings() == self.spec_bindings(),
            r.spec_len() == page_count_spec(r.spec_reported()),
    {
        let raw = self.bindings.FPDF_GetPageCount(self.handle);
        PdfPages { document: self.handle, reported: raw, len: page_count_from(raw), bindings: self.bindings }
    }

    /// Starts the form-fill environment and binds to the embedded form; `Ok(None)`
    /// when the document has no form or an empty one.
    pub fn form<'b>(&'b self) -> (r: Result<Option<PdfForm<'b, B>>, PdfiumError>)
        ensures
            r matches Ok(Some(f)) ==> f.spec_document() == self.spec_handle() && f.spec_bindings()
                == self.spec_bindings(),
            r is Err ==> r == Err::<Option<PdfForm<'b, B>>, PdfiumError>(PdfiumError::UnknownFormType)
                || r->Err_0 is PdfiumLibraryInternalError,
    {
        PdfForm::from_pdfium(self.handle, self.bindings)
    }

    /// Closes the document. Taking the document by value ends every borrow of it, so
    /// the release happens once, after everything derived from it is gone.
    pub fn close(self) {
        self.bindings.FPDF_CloseDocument(self.handle);
    }
}

/// The page count that a raw engine answer stands for: a negative answer counts no
/// pages.
pub open spec fn page_count_spec(raw: i32) -> u32 {
    if raw < 0 {
        0
    } else {
        raw as u32
    }
}

/// Reads a raw page count.
pub fn page_count_from(raw: i32) -> (r: u32)
    ensures
        r == page_count_spec(raw),
{
    if raw < 0 {
        0
    } else {
        raw as u32
    }
}

/// The pages of a document.
pub struct PdfPages<'a, B: PdfiumLibraryBindings> {
    document: FPDF_DOCUMENT,
    reported: i32,
    len: u32,
    bindings: &'a B,
}

impl<'a, B: PdfiumLibraryBindings> PdfPages<'a, B> {
    /// The document the pages belong to.
    pub closed spec fn spec_document(&self) -> FPDF_DOCUMENT {
        self.document
    }

    /// The number of pages.
    pub closed spec fn spec_len(&self) -> u32 {
        self.len
    }

    /// The page count exactly as the engine reported it.
    pub closed spec fn spec_reported(&self) -> i32 {
        self.reported
    }

    /// The count is the one the engine's answer stands for.
    #[verifier::type_invariant]
    closed spec fn inv(&self) -> bool {
        self.len == page_count_spec(self.reported)
    }

    /// The engine bindings this wrapper reaches the engine through.
    pub closed spec fn spec_bindings(&self) -> B {
        *self.bindings
    }

    /// The number of pages.
    pub fn len(&self) -> (r: u32)
        ensures
            r == self.spec_len(),
    {
        self.len
    }

    /// The page count exactly as the engine reported it.
    pub fn reported_count(&self) -> (r: i32)
        ensures
            r == self.spec_reported(),
    {
        self.reported
    }

    /// The page at a zero-based index. An index past the end is `IndexOutOfBounds`;
    /// otherwise a failure is the engine's.
    pub fn get(&self, index: u32) -> (r: Result<PdfPage<'a, B>, PdfiumError>)
        ensures
            index >= self.spec_len() ==> r == Err::<PdfPage<'a, B>, PdfiumError>(PdfiumError::IndexOutOfBounds),
            r matches Ok(p) ==> {
                &&& p.spec_index() == index
                &&& p.spec_document() == self.spec_document()
                &&& p.spec_handle() != NULL_HANDLE
                &&& p.spec_bindings() == self.spec_bindings()
            },
            r is Err && index < self.spec_len() ==> r->Err_0 is PdfiumLibraryInternalError,
    {
        proof {
            use_type_invariant(self);
        }
        if index >= self.len {
            return Err(PdfiumError::IndexOutOfBounds);
        }
        let handle = self.bindings.FPDF_LoadPage(self.document, index as i32);
        let last_error = if handle == NULL_HANDLE {
            get_pdfium_last_error(self.bindings)
        } else {
            None
        };
        match classify_handle(handle, last_error) {
            Ok(h) => Ok(PdfPage { handle: h, document: self.document, index, bindings: self.bindings }),
            Err(e) => Err(e),
        }
    }

    /// Loads every page, in order. On success there is one page for each page the
    /// engine reported, the one at its own index; a document without pages yields an
    /// empty list. If the engine fails to load a page, the pages loaded so far are
    /// released and its error is returned.
    pub fn load_all(&self) -> (r: Result<Vec<PdfPage<'a, B>>, PdfiumError>)
        ensures
            r matches Ok(v) ==> {
                &&& v@.len() == self.spec_len()
                &&& v@.len() == page_count_spec(self.spec_reported())
                &&& forall|i: int| 0 <= i < v@.len() ==> (#[trigger] v@[i]).spec_index() == i
                    && v@[i].spec_document() == self.spec_document()
            },
            self.spec_len() == 0 ==> (r matches Ok(v) && v@.len() == 0),
            r is Err ==> r->Err_0 is PdfiumLibraryInternalError,
    {
        proof {
            use_type_invariant(self);
        }
        let mut pages: Vec<PdfPage<'a, B>> = Vec::new();
        let mut index: u32 = 0;
        while index < self.len
            invariant
                index <= self.len,
                pages@.len() == index,
                forall|i: int| 0 <= i < pages@.len() ==> (#[trigger] pages@[i]).spec_index() == i
                    && pages@[i].spec_document() == self.spec_document(),
            decreases self.len - index,
        {
            match self.get(index) {
                Ok(page) => {
                    pages.push(page);
                },
                Err(e) => {
                    release_pages(pages);
                    return Err(e);
                },
            }
            index = index + 1;
        }
        Ok(pages)
    }
}

/// Closes each page of a list, last first.
fn release_pages<'a, B: PdfiumLibraryBindings>(pages: Vec<PdfPage<'a, B>>) {
    let mut pages = pages;
    while pages.len() > 0
        decreases pages@.len(),
    {
        match pages.pop() {
            Some(page) => page.close(),
            None => {},
        }
    }
}

/// A loaded page of a document. A page must be released with `close`: one that is
/// merely dropped stays loaded inside the engine.
pub struct PdfPage<'a, B: PdfiumLibraryBindings> {
    handle: FPDF_PAGE,
    document: FPDF_DOCUMENT,
    index: u32,
    bindings: &'a B,
}

impl<'a, B: PdfiumLibraryBindings> PdfPage<'a, B> {
    /// The native page handle.
    pub closed spec fn spec_handle(&self) -> FPDF_PAGE {
        self.handle
    }

    /// The document the page belongs to.
    pub closed spec fn spec_document(&self) -> FPDF_DOCUMENT {
        self.document
    }

    /// The zero-based index of the page.
    pub closed spec fn spec_index(&self) -> u32 {
        self.index
    }

    /// The engine bindings this wrapper reaches the engine through.
    pub closed spec fn spec_bindings(&self) -> B {
        *self.bindings
    }

    /// The native page handle.
    pub fn handle(&self) -> (r: &FPDF_PAGE)
        ensures
            *r == self.spec_handle(),
    {
        &self.handle
    }

    /// The zero-based index of the page.
    pub fn index(&self) -> (r: u32)
        ensures
            r == self.spec_index(),
    {
        self.index
    }

    /// The links on this page, collected in one pass over the engine's enumeration.
    pub fn links<'b>(&'b self) -> (r: PdfPageLinks<'b, B>)
        ensures
            r.spec_page() == self.spec_handle(),
            r.spec_document() == self.spec_document(),
            r.spec_bindings() == self.spec_bindings(),
    {
        let mut handles: Vec<FPDF_LINK> = Vec::new();
        let mut pos: i32 = 0;
        let mut link: FPDF_LINK = NULL_HANDLE;
        let mut more = self.bindings.FPDFLink_Enumerate(self.handle, &mut pos, &mut link);
        let mut last: i32 = -1;
        // The position only moves forward; should the engine not advance it, the walk
        // stops, so it always ends.
        while more && pos > last
            invariant
                last >= -1,
            decreases i32::MAX - last,
        {
            handles.push(link);
            last = pos;
            more = self.bindings.FPDFLink_Enumerate(self.handle, &mut pos, &mut link);
        }
        PdfPageLinks { links: handles, page: self.handle, document: self.document, bindings: self.bindings }
    }

    /// Releases the page.
    pub fn close(self) {
        self.bindings.FPDF_ClosePage(self.handle);
    }
}

/// The links on a page.
pub struct PdfPageLinks<'a, B: PdfiumLibraryBindings> {
    links: Vec<FPDF_LINK>,
    page: FPDF_PAGE,
    document: FPDF_DOCUMENT,
    bindings: &'a B,
}

impl<'a, B: PdfiumLibraryBindings> PdfPageLinks<'a, B> {
    /// The native link handles, in the engine's order.
    pub closed spec fn spec_links(&self) -> Seq<FPDF_LINK> {
        self.links@
    }

    /// The page the links lie on.
    pub closed spec fn spec_page(&self) -> FPDF_PAGE {
        self.page
    }

    /// The document the links belong to.
    pub closed spec fn spec_document(&self) -> FPDF_DOCUMENT {
        self.document
    }

    /// The engine bindings this wrapper reaches the engine through.
    pub closed spec fn spec_bindings(&self) -> B {
        *self.bindings
    }

    /// The number of links.
    pub fn len(&self) -> (r: usize)
        ensures
            r == self.spec_links().len(),
    {
        self.links.len()
    }

    /// The link at a zero-based index; `IndexOutOfBounds` past the end.
    pub fn get(&self, index: usize) -> (r: Result<PdfLink<'a, B>, PdfiumError>)
        ensures
            index < self.spec_links().len() <==> r is Ok,
            r matches Ok(l) ==> {
                &&& l.spec_handle() == self.spec_links()[index as int]
                &&& l.spec_document() == self.spec_document()
                &&& l.spec_bindings() == self.spec_bindings()
            },
            r is Err ==> r == Err::<PdfLink<'a, B>, PdfiumError>(PdfiumError::IndexOutOfBounds),
    {
        if index < self.links.len() {
            Ok(PdfLink { handle: self.links[index], document: self.document, bindings: self.bindings })
        } else {
            Err(PdfiumError::IndexOutOfBounds)
        }
    }

    /// Every link, in order: one wrapper per native link.
    pub fn collect(&self) -> (r: Vec<PdfLink<'a, B>>)
        ensures
            r@.len() == self.spec_links().len(),
            forall|i: int| 0 <= i < r@.len() ==> (#[trigger] r@[i]).spec_handle() == self.spec_links()[i]
                && r@[i].spec_document() == self.spec_document() && r@[i].spec_bindings() == self.spec_bindings(),
    {
        let mut out: Vec<PdfLink<'a, B>> = Vec::new();
        let mut i: usize = 0;
        while i < self.links.len()
            invariant
                i <= self.links@.len(),
                out@.len() == i,
                forall|j: int| 0 <= j < out@.len() ==> (#[trigger] out@[j]).spec_handle() == self.links@[j]
                    && out@[j].spec_document() == self.document && out@[j].spec_bindings() == *self.bindings,
            decreases self.links@.len() - i,
        {
            out.push(PdfLink { handle: self.links[i], document: self.document, bindings: self.bindings });
            i = i + 1;
        }
        out
    }
}

/// A link on a page.
pub struct PdfLink<'a, B: PdfiumLibraryBindings> {
    handle: FPDF_LINK,
    document: FPDF_DOCUMENT,
    bindings: &'a B,
}

impl<'a, B: PdfiumLibraryBindings> PdfLink<'a, B> {
    /// The native link handle.
    pub closed spec fn spec_handle(&self) -> FPDF_LINK {
        self.handle
    }

    /// The document the link belongs to.
    pub closed spec fn spec_document(&self) -> FPDF_DOCUMENT {
        self.document
    }

    /// The engine bindings this wrapper reaches the engine through.
    pub closed spec fn spec_bindings(&self) -> B {
        *self.bindings
    }

    /// The action the link performs, if it has one.
    pub fn action(&self) -> (r: Option<PdfAction<'a, B>>)
        ensures
            r matches Some(a) ==> {
                &&& a.spec_document() == self.spec_document()
                &&& a.spec_handle() != NULL_HANDLE
                &&& a.spec_bindings() == self.spec_bindings()
            },
    {
        let handle = self.bindings.FPDFLink_GetAction(self.handle);
        if handle == NULL_HANDLE {
            None
        } else {
            Some(PdfAction::from_pdfium(handle, self.document, self.bindings))
        }
    }
}

} // verus!
