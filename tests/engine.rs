use std::cell::{Cell, RefCell};

use pdfium_render::bindgen::{FPDF_FORMFILLINFO, FPDF_HANDLE};
use pdfium_render::document::{page_count_from, PdfDocument};
use pdfium_render::error::{classify_handle, last_error_from_code};
use pdfium_render::form::form_binding;
use pdfium_render::page_annotation_highlight::object_count_from;
use pdfium_render::{
    get_pdfium_last_error, PdfActionType, PdfFormFieldType, PdfFormType,
    PdfPageHighlightAnnotation, Pdfium, PdfiumError, PdfiumInternalError, PdfiumLibraryBindings,
};

/// An engine that answers from fixed settings and records what it was asked to release.
struct MockEngine {
    last_error: Cell<u32>,
    next_document: Cell<usize>,
    password: Option<&'static str>,
    page_count: i32,
    failing_page: Option<i32>,
    links: Vec<usize>,
    link_action: usize,
    action_type: u32,
    destination: usize,
    destination_page: i32,
    object_count: i32,
    form_handle: usize,
    form_init_error: u32,
    form_type: i32,
    seen_form_version: Cell<i32>,
    closed_documents: RefCell<Vec<usize>>,
    closed_pages: RefCell<Vec<usize>>,
    exited_forms: RefCell<Vec<usize>>,
}

fn engine() -> MockEngine {
    MockEngine {
        last_error: Cell::new(0),
        next_document: Cell::new(100),
        password: None,
        page_count: 3,
        failing_page: None,
        links: vec![501, 502],
        link_action: 601,
        action_type: 1,
        destination: 701,
        destination_page: 2,
        object_count: 4,
        form_handle: 0,
        form_init_error: 0,
        form_type: 0,
        seen_form_version: Cell::new(-1),
        closed_documents: RefCell::new(Vec::new()),
        closed_pages: RefCell::new(Vec::new()),
        exited_forms: RefCell::new(Vec::new()),
    }
}

impl PdfiumLibraryBindings for MockEngine {
    fn FPDF_GetLastError(&self) -> u32 {
        self.last_error.get()
    }

    fn FPDF_LoadDocument(&self, path: &str, password: Option<&str>) -> FPDF_HANDLE {
        if path.ends_with(".pdf") {
            self.FPDF_LoadMemDocument(b"%PDF-1.7", password)
        } else {
            self.last_error.set(2);
            0
        }
    }

    fn FPDF_LoadMemDocument(&self, bytes: &[u8], password: Option<&str>) -> FPDF_HANDLE {
        if bytes.is_empty() || !bytes.starts_with(b"%PDF") {
            self.last_error.set(3);
            return 0;
        }
        if self.password.is_some() && password != self.password {
            self.last_error.set(4);
            return 0;
        }
        self.last_error.set(0);
        let handle = self.next_document.get();
        self.next_document.set(handle + 1);
        handle
    }

    fn FPDF_CloseDocument(&self, document: FPDF_HANDLE) {
        self.closed_documents.borrow_mut().push(document);
    }

    fn FPDF_GetPageCount(&self, _document: FPDF_HANDLE) -> i32 {
        self.page_count
    }

    fn FPDF_LoadPage(&self, document: FPDF_HANDLE, index: i32) -> FPDF_HANDLE {
        if self.failing_page == Some(index) {
            self.last_error.set(6);
            0
        } else {
            document * 1000 + index as usize + 1
        }
    }

    fn FPDF_ClosePage(&self, page: FPDF_HANDLE) {
        self.closed_pages.borrow_mut().push(page);
    }

    fn FPDFLink_Enumerate(&self, _page: FPDF_HANDLE, start_pos: &mut i32, link: &mut FPDF_HANDLE) -> bool {
        let pos = *start_pos as usize;
        if pos >= self.links.len() {
            false
        } else {
            *link = self.links[pos];
            *start_pos += 1;
            true
        }
    }

    fn FPDFLink_GetAction(&self, _link: FPDF_HANDLE) -> FPDF_HANDLE {
        self.link_action
    }

    fn FPDFAction_GetType(&self, _action: FPDF_HANDLE) -> u32 {
        self.action_type
    }

    fn FPDFAction_GetDest(&self, _document: FPDF_HANDLE, _action: FPDF_HANDLE) -> FPDF_HANDLE {
        if self.destination == 0 {
            self.last_error.set(self.form_init_error);
        }
        self.destination
    }

    fn FPDFDest_GetDestPageIndex(&self, _document: FPDF_HANDLE, _dest: FPDF_HANDLE) -> i32 {
        self.destination_page
    }

    fn FPDFAnnot_GetObjectCount(&self, _annotation: FPDF_HANDLE) -> i32 {
        self.object_count
    }

    fn FPDFDOC_InitFormFillEnvironment(&self, _document: FPDF_HANDLE, form_info: &mut FPDF_FORMFILLINFO) -> FPDF_HANDLE {
        self.seen_form_version.set(form_info.version);
        self.last_error.set(self.form_init_error);
        self.form_handle
    }

    fn FPDFDOC_ExitFormFillEnvironment(&self, form: FPDF_HANDLE) {
        self.exited_forms.borrow_mut().push(form);
    }

    fn FPDF_GetFormType(&self, _document: FPDF_HANDLE) -> i32 {
        self.form_type
    }
}

fn open<'a>(pdfium: &'a Pdfium<MockEngine>) -> PdfDocument<'a, MockEngine> {
    pdfium.load_pdf_from_byte_slice(b"%PDF-1.7", None).unwrap()
}

#[test]
fn last_error_codes_decode_to_causes() {
    assert_eq!(last_error_from_code(0), None);
    assert_eq!(last_error_from_code(1), Some(PdfiumInternalError::Unknown));
    assert_eq!(last_error_from_code(2), Some(PdfiumInternalError::FileError));
    assert_eq!(last_error_from_code(3), Some(PdfiumInternalError::FormatError));
    assert_eq!(last_error_from_code(4), Some(PdfiumInternalError::PasswordError));
    assert_eq!(last_error_from_code(5), Some(PdfiumInternalError::SecurityError));
    assert_eq!(last_error_from_code(6), Some(PdfiumInternalError::PageError));
    assert_eq!(last_error_from_code(42), Some(PdfiumInternalError::Unknown));
}

#[test]
fn last_error_query_goes_through_bindings() {
    let e = engine();
    e.last_error.set(5);
    assert_eq!(get_pdfium_last_error(&e), Some(PdfiumInternalError::SecurityError));
    e.last_error.set(0);
    assert_eq!(get_pdfium_last_error(&e), None);
}

#[test]
fn classify_prefers_reported_cause() {
    assert_eq!(classify_handle(7, None), Ok(7));
    assert_eq!(
        classify_handle(0, Some(PdfiumInternalError::FileError)),
        Err(PdfiumError::PdfiumLibraryInternalError(PdfiumInternalError::FileError))
    );
    assert_eq!(
        classify_handle(0, None),
        Err(PdfiumError::PdfiumLibraryInternalError(PdfiumInternalError::Unknown))
    );
}

#[test]
fn form_type_codes_round_trip() {
    let all = [PdfFormType::NoForm, PdfFormType::Acrobat, PdfFormType::XfaFull, PdfFormType::XfaForeground];
    for (code, t) in all.iter().enumerate() {
        assert_eq!(t.as_pdfium(), code as u32);
        assert_eq!(PdfFormType::from_pdfium(code as u32), Ok(*t));
    }
    assert_eq!(PdfFormType::from_pdfium(4), Err(PdfiumError::UnknownFormType));
}

#[test]
fn form_field_type_codes_round_trip() {
    let all = [
        PdfFormFieldType::Unknown,
        PdfFormFieldType::PushButton,
        PdfFormFieldType::Checkbox,
        PdfFormFieldType::RadioButton,
        PdfFormFieldType::ComboBox,
        PdfFormFieldType::ListBox,
        PdfFormFieldType::TextField,
        PdfFormFieldType::Signature,
    ];
    for (code, t) in all.iter().enumerate() {
        assert_eq!(t.as_pdfium(), code as u32);
        assert_eq!(PdfFormFieldType::from_pdfium(code as u32), Ok(*t));
    }
    assert_eq!(PdfFormFieldType::from_pdfium(8), Err(PdfiumError::UnknownFormFieldType));
}

#[test]
fn action_type_codes_decode() {
    assert_eq!(PdfActionType::from_pdfium(0), PdfActionType::Unsupported);
    assert_eq!(PdfActionType::from_pdfium(1), PdfActionType::GoToDestinationInSameDocument);
    assert_eq!(PdfActionType::from_pdfium(2), PdfActionType::GoToDestinationInRemoteDocument);
    assert_eq!(PdfActionType::from_pdfium(3), PdfActionType::Uri);
    assert_eq!(PdfActionType::from_pdfium(4), PdfActionType::Launch);
    assert_eq!(PdfActionType::from_pdfium(5), PdfActionType::GoToDestinationInEmbeddedDocument);
    assert_eq!(PdfActionType::from_pdfium(77), PdfActionType::Unsupported);
}

#[test]
fn form_binding_decisions() {
    assert_eq!(form_binding(0, None, 1), Ok(None));
    assert_eq!(
        form_binding(9, Some(PdfiumInternalError::Unknown), 1),
        Err(PdfiumError::PdfiumLibraryInternalError(PdfiumInternalError::Unknown))
    );
    assert_eq!(
        form_binding(0, Some(PdfiumInternalError::FileError), 0),
        Err(PdfiumError::PdfiumLibraryInternalError(PdfiumInternalError::FileError))
    );
    assert_eq!(form_binding(9, None, 0), Ok(None));
    assert_eq!(form_binding(9, None, 1), Ok(Some(PdfFormType::Acrobat)));
    assert_eq!(form_binding(9, None, 2), Ok(Some(PdfFormType::XfaFull)));
    assert_eq!(form_binding(9, None, 3), Ok(Some(PdfFormType::XfaForeground)));
    assert_eq!(form_binding(9, None, 4), Err(PdfiumError::UnknownFormType));
    assert_eq!(form_binding(9, None, -1), Err(PdfiumError::UnknownFormType));
}

#[test]
fn document_without_form_has_none() {
    let pdfium = Pdfium::new(engine());
    let document = open(&pdfium);
    assert!(matches!(document.form(), Ok(None)));
    assert!(pdfium.bindings().exited_forms.borrow().is_empty());
}

#[test]
fn empty_form_is_absent_and_environment_torn_down() {
    let mut e = engine();
    e.form_handle = 900;
    e.form_type = 0;
    let pdfium = Pdfium::new(e);
    let document = open(&pdfium);
    assert!(matches!(document.form(), Ok(None)));
    assert_eq!(*pdfium.bindings().exited_forms.borrow(), vec![900]);
}

#[test]
fn failed_form_start_reports_cause() {
    let mut e = engine();
    e.form_handle = 900;
    e.form_init_error = 1;
    let pdfium = Pdfium::new(e);
    let document = open(&pdfium);
    assert!(matches!(
        document.form(),
        Err(PdfiumError::PdfiumLibraryInternalError(PdfiumInternalError::Unknown))
    ));
    assert_eq!(*pdfium.bindings().exited_forms.borrow(), vec![900]);
}

#[test]
fn form_start_without_handle_reports_cause() {
    let mut e = engine();
    e.form_handle = 0;
    e.form_init_error = 2;
    let pdfium = Pdfium::new(e);
    let document = open(&pdfium);
    assert!(matches!(
        document.form(),
        Err(PdfiumError::PdfiumLibraryInternalError(PdfiumInternalError::FileError))
    ));
    assert!(pdfium.bindings().exited_forms.borrow().is_empty());
}

#[test]
fn present_form_reports_its_type() {
    let mut e = engine();
    e.form_handle = 900;
    e.form_type = 2;
    let pdfium = Pdfium::new(e);
    let document = open(&pdfium);
    let form = document.form().unwrap().unwrap();
    assert_eq!(form.form_type(), PdfFormType::XfaFull);
    assert_eq!(*form.handle(), 900);
    assert_eq!(form.bindings().seen_form_version.get(), 2);
    assert!(std::ptr::eq(form.bindings(), pdfium.bindings()));
    assert!(pdfium.bindings().exited_forms.borrow().is_empty());
    form.close();
    assert_eq!(*pdfium.bindings().exited_forms.borrow(), vec![900]);
}

#[test]
fn unknown_form_type_is_an_error() {
    let mut e = engine();
    e.form_handle = 900;
    e.form_type = 17;
    let pdfium = Pdfium::new(e);
    let document = open(&pdfium);
    assert!(matches!(document.form(), Err(PdfiumError::UnknownFormType)));
    assert_eq!(*pdfium.bindings().exited_forms.borrow(), vec![900]);
}

#[test]
fn wrong_password_reports_cause() {
    let mut e = engine();
    e.password = Some("secret");
    let pdfium = Pdfium::new(e);
    let result = pdfium.load_pdf_from_byte_slice(b"%PDF-1.7", Some("guess"));
    assert!(matches!(
        result,
        Err(PdfiumError::PdfiumLibraryInternalError(PdfiumInternalError::PasswordError))
    ));
    let document = pdfium.load_pdf_from_byte_slice(b"%PDF-1.7", Some("secret")).unwrap();
    document.close();
    assert_eq!(*pdfium.bindings().closed_documents.borrow(), vec![100]);
}

#[test]
fn missing_file_reports_file_error() {
    let pdfium = Pdfium::new(engine());
    assert!(matches!(
        pdfium.load_pdf_from_file("missing.txt", None),
        Err(PdfiumError::PdfiumLibraryInternalError(PdfiumInternalError::FileError))
    ));
    let document = pdfium.load_pdf_from_file("test/links-test.pdf", None).unwrap();
    document.close();
    assert_eq!(*pdfium.bindings().closed_documents.borrow(), vec![100]);
}

#[test]
fn malformed_bytes_report_format_error() {
    let pdfium = Pdfium::new(engine());
    let result = pdfium.load_pdf_from_byte_slice(b"hello", None);
    assert!(matches!(
        result,
        Err(PdfiumError::PdfiumLibraryInternalError(PdfiumInternalError::FormatError))
    ));
}

#[test]
fn two_documents_from_same_bytes_close_independently() {
    let pdfium = Pdfium::new(engine());
    let first = open(&pdfium);
    let second = open(&pdfium);
    first.close();
    let pages = second.pages();
    assert_eq!(pages.len(), 3);
    assert!(pages.get(0).is_ok());
    assert_eq!(*pdfium.bindings().closed_documents.borrow(), vec![100]);
    second.close();
    assert_eq!(*pdfium.bindings().closed_documents.borrow(), vec![100, 101]);
}

#[test]
fn page_count_matches_loaded_pages() {
    let pdfium = Pdfium::new(engine());
    let document = open(&pdfium);
    let pages = document.pages();
    assert_eq!(pages.len(), 3);
    assert_eq!(pages.reported_count(), 3);
    let all = pages.load_all().unwrap();
    assert_eq!(all.len(), 3);
    for (i, page) in all.iter().enumerate() {
        assert_eq!(page.index() as usize, i);
        assert_eq!(*page.handle(), 100 * 1000 + i + 1);
    }
    assert!(matches!(pages.get(3), Err(PdfiumError::IndexOutOfBounds)));
}

#[test]
fn failed_page_load_releases_loaded_pages() {
    let mut e = engine();
    e.failing_page = Some(2);
    let pdfium = Pdfium::new(e);
    let document = open(&pdfium);
    let result = document.pages().load_all();
    assert!(matches!(
        result,
        Err(PdfiumError::PdfiumLibraryInternalError(PdfiumInternalError::PageError))
    ));
    assert_eq!(*pdfium.bindings().closed_pages.borrow(), vec![100002, 100001]);
}

#[test]
fn negative_page_count_has_no_pages() {
    let mut e = engine();
    e.page_count = -1;
    let pdfium = Pdfium::new(e);
    let document = open(&pdfium);
    let pages = document.pages();
    assert_eq!(pages.reported_count(), -1);
    assert_eq!(pages.len(), 0);
    assert!(pages.load_all().unwrap().is_empty());
}

#[test]
fn page_count_edges() {
    assert_eq!(page_count_from(-1), 0);
    assert_eq!(page_count_from(0), 0);
    assert_eq!(page_count_from(12), 12);
    assert_eq!(page_count_from(70000), 70000);
}

#[test]
fn document_with_no_pages() {
    let mut e = engine();
    e.page_count = 0;
    let pdfium = Pdfium::new(e);
    let document = open(&pdfium);
    assert_eq!(document.pages().len(), 0);
    assert!(document.pages().load_all().unwrap().is_empty());
}

#[test]
fn link_count_matches_collected_links() {
    let pdfium = Pdfium::new(engine());
    let document = open(&pdfium);
    let page = document.pages().get(0).unwrap();
    let links = page.links();
    assert_eq!(links.len(), 2);
    let collected = links.collect();
    assert_eq!(collected.len(), links.len());
    assert!(links.get(1).is_ok());
    assert!(matches!(links.get(2), Err(PdfiumError::IndexOutOfBounds)));
}

#[test]
fn page_without_links() {
    let mut e = engine();
    e.links = Vec::new();
    let pdfium = Pdfium::new(e);
    let document = open(&pdfium);
    let page = document.pages().get(0).unwrap();
    assert_eq!(page.links().len(), 0);
    assert!(page.links().collect().is_empty());
}

#[test]
fn local_link_leads_to_destination_page() {
    let pdfium = Pdfium::new(engine());
    let document = open(&pdfium);
    let page = document.pages().get(0).unwrap();
    let link = page.links().get(0).unwrap();
    let action = link.action().unwrap();
    assert_eq!(action.action_type(), PdfActionType::GoToDestinationInSameDocument);
    let local = action.as_local_destination_action().unwrap();
    assert_eq!(*local.handle(), 601);
    assert!(std::ptr::eq(local.bindings(), pdfium.bindings()));
    let destination = local.destination().unwrap();
    assert_eq!(*destination.handle(), 701);
    assert_eq!(destination.page_index(), Ok(2));
}

#[test]
fn uri_action_is_not_local() {
    let mut e = engine();
    e.action_type = 3;
    let pdfium = Pdfium::new(e);
    let document = open(&pdfium);
    let page = document.pages().get(0).unwrap();
    let action = page.links().get(0).unwrap().action().unwrap();
    assert_eq!(action.action_type(), PdfActionType::Uri);
    assert!(action.as_local_destination_action().is_none());
}

#[test]
fn link_without_action() {
    let mut e = engine();
    e.link_action = 0;
    let pdfium = Pdfium::new(e);
    let document = open(&pdfium);
    let page = document.pages().get(0).unwrap();
    assert!(page.links().get(0).unwrap().action().is_none());
}

#[test]
fn missing_destination_is_an_error() {
    let mut e = engine();
    e.destination = 0;
    e.form_init_error = 0;
    let pdfium = Pdfium::new(e);
    let document = open(&pdfium);
    let page = document.pages().get(0).unwrap();
    let action = page.links().get(0).unwrap().action().unwrap();
    let local = action.as_local_destination_action().unwrap();
    assert!(matches!(
        local.destination(),
        Err(PdfiumError::PdfiumLibraryInternalError(PdfiumInternalError::Unknown))
    ));
}

#[test]
fn negative_destination_page_is_an_error() {
    let mut e = engine();
    e.destination_page = -1;
    let pdfium = Pdfium::new(e);
    let document = open(&pdfium);
    let page = document.pages().get(0).unwrap();
    let action = page.links().get(0).unwrap().action().unwrap();
    let destination = action.as_local_destination_action().unwrap().destination().unwrap();
    assert_eq!(
        destination.page_index(),
        Err(PdfiumError::PdfiumLibraryInternalError(PdfiumInternalError::Unknown))
    );
}

#[test]
fn highlight_annotation_carries_its_ancestors() {
    let pdfium = Pdfium::new(engine());
    let document = open(&pdfium);
    let page = document.pages().get(0).unwrap();
    let mut annotation = PdfPageHighlightAnnotation::from_pdfium(801, *page.handle(), &document);
    assert_eq!(*annotation.handle(), 801);
    assert_eq!(annotation.objects().len(), 4);
    assert_eq!(annotation.objects_mut().len(), 4);
    assert_eq!(annotation.bindings().object_count, 4);
    assert!(std::ptr::eq(annotation.bindings(), document.bindings()));
    assert!(std::ptr::eq(document.bindings(), pdfium.bindings()));
}

#[test]
fn object_count_edges() {
    assert_eq!(object_count_from(-3), 0);
    assert_eq!(object_count_from(0), 0);
    assert_eq!(object_count_from(9), 9);
}

#[test]
fn closing_a_page_releases_it_once() {
    let pdfium = Pdfium::new(engine());
    let document = open(&pdfium);
    let page = document.pages().get(1).unwrap();
    page.close();
    assert_eq!(*pdfium.bindings().closed_pages.borrow(), vec![100002]);
}
