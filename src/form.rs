//! The form embedded in a document, and its form-fill environment.

use vstd::prelude::*;

use crate::bindgen::{
    inert_form_fill_info, FORMTYPE_ACRO_FORM, FORMTYPE_NONE, FORMTYPE_XFA_FOREGROUND,
    FORMTYPE_XFA_FULL, FPDF_DOCUMENT, FPDF_FORMFIELD_CHECKBOX, FPDF_FORMFIELD_COMBOBOX,
    FPDF_FORMFIELD_LISTBOX, FPDF_FORMFIELD_PUSHBUTTON, FPDF_FORMFIELD_RADIOBUTTON,
    FPDF_FORMFIELD_SIGNATURE, FPDF_FORMFIELD_TEXTFIELD, FPDF_FORMFIELD_UNKNOWN,
    FPDF_FORMFILLINFO, FPDF_FORMHANDLE, NULL_HANDLE,
};
use crate::bindings::{get_pdfium_last_error, PdfiumLibraryBindings};
use crate::error::{PdfiumError, PdfiumInternalError};

verus! {

/// The definition type of a form embedded in a document.
#[derive(Clone, Copy, Debug, PartialEq, Eq, Structural)]
pub enum PdfFormType {
    NoForm,
    Acrobat,
    XfaFull,
    XfaForeground,
}

/// The native code of each form type.
pub open spec fn form_type_code(t: PdfFormType) -> u32 {
    match t {
        PdfFormType::NoForm => FORMTYPE_NONE,
        PdfFormType::Acrobat => FORMTYPE_ACRO_FORM,
        PdfFormType::XfaFull => FORMTYPE_XFA_FULL,
        PdfFormType::XfaForeground => FORMTYPE_XFA_FOREGROUND,
    }
}

impl PdfFormType {
    /// Decodes a native form type code.
    pub fn from_pdfium(form_type: u32) -> (r: Result<PdfFormType, PdfiumError>)
        ensures
            r matches Ok(t) ==> form_type_code(t) == form_type,
            r is Err <==> form_type > FORMTYPE_XFA_FOREGROUND,
            r is Err ==> r == Err::<PdfFormType, PdfiumError>(PdfiumError::UnknownFormType),
    {
        if form_type == FORMTYPE_NONE {
            Ok(PdfFormType::NoForm)
        } else if form_type == FORMTYPE_ACRO_FORM {
            Ok(PdfFormType::Acrobat)
        } else if form_type == FORMTYPE_XFA_FULL {
            Ok(PdfFormType::XfaFull)
        } else if form_type == FORMTYPE_XFA_FOREGROUND {
            Ok(PdfFormType::XfaForeground)
        } else {
            Err(PdfiumError::UnknownFormType)
        }
    }

    /// The native code of this form type.
    pub fn as_pdfium(&self) -> (r: u32)
        ensures
            r == form_type_code(*self),
    {
        match self {
            PdfFormType::NoForm => FORMTYPE_NONE,
            PdfFormType::Acrobat => FORMTYPE_ACRO_FORM,
            PdfFormType::XfaFull => FORMTYPE_XFA_FULL,
            PdfFormType::XfaForeground => FORMTYPE_XFA_FOREGROUND,
        }
    }
}

/// The widget display type of a single form field.
#[derive(Clone, Copy, Debug, PartialEq, Eq, Structural)]
pub enum PdfFormFieldType {
    Unknown,
    PushButton,
    Checkbox,
    RadioButton,
    ComboBox,
    ListBox,
    TextField,
    Signature,
}

/// The native code of each form field type.
pub open spec fn form_field_type_code(t: PdfFormFieldType) -> u32 {
    match t {
        PdfFormFieldType::Unknown => FPDF_FORMFIELD_UNKNOWN,
        PdfFormFieldType::PushButton => FPDF_FORMFIELD_PUSHBUTTON,
        PdfFormFieldType::Checkbox => FPDF_FORMFIELD_CHECKBOX,
        PdfFormFieldType::RadioButton => FPDF_FORMFIELD_RADIOBUTTON,
        PdfFormFieldType::ComboBox => FPDF_FORMFIELD_COMBOBOX,
        PdfFormFieldType::ListBox => FPDF_FORMFIELD_LISTBOX,
        PdfFormFieldType::TextField => FPDF_FORMFIELD_TEXTFIELD,
        PdfFormFieldType::Signature => FPDF_FORMFIELD_SIGNATURE,
    }
}

impl PdfFormFieldType {
    /// Decodes a native form field type code.
    pub fn from_pdfium(form_field_type: u32) -> (r: Result<PdfFormFieldType, PdfiumError>)
        ensures
            r matches Ok(t) ==> form_field_type_code(t) == form_field_type,
            r is Err <==> form_field_type > FPDF_FORMFIELD_SIGNATURE,
            r is Err ==> r == Err::<PdfFormFieldType, PdfiumError>(
                PdfiumError::UnknownFormFieldType,
            ),
    {
        if form_field_type == FPDF_FORMFIELD_UNKNOWN {
            Ok(PdfFormFieldType::Unknown)
        } else if form_field_type == FPDF_FORMFIELD_PUSHBUTTON {
            Ok(PdfFormFieldType::PushButton)
        } else if form_field_type == FPDF_FORMFIELD_CHECKBOX {
            Ok(PdfFormFieldType::Checkbox)
        } else if form_field_type == FPDF_FORMFIELD_RADIOBUTTON {
            Ok(PdfFormFieldType::RadioButton)
        } else if form_field_type == FPDF_FORMFIELD_COMBOBOX {
            Ok(PdfFormFieldType::ComboBox)
        } else if form_field_type == FPDF_FORMFIELD_LISTBOX {
            Ok(PdfFormFieldType::ListBox)
        } else if form_field_type == FPDF_FORMFIELD_TEXTFIELD {
            Ok(PdfFormFieldType::TextField)
        } else if form_field_type == FPDF_FORMFIELD_SIGNATURE {
            Ok(PdfFormFieldType::Signature)
        } else {
            Err(PdfiumError::UnknownFormFieldType)
        }
    }

    /// The native code of this form field type.
    pub fn as_pdfium(&self) -> (r: u32)
        ensures
            r == form_field_type_code(*self),
    {
        match self {
            PdfFormFieldType::Unknown => FPDF_FORMFIELD_UNKNOWN,
            PdfFormFieldType::PushButton => FPDF_FORMFIELD_PUSHBUTTON,
            PdfFormFieldType::Checkbox => FPDF_FORMFIELD_CHECKBOX,
            PdfFormFieldType::RadioButton => FPDF_FORMFIELD_RADIOBUTTON,
            PdfFormFieldType::ComboBox => FPDF_FORMFIELD_COMBOBOX,
            PdfFormFieldType::ListBox => FPDF_FORMFIELD_LISTBOX,
            PdfFormFieldType::TextField => FPDF_FORMFIELD_TEXTFIELD,
            PdfFormFieldType::Signature => FPDF_FORMFIELD_SIGNATURE,
        }
    }
}

/// What binding to a form yields once the environment has started, given the form
/// type code that the engine reports: an empty form is no form, and a code that
/// names no form type is an error.
pub open spec fn form_type_outcome_spec(code: i32) -> Result<Option<PdfFormType>, PdfiumError> {
    if code < 0 || code > FORMTYPE_XFA_FOREGROUND {
        Err(PdfiumError::UnknownFormType)
    } else if code == FORMTYPE_NONE {
        Ok(None)
    } else if code == FORMTYPE_ACRO_FORM {
        Ok(Some(PdfFormType::Acrobat))
    } else if code == FORMTYPE_XFA_FULL {
        Ok(Some(PdfFormType::XfaFull))
    } else {
        Ok(Some(PdfFormType::XfaForeground))
    }
}

/// Decides whether a started form-fill environment holds a usable form.
pub fn form_type_outcome(code: i32) -> (r: Result<Option<PdfFormType>, PdfiumError>)
    ensures
        r == form_type_outcome_spec(code),
{
    if code < 0 {
        Err(PdfiumError::UnknownFormType)
    } else {
        match PdfFormType::from_pdfium(code as u32) {
            Ok(PdfFormType::NoForm) => Ok(None),
            Ok(t) => Ok(Some(t)),
            Err(e) => Err(e),
        }
    }
}

/// What binding to a form yields, from the engine's answers: the handle that starting
/// the environment returned, the error it recorded, and the form type code. A
/// reported error is a failed start and carries its cause; a null handle with no
/// error means the document has no form.
pub open spec fn form_binding_spec(
    form_handle: FPDF_FORMHANDLE,
    last_error: Option<PdfiumInternalError>,
    code: i32,
) -> Result<Option<PdfFormType>, PdfiumError> {
    match last_error {
        Some(cause) => Err(PdfiumError::PdfiumLibraryInternalError(cause)),
        None => if form_handle == NULL_HANDLE {
            Ok(None)
        } else {
            form_type_outcome_spec(code)
        },
    }
}

/// Decides what binding to a form yields, from the engine's answers.
pub fn form_binding(
    form_handle: FPDF_FORMHANDLE,
    last_error: Option<PdfiumInternalError>,
    code: i32,
) -> (r: Result<Option<PdfFormType>, PdfiumError>)
    ensures
        r == form_binding_spec(form_handle, last_error, code),
{
    match last_error {
        Some(cause) => Err(PdfiumError::PdfiumLibraryInternalError(cause)),
        None => if form_handle == NULL_HANDLE {
            Ok(None)
        } else {
            form_type_outcome(code)
        },
    }
}

/// When the engine reports no error, a document without a form, or with an empty
/// one, binds to no form and is no error.
pub proof fn lemma_absent_form_is_not_an_error(
    form_handle: FPDF_FORMHANDLE,
    last_error: Option<PdfiumInternalError>,
    code: i32,
)
    requires
        last_error is None,
        form_handle == NULL_HANDLE || code == FORMTYPE_NONE,
    ensures
        form_binding_spec(form_handle, last_error, code) == Ok::<Option<PdfFormType>, PdfiumError>(None),
{
}

/// A form that binding yields is never of the empty form type. An error is either
/// the cause the engine reported or an unknown form type code, and a reported cause
/// is always surfaced.
pub proof fn lemma_present_form_is_never_empty(
    form_handle: FPDF_FORMHANDLE,
    last_error: Option<PdfiumInternalError>,
    code: i32,
)
    ensures
        form_binding_spec(form_handle, last_error, code) matches Ok(Some(t)) ==> t != PdfFormType::NoForm,
        form_binding_spec(form_handle, last_error, code) is Err ==> form_binding_spec(form_handle, last_error, code)
            == Err::<Option<PdfFormType>, PdfiumError>(PdfiumError::UnknownFormType)
            || form_binding_spec(form_handle, last_error, code)->Err_0 is PdfiumLibraryInternalError,
        last_error matches Some(cause) ==> form_binding_spec(form_handle, last_error, code)
            == Err::<Option<PdfFormType>, PdfiumError>(PdfiumError::PdfiumLibraryInternalError(cause)),
{
}

/// The form embedded in a document, bound through a running form-fill environment.
///
/// The configuration block lives on the heap: moving a `PdfForm` moves only the box
/// that points at it, so the address the engine retained stays valid until `close`
/// has torn the environment down. A form must be released with `close`: one that is
/// merely dropped frees the block while the engine still holds its address.
pub struct PdfForm<'a, B: PdfiumLibraryBindings> {
    form_handle: FPDF_FORMHANDLE,
    document_handle: FPDF_DOCUMENT,
    form_fill_info: Box<FPDF_FORMFILLINFO>,
    form_type: PdfFormType,
    bindings: &'a B,
}

impl<'a, B: PdfiumLibraryBindings> PdfForm<'a, B> {
    /// The type of the form.
    pub closed spec fn spec_form_type(&self) -> PdfFormType {
        self.form_type
    }

    /// The document the form belongs to.
    pub closed spec fn spec_document(&self) -> FPDF_DOCUMENT {
        self.document_handle
    }

    /// The native form-fill handle.
    pub closed spec fn spec_handle(&self) -> FPDF_FORMHANDLE {
        self.form_handle
    }

    /// The engine bindings the form reaches the engine through.
    pub closed spec fn spec_bindings(&self) -> B {
        *self.bindings
    }

    /// A bound form has a live environment and is never the empty form type.
    #[verifier::type_invariant]
    closed spec fn inv(&self) -> bool {
        &&& self.form_type != PdfFormType::NoForm
        &&& self.form_handle != NULL_HANDLE
    }

    /// Starts the form-fill environment of a document and binds to its form.
    ///
    /// Returns `Ok(None)` when the document has no form, or an empty one. A start
    /// that the engine reports as failed is an error carrying the reported cause, and
    /// a form type code that names no form type is `UnknownFormType`. Whenever no
    /// form is returned, no environment is left running.
    pub(crate) fn from_pdfium(document_handle: FPDF_DOCUMENT, bindings: &'a B) -> (r: Result<Option<Self>, PdfiumError>)
        ensures
            r matches Ok(Some(f)) ==> {
                &&& f.spec_form_type() != PdfFormType::NoForm
                &&& f.spec_document() == document_handle
                &&& f.spec_handle() != NULL_HANDLE
                &&& f.spec_bindings() == *bindings
            },
            r is Err ==> r == Err::<Option<Self>, PdfiumError>(PdfiumError::UnknownFormType)
                || r->Err_0 is PdfiumLibraryInternalError,
    {
        let mut form_fill_info = Box::new(inert_form_fill_info());
        let form_handle = bindings.FPDFDOC_InitFormFillEnvironment(document_handle, &mut *form_fill_info);
        let last_error = get_pdfium_last_error(bindings);
        let started = form_handle != NULL_HANDLE && last_error.is_none();
        let code = if started {
            bindings.FPDF_GetFormType(document_handle)
        } else {
            FORMTYPE_NONE as i32
        };
        let outcome = form_binding(form_handle, last_error, code);
        match outcome {
            Ok(Some(form_type)) => {
                Ok(Some(PdfForm { form_handle, document_handle, form_fill_info, form_type, bindings }))
            },
            _ => {
                // No form is kept: an environment that the engine did start is torn
                // down before the configuration block goes away.
                if form_handle != NULL_HANDLE {
                    bindings.FPDFDOC_ExitFormFillEnvironment(form_handle);
                }
                match outcome {
                    Err(e) => Err(e),
                    _ => Ok(None),
                }
            },
        }
    }

    /// The native form-fill handle.
    pub fn handle(&self) -> (r: &FPDF_FORMHANDLE)
        ensures
            *r == self.spec_handle(),
            *r != NULL_HANDLE,
    {
        proof {
            use_type_invariant(self);
        }
        &self.form_handle
    }

    /// The engine bindings this form was bound through.
    pub fn bindings(&self) -> (r: &'a B)
        ensures
            *r == self.spec_bindings(),
    {
        self.bindings
    }

    /// The type of this form; never the empty form type.
    pub fn form_type(&self) -> (r: PdfFormType)
        ensures
            r == self.spec_form_type(),
            r != PdfFormType::NoForm,
    {
        proof {
            use_type_invariant(self);
        }
        self.form_type
    }

    /// Tears the form-fill environment down, then releases the configuration block.
    pub fn close(self) {
        let PdfForm { form_handle, document_handle: _, form_fill_info, form_type: _, bindings } = self;
        bindings.FPDFDOC_ExitFormFillEnvironment(form_handle);
        // The block is freed here, at the end of scope, after the engine let go of it.
        let _released = form_fill_info;
    }
}

} // verus!
