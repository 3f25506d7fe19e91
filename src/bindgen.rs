//! Raw handle types and numeric codes of the native engine's C interface.

use vstd::prelude::*;

verus! {

/// An opaque native handle: the address of a resource inside the engine, zero when absent.
pub type FPDF_HANDLE = usize;

pub type FPDF_DOCUMENT = FPDF_HANDLE;

pub type FPDF_PAGE = FPDF_HANDLE;

pub type FPDF_ANNOTATION = FPDF_HANDLE;

pub type FPDF_ACTION = FPDF_HANDLE;

pub type FPDF_DEST = FPDF_HANDLE;

pub type FPDF_FORMHANDLE = FPDF_HANDLE;

/// The handle value by which the engine signals failure or absence.
pub const NULL_HANDLE: FPDF_HANDLE = 0;

} // verus!

verus! {

/// Codes returned by the engine's last-error query.
pub const FPDF_ERR_SUCCESS: u32 = 0;

pub const FPDF_ERR_UNKNOWN: u32 = 1;

pub const FPDF_ERR_FILE: u32 = 2;

pub const FPDF_ERR_FORMAT: u32 = 3;

pub const FPDF_ERR_PASSWORD: u32 = 4;

pub const FPDF_ERR_SECURITY: u32 = 5;

pub const FPDF_ERR_PAGE: u32 = 6;

/// Form type codes.
pub const FORMTYPE_NONE: u32 = 0;

pub const FORMTYPE_ACRO_FORM: u32 = 1;

pub const FORMTYPE_XFA_FULL: u32 = 2;

pub const FORMTYPE_XFA_FOREGROUND: u32 = 3;

/// Form field widget type codes.
pub const FPDF_FORMFIELD_UNKNOWN: u32 = 0;

pub const FPDF_FORMFIELD_PUSHBUTTON: u32 = 1;

pub const FPDF_FORMFIELD_CHECKBOX: u32 = 2;

pub const FPDF_FORMFIELD_RADIOBUTTON: u32 = 3;

pub const FPDF_FORMFIELD_COMBOBOX: u32 = 4;

pub const FPDF_FORMFIELD_LISTBOX: u32 = 5;

pub const FPDF_FORMFIELD_TEXTFIELD: u32 = 6;

pub const FPDF_FORMFIELD_SIGNATURE: u32 = 7;

/// The configuration block handed to the engine when its form-fill environment starts.
///
/// The engine keeps the block's address until the environment is torn down, so the
/// block is only ever handed out from a heap allocation that does not move. Every
/// callback slot of the native block is left empty: only `version` and
/// `xfa_disabled` carry values.
#[derive(Clone, Copy, Debug, PartialEq, Eq, Structural)]
pub struct FPDF_FORMFILLINFO {
    pub version: i32,
    pub xfa_disabled: i32,
}

/// The structure version that the block declares.
pub const FORM_FILL_INFO_VERSION: i32 = 2;

/// A block with every callback slot empty.
pub fn inert_form_fill_info() -> (r: FPDF_FORMFILLINFO)
    ensures
        r.version == FORM_FILL_INFO_VERSION,
        r.xfa_disabled == 0,
{
    FPDF_FORMFILLINFO { version: FORM_FILL_INFO_VERSION, xfa_disabled: 0 }
}

} // verus!

verus! {

/// Action type codes.
pub const PDFACTION_UNSUPPORTED: u32 = 0;

pub const PDFACTION_GOTO: u32 = 1;

pub const PDFACTION_REMOTEGOTO: u32 = 2;

pub const PDFACTION_URI: u32 = 3;

pub const PDFACTION_LAUNCH: u32 = 4;

pub const PDFACTION_EMBEDDEDGOTO: u32 = 5;

} // verus!
