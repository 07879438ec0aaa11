use vstd::prelude::*;

verus! {

/// Error codes returned by HxC Floppy Emulator operations.
/// Keep C-style naming for compatibility with upstream libhxcfe.
#[allow(non_camel_case_types)]
#[derive(Debug, PartialEq, Eq, Structural)]
pub enum HxcfeError {
    /// File is valid and can be loaded
    HXCFE_VALIDFILE,
    /// Operation completed successfully
    HXCFE_NOERROR,
    /// File or resource access error
    HXCFE_ACCESSERROR,
    /// Invalid or corrupted file format
    HXCFE_BADFILE,
    /// File data is corrupted
    HXCFE_FILECORRUPTED,
    /// Invalid parameter provided
    HXCFE_BADPARAMETER,
    /// Internal library error
    HXCFE_INTERNALERROR,
    /// File format is not supported
    HXCFE_UNSUPPORTEDFILE,
}

/// The status code that libhxcfe uses for each error.
pub open spec fn spec_error_code(e: HxcfeError) -> i32 {
    match e {
        HxcfeError::HXCFE_VALIDFILE => 1i32,
        HxcfeError::HXCFE_NOERROR => 0i32,
        HxcfeError::HXCFE_ACCESSERROR => -1i32,
        HxcfeError::HXCFE_BADFILE => -2i32,
        HxcfeError::HXCFE_FILECORRUPTED => -3i32,
        HxcfeError::HXCFE_BADPARAMETER => -4i32,
        HxcfeError::HXCFE_INTERNALERROR => -5i32,
        HxcfeError::HXCFE_UNSUPPORTEDFILE => -6i32,
    }
}

/// The error that a status code stands for, if any: exactly the codes -6 to 1
/// name an error.
pub open spec fn spec_error_from_code(v: i32) -> Option<HxcfeError> {
    if v == 1 {
        Some(HxcfeError::HXCFE_VALIDFILE)
    } else if v == 0 {
        Some(HxcfeError::HXCFE_NOERROR)
    } else if v == -1 {
        Some(HxcfeError::HXCFE_ACCESSERROR)
    } else if v == -2 {
        Some(HxcfeError::HXCFE_BADFILE)
    } else if v == -3 {
        Some(HxcfeError::HXCFE_FILECORRUPTED)
    } else if v == -4 {
        Some(HxcfeError::HXCFE_BADPARAMETER)
    } else if v == -5 {
        Some(HxcfeError::HXCFE_INTERNALERROR)
    } else if v == -6 {
        Some(HxcfeError::HXCFE_UNSUPPORTEDFILE)
    } else {
        None
    }
}

/// How the library reads a status code returned by libhxcfe: the error it
/// names, or `HXCFE_INTERNALERROR` for a code that names none.
pub open spec fn spec_error_from_status(v: i32) -> HxcfeError {
    match spec_error_from_code(v) {
        Some(e) => e,
        None => HxcfeError::HXCFE_INTERNALERROR,
    }
}

/// The outcome of an operation that reports only a status code: success for
/// `HXCFE_NOERROR`, and otherwise the error that the status stands for.
pub open spec fn spec_status_result(v: i32) -> Result<(), HxcfeError> {
    if spec_error_from_status(v) == HxcfeError::HXCFE_NOERROR {
        Ok(())
    } else {
        Err(spec_error_from_status(v))
    }
}

/// The name of an error, as `Debug` writes it.
pub open spec fn spec_error_name(e: HxcfeError) -> Seq<char> {
    match e {
        HxcfeError::HXCFE_VALIDFILE => "HXCFE_VALIDFILE"@,
        HxcfeError::HXCFE_NOERROR => "HXCFE_NOERROR"@,
        HxcfeError::HXCFE_ACCESSERROR => "HXCFE_ACCESSERROR"@,
        HxcfeError::HXCFE_BADFILE => "HXCFE_BADFILE"@,
        HxcfeError::HXCFE_FILECORRUPTED => "HXCFE_FILECORRUPTED"@,
        HxcfeError::HXCFE_BADPARAMETER => "HXCFE_BADPARAMETER"@,
        HxcfeError::HXCFE_INTERNALERROR => "HXCFE_INTERNALERROR"@,
        HxcfeError::HXCFE_UNSUPPORTEDFILE => "HXCFE_UNSUPPORTEDFILE"@,
    }
}

impl HxcfeError {
    /// The error that a status code names, or `None` for a code outside -6..=1.
    pub fn n(value: i32) -> (r: Option<Self>)
        ensures
            r == spec_error_from_code(value),
    {
        if value == 1 {
            Some(HxcfeError::HXCFE_VALIDFILE)
        } else if value == 0 {
            Some(HxcfeError::HXCFE_NOERROR)
        } else if value == -1 {
            Some(HxcfeError::HXCFE_ACCESSERROR)
        } else if value == -2 {
            Some(HxcfeError::HXCFE_BADFILE)
        } else if value == -3 {
            Some(HxcfeError::HXCFE_FILECORRUPTED)
        } else if value == -4 {
            Some(HxcfeError::HXCFE_BADPARAMETER)
        } else if value == -5 {
            Some(HxcfeError::HXCFE_INTERNALERROR)
        } else if value == -6 {
            Some(HxcfeError::HXCFE_UNSUPPORTEDFILE)
        } else {
            None
        }
    }

    /// The status code of this error.
    pub fn code(&self) -> (r: i32)
        ensures
            r == spec_error_code(*self),
    {
        match self {
            HxcfeError::HXCFE_VALIDFILE => 1,
            HxcfeError::HXCFE_NOERROR => 0,
            HxcfeError::HXCFE_ACCESSERROR => -1,
            HxcfeError::HXCFE_BADFILE => -2,
            HxcfeError::HXCFE_FILECORRUPTED => -3,
            HxcfeError::HXCFE_BADPARAMETER => -4,
            HxcfeError::HXCFE_INTERNALERROR => -5,
            HxcfeError::HXCFE_UNSUPPORTEDFILE => -6,
        }
    }

    /// Reads a status code returned by libhxcfe: the error it names, or
    /// `HXCFE_INTERNALERROR` for an unknown code.
    pub fn from_status(value: i32) -> (r: Self)
        ensures
            r == spec_error_from_status(value),
    {
        match Self::n(value) {
            Some(e) => e,
            None => HxcfeError::HXCFE_INTERNALERROR,
        }
    }

    /// The name of this error, as `Debug` writes it.
    pub fn name(&self) -> (r: &'static str)
        ensures
            r@ == spec_error_name(*self),
    {
        match self {
            HxcfeError::HXCFE_VALIDFILE => "HXCFE_VALIDFILE",
            HxcfeError::HXCFE_NOERROR => "HXCFE_NOERROR",
            HxcfeError::HXCFE_ACCESSERROR => "HXCFE_ACCESSERROR",
            HxcfeError::HXCFE_BADFILE => "HXCFE_BADFILE",
            HxcfeError::HXCFE_FILECORRUPTED => "HXCFE_FILECORRUPTED",
            HxcfeError::HXCFE_BADPARAMETER => "HXCFE_BADPARAMETER",
            HxcfeError::HXCFE_INTERNALERROR => "HXCFE_INTERNALERROR",
            HxcfeError::HXCFE_UNSUPPORTEDFILE => "HXCFE_UNSUPPORTEDFILE",
        }
    }
}

/// The outcome of an operation that libhxcfe reports by a status code alone
/// (a sector-by-sector copy, an export): `Ok` exactly for `HXCFE_NOERROR`.
pub fn status_result(value: i32) -> (r: Result<(), HxcfeError>)
    ensures
        r == spec_status_result(value),
        r is Ok <==> value == 0,
{
    let e = HxcfeError::from_status(value);
    match e {
        HxcfeError::HXCFE_NOERROR => Ok(()),
        _ => Err(e),
    }
}

/// Each error's code names that error again, and a code that names an error is
/// that error's code.
pub proof fn lemma_error_code_roundtrip(e: HxcfeError, v: i32)
    ensures
        spec_error_from_code(spec_error_code(e)) == Some(e),
        spec_error_from_code(v) matches Some(f) ==> spec_error_code(f) == v,
        spec_error_from_code(v) is Some <==> -6 <= v <= 1,
{
}

} // verus!
