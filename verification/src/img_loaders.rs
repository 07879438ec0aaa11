use vstd::prelude::*;

use crate::error::spec_error_from_status;
use crate::error::spec_status_result;
use crate::error::status_result;
use crate::error::HxcfeError;
use crate::img::Img;
use crate::text::c_compatible;
use crate::text::spec_c_compatible;

verus! {

/// Access mode for an image loader (read-only, write-only, or read-write).
#[derive(Debug, Clone, Copy, PartialEq, Eq, Structural)]
pub enum ImgLoaderAccess {
    /// Read-only access
    Read,
    /// Write-only access
    Write,
    /// Read and write access
    ReadAndWrite,
}

/// The number libhxcfe uses for each access mode.
pub open spec fn spec_access_code(a: ImgLoaderAccess) -> i32 {
    match a {
        ImgLoaderAccess::Read => 1,
        ImgLoaderAccess::Write => 2,
        ImgLoaderAccess::ReadAndWrite => 3,
    }
}

/// The access mode that libhxcfe's number stands for, if any.
pub open spec fn spec_access_from_code(v: i32) -> Option<ImgLoaderAccess> {
    if v == 1 {
        Some(ImgLoaderAccess::Read)
    } else if v == 2 {
        Some(ImgLoaderAccess::Write)
    } else if v == 3 {
        Some(ImgLoaderAccess::ReadAndWrite)
    } else {
        None
    }
}

/// The short text of an access mode: "R", "W" or "RW".
pub open spec fn spec_access_text(a: ImgLoaderAccess) -> Seq<char> {
    match a {
        ImgLoaderAccess::Read => "R"@,
        ImgLoaderAccess::Write => "W"@,
        ImgLoaderAccess::ReadAndWrite => "RW"@,
    }
}

impl ImgLoaderAccess {
    /// The access mode that libhxcfe numbers `value` (1, 2 or 3), if any.
    pub fn n(value: i32) -> (r: Option<Self>)
        ensures
            r == spec_access_from_code(value),
    {
        if value == 1 {
            Some(ImgLoaderAccess::Read)
        } else if value == 2 {
            Some(ImgLoaderAccess::Write)
        } else if value == 3 {
            Some(ImgLoaderAccess::ReadAndWrite)
        } else {
            None
        }
    }

    /// libhxcfe's number for this access mode.
    pub fn code(&self) -> (r: i32)
        ensures
            r == spec_access_code(*self),
    {
        match self {
            ImgLoaderAccess::Read => 1,
            ImgLoaderAccess::Write => 2,
            ImgLoaderAccess::ReadAndWrite => 3,
        }
    }

    /// Whether a loader with this access can read images: all but write-only
    /// ones.
    pub fn readable(&self) -> (r: bool)
        ensures
            r == (*self != ImgLoaderAccess::Write),
    {
        match self {
            Self::Write => false,
            _ => true,
        }
    }

    /// Whether a loader with this access can write images: all but read-only
    /// ones.
    pub fn writeable(&self) -> (r: bool)
        ensures
            r == (*self != ImgLoaderAccess::Read),
    {
        match self {
            Self::Read => false,
            _ => true,
        }
    }

    /// The text that `Display` writes: "R", "W" or "RW".
    pub fn as_str(&self) -> (r: &'static str)
        ensures
            r@ == spec_access_text(*self),
    {
        match self {
            ImgLoaderAccess::Read => "R",
            ImgLoaderAccess::Write => "W",
            ImgLoaderAccess::ReadAndWrite => "RW",
        }
    }

    /// The text that `Display` writes, as a `String`.
    pub fn to_string(&self) -> (r: String)
        ensures
            r@ == spec_access_text(*self),
    {
        String::from_str(self.as_str())
    }
}

/// Every access mode can read or write (or both); its number reads back as the
/// same mode, and a number reads as a mode exactly when it is 1, 2 or 3.
pub proof fn lemma_access_laws(a: ImgLoaderAccess, v: i32)
    ensures
        (a != ImgLoaderAccess::Write) || (a != ImgLoaderAccess::Read),
        spec_access_from_code(spec_access_code(a)) == Some(a),
        spec_access_from_code(v) matches Some(b) ==> spec_access_code(b) == v,
        spec_access_from_code(v) is Some <==> 1 <= v <= 3,
{
}

/// Manager for floppy disk image loaders: a libhxcfe loader context, with
/// the number of loaders that libhxcfe registered in it.
pub struct ImgLoaderManager {
    handler: usize,
    nb_loaders: i32,
}

/// A specific image loader for a floppy disk format: a loader number of its
/// manager, always below the manager's count.
pub struct ImgLoader<'mngr> {
    manager: &'mngr ImgLoaderManager,
    idx: i32,
}

/// Whether loader number `idx` exists in a manager holding `nb_loaders`.
pub open spec fn spec_valid_loader(idx: i32, nb_loaders: i32) -> bool {
    0 <= idx < nb_loaders
}

/// The outcome of loading an image: the status libhxcfe returned and the
/// floppy record it made (0 for none). The load succeeds exactly when the
/// status is `HXCFE_NOERROR` and a record was made; otherwise the error is the
/// one the status names, which is `HXCFE_NOERROR` itself when libhxcfe said
/// nothing went wrong but made no record.
pub open spec fn spec_load_ok(status: i32, floppydisk: usize) -> bool {
    spec_error_from_status(status) == HxcfeError::HXCFE_NOERROR && floppydisk != 0
}

/// Reads what libhxcfe returned from a load: the status and the floppy record.
pub fn load_result(status: i32, floppydisk: usize) -> (r: Result<Img, HxcfeError>)
    ensures
        spec_load_ok(status, floppydisk) ==> (r matches Ok(img) && img.spec_floppy() == floppydisk),
        !spec_load_ok(status, floppydisk) ==> r == Err::<Img, HxcfeError>(
            spec_error_from_status(status),
        ),
{
    let e = HxcfeError::from_status(status);
    match e {
        HxcfeError::HXCFE_NOERROR => {
            if floppydisk == 0 {
                Err(e)
            } else {
                Ok(Img::new(floppydisk))
            }
        },
        _ => Err(e),
    }
}

impl ImgLoaderManager {
    /// A manager for the loader context that libhxcfe made (`None` when it
    /// returned no context, 0), holding `nb_loaders` loaders.
    pub fn new(handler: usize, nb_loaders: i32) -> (r: Option<Self>)
        ensures
            r is Some <==> handler != 0,
            r matches Some(m) ==> m.spec_handler() == handler && m.spec_nb_loaders() == nb_loaders,
    {
        if handler == 0 {
            None
        } else {
            Some(ImgLoaderManager { handler, nb_loaders })
        }
    }

    /// The address of the libhxcfe loader context.
    pub closed spec fn spec_handler(&self) -> usize {
        self.handler
    }

    /// The number of loaders in the context.
    pub closed spec fn spec_nb_loaders(&self) -> i32 {
        self.nb_loaders
    }

    /// The address of the libhxcfe loader context, for libhxcfe calls.
    pub fn handler(&self) -> (r: usize)
        ensures
            r == self.spec_handler(),
    {
        self.handler
    }

    /// Get the total number of available image loaders.
    pub fn nb_loaders(&self) -> (r: i32)
        ensures
            r == self.spec_nb_loaders(),
    {
        self.nb_loaders
    }

    /// Get a loader by its numeric ID: `Some` exactly when the ID lies in
    /// 0..nb_loaders().
    pub fn loader_for_id(&self, idx: i32) -> (r: Option<ImgLoader<'_>>)
        ensures
            r is Some <==> spec_valid_loader(idx, self.spec_nb_loaders()),
            r matches Some(l) ==> l.spec_idx() == idx && l.spec_manager() == self,
    {
        if idx >= 0 && idx < self.nb_loaders {
            Some(ImgLoader { manager: self, idx })
        } else {
            None
        }
    }

    /// Find a loader by format name (e.g. "HXC_HFE"), given the loader number
    /// that libhxcfe's name lookup returned for it. A name holding a 0 byte
    /// cannot be looked up and finds no loader; otherwise the loader is the one
    /// with the returned number, if that number is valid.
    pub fn loader_for_format(&self, format: &str, found_id: i32) -> (r: Option<ImgLoader<'_>>)
        ensures
            r is Some <==> (spec_c_compatible(format) && spec_valid_loader(
                found_id,
                self.spec_nb_loaders(),
            )),
            r matches Some(l) ==> l.spec_idx() == found_id && l.spec_manager() == self,
    {
        if !c_compatible(format) {
            return None;
        }
        self.loader_for_id(found_id)
    }

    /// Find a loader by its text identifier, given the loader number that
    /// libhxcfe's name lookup returned for it; as [`Self::loader_for_format`].
    pub fn loader_for_text_id(&self, text: &str, found_id: i32) -> (r: Option<ImgLoader<'_>>)
        ensures
            r is Some <==> (spec_c_compatible(text) && spec_valid_loader(
                found_id,
                self.spec_nb_loaders(),
            )),
            r matches Some(l) ==> l.spec_idx() == found_id && l.spec_manager() == self,
    {
        if !c_compatible(text) {
            return None;
        }
        self.loader_for_id(found_id)
    }

    /// Find the loader for an image file, given whether the file exists and
    /// the loader number that libhxcfe's format detection returned for it. A
    /// file that does not exist, or whose name holds a 0 byte, has no loader;
    /// otherwise the loader is the detected one, if its number is valid.
    pub fn loader_for_fname(&self, path: &str, exists: bool, detected_id: i32) -> (r: Option<
        ImgLoader<'_>,
    >)
        ensures
            r is Some <==> (exists && spec_c_compatible(path) && spec_valid_loader(
                detected_id,
                self.spec_nb_loaders(),
            )),
            r matches Some(l) ==> l.spec_idx() == detected_id && l.spec_manager() == self,
    {
        if !exists {
            return None;
        }
        if !c_compatible(path) {
            return None;
        }
        self.loader_for_id(detected_id)
    }
}

impl<'mngr> ImgLoader<'mngr> {
    /// The loader's number.
    pub closed spec fn spec_idx(&self) -> i32 {
        self.idx
    }

    /// The loader's manager.
    pub closed spec fn spec_manager(&self) -> &'mngr ImgLoaderManager {
        self.manager
    }

    #[verifier::type_invariant]
    spec fn loader_invariant(self) -> bool {
        spec_valid_loader(self.idx, self.manager.nb_loaders)
    }

    /// The loader's number.
    pub fn idx(&self) -> (r: i32)
        ensures
            r == self.spec_idx(),
            spec_valid_loader(r, self.spec_manager().spec_nb_loaders()),
    {
        proof {
            use_type_invariant(self);
        }
        self.idx
    }

    /// The loader's manager.
    pub fn manager(&self) -> (r: &'mngr ImgLoaderManager)
        ensures
            r == self.spec_manager(),
    {
        self.manager
    }

    /// The access mode of the loader, from the number libhxcfe reports for it,
    /// which is always 1, 2 or 3.
    pub fn access(&self, code: i32) -> (r: ImgLoaderAccess)
        requires
            1 <= code <= 3,
        ensures
            Some(r) == spec_access_from_code(code),
    {
        match ImgLoaderAccess::n(code) {
            Some(a) => a,
            None => ImgLoaderAccess::Read,
        }
    }

    /// Load a floppy disk image from the file `path`, given what libhxcfe's
    /// load returned: its status and the floppy record it made (0 for none).
    /// A path holding a 0 byte cannot be handed to libhxcfe and gives
    /// `HXCFE_BADPARAMETER`; otherwise the outcome is read as
    /// [`load_result`] reads it.
    pub fn load(&self, path: &str, status: i32, floppydisk: usize) -> (r: Result<Img, HxcfeError>)
        ensures
            !spec_c_compatible(path) ==> r == Err::<Img, HxcfeError>(
                HxcfeError::HXCFE_BADPARAMETER,
            ),
            spec_c_compatible(path) && spec_load_ok(status, floppydisk) ==> (r matches Ok(img)
                && img.spec_floppy() == floppydisk),
            spec_c_compatible(path) && !spec_load_ok(status, floppydisk) ==> r == Err::<
                Img,
                HxcfeError,
            >(spec_error_from_status(status)),
    {
        if !c_compatible(path) {
            return Err(HxcfeError::HXCFE_BADPARAMETER);
        }
        load_result(status, floppydisk)
    }

    /// Save a floppy disk image to the file `path`, given the status that
    /// libhxcfe's export returned. A path holding a 0 byte gives
    /// `HXCFE_BADPARAMETER`; otherwise the save succeeds exactly when the
    /// status is `HXCFE_NOERROR`.
    pub fn save(&self, path: &str, img: &Img, status: i32) -> (r: Result<(), HxcfeError>)
        ensures
            !spec_c_compatible(path) ==> r == Err::<(), HxcfeError>(
                HxcfeError::HXCFE_BADPARAMETER,
            ),
            spec_c_compatible(path) ==> r == spec_status_result(status),
    {
        if !c_compatible(path) {
            return Err(HxcfeError::HXCFE_BADPARAMETER);
        }
        status_result(status)
    }
}

/// Loading refuses a path as a bad parameter only for a 0 byte: a path is
/// usable exactly when none of its characters is U+0000 (so a path holding
/// spaces or any other character is usable), and a load that libhxcfe
/// reports with status 0 and a non-null floppy record succeeds.
pub proof fn lemma_load_refuses_only_nul_paths(path: &str, floppydisk: usize)
    ensures
        spec_c_compatible(path) <==> (forall|i: int| 0 <= i < path@.len() ==> path@[i] != '\0'),
        floppydisk != 0 ==> spec_load_ok(0, floppydisk),
{
    assert(spec_error_from_status(0) == HxcfeError::HXCFE_NOERROR);
    if !spec_c_compatible(path) {
        let k = choose|k: int| 0 <= k < path@.len() && path@[k] == '\0';
        assert(path@[k] == '\0');
    }
}

} // verus!
