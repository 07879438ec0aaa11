use vstd::prelude::*;

use crate::error::spec_status_result;
use crate::error::status_result;
use crate::error::HxcfeError;
use crate::floppy_interface::InterfaceMode;
use crate::sector_access::SectorAccess;

verus! {

/// Size figures of a floppy image: its sector count, how many of those
/// sectors are bad, and its size in bytes.
#[derive(Debug)]
pub struct FloppySizeInfo {
    pub nb_sectors: i32,
    pub nb_bad_sectors: i32,
    pub size: i32,
}

/// A floppy disk image held by libhxcfe, known by the address of libhxcfe's
/// floppy record. The address is never 0.
#[derive(Debug)]
pub struct Img {
    floppydisk: usize,
}

/// The interface mode of an image.
pub struct Interface<'img> {
    pub img: &'img Img,
    pub ifmode: InterfaceMode,
}

impl FloppySizeInfo {
    /// The size figures libhxcfe reported for an image.
    pub fn new(nb_sectors: i32, nb_bad_sectors: i32, size: i32) -> (r: Self)
        ensures
            r.nb_sectors == nb_sectors,
            r.nb_bad_sectors == nb_bad_sectors,
            r.size == size,
    {
        FloppySizeInfo { nb_sectors, nb_bad_sectors, size }
    }

    /// The size of the image in bytes.
    pub fn size(&self) -> (r: i32)
        ensures
            r == self.size,
    {
        self.size
    }

    /// The number of sectors of the image.
    pub fn nb_sectors(&self) -> (r: i32)
        ensures
            r == self.nb_sectors,
    {
        self.nb_sectors
    }

    /// The number of bad sectors of the image.
    pub fn nb_bad_sectors(&self) -> (r: i32)
        ensures
            r == self.nb_bad_sectors,
    {
        self.nb_bad_sectors
    }
}

impl Img {
    /// The image whose libhxcfe floppy record lies at `floppydisk`.
    pub fn new(floppydisk: usize) -> (r: Self)
        requires
            floppydisk != 0,
        ensures
            r.spec_floppy() == floppydisk,
    {
        Img { floppydisk }
    }

    /// The address of the image's libhxcfe floppy record.
    pub closed spec fn spec_floppy(&self) -> usize {
        self.floppydisk
    }

    /// The address of libhxcfe's floppy record, for low-level operations.
    pub fn floppy(&self) -> (r: usize)
        ensures
            r == self.spec_floppy(),
            r != 0,
    {
        proof {
            use_type_invariant(self);
        }
        self.floppydisk
    }

    #[verifier::type_invariant]
    spec fn img_invariant(self) -> bool {
        self.floppydisk != 0
    }

    /// The interface of the image, given the interface mode that libhxcfe
    /// reported for it: `None` when libhxcfe's number named no known mode.
    pub fn interface_mode(&self, ifmode: Option<InterfaceMode>) -> (r: Option<Interface<'_>>)
        ensures
            r is Some <==> ifmode is Some,
            r matches Some(i) ==> i.img == self && Some(i.ifmode) == ifmode,
    {
        match ifmode {
            Some(ifmode) => Some(Interface { img: self, ifmode }),
            None => None,
        }
    }

    /// Sector access to the image, given the sector-access context that
    /// libhxcfe opened for it (0 when it could not open one).
    pub fn sector_access(&self, access: usize) -> (r: Option<SectorAccess<'_>>)
        ensures
            r is Some <==> access != 0,
            r matches Some(a) ==> a.spec_img() == self && a.spec_access() == access,
    {
        SectorAccess::new(self, access)
    }

    /// A copy of this image, given the floppy record that libhxcfe's
    /// duplication returned (0 when it failed).
    pub fn duplicate(&self, copy: usize) -> (r: Result<Img, HxcfeError>)
        ensures
            copy == 0 ==> r == Err::<Img, HxcfeError>(HxcfeError::HXCFE_INTERNALERROR),
            copy != 0 ==> (r matches Ok(img) && img.spec_floppy() == copy),
    {
        if copy == 0 {
            Err(HxcfeError::HXCFE_INTERNALERROR)
        } else {
            Ok(Img::new(copy))
        }
    }

    /// The outcome of a sector-by-sector copy from `src` into this image,
    /// given the status that libhxcfe returned: `Ok` for `HXCFE_NOERROR`, and
    /// otherwise the error that the status names (`HXCFE_INTERNALERROR` for
    /// an unknown status). The image keeps its floppy record.
    pub fn copy_sectors_from(&mut self, src: &Img, status: i32) -> (r: Result<(), HxcfeError>)
        ensures
            r == spec_status_result(status),
            *final(self) == *old(self),
    {
        status_result(status)
    }
}

} // verus!
