use vstd::prelude::*;

use crate::text::decimal_string;
use crate::text::spec_decimal;
use crate::text::ends_with;
use crate::text::has_infix;
use crate::text::infix_at;
use crate::text::lemma_ends_with_last;
use crate::text::lemma_missing_char_no_infix;

verus! {

/// Track number identifier.
#[derive(Debug, Clone, Copy, PartialEq, Eq, Structural, PartialOrd, Ord, Hash)]
pub struct TrackId(i32);

impl View for TrackId {
    type V = i32;

    closed spec fn view(&self) -> i32 {
        self.0
    }
}

impl TrackId {
    /// The value that wraps the raw number `v`.
    pub closed spec fn spec_new(v: i32) -> Self {
        TrackId(v)
    }

    /// Wraps a raw track number.
    pub fn new(id: i32) -> (r: Self)
        ensures
            r@ == id,
    {
        TrackId(id)
    }

    /// The raw track number.
    pub fn get(self) -> (r: i32)
        ensures
            r == self@,
    {
        self.0
    }


    /// The decimal text of the track number, as `Display` writes it.
    pub fn to_string(&self) -> (r: String)
        ensures
            r@ == spec_decimal(self@ as int),
    {
        decimal_string(self.0)
    }

}

impl From<i32> for TrackId {
    fn from(id: i32) -> (r: Self)
        ensures
            r@ == id,
    {
        TrackId(id)
    }
}

impl vstd::std_specs::convert::FromSpecImpl<i32> for TrackId {
    open spec fn obeys_from_spec() -> bool {
        true
    }

    open spec fn from_spec(v: i32) -> Self {
        TrackId::spec_new(v)
    }
}

impl From<TrackId> for i32 {
    fn from(id: TrackId) -> (r: i32)
        ensures
            r == id@,
    {
        id.0
    }
}

impl vstd::std_specs::convert::FromSpecImpl<TrackId> for i32 {
    open spec fn obeys_from_spec() -> bool {
        true
    }

    open spec fn from_spec(v: TrackId) -> i32 {
        v@
    }
}

/// A `TrackId` is determined by its number, and converting it to `i32` and
/// back (or the other way round) gives back the value one started from.
pub proof fn lemma_track_id_roundtrip(a: TrackId, b: TrackId, v: i32)
    ensures
        a@ == b@ ==> a == b,
        <TrackId as vstd::std_specs::convert::FromSpec<i32>>::from_spec(v)@ == v,
        <i32 as vstd::std_specs::convert::FromSpec<TrackId>>::from_spec(a) == a@,
{
}

/// Head/Side identifier (typically 0 or 1).
#[derive(Debug, Clone, Copy, PartialEq, Eq, Structural, PartialOrd, Ord, Hash)]
pub struct HeadId(i32);

impl View for HeadId {
    type V = i32;

    closed spec fn view(&self) -> i32 {
        self.0
    }
}

impl HeadId {
    /// The value that wraps the raw number `v`.
    pub closed spec fn spec_new(v: i32) -> Self {
        HeadId(v)
    }

    /// Wraps a raw head number.
    pub fn new(id: i32) -> (r: Self)
        ensures
            r@ == id,
    {
        HeadId(id)
    }

    /// The raw head number.
    pub fn get(self) -> (r: i32)
        ensures
            r == self@,
    {
        self.0
    }


    /// The decimal text of the head number, as `Display` writes it.
    pub fn to_string(&self) -> (r: String)
        ensures
            r@ == spec_decimal(self@ as int),
    {
        decimal_string(self.0)
    }

}

impl From<i32> for HeadId {
    fn from(id: i32) -> (r: Self)
        ensures
            r@ == id,
    {
        HeadId(id)
    }
}

impl vstd::std_specs::convert::FromSpecImpl<i32> for HeadId {
    open spec fn obeys_from_spec() -> bool {
        true
    }

    open spec fn from_spec(v: i32) -> Self {
        HeadId::spec_new(v)
    }
}

impl From<HeadId> for i32 {
    fn from(id: HeadId) -> (r: i32)
        ensures
            r == id@,
    {
        id.0
    }
}

impl vstd::std_specs::convert::FromSpecImpl<HeadId> for i32 {
    open spec fn obeys_from_spec() -> bool {
        true
    }

    open spec fn from_spec(v: HeadId) -> i32 {
        v@
    }
}

/// A `HeadId` is determined by its number, and converting it to `i32` and
/// back (or the other way round) gives back the value one started from.
pub proof fn lemma_head_id_roundtrip(a: HeadId, b: HeadId, v: i32)
    ensures
        a@ == b@ ==> a == b,
        <HeadId as vstd::std_specs::convert::FromSpec<i32>>::from_spec(v)@ == v,
        <i32 as vstd::std_specs::convert::FromSpec<HeadId>>::from_spec(a) == a@,
{
}

/// Sector identifier.
#[derive(Debug, Clone, Copy, PartialEq, Eq, Structural, PartialOrd, Ord, Hash)]
pub struct SectorId(i32);

impl View for SectorId {
    type V = i32;

    closed spec fn view(&self) -> i32 {
        self.0
    }
}

impl SectorId {
    /// The value that wraps the raw number `v`.
    pub closed spec fn spec_new(v: i32) -> Self {
        SectorId(v)
    }

    /// Wraps a raw sector number.
    pub fn new(id: i32) -> (r: Self)
        ensures
            r@ == id,
    {
        SectorId(id)
    }

    /// The raw sector number.
    pub fn get(self) -> (r: i32)
        ensures
            r == self@,
    {
        self.0
    }


    /// The decimal text of the sector number, as `Display` writes it.
    pub fn to_string(&self) -> (r: String)
        ensures
            r@ == spec_decimal(self@ as int),
    {
        decimal_string(self.0)
    }

}

impl From<i32> for SectorId {
    fn from(id: i32) -> (r: Self)
        ensures
            r@ == id,
    {
        SectorId(id)
    }
}

impl vstd::std_specs::convert::FromSpecImpl<i32> for SectorId {
    open spec fn obeys_from_spec() -> bool {
        true
    }

    open spec fn from_spec(v: i32) -> Self {
        SectorId::spec_new(v)
    }
}

impl From<SectorId> for i32 {
    fn from(id: SectorId) -> (r: i32)
        ensures
            r == id@,
    {
        id.0
    }
}

impl vstd::std_specs::convert::FromSpecImpl<SectorId> for i32 {
    open spec fn obeys_from_spec() -> bool {
        true
    }

    open spec fn from_spec(v: SectorId) -> i32 {
        v@
    }
}

/// A `SectorId` is determined by its number, and converting it to `i32` and
/// back (or the other way round) gives back the value one started from.
pub proof fn lemma_sector_id_roundtrip(a: SectorId, b: SectorId, v: i32)
    ensures
        a@ == b@ ==> a == b,
        <SectorId as vstd::std_specs::convert::FromSpec<i32>>::from_spec(v)@ == v,
        <i32 as vstd::std_specs::convert::FromSpec<SectorId>>::from_spec(a) == a@,
{
}

/// USB drive identifier (0-3).
#[derive(Debug, Clone, Copy, PartialEq, Eq, Structural, PartialOrd, Ord, Hash)]
pub struct DriveId(i32);

impl View for DriveId {
    type V = i32;

    closed spec fn view(&self) -> i32 {
        self.0
    }
}

impl DriveId {
    /// The value that wraps the raw number `v`.
    pub closed spec fn spec_new(v: i32) -> Self {
        DriveId(v)
    }

    /// Wraps a raw drive number.
    pub fn new(id: i32) -> (r: Self)
        ensures
            r@ == id,
    {
        DriveId(id)
    }

    /// The raw drive number.
    pub fn get(self) -> (r: i32)
        ensures
            r == self@,
    {
        self.0
    }


    /// Builds a drive identifier from a drive number, which must lie in 0..=3.
    pub fn from_u8(id: u8) -> (r: Option<Self>)
        ensures
            r matches Some(d) ==> d@ == id as i32,
            r is None <==> id > 3,
    {
        if id <= 3 {
            Some(DriveId(id as i32))
        } else {
            None
        }
    }


    /// The decimal text of the drive number, as `Display` writes it.
    pub fn to_string(&self) -> (r: String)
        ensures
            r@ == spec_decimal(self@ as int),
    {
        decimal_string(self.0)
    }

}

impl From<i32> for DriveId {
    fn from(id: i32) -> (r: Self)
        ensures
            r@ == id,
    {
        DriveId(id)
    }
}

impl vstd::std_specs::convert::FromSpecImpl<i32> for DriveId {
    open spec fn obeys_from_spec() -> bool {
        true
    }

    open spec fn from_spec(v: i32) -> Self {
        DriveId::spec_new(v)
    }
}

impl From<DriveId> for i32 {
    fn from(id: DriveId) -> (r: i32)
        ensures
            r == id@,
    {
        id.0
    }
}

impl vstd::std_specs::convert::FromSpecImpl<DriveId> for i32 {
    open spec fn obeys_from_spec() -> bool {
        true
    }

    open spec fn from_spec(v: DriveId) -> i32 {
        v@
    }
}

/// A `DriveId` is determined by its number, and converting it to `i32` and
/// back (or the other way round) gives back the value one started from.
pub proof fn lemma_drive_id_roundtrip(a: DriveId, b: DriveId, v: i32)
    ensures
        a@ == b@ ==> a == b,
        <DriveId as vstd::std_specs::convert::FromSpec<i32>>::from_spec(v)@ == v,
        <i32 as vstd::std_specs::convert::FromSpec<DriveId>>::from_spec(a) == a@,
{
}

/// File handle from filesystem operations.
#[derive(Debug, Clone, Copy, PartialEq, Eq, Structural, Hash)]
pub struct FileHandle(i32);

impl View for FileHandle {
    type V = i32;

    closed spec fn view(&self) -> i32 {
        self.0
    }
}

impl FileHandle {
    /// The value that wraps the raw number `v`.
    pub closed spec fn spec_new(v: i32) -> Self {
        FileHandle(v)
    }

    /// Wraps a raw file handle.
    pub(crate) fn new(handle: i32) -> (r: Self)
        ensures
            r@ == handle,
    {
        FileHandle(handle)
    }

    /// The raw file handle.
    pub fn get(self) -> (r: i32)
        ensures
            r == self@,
    {
        self.0
    }


    /// The decimal text of the file handle, as `Display` writes it.
    pub fn to_string(&self) -> (r: String)
        ensures
            r@ == spec_decimal(self@ as int),
    {
        decimal_string(self.0)
    }

}

impl From<i32> for FileHandle {
    fn from(handle: i32) -> (r: Self)
        ensures
            r@ == handle,
    {
        FileHandle(handle)
    }
}

impl vstd::std_specs::convert::FromSpecImpl<i32> for FileHandle {
    open spec fn obeys_from_spec() -> bool {
        true
    }

    open spec fn from_spec(v: i32) -> Self {
        FileHandle::spec_new(v)
    }
}

impl From<FileHandle> for i32 {
    fn from(handle: FileHandle) -> (r: i32)
        ensures
            r == handle@,
    {
        handle.0
    }
}

impl vstd::std_specs::convert::FromSpecImpl<FileHandle> for i32 {
    open spec fn obeys_from_spec() -> bool {
        true
    }

    open spec fn from_spec(v: FileHandle) -> i32 {
        v@
    }
}

/// A `FileHandle` is determined by its number, and converting it to `i32` and
/// back (or the other way round) gives back the value one started from.
pub proof fn lemma_file_handle_roundtrip(a: FileHandle, b: FileHandle, v: i32)
    ensures
        a@ == b@ ==> a == b,
        <FileHandle as vstd::std_specs::convert::FromSpec<i32>>::from_spec(v)@ == v,
        <i32 as vstd::std_specs::convert::FromSpec<FileHandle>>::from_spec(a) == a@,
{
}

/// Directory handle from filesystem operations.
#[derive(Debug, Clone, Copy, PartialEq, Eq, Structural, Hash)]
pub(crate) struct DirHandle(i32);

impl View for DirHandle {
    type V = i32;

    closed spec fn view(&self) -> i32 {
        self.0
    }
}

impl DirHandle {
    /// Wraps a raw directory handle.
    pub(crate) fn new(handle: i32) -> (r: Self)
        ensures
            r@ == handle,
    {
        DirHandle(handle)
    }

    /// The raw directory handle.
    pub(crate) fn get(self) -> (r: i32)
        ensures
            r == self@,
    {
        self.0
    }

}

/// Interface mode identifier.
#[derive(Debug, Clone, Copy, PartialEq, Eq, Structural, Hash)]
pub struct InterfaceModeId(i32);

impl View for InterfaceModeId {
    type V = i32;

    closed spec fn view(&self) -> i32 {
        self.0
    }
}

impl InterfaceModeId {
    /// The value that wraps the raw number `v`.
    pub closed spec fn spec_new(v: i32) -> Self {
        InterfaceModeId(v)
    }

    /// Wraps a raw interface mode number.
    pub fn new(id: i32) -> (r: Self)
        ensures
            r@ == id,
    {
        InterfaceModeId(id)
    }

    /// The raw interface mode number.
    pub fn get(self) -> (r: i32)
        ensures
            r == self@,
    {
        self.0
    }


    /// The decimal text of the interface mode number, as `Display` writes it.
    pub fn to_string(&self) -> (r: String)
        ensures
            r@ == spec_decimal(self@ as int),
    {
        decimal_string(self.0)
    }

}

impl From<i32> for InterfaceModeId {
    fn from(id: i32) -> (r: Self)
        ensures
            r@ == id,
    {
        InterfaceModeId(id)
    }
}

impl vstd::std_specs::convert::FromSpecImpl<i32> for InterfaceModeId {
    open spec fn obeys_from_spec() -> bool {
        true
    }

    open spec fn from_spec(v: i32) -> Self {
        InterfaceModeId::spec_new(v)
    }
}

impl From<InterfaceModeId> for i32 {
    fn from(id: InterfaceModeId) -> (r: i32)
        ensures
            r == id@,
    {
        id.0
    }
}

impl vstd::std_specs::convert::FromSpecImpl<InterfaceModeId> for i32 {
    open spec fn obeys_from_spec() -> bool {
        true
    }

    open spec fn from_spec(v: InterfaceModeId) -> i32 {
        v@
    }
}

/// A `InterfaceModeId` is determined by its number, and converting it to `i32` and
/// back (or the other way round) gives back the value one started from.
pub proof fn lemma_interface_mode_id_roundtrip(a: InterfaceModeId, b: InterfaceModeId, v: i32)
    ensures
        a@ == b@ ==> a == b,
        <InterfaceModeId as vstd::std_specs::convert::FromSpec<i32>>::from_spec(v)@ == v,
        <i32 as vstd::std_specs::convert::FromSpec<InterfaceModeId>>::from_spec(a) == a@,
{
}

/// Layout index for selecting disk layouts.
#[derive(Debug, Clone, Copy, PartialEq, Eq, Structural, PartialOrd, Ord, Hash)]
pub struct LayoutIndex(i32);

impl View for LayoutIndex {
    type V = i32;

    closed spec fn view(&self) -> i32 {
        self.0
    }
}

impl LayoutIndex {
    /// The value that wraps the raw number `v`.
    pub closed spec fn spec_new(v: i32) -> Self {
        LayoutIndex(v)
    }

    /// Wraps a raw layout index.
    pub fn new(index: i32) -> (r: Self)
        ensures
            r@ == index,
    {
        LayoutIndex(index)
    }

    /// The raw layout index.
    pub fn get(self) -> (r: i32)
        ensures
            r == self@,
    {
        self.0
    }


    /// The decimal text of the layout index, as `Display` writes it.
    pub fn to_string(&self) -> (r: String)
        ensures
            r@ == spec_decimal(self@ as int),
    {
        decimal_string(self.0)
    }

}

impl From<i32> for LayoutIndex {
    fn from(index: i32) -> (r: Self)
        ensures
            r@ == index,
    {
        LayoutIndex(index)
    }
}

impl vstd::std_specs::convert::FromSpecImpl<i32> for LayoutIndex {
    open spec fn obeys_from_spec() -> bool {
        true
    }

    open spec fn from_spec(v: i32) -> Self {
        LayoutIndex::spec_new(v)
    }
}

impl From<LayoutIndex> for i32 {
    fn from(index: LayoutIndex) -> (r: i32)
        ensures
            r == index@,
    {
        index.0
    }
}

impl vstd::std_specs::convert::FromSpecImpl<LayoutIndex> for i32 {
    open spec fn obeys_from_spec() -> bool {
        true
    }

    open spec fn from_spec(v: LayoutIndex) -> i32 {
        v@
    }
}

/// A `LayoutIndex` is determined by its number, and converting it to `i32` and
/// back (or the other way round) gives back the value one started from.
pub proof fn lemma_layout_index_roundtrip(a: LayoutIndex, b: LayoutIndex, v: i32)
    ensures
        a@ == b@ ==> a == b,
        <LayoutIndex as vstd::std_specs::convert::FromSpec<i32>>::from_spec(v)@ == v,
        <i32 as vstd::std_specs::convert::FromSpec<LayoutIndex>>::from_spec(a) == a@,
{
}

/// Filesystem type identifier.
///
/// Corresponds to the filesystem types supported by libhxcfe. These determine
/// the format used when creating or mounting disk images. Each variant stands
/// for the number libhxcfe gives that filesystem (see `get_u32`); the numbers
/// are exactly 0 to 39.
#[allow(non_camel_case_types)]
#[derive(Debug, Clone, Copy, PartialEq, Eq, Structural, Hash)]
pub enum FileSystemId {
    Atari720KbFat12,
    Atari902KbFat12,
    Atari360KbFat12,
    Atari3_42MbFat12,
    Amiga880KbDos,
    Amiga1760KbDos,
    MsDos5P25_300Rpm_160KbFat12,
    MsDos5P25_360Rpm_160KbFat12,
    MsDos5P25_300Rpm_180KbFat12,
    MsDos5P25_360Rpm_180KbFat12,
    MsDos5P25Ss_300Rpm_320KbFat12,
    MsDos5P25Ss_360Rpm_320KbFat12,
    MsDos5P25Ds_300Rpm_320KbFat12,
    MsDos5P25Ds_360Rpm_320KbFat12,
    MsDos5P25Ds_300Rpm_360KbFat12,
    MsDos5P25Ds_360Rpm_360KbFat12,
    MsDos5P25_300Rpm_1200KbFat12,
    MsDos5P25_300Rpm_1230KbFat12,
    MsDos3P5Ds_300Rpm_640KbFat12,
    MsDos720KbFat12,
    MsDos738KbFat12,
    MsDos800KbFat12,
    MsDos820KbFat12,
    MsDos1_44MbFat12,
    MsDos1_476MbFat12,
    MsDos1_600MbFat12,
    MsDos1_640MbFat12,
    MsDos1_68MbFat12,
    MsDos1_722MbFat12,
    MsDos1_743MbFat12,
    MsDos1_764MbFat12,
    MsDos1_785MbFat12,
    MsDos2_50MbFat12,
    MsDos2_88MbFat12,
    MsDos3_38MbFat12,
    MsDos4_50MbFat12,
    MsDos5_35MbFat12,
    MsDos5_35MbBFat12,
    MsDos6_78MbFat12,
    MsDos16MbFat12,
}

/// The number of filesystem types that libhxcfe knows.
pub const NB_FILE_SYSTEMS: u32 = 40;

/// The libhxcfe number of a filesystem type.
pub open spec fn spec_fs_code(id: FileSystemId) -> u32 {
    match id {
        FileSystemId::Atari720KbFat12 => 0,
        FileSystemId::Atari902KbFat12 => 1,
        FileSystemId::Atari360KbFat12 => 2,
        FileSystemId::Atari3_42MbFat12 => 25,
        FileSystemId::Amiga880KbDos => 3,
        FileSystemId::Amiga1760KbDos => 24,
        FileSystemId::MsDos5P25_300Rpm_160KbFat12 => 4,
        FileSystemId::MsDos5P25_360Rpm_160KbFat12 => 5,
        FileSystemId::MsDos5P25_300Rpm_180KbFat12 => 6,
        FileSystemId::MsDos5P25_360Rpm_180KbFat12 => 7,
        FileSystemId::MsDos5P25Ss_300Rpm_320KbFat12 => 8,
        FileSystemId::MsDos5P25Ss_360Rpm_320KbFat12 => 9,
        FileSystemId::MsDos5P25Ds_300Rpm_320KbFat12 => 10,
        FileSystemId::MsDos5P25Ds_360Rpm_320KbFat12 => 11,
        FileSystemId::MsDos5P25Ds_300Rpm_360KbFat12 => 12,
        FileSystemId::MsDos5P25Ds_360Rpm_360KbFat12 => 13,
        FileSystemId::MsDos5P25_300Rpm_1200KbFat12 => 16,
        FileSystemId::MsDos5P25_300Rpm_1230KbFat12 => 26,
        FileSystemId::MsDos3P5Ds_300Rpm_640KbFat12 => 14,
        FileSystemId::MsDos720KbFat12 => 15,
        FileSystemId::MsDos738KbFat12 => 27,
        FileSystemId::MsDos800KbFat12 => 28,
        FileSystemId::MsDos820KbFat12 => 29,
        FileSystemId::MsDos1_44MbFat12 => 17,
        FileSystemId::MsDos1_476MbFat12 => 30,
        FileSystemId::MsDos1_600MbFat12 => 31,
        FileSystemId::MsDos1_640MbFat12 => 32,
        FileSystemId::MsDos1_68MbFat12 => 18,
        FileSystemId::MsDos1_722MbFat12 => 33,
        FileSystemId::MsDos1_743MbFat12 => 34,
        FileSystemId::MsDos1_764MbFat12 => 35,
        FileSystemId::MsDos1_785MbFat12 => 36,
        FileSystemId::MsDos2_50MbFat12 => 37,
        FileSystemId::MsDos2_88MbFat12 => 19,
        FileSystemId::MsDos3_38MbFat12 => 20,
        FileSystemId::MsDos4_50MbFat12 => 21,
        FileSystemId::MsDos5_35MbFat12 => 38,
        FileSystemId::MsDos5_35MbBFat12 => 39,
        FileSystemId::MsDos6_78MbFat12 => 22,
        FileSystemId::MsDos16MbFat12 => 23,
    }
}

/// The filesystem type that libhxcfe numbers `v`, if any.
pub open spec fn spec_fs_from_code(v: u32) -> Option<FileSystemId> {
    if v < NB_FILE_SYSTEMS {
        Some(choose|f: FileSystemId| spec_fs_code(f) == v)
    } else {
        None
    }
}

/// The human-readable description of a filesystem type.
pub open spec fn spec_fs_description(id: FileSystemId) -> Seq<char> {
    match id {
        FileSystemId::Atari720KbFat12 => "720KB Atari FAT12"@,
        FileSystemId::Atari902KbFat12 => "902KB Atari FAT12"@,
        FileSystemId::Atari360KbFat12 => "360KB Atari FAT12"@,
        FileSystemId::Atari3_42MbFat12 => "3.42MB Atari FAT12"@,
        FileSystemId::Amiga880KbDos => "880KB AmigaDOS"@,
        FileSystemId::Amiga1760KbDos => "1760KB AmigaDOS"@,
        FileSystemId::MsDos5P25_300Rpm_160KbFat12 => "5.25\" 300RPM 160KB MS-DOS FAT12"@,
        FileSystemId::MsDos5P25_360Rpm_160KbFat12 => "5.25\" 360RPM 160KB MS-DOS FAT12"@,
        FileSystemId::MsDos5P25_300Rpm_180KbFat12 => "5.25\" 300RPM 180KB MS-DOS FAT12"@,
        FileSystemId::MsDos5P25_360Rpm_180KbFat12 => "5.25\" 360RPM 180KB MS-DOS FAT12"@,
        FileSystemId::MsDos5P25Ss_300Rpm_320KbFat12 => "5.25\" SS 300RPM 320KB MS-DOS FAT12"@,
        FileSystemId::MsDos5P25Ss_360Rpm_320KbFat12 => "5.25\" SS 360RPM 320KB MS-DOS FAT12"@,
        FileSystemId::MsDos5P25Ds_300Rpm_320KbFat12 => "5.25\" DS 300RPM 320KB MS-DOS FAT12"@,
        FileSystemId::MsDos5P25Ds_360Rpm_320KbFat12 => "5.25\" DS 360RPM 320KB MS-DOS FAT12"@,
        FileSystemId::MsDos5P25Ds_300Rpm_360KbFat12 => "5.25\" DS 300RPM 360KB MS-DOS FAT12"@,
        FileSystemId::MsDos5P25Ds_360Rpm_360KbFat12 => "5.25\" DS 360RPM 360KB MS-DOS FAT12"@,
        FileSystemId::MsDos5P25_300Rpm_1200KbFat12 => "5.25\" 300RPM 1200KB MS-DOS FAT12"@,
        FileSystemId::MsDos5P25_300Rpm_1230KbFat12 => "5.25\" 300RPM 1230KB MS-DOS FAT12"@,
        FileSystemId::MsDos3P5Ds_300Rpm_640KbFat12 => "3.5\" DS 300RPM 640KB MS-DOS FAT12"@,
        FileSystemId::MsDos720KbFat12 => "720KB MS-DOS FAT12"@,
        FileSystemId::MsDos738KbFat12 => "738KB MS-DOS FAT12"@,
        FileSystemId::MsDos800KbFat12 => "800KB MS-DOS FAT12"@,
        FileSystemId::MsDos820KbFat12 => "820KB MS-DOS FAT12"@,
        FileSystemId::MsDos1_44MbFat12 => "1.44MB MS-DOS FAT12"@,
        FileSystemId::MsDos1_476MbFat12 => "1.476MB MS-DOS FAT12"@,
        FileSystemId::MsDos1_600MbFat12 => "1.600MB MS-DOS FAT12"@,
        FileSystemId::MsDos1_640MbFat12 => "1.640MB MS-DOS FAT12"@,
        FileSystemId::MsDos1_68MbFat12 => "1.68MB MS-DOS FAT12"@,
        FileSystemId::MsDos1_722MbFat12 => "1.722MB MS-DOS FAT12"@,
        FileSystemId::MsDos1_743MbFat12 => "1.743MB MS-DOS FAT12"@,
        FileSystemId::MsDos1_764MbFat12 => "1.764MB MS-DOS FAT12"@,
        FileSystemId::MsDos1_785MbFat12 => "1.785MB MS-DOS FAT12"@,
        FileSystemId::MsDos2_50MbFat12 => "2.50MB MS-DOS FAT12"@,
        FileSystemId::MsDos2_88MbFat12 => "2.88MB MS-DOS FAT12"@,
        FileSystemId::MsDos3_38MbFat12 => "3.38MB MS-DOS FAT12"@,
        FileSystemId::MsDos4_50MbFat12 => "4.50MB MS-DOS FAT12"@,
        FileSystemId::MsDos5_35MbFat12 => "5.35MB MS-DOS FAT12"@,
        FileSystemId::MsDos5_35MbBFat12 => "5.35MB-B MS-DOS FAT12"@,
        FileSystemId::MsDos6_78MbFat12 => "6.78MB MS-DOS FAT12"@,
        FileSystemId::MsDos16MbFat12 => "16MB MS-DOS FAT12"@,
    }
}

impl FileSystemId {
    /// Create from raw filesystem ID (u32), returning None if no filesystem
    /// type has that number.
    pub fn from_u32(id: u32) -> (r: Option<Self>)
        ensures
            r == spec_fs_from_code(id),
            r matches Some(f) ==> spec_fs_code(f) == id,
            r is None <==> id >= NB_FILE_SYSTEMS,
    {
        let r = match id {
            0 => Some(FileSystemId::Atari720KbFat12),
            1 => Some(FileSystemId::Atari902KbFat12),
            2 => Some(FileSystemId::Atari360KbFat12),
            3 => Some(FileSystemId::Amiga880KbDos),
            4 => Some(FileSystemId::MsDos5P25_300Rpm_160KbFat12),
            5 => Some(FileSystemId::MsDos5P25_360Rpm_160KbFat12),
            6 => Some(FileSystemId::MsDos5P25_300Rpm_180KbFat12),
            7 => Some(FileSystemId::MsDos5P25_360Rpm_180KbFat12),
            8 => Some(FileSystemId::MsDos5P25Ss_300Rpm_320KbFat12),
            9 => Some(FileSystemId::MsDos5P25Ss_360Rpm_320KbFat12),
            10 => Some(FileSystemId::MsDos5P25Ds_300Rpm_320KbFat12),
            11 => Some(FileSystemId::MsDos5P25Ds_360Rpm_320KbFat12),
            12 => Some(FileSystemId::MsDos5P25Ds_300Rpm_360KbFat12),
            13 => Some(FileSystemId::MsDos5P25Ds_360Rpm_360KbFat12),
            14 => Some(FileSystemId::MsDos3P5Ds_300Rpm_640KbFat12),
            15 => Some(FileSystemId::MsDos720KbFat12),
            16 => Some(FileSystemId::MsDos5P25_300Rpm_1200KbFat12),
            17 => Some(FileSystemId::MsDos1_44MbFat12),
            18 => Some(FileSystemId::MsDos1_68MbFat12),
            19 => Some(FileSystemId::MsDos2_88MbFat12),
            20 => Some(FileSystemId::MsDos3_38MbFat12),
            21 => Some(FileSystemId::MsDos4_50MbFat12),
            22 => Some(FileSystemId::MsDos6_78MbFat12),
            23 => Some(FileSystemId::MsDos16MbFat12),
            24 => Some(FileSystemId::Amiga1760KbDos),
            25 => Some(FileSystemId::Atari3_42MbFat12),
            26 => Some(FileSystemId::MsDos5P25_300Rpm_1230KbFat12),
            27 => Some(FileSystemId::MsDos738KbFat12),
            28 => Some(FileSystemId::MsDos800KbFat12),
            29 => Some(FileSystemId::MsDos820KbFat12),
            30 => Some(FileSystemId::MsDos1_476MbFat12),
            31 => Some(FileSystemId::MsDos1_600MbFat12),
            32 => Some(FileSystemId::MsDos1_640MbFat12),
            33 => Some(FileSystemId::MsDos1_722MbFat12),
            34 => Some(FileSystemId::MsDos1_743MbFat12),
            35 => Some(FileSystemId::MsDos1_764MbFat12),
            36 => Some(FileSystemId::MsDos1_785MbFat12),
            37 => Some(FileSystemId::MsDos2_50MbFat12),
            38 => Some(FileSystemId::MsDos5_35MbFat12),
            39 => Some(FileSystemId::MsDos5_35MbBFat12),
            _ => None,
        };
        proof {
            if id < NB_FILE_SYSTEMS {
                lemma_fs_code_surjective(id);
                lemma_fs_code_injective(spec_fs_from_code(id).unwrap(), r.unwrap());
            }
        }
        r
    }

    /// Create from raw filesystem ID, returning None if invalid.
    /// Accepts i32 for backward compatibility: a negative number names no
    /// filesystem type.
    pub fn from_i32(id: i32) -> (r: Option<Self>)
        ensures
            r == (if id < 0 { None } else { spec_fs_from_code(id as u32) }),
            r matches Some(f) ==> spec_fs_code(f) == id,
            r is None <==> (id < 0 || id >= NB_FILE_SYSTEMS),
    {
        if id < 0 {
            None
        } else {
            Self::from_u32(id as u32)
        }
    }

    /// Get the raw filesystem ID value as u32.
    pub fn get_u32(self) -> (r: u32)
        ensures
            r == spec_fs_code(self),
            r < NB_FILE_SYSTEMS,
    {
        match self {
            FileSystemId::Atari720KbFat12 => 0,
            FileSystemId::Atari902KbFat12 => 1,
            FileSystemId::Atari360KbFat12 => 2,
            FileSystemId::Atari3_42MbFat12 => 25,
            FileSystemId::Amiga880KbDos => 3,
            FileSystemId::Amiga1760KbDos => 24,
            FileSystemId::MsDos5P25_300Rpm_160KbFat12 => 4,
            FileSystemId::MsDos5P25_360Rpm_160KbFat12 => 5,
            FileSystemId::MsDos5P25_300Rpm_180KbFat12 => 6,
            FileSystemId::MsDos5P25_360Rpm_180KbFat12 => 7,
            FileSystemId::MsDos5P25Ss_300Rpm_320KbFat12 => 8,
            FileSystemId::MsDos5P25Ss_360Rpm_320KbFat12 => 9,
            FileSystemId::MsDos5P25Ds_300Rpm_320KbFat12 => 10,
            FileSystemId::MsDos5P25Ds_360Rpm_320KbFat12 => 11,
            FileSystemId::MsDos5P25Ds_300Rpm_360KbFat12 => 12,
            FileSystemId::MsDos5P25Ds_360Rpm_360KbFat12 => 13,
            FileSystemId::MsDos5P25_300Rpm_1200KbFat12 => 16,
            FileSystemId::MsDos5P25_300Rpm_1230KbFat12 => 26,
            FileSystemId::MsDos3P5Ds_300Rpm_640KbFat12 => 14,
            FileSystemId::MsDos720KbFat12 => 15,
            FileSystemId::MsDos738KbFat12 => 27,
            FileSystemId::MsDos800KbFat12 => 28,
            FileSystemId::MsDos820KbFat12 => 29,
            FileSystemId::MsDos1_44MbFat12 => 17,
            FileSystemId::MsDos1_476MbFat12 => 30,
            FileSystemId::MsDos1_600MbFat12 => 31,
            FileSystemId::MsDos1_640MbFat12 => 32,
            FileSystemId::MsDos1_68MbFat12 => 18,
            FileSystemId::MsDos1_722MbFat12 => 33,
            FileSystemId::MsDos1_743MbFat12 => 34,
            FileSystemId::MsDos1_764MbFat12 => 35,
            FileSystemId::MsDos1_785MbFat12 => 36,
            FileSystemId::MsDos2_50MbFat12 => 37,
            FileSystemId::MsDos2_88MbFat12 => 19,
            FileSystemId::MsDos3_38MbFat12 => 20,
            FileSystemId::MsDos4_50MbFat12 => 21,
            FileSystemId::MsDos5_35MbFat12 => 38,
            FileSystemId::MsDos5_35MbBFat12 => 39,
            FileSystemId::MsDos6_78MbFat12 => 22,
            FileSystemId::MsDos16MbFat12 => 23,
        }
    }

    /// Get the raw filesystem ID value as i32.
    pub fn get(self) -> (r: i32)
        ensures
            r == spec_fs_code(self),
    {
        self.get_u32() as i32
    }

    /// Get a human-readable description of this filesystem type.
    pub fn description(self) -> (r: &'static str)
        ensures
            r@ == spec_fs_description(self),
    {
        match self {
            FileSystemId::Atari720KbFat12 => "720KB Atari FAT12",
            FileSystemId::Atari902KbFat12 => "902KB Atari FAT12",
            FileSystemId::Atari360KbFat12 => "360KB Atari FAT12",
            FileSystemId::Atari3_42MbFat12 => "3.42MB Atari FAT12",
            FileSystemId::Amiga880KbDos => "880KB AmigaDOS",
            FileSystemId::Amiga1760KbDos => "1760KB AmigaDOS",
            FileSystemId::MsDos5P25_300Rpm_160KbFat12 => "5.25\" 300RPM 160KB MS-DOS FAT12",
            FileSystemId::MsDos5P25_360Rpm_160KbFat12 => "5.25\" 360RPM 160KB MS-DOS FAT12",
            FileSystemId::MsDos5P25_300Rpm_180KbFat12 => "5.25\" 300RPM 180KB MS-DOS FAT12",
            FileSystemId::MsDos5P25_360Rpm_180KbFat12 => "5.25\" 360RPM 180KB MS-DOS FAT12",
            FileSystemId::MsDos5P25Ss_300Rpm_320KbFat12 => "5.25\" SS 300RPM 320KB MS-DOS FAT12",
            FileSystemId::MsDos5P25Ss_360Rpm_320KbFat12 => "5.25\" SS 360RPM 320KB MS-DOS FAT12",
            FileSystemId::MsDos5P25Ds_300Rpm_320KbFat12 => "5.25\" DS 300RPM 320KB MS-DOS FAT12",
            FileSystemId::MsDos5P25Ds_360Rpm_320KbFat12 => "5.25\" DS 360RPM 320KB MS-DOS FAT12",
            FileSystemId::MsDos5P25Ds_300Rpm_360KbFat12 => "5.25\" DS 300RPM 360KB MS-DOS FAT12",
            FileSystemId::MsDos5P25Ds_360Rpm_360KbFat12 => "5.25\" DS 360RPM 360KB MS-DOS FAT12",
            FileSystemId::MsDos5P25_300Rpm_1200KbFat12 => "5.25\" 300RPM 1200KB MS-DOS FAT12",
            FileSystemId::MsDos5P25_300Rpm_1230KbFat12 => "5.25\" 300RPM 1230KB MS-DOS FAT12",
            FileSystemId::MsDos3P5Ds_300Rpm_640KbFat12 => "3.5\" DS 300RPM 640KB MS-DOS FAT12",
            FileSystemId::MsDos720KbFat12 => "720KB MS-DOS FAT12",
            FileSystemId::MsDos738KbFat12 => "738KB MS-DOS FAT12",
            FileSystemId::MsDos800KbFat12 => "800KB MS-DOS FAT12",
            FileSystemId::MsDos820KbFat12 => "820KB MS-DOS FAT12",
            FileSystemId::MsDos1_44MbFat12 => "1.44MB MS-DOS FAT12",
            FileSystemId::MsDos1_476MbFat12 => "1.476MB MS-DOS FAT12",
            FileSystemId::MsDos1_600MbFat12 => "1.600MB MS-DOS FAT12",
            FileSystemId::MsDos1_640MbFat12 => "1.640MB MS-DOS FAT12",
            FileSystemId::MsDos1_68MbFat12 => "1.68MB MS-DOS FAT12",
            FileSystemId::MsDos1_722MbFat12 => "1.722MB MS-DOS FAT12",
            FileSystemId::MsDos1_743MbFat12 => "1.743MB MS-DOS FAT12",
            FileSystemId::MsDos1_764MbFat12 => "1.764MB MS-DOS FAT12",
            FileSystemId::MsDos1_785MbFat12 => "1.785MB MS-DOS FAT12",
            FileSystemId::MsDos2_50MbFat12 => "2.50MB MS-DOS FAT12",
            FileSystemId::MsDos2_88MbFat12 => "2.88MB MS-DOS FAT12",
            FileSystemId::MsDos3_38MbFat12 => "3.38MB MS-DOS FAT12",
            FileSystemId::MsDos4_50MbFat12 => "4.50MB MS-DOS FAT12",
            FileSystemId::MsDos5_35MbFat12 => "5.35MB MS-DOS FAT12",
            FileSystemId::MsDos5_35MbBFat12 => "5.35MB-B MS-DOS FAT12",
            FileSystemId::MsDos6_78MbFat12 => "6.78MB MS-DOS FAT12",
            FileSystemId::MsDos16MbFat12 => "16MB MS-DOS FAT12",
        }
    }

    /// The text that `Display` writes for this filesystem type: its
    /// description.
    pub fn to_string(&self) -> (r: String)
        ensures
            r@ == spec_fs_description(*self),
    {
        String::from_str(self.description())
    }
}

impl From<FileSystemId> for i32 {
    fn from(id: FileSystemId) -> (r: i32) {
        id.get()
    }
}

impl vstd::std_specs::convert::FromSpecImpl<FileSystemId> for i32 {
    open spec fn obeys_from_spec() -> bool {
        true
    }

    open spec fn from_spec(v: FileSystemId) -> i32 {
        spec_fs_code(v) as i32
    }
}

impl From<FileSystemId> for u32 {
    fn from(id: FileSystemId) -> (r: u32) {
        id.get_u32()
    }
}

impl vstd::std_specs::convert::FromSpecImpl<FileSystemId> for u32 {
    open spec fn obeys_from_spec() -> bool {
        true
    }

    open spec fn from_spec(v: FileSystemId) -> u32 {
        spec_fs_code(v)
    }
}

/// Distinct filesystem types have distinct numbers.
pub proof fn lemma_fs_code_injective(a: FileSystemId, b: FileSystemId)
    ensures
        spec_fs_code(a) == spec_fs_code(b) ==> a == b,
{
}

/// Reading a filesystem type back from its number gives the same type, and
/// a type read from a number has that number.
pub proof fn lemma_fs_code_roundtrip(f: FileSystemId, v: u32)
    ensures
        spec_fs_from_code(spec_fs_code(f)) == Some(f),
        spec_fs_from_code(v) matches Some(g) ==> spec_fs_code(g) == v,
        spec_fs_from_code(v) is Some <==> v < NB_FILE_SYSTEMS,
{
    lemma_fs_code_surjective(spec_fs_code(f));
    lemma_fs_code_injective(f, spec_fs_from_code(spec_fs_code(f)).unwrap());
    if v < NB_FILE_SYSTEMS {
        lemma_fs_code_surjective(v);
    }
}

/// Every number below the count names exactly one filesystem type.
pub proof fn lemma_fs_code_surjective(v: u32)
    requires
        v < NB_FILE_SYSTEMS,
    ensures
        exists|f: FileSystemId| spec_fs_code(f) == v,
{
    match v {
        0 => assert(spec_fs_code(FileSystemId::Atari720KbFat12) == v),
        1 => assert(spec_fs_code(FileSystemId::Atari902KbFat12) == v),
        2 => assert(spec_fs_code(FileSystemId::Atari360KbFat12) == v),
        3 => assert(spec_fs_code(FileSystemId::Amiga880KbDos) == v),
        4 => assert(spec_fs_code(FileSystemId::MsDos5P25_300Rpm_160KbFat12) == v),
        5 => assert(spec_fs_code(FileSystemId::MsDos5P25_360Rpm_160KbFat12) == v),
        6 => assert(spec_fs_code(FileSystemId::MsDos5P25_300Rpm_180KbFat12) == v),
        7 => assert(spec_fs_code(FileSystemId::MsDos5P25_360Rpm_180KbFat12) == v),
        8 => assert(spec_fs_code(FileSystemId::MsDos5P25Ss_300Rpm_320KbFat12) == v),
        9 => assert(spec_fs_code(FileSystemId::MsDos5P25Ss_360Rpm_320KbFat12) == v),
        10 => assert(spec_fs_code(FileSystemId::MsDos5P25Ds_300Rpm_320KbFat12) == v),
        11 => assert(spec_fs_code(FileSystemId::MsDos5P25Ds_360Rpm_320KbFat12) == v),
        12 => assert(spec_fs_code(FileSystemId::MsDos5P25Ds_300Rpm_360KbFat12) == v),
        13 => assert(spec_fs_code(FileSystemId::MsDos5P25Ds_360Rpm_360KbFat12) == v),
        14 => assert(spec_fs_code(FileSystemId::MsDos3P5Ds_300Rpm_640KbFat12) == v),
        15 => assert(spec_fs_code(FileSystemId::MsDos720KbFat12) == v),
        16 => assert(spec_fs_code(FileSystemId::MsDos5P25_300Rpm_1200KbFat12) == v),
        17 => assert(spec_fs_code(FileSystemId::MsDos1_44MbFat12) == v),
        18 => assert(spec_fs_code(FileSystemId::MsDos1_68MbFat12) == v),
        19 => assert(spec_fs_code(FileSystemId::MsDos2_88MbFat12) == v),
        20 => assert(spec_fs_code(FileSystemId::MsDos3_38MbFat12) == v),
        21 => assert(spec_fs_code(FileSystemId::MsDos4_50MbFat12) == v),
        22 => assert(spec_fs_code(FileSystemId::MsDos6_78MbFat12) == v),
        23 => assert(spec_fs_code(FileSystemId::MsDos16MbFat12) == v),
        24 => assert(spec_fs_code(FileSystemId::Amiga1760KbDos) == v),
        25 => assert(spec_fs_code(FileSystemId::Atari3_42MbFat12) == v),
        26 => assert(spec_fs_code(FileSystemId::MsDos5P25_300Rpm_1230KbFat12) == v),
        27 => assert(spec_fs_code(FileSystemId::MsDos738KbFat12) == v),
        28 => assert(spec_fs_code(FileSystemId::MsDos800KbFat12) == v),
        29 => assert(spec_fs_code(FileSystemId::MsDos820KbFat12) == v),
        30 => assert(spec_fs_code(FileSystemId::MsDos1_476MbFat12) == v),
        31 => assert(spec_fs_code(FileSystemId::MsDos1_600MbFat12) == v),
        32 => assert(spec_fs_code(FileSystemId::MsDos1_640MbFat12) == v),
        33 => assert(spec_fs_code(FileSystemId::MsDos1_722MbFat12) == v),
        34 => assert(spec_fs_code(FileSystemId::MsDos1_743MbFat12) == v),
        35 => assert(spec_fs_code(FileSystemId::MsDos1_764MbFat12) == v),
        36 => assert(spec_fs_code(FileSystemId::MsDos1_785MbFat12) == v),
        37 => assert(spec_fs_code(FileSystemId::MsDos2_50MbFat12) == v),
        38 => assert(spec_fs_code(FileSystemId::MsDos5_35MbFat12) == v),
        39 => assert(spec_fs_code(FileSystemId::MsDos5_35MbBFat12) == v),
        _ => {},
    }
}



/// No two filesystem types share a description.
pub proof fn lemma_fs_descriptions_distinct(a: FileSystemId, b: FileSystemId)
    ensures
        a != b ==> spec_fs_description(a) != spec_fs_description(b),
{
    let s = spec_fs_description(a);
    let t = spec_fs_description(b);
    reveal_strlit("720KB Atari FAT12");
    reveal_strlit("902KB Atari FAT12");
    reveal_strlit("360KB Atari FAT12");
    reveal_strlit("3.42MB Atari FAT12");
    reveal_strlit("880KB AmigaDOS");
    reveal_strlit("1760KB AmigaDOS");
    reveal_strlit("5.25\" 300RPM 160KB MS-DOS FAT12");
    reveal_strlit("5.25\" 360RPM 160KB MS-DOS FAT12");
    reveal_strlit("5.25\" 300RPM 180KB MS-DOS FAT12");
    reveal_strlit("5.25\" 360RPM 180KB MS-DOS FAT12");
    reveal_strlit("5.25\" SS 300RPM 320KB MS-DOS FAT12");
    reveal_strlit("5.25\" SS 360RPM 320KB MS-DOS FAT12");
    reveal_strlit("5.25\" DS 300RPM 320KB MS-DOS FAT12");
    reveal_strlit("5.25\" DS 360RPM 320KB MS-DOS FAT12");
    reveal_strlit("5.25\" DS 300RPM 360KB MS-DOS FAT12");
    reveal_strlit("5.25\" DS 360RPM 360KB MS-DOS FAT12");
    reveal_strlit("5.25\" 300RPM 1200KB MS-DOS FAT12");
    reveal_strlit("5.25\" 300RPM 1230KB MS-DOS FAT12");
    reveal_strlit("3.5\" DS 300RPM 640KB MS-DOS FAT12");
    reveal_strlit("720KB MS-DOS FAT12");
    reveal_strlit("738KB MS-DOS FAT12");
    reveal_strlit("800KB MS-DOS FAT12");
    reveal_strlit("820KB MS-DOS FAT12");
    reveal_strlit("1.44MB MS-DOS FAT12");
    reveal_strlit("1.476MB MS-DOS FAT12");
    reveal_strlit("1.600MB MS-DOS FAT12");
    reveal_strlit("1.640MB MS-DOS FAT12");
    reveal_strlit("1.68MB MS-DOS FAT12");
    reveal_strlit("1.722MB MS-DOS FAT12");
    reveal_strlit("1.743MB MS-DOS FAT12");
    reveal_strlit("1.764MB MS-DOS FAT12");
    reveal_strlit("1.785MB MS-DOS FAT12");
    reveal_strlit("2.50MB MS-DOS FAT12");
    reveal_strlit("2.88MB MS-DOS FAT12");
    reveal_strlit("3.38MB MS-DOS FAT12");
    reveal_strlit("4.50MB MS-DOS FAT12");
    reveal_strlit("5.35MB MS-DOS FAT12");
    reveal_strlit("5.35MB-B MS-DOS FAT12");
    reveal_strlit("6.78MB MS-DOS FAT12");
    reveal_strlit("16MB MS-DOS FAT12");
    // Descriptions of equal length differ at one of these positions.
    if s == t {
        assert({
            &&& s.len() == t.len()
            &&& s[0] == t[0] && s[1] == t[1] && s[2] == t[2] && s[3] == t[3]
            &&& s[6] == t[6] && s[7] == t[7] && s[10] == t[10]
            &&& s[14] == t[14] && s[15] == t[15] && s[17] == t[17]
        });
    }
}


/// Every filesystem description is a non-empty text that ends in "AmigaDOS"
/// for the two Amiga types and in "FAT12" for all others, and that names
/// "Atari" exactly for the four Atari types.
pub proof fn lemma_fs_description_shape(a: FileSystemId)
    ensures
        spec_fs_description(a).len() > 0,
        ends_with(spec_fs_description(a), "AmigaDOS"@) <==> (a == FileSystemId::Amiga880KbDos
            || a == FileSystemId::Amiga1760KbDos),
        !(a == FileSystemId::Amiga880KbDos || a == FileSystemId::Amiga1760KbDos) ==> ends_with(
            spec_fs_description(a),
            "FAT12"@,
        ),
        has_infix(spec_fs_description(a), "Atari"@) <==> (a == FileSystemId::Atari720KbFat12
            || a == FileSystemId::Atari902KbFat12 || a == FileSystemId::Atari360KbFat12
            || a == FileSystemId::Atari3_42MbFat12),
{
    reveal_strlit("AmigaDOS");
    reveal_strlit("FAT12");
    reveal_strlit("Atari");
    let s = spec_fs_description(a);
    match a {
        FileSystemId::Atari720KbFat12 => {
            reveal_strlit("720KB Atari FAT12");
            assert(s.subrange(6, 11) =~= "Atari"@);
            assert(infix_at(s, "Atari"@, 6));
            assert(s.subrange(12, 17) =~= "FAT12"@);
            if ends_with(s, "AmigaDOS"@) {
                lemma_ends_with_last(s, "AmigaDOS"@);
            }
        },
        FileSystemId::Atari902KbFat12 => {
            reveal_strlit("902KB Atari FAT12");
            assert(s.subrange(6, 11) =~= "Atari"@);
            assert(infix_at(s, "Atari"@, 6));
            assert(s.subrange(12, 17) =~= "FAT12"@);
            if ends_with(s, "AmigaDOS"@) {
                lemma_ends_with_last(s, "AmigaDOS"@);
            }
        },
        FileSystemId::Atari360KbFat12 => {
            reveal_strlit("360KB Atari FAT12");
            assert(s.subrange(6, 11) =~= "Atari"@);
            assert(infix_at(s, "Atari"@, 6));
            assert(s.subrange(12, 17) =~= "FAT12"@);
            if ends_with(s, "AmigaDOS"@) {
                lemma_ends_with_last(s, "AmigaDOS"@);
            }
        },
        FileSystemId::Atari3_42MbFat12 => {
            reveal_strlit("3.42MB Atari FAT12");
            assert(s.subrange(7, 12) =~= "Atari"@);
            assert(infix_at(s, "Atari"@, 7));
            assert(s.subrange(13, 18) =~= "FAT12"@);
            if ends_with(s, "AmigaDOS"@) {
                lemma_ends_with_last(s, "AmigaDOS"@);
            }
        },
        FileSystemId::Amiga880KbDos => {
            reveal_strlit("880KB AmigaDOS");
            lemma_missing_char_no_infix(s, "Atari"@, 1);
            assert(s.subrange(6, 14) =~= "AmigaDOS"@);
        },
        FileSystemId::Amiga1760KbDos => {
            reveal_strlit("1760KB AmigaDOS");
            lemma_missing_char_no_infix(s, "Atari"@, 1);
            assert(s.subrange(7, 15) =~= "AmigaDOS"@);
        },
        FileSystemId::MsDos5P25_300Rpm_160KbFat12 => {
            reveal_strlit("5.25\" 300RPM 160KB MS-DOS FAT12");
            lemma_missing_char_no_infix(s, "Atari"@, 1);
            assert(s.subrange(26, 31) =~= "FAT12"@);
            if ends_with(s, "AmigaDOS"@) {
                lemma_ends_with_last(s, "AmigaDOS"@);
            }
        },
        FileSystemId::MsDos5P25_360Rpm_160KbFat12 => {
            reveal_strlit("5.25\" 360RPM 160KB MS-DOS FAT12");
            lemma_missing_char_no_infix(s, "Atari"@, 1);
            assert(s.subrange(26, 31) =~= "FAT12"@);
            if ends_with(s, "AmigaDOS"@) {
                lemma_ends_with_last(s, "AmigaDOS"@);
            }
        },
        FileSystemId::MsDos5P25_300Rpm_180KbFat12 => {
            reveal_strlit("5.25\" 300RPM 180KB MS-DOS FAT12");
            lemma_missing_char_no_infix(s, "Atari"@, 1);
            assert(s.subrange(26, 31) =~= "FAT12"@);
            if ends_with(s, "AmigaDOS"@) {
                lemma_ends_with_last(s, "AmigaDOS"@);
            }
        },
        FileSystemId::MsDos5P25_360Rpm_180KbFat12 => {
            reveal_strlit("5.25\" 360RPM 180KB MS-DOS FAT12");
            lemma_missing_char_no_infix(s, "Atari"@, 1);
            assert(s.subrange(26, 31) =~= "FAT12"@);
            if ends_with(s, "AmigaDOS"@) {
                lemma_ends_with_last(s, "AmigaDOS"@);
            }
        },
        FileSystemId::MsDos5P25Ss_300Rpm_320KbFat12 => {
            reveal_strlit("5.25\" SS 300RPM 320KB MS-DOS FAT12");
            lemma_missing_char_no_infix(s, "Atari"@, 1);
            assert(s.subrange(29, 34) =~= "FAT12"@);
            if ends_with(s, "AmigaDOS"@) {
                lemma_ends_with_last(s, "AmigaDOS"@);
            }
        },
        FileSystemId::MsDos5P25Ss_360Rpm_320KbFat12 => {
            reveal_strlit("5.25\" SS 360RPM 320KB MS-DOS FAT12");
            lemma_missing_char_no_infix(s, "Atari"@, 1);
            assert(s.subrange(29, 34) =~= "FAT12"@);
            if ends_with(s, "AmigaDOS"@) {
                lemma_ends_with_last(s, "AmigaDOS"@);
            }
        },
        FileSystemId::MsDos5P25Ds_300Rpm_320KbFat12 => {
            reveal_strlit("5.25\" DS 300RPM 320KB MS-DOS FAT12");
            lemma_missing_char_no_infix(s, "Atari"@, 1);
            assert(s.subrange(29, 34) =~= "FAT12"@);
            if ends_with(s, "AmigaDOS"@) {
                lemma_ends_with_last(s, "AmigaDOS"@);
            }
        },
        FileSystemId::MsDos5P25Ds_360Rpm_320KbFat12 => {
            reveal_strlit("5.25\" DS 360RPM 320KB MS-DOS FAT12");
            lemma_missing_char_no_infix(s, "Atari"@, 1);
            assert(s.subrange(29, 34) =~= "FAT12"@);
            if ends_with(s, "AmigaDOS"@) {
                lemma_ends_with_last(s, "AmigaDOS"@);
            }
        },
        FileSystemId::MsDos5P25Ds_300Rpm_360KbFat12 => {
            reveal_strlit("5.25\" DS 300RPM 360KB MS-DOS FAT12");
            lemma_missing_char_no_infix(s, "Atari"@, 1);
            assert(s.subrange(29, 34) =~= "FAT12"@);
            if ends_with(s, "AmigaDOS"@) {
                lemma_ends_with_last(s, "AmigaDOS"@);
            }
        },
        FileSystemId::MsDos5P25Ds_360Rpm_360KbFat12 => {
            reveal_strlit("5.25\" DS 360RPM 360KB MS-DOS FAT12");
            lemma_missing_char_no_infix(s, "Atari"@, 1);
            assert(s.subrange(29, 34) =~= "FAT12"@);
            if ends_with(s, "AmigaDOS"@) {
                lemma_ends_with_last(s, "AmigaDOS"@);
            }
        },
        FileSystemId::MsDos5P25_300Rpm_1200KbFat12 => {
            reveal_strlit("5.25\" 300RPM 1200KB MS-DOS FAT12");
            lemma_missing_char_no_infix(s, "Atari"@, 1);
            assert(s.subrange(27, 32) =~= "FAT12"@);
            if ends_with(s, "AmigaDOS"@) {
                lemma_ends_with_last(s, "AmigaDOS"@);
            }
        },
        FileSystemId::MsDos5P25_300Rpm_1230KbFat12 => {
            reveal_strlit("5.25\" 300RPM 1230KB MS-DOS FAT12");
            lemma_missing_char_no_infix(s, "Atari"@, 1);
            assert(s.subrange(27, 32) =~= "FAT12"@);
            if ends_with(s, "AmigaDOS"@) {
                lemma_ends_with_last(s, "AmigaDOS"@);
            }
        },
        FileSystemId::MsDos3P5Ds_300Rpm_640KbFat12 => {
            reveal_strlit("3.5\" DS 300RPM 640KB MS-DOS FAT12");
            lemma_missing_char_no_infix(s, "Atari"@, 1);
            assert(s.subrange(28, 33) =~= "FAT12"@);
            if ends_with(s, "AmigaDOS"@) {
                lemma_ends_with_last(s, "AmigaDOS"@);
            }
        },
        FileSystemId::MsDos720KbFat12 => {
            reveal_strlit("720KB MS-DOS FAT12");
            lemma_missing_char_no_infix(s, "Atari"@, 1);
            assert(s.subrange(13, 18) =~= "FAT12"@);
            if ends_with(s, "AmigaDOS"@) {
                lemma_ends_with_last(s, "AmigaDOS"@);
            }
        },
        FileSystemId::MsDos738KbFat12 => {
            reveal_strlit("738KB MS-DOS FAT12");
            lemma_missing_char_no_infix(s, "Atari"@, 1);
            assert(s.subrange(13, 18) =~= "FAT12"@);
            if ends_with(s, "AmigaDOS"@) {
                lemma_ends_with_last(s, "AmigaDOS"@);
            }
        },
        FileSystemId::MsDos800KbFat12 => {
            reveal_strlit("800KB MS-DOS FAT12");
            lemma_missing_char_no_infix(s, "Atari"@, 1);
            assert(s.subrange(13, 18) =~= "FAT12"@);
            if ends_with(s, "AmigaDOS"@) {
                lemma_ends_with_last(s, "AmigaDOS"@);
            }
        },
        FileSystemId::MsDos820KbFat12 => {
            reveal_strlit("820KB MS-DOS FAT12");
            lemma_missing_char_no_infix(s, "Atari"@, 1);
            assert(s.subrange(13, 18) =~= "FAT12"@);
            if ends_with(s, "AmigaDOS"@) {
                lemma_ends_with_last(s, "AmigaDOS"@);
            }
        },
        FileSystemId::MsDos1_44MbFat12 => {
            reveal_strlit("1.44MB MS-DOS FAT12");
            lemma_missing_char_no_infix(s, "Atari"@, 1);
            assert(s.subrange(14, 19) =~= "FAT12"@);
            if ends_with(s, "AmigaDOS"@) {
                lemma_ends_with_last(s, "AmigaDOS"@);
            }
        },
        FileSystemId::MsDos1_476MbFat12 => {
            reveal_strlit("1.476MB MS-DOS FAT12");
            lemma_missing_char_no_infix(s, "Atari"@, 1);
            assert(s.subrange(15, 20) =~= "FAT12"@);
            if ends_with(s, "AmigaDOS"@) {
                lemma_ends_with_last(s, "AmigaDOS"@);
            }
        },
        FileSystemId::MsDos1_600MbFat12 => {
            reveal_strlit("1.600MB MS-DOS FAT12");
            lemma_missing_char_no_infix(s, "Atari"@, 1);
            assert(s.subrange(15, 20) =~= "FAT12"@);
            if ends_with(s, "AmigaDOS"@) {
                lemma_ends_with_last(s, "AmigaDOS"@);
            }
        },
        FileSystemId::MsDos1_640MbFat12 => {
            reveal_strlit("1.640MB MS-DOS FAT12");
            lemma_missing_char_no_infix(s, "Atari"@, 1);
            assert(s.subrange(15, 20) =~= "FAT12"@);
            if ends_with(s, "AmigaDOS"@) {
                lemma_ends_with_last(s, "AmigaDOS"@);
            }
        },
        FileSystemId::MsDos1_68MbFat12 => {
            reveal_strlit("1.68MB MS-DOS FAT12");
            lemma_missing_char_no_infix(s, "Atari"@, 1);
            assert(s.subrange(14, 19) =~= "FAT12"@);
            if ends_with(s, "AmigaDOS"@) {
                lemma_ends_with_last(s, "AmigaDOS"@);
            }
        },
        FileSystemId::MsDos1_722MbFat12 => {
            reveal_strlit("1.722MB MS-DOS FAT12");
            lemma_missing_char_no_infix(s, "Atari"@, 1);
            assert(s.subrange(15, 20) =~= "FAT12"@);
            if ends_with(s, "AmigaDOS"@) {
                lemma_ends_with_last(s, "AmigaDOS"@);
            }
        },
        FileSystemId::MsDos1_743MbFat12 => {
            reveal_strlit("1.743MB MS-DOS FAT12");
            lemma_missing_char_no_infix(s, "Atari"@, 1);
            assert(s.subrange(15, 20) =~= "FAT12"@);
            if ends_with(s, "AmigaDOS"@) {
                lemma_ends_with_last(s, "AmigaDOS"@);
            }
        },
        FileSystemId::MsDos1_764MbFat12 => {
            reveal_strlit("1.764MB MS-DOS FAT12");
            lemma_missing_char_no_infix(s, "Atari"@, 1);
            assert(s.subrange(15, 20) =~= "FAT12"@);
            if ends_with(s, "AmigaDOS"@) {
                lemma_ends_with_last(s, "AmigaDOS"@);
            }
        },
        FileSystemId::MsDos1_785MbFat12 => {
            reveal_strlit("1.785MB MS-DOS FAT12");
            lemma_missing_char_no_infix(s, "Atari"@, 1);
            assert(s.subrange(15, 20) =~= "FAT12"@);
            if ends_with(s, "AmigaDOS"@) {
                lemma_ends_with_last(s, "AmigaDOS"@);
            }
        },
        FileSystemId::MsDos2_50MbFat12 => {
            reveal_strlit("2.50MB MS-DOS FAT12");
            lemma_missing_char_no_infix(s, "Atari"@, 1);
            assert(s.subrange(14, 19) =~= "FAT12"@);
            if ends_with(s, "AmigaDOS"@) {
                lemma_ends_with_last(s, "AmigaDOS"@);
            }
        },
        FileSystemId::MsDos2_88MbFat12 => {
            reveal_strlit("2.88MB MS-DOS FAT12");
            lemma_missing_char_no_infix(s, "Atari"@, 1);
            assert(s.subrange(14, 19) =~= "FAT12"@);
            if ends_with(s, "AmigaDOS"@) {
                lemma_ends_with_last(s, "AmigaDOS"@);
            }
        },
        FileSystemId::MsDos3_38MbFat12 => {
            reveal_strlit("3.38MB MS-DOS FAT12");
            lemma_missing_char_no_infix(s, "Atari"@, 1);
            assert(s.subrange(14, 19) =~= "FAT12"@);
            if ends_with(s, "AmigaDOS"@) {
                lemma_ends_with_last(s, "AmigaDOS"@);
            }
        },
        FileSystemId::MsDos4_50MbFat12 => {
            reveal_strlit("4.50MB MS-DOS FAT12");
            lemma_missing_char_no_infix(s, "Atari"@, 1);
            assert(s.subrange(14, 19) =~= "FAT12"@);
            if ends_with(s, "AmigaDOS"@) {
                lemma_ends_with_last(s, "AmigaDOS"@);
            }
        },
        FileSystemId::MsDos5_35MbFat12 => {
            reveal_strlit("5.35MB MS-DOS FAT12");
            lemma_missing_char_no_infix(s, "Atari"@, 1);
            assert(s.subrange(14, 19) =~= "FAT12"@);
            if ends_with(s, "AmigaDOS"@) {
                lemma_ends_with_last(s, "AmigaDOS"@);
            }
        },
        FileSystemId::MsDos5_35MbBFat12 => {
            reveal_strlit("5.35MB-B MS-DOS FAT12");
            lemma_missing_char_no_infix(s, "Atari"@, 1);
            assert(s.subrange(16, 21) =~= "FAT12"@);
            if ends_with(s, "AmigaDOS"@) {
                lemma_ends_with_last(s, "AmigaDOS"@);
            }
        },
        FileSystemId::MsDos6_78MbFat12 => {
            reveal_strlit("6.78MB MS-DOS FAT12");
            lemma_missing_char_no_infix(s, "Atari"@, 1);
            assert(s.subrange(14, 19) =~= "FAT12"@);
            if ends_with(s, "AmigaDOS"@) {
                lemma_ends_with_last(s, "AmigaDOS"@);
            }
        },
        FileSystemId::MsDos16MbFat12 => {
            reveal_strlit("16MB MS-DOS FAT12");
            lemma_missing_char_no_infix(s, "Atari"@, 1);
            assert(s.subrange(12, 17) =~= "FAT12"@);
            if ends_with(s, "AmigaDOS"@) {
                lemma_ends_with_last(s, "AmigaDOS"@);
            }
        },
    }
}


/// The capacity that a filesystem type's name gives, as its description
/// writes it.
pub open spec fn spec_fs_capacity(id: FileSystemId) -> Seq<char> {
    match id {
        FileSystemId::Atari720KbFat12 => "720KB"@,
        FileSystemId::Atari902KbFat12 => "902KB"@,
        FileSystemId::Atari360KbFat12 => "360KB"@,
        FileSystemId::Atari3_42MbFat12 => "3.42MB"@,
        FileSystemId::Amiga880KbDos => "880KB"@,
        FileSystemId::Amiga1760KbDos => "1760KB"@,
        FileSystemId::MsDos5P25_300Rpm_160KbFat12 => "160KB"@,
        FileSystemId::MsDos5P25_360Rpm_160KbFat12 => "160KB"@,
        FileSystemId::MsDos5P25_300Rpm_180KbFat12 => "180KB"@,
        FileSystemId::MsDos5P25_360Rpm_180KbFat12 => "180KB"@,
        FileSystemId::MsDos5P25Ss_300Rpm_320KbFat12 => "320KB"@,
        FileSystemId::MsDos5P25Ss_360Rpm_320KbFat12 => "320KB"@,
        FileSystemId::MsDos5P25Ds_300Rpm_320KbFat12 => "320KB"@,
        FileSystemId::MsDos5P25Ds_360Rpm_320KbFat12 => "320KB"@,
        FileSystemId::MsDos5P25Ds_300Rpm_360KbFat12 => "360KB"@,
        FileSystemId::MsDos5P25Ds_360Rpm_360KbFat12 => "360KB"@,
        FileSystemId::MsDos5P25_300Rpm_1200KbFat12 => "1200KB"@,
        FileSystemId::MsDos5P25_300Rpm_1230KbFat12 => "1230KB"@,
        FileSystemId::MsDos3P5Ds_300Rpm_640KbFat12 => "640KB"@,
        FileSystemId::MsDos720KbFat12 => "720KB"@,
        FileSystemId::MsDos738KbFat12 => "738KB"@,
        FileSystemId::MsDos800KbFat12 => "800KB"@,
        FileSystemId::MsDos820KbFat12 => "820KB"@,
        FileSystemId::MsDos1_44MbFat12 => "1.44MB"@,
        FileSystemId::MsDos1_476MbFat12 => "1.476MB"@,
        FileSystemId::MsDos1_600MbFat12 => "1.600MB"@,
        FileSystemId::MsDos1_640MbFat12 => "1.640MB"@,
        FileSystemId::MsDos1_68MbFat12 => "1.68MB"@,
        FileSystemId::MsDos1_722MbFat12 => "1.722MB"@,
        FileSystemId::MsDos1_743MbFat12 => "1.743MB"@,
        FileSystemId::MsDos1_764MbFat12 => "1.764MB"@,
        FileSystemId::MsDos1_785MbFat12 => "1.785MB"@,
        FileSystemId::MsDos2_50MbFat12 => "2.50MB"@,
        FileSystemId::MsDos2_88MbFat12 => "2.88MB"@,
        FileSystemId::MsDos3_38MbFat12 => "3.38MB"@,
        FileSystemId::MsDos4_50MbFat12 => "4.50MB"@,
        FileSystemId::MsDos5_35MbFat12 => "5.35MB"@,
        FileSystemId::MsDos5_35MbBFat12 => "5.35MB-B"@,
        FileSystemId::MsDos6_78MbFat12 => "6.78MB"@,
        FileSystemId::MsDos16MbFat12 => "16MB"@,
    }
}

/// The drive that a filesystem type's name gives (size, sides and rotation
/// speed), as its description writes it before the capacity: empty for the
/// types whose name gives none.
pub open spec fn spec_fs_drive(id: FileSystemId) -> Seq<char> {
    match id {
        FileSystemId::MsDos5P25_300Rpm_160KbFat12 => "5.25\" 300RPM "@,
        FileSystemId::MsDos5P25_360Rpm_160KbFat12 => "5.25\" 360RPM "@,
        FileSystemId::MsDos5P25_300Rpm_180KbFat12 => "5.25\" 300RPM "@,
        FileSystemId::MsDos5P25_360Rpm_180KbFat12 => "5.25\" 360RPM "@,
        FileSystemId::MsDos5P25Ss_300Rpm_320KbFat12 => "5.25\" SS 300RPM "@,
        FileSystemId::MsDos5P25Ss_360Rpm_320KbFat12 => "5.25\" SS 360RPM "@,
        FileSystemId::MsDos5P25Ds_300Rpm_320KbFat12 => "5.25\" DS 300RPM "@,
        FileSystemId::MsDos5P25Ds_360Rpm_320KbFat12 => "5.25\" DS 360RPM "@,
        FileSystemId::MsDos5P25Ds_300Rpm_360KbFat12 => "5.25\" DS 300RPM "@,
        FileSystemId::MsDos5P25Ds_360Rpm_360KbFat12 => "5.25\" DS 360RPM "@,
        FileSystemId::MsDos5P25_300Rpm_1200KbFat12 => "5.25\" 300RPM "@,
        FileSystemId::MsDos5P25_300Rpm_1230KbFat12 => "5.25\" 300RPM "@,
        FileSystemId::MsDos3P5Ds_300Rpm_640KbFat12 => "3.5\" DS 300RPM "@,
        _ => Seq::empty(),
    }
}

/// The family of a filesystem type, as its description ends.
pub open spec fn spec_fs_family(id: FileSystemId) -> Seq<char> {
    match id {
        FileSystemId::Atari720KbFat12
        | FileSystemId::Atari902KbFat12
        | FileSystemId::Atari360KbFat12
        | FileSystemId::Atari3_42MbFat12 => "Atari FAT12"@,
        FileSystemId::Amiga880KbDos
        | FileSystemId::Amiga1760KbDos => "AmigaDOS"@,
        _ => "MS-DOS FAT12"@,
    }
}

/// Each filesystem type's description names that type's own drive,
/// capacity and family, in this order: the drive (if the name gives one),
/// the capacity, a space, and the family.
pub proof fn lemma_fs_description_names_the_type(a: FileSystemId)
    ensures
        spec_fs_description(a) == spec_fs_drive(a) + spec_fs_capacity(a) + " "@ + spec_fs_family(a),
{
    reveal_strlit(" ");
    reveal_strlit("Atari FAT12");
    reveal_strlit("AmigaDOS");
    reveal_strlit("MS-DOS FAT12");
    match a {
        FileSystemId::Atari720KbFat12 => {
            reveal_strlit("720KB Atari FAT12");
            reveal_strlit("720KB");
            assert(spec_fs_description(a) =~= spec_fs_drive(a) + spec_fs_capacity(a) + " "@ + spec_fs_family(a));
        },
        FileSystemId::Atari902KbFat12 => {
            reveal_strlit("902KB Atari FAT12");
            reveal_strlit("902KB");
            assert(spec_fs_description(a) =~= spec_fs_drive(a) + spec_fs_capacity(a) + " "@ + spec_fs_family(a));
        },
        FileSystemId::Atari360KbFat12 => {
            reveal_strlit("360KB Atari FAT12");
            reveal_strlit("360KB");
            assert(spec_fs_description(a) =~= spec_fs_drive(a) + spec_fs_capacity(a) + " "@ + spec_fs_family(a));
        },
        FileSystemId::Atari3_42MbFat12 => {
            reveal_strlit("3.42MB Atari FAT12");
            reveal_strlit("3.42MB");
            assert(spec_fs_description(a) =~= spec_fs_drive(a) + spec_fs_capacity(a) + " "@ + spec_fs_family(a));
        },
        FileSystemId::Amiga880KbDos => {
            reveal_strlit("880KB AmigaDOS");
            reveal_strlit("880KB");
            assert(spec_fs_description(a) =~= spec_fs_drive(a) + spec_fs_capacity(a) + " "@ + spec_fs_family(a));
        },
        FileSystemId::Amiga1760KbDos => {
            reveal_strlit("1760KB AmigaDOS");
            reveal_strlit("1760KB");
            assert(spec_fs_description(a) =~= spec_fs_drive(a) + spec_fs_capacity(a) + " "@ + spec_fs_family(a));
        },
        FileSystemId::MsDos5P25_300Rpm_160KbFat12 => {
            reveal_strlit("5.25\" 300RPM 160KB MS-DOS FAT12");
            reveal_strlit("160KB");
            reveal_strlit("5.25\" 300RPM ");
            assert(spec_fs_description(a) =~= spec_fs_drive(a) + spec_fs_capacity(a) + " "@ + spec_fs_family(a));
        },
        FileSystemId::MsDos5P25_360Rpm_160KbFat12 => {
            reveal_strlit("5.25\" 360RPM 160KB MS-DOS FAT12");
            reveal_strlit("160KB");
            reveal_strlit("5.25\" 360RPM ");
            assert(spec_fs_description(a) =~= spec_fs_drive(a) + spec_fs_capacity(a) + " "@ + spec_fs_family(a));
        },
        FileSystemId::MsDos5P25_300Rpm_180KbFat12 => {
            reveal_strlit("5.25\" 300RPM 180KB MS-DOS FAT12");
            reveal_strlit("180KB");
            reveal_strlit("5.25\" 300RPM ");
            assert(spec_fs_description(a) =~= spec_fs_drive(a) + spec_fs_capacity(a) + " "@ + spec_fs_family(a));
        },
        FileSystemId::MsDos5P25_360Rpm_180KbFat12 => {
            reveal_strlit("5.25\" 360RPM 180KB MS-DOS FAT12");
            reveal_strlit("180KB");
            reveal_strlit("5.25\" 360RPM ");
            assert(spec_fs_description(a) =~= spec_fs_drive(a) + spec_fs_capacity(a) + " "@ + spec_fs_family(a));
        },
        FileSystemId::MsDos5P25Ss_300Rpm_320KbFat12 => {
            reveal_strlit("5.25\" SS 300RPM 320KB MS-DOS FAT12");
            reveal_strlit("320KB");
            reveal_strlit("5.25\" SS 300RPM ");
            assert(spec_fs_description(a) =~= spec_fs_drive(a) + spec_fs_capacity(a) + " "@ + spec_fs_family(a));
        },
        FileSystemId::MsDos5P25Ss_360Rpm_320KbFat12 => {
            reveal_strlit("5.25\" SS 360RPM 320KB MS-DOS FAT12");
            reveal_strlit("320KB");
            reveal_strlit("5.25\" SS 360RPM ");
            assert(spec_fs_description(a) =~= spec_fs_drive(a) + spec_fs_capacity(a) + " "@ + spec_fs_family(a));
        },
        FileSystemId::MsDos5P25Ds_300Rpm_320KbFat12 => {
            reveal_strlit("5.25\" DS 300RPM 320KB MS-DOS FAT12");
            reveal_strlit("320KB");
            reveal_strlit("5.25\" DS 300RPM ");
            assert(spec_fs_description(a) =~= spec_fs_drive(a) + spec_fs_capacity(a) + " "@ + spec_fs_family(a));
        },
        FileSystemId::MsDos5P25Ds_360Rpm_320KbFat12 => {
            reveal_strlit("5.25\" DS 360RPM 320KB MS-DOS FAT12");
            reveal_strlit("320KB");
            reveal_strlit("5.25\" DS 360RPM ");
            assert(spec_fs_description(a) =~= spec_fs_drive(a) + spec_fs_capacity(a) + " "@ + spec_fs_family(a));
        },
        FileSystemId::MsDos5P25Ds_300Rpm_360KbFat12 => {
            reveal_strlit("5.25\" DS 300RPM 360KB MS-DOS FAT12");
            reveal_strlit("360KB");
            reveal_strlit("5.25\" DS 300RPM ");
            assert(spec_fs_description(a) =~= spec_fs_drive(a) + spec_fs_capacity(a) + " "@ + spec_fs_family(a));
        },
        FileSystemId::MsDos5P25Ds_360Rpm_360KbFat12 => {
            reveal_strlit("5.25\" DS 360RPM 360KB MS-DOS FAT12");
            reveal_strlit("360KB");
            reveal_strlit("5.25\" DS 360RPM ");
            assert(spec_fs_description(a) =~= spec_fs_drive(a) + spec_fs_capacity(a) + " "@ + spec_fs_family(a));
        },
        FileSystemId::MsDos5P25_300Rpm_1200KbFat12 => {
            reveal_strlit("5.25\" 300RPM 1200KB MS-DOS FAT12");
            reveal_strlit("1200KB");
            reveal_strlit("5.25\" 300RPM ");
            assert(spec_fs_description(a) =~= spec_fs_drive(a) + spec_fs_capacity(a) + " "@ + spec_fs_family(a));
        },
        FileSystemId::MsDos5P25_300Rpm_1230KbFat12 => {
            reveal_strlit("5.25\" 300RPM 1230KB MS-DOS FAT12");
            reveal_strlit("1230KB");
            reveal_strlit("5.25\" 300RPM ");
            assert(spec_fs_description(a) =~= spec_fs_drive(a) + spec_fs_capacity(a) + " "@ + spec_fs_family(a));
        },
        FileSystemId::MsDos3P5Ds_300Rpm_640KbFat12 => {
            reveal_strlit("3.5\" DS 300RPM 640KB MS-DOS FAT12");
            reveal_strlit("640KB");
            reveal_strlit("3.5\" DS 300RPM ");
            assert(spec_fs_description(a) =~= spec_fs_drive(a) + spec_fs_capacity(a) + " "@ + spec_fs_family(a));
        },
        FileSystemId::MsDos720KbFat12 => {
            reveal_strlit("720KB MS-DOS FAT12");
            reveal_strlit("720KB");
            assert(spec_fs_description(a) =~= spec_fs_drive(a) + spec_fs_capacity(a) + " "@ + spec_fs_family(a));
        },
        FileSystemId::MsDos738KbFat12 => {
            reveal_strlit("738KB MS-DOS FAT12");
            reveal_strlit("738KB");
            assert(spec_fs_description(a) =~= spec_fs_drive(a) + spec_fs_capacity(a) + " "@ + spec_fs_family(a));
        },
        FileSystemId::MsDos800KbFat12 => {
            reveal_strlit("800KB MS-DOS FAT12");
            reveal_strlit("800KB");
            assert(spec_fs_description(a) =~= spec_fs_drive(a) + spec_fs_capacity(a) + " "@ + spec_fs_family(a));
        },
        FileSystemId::MsDos820KbFat12 => {
            reveal_strlit("820KB MS-DOS FAT12");
            reveal_strlit("820KB");
            assert(spec_fs_description(a) =~= spec_fs_drive(a) + spec_fs_capacity(a) + " "@ + spec_fs_family(a));
        },
        FileSystemId::MsDos1_44MbFat12 => {
            reveal_strlit("1.44MB MS-DOS FAT12");
            reveal_strlit("1.44MB");
            assert(spec_fs_description(a) =~= spec_fs_drive(a) + spec_fs_capacity(a) + " "@ + spec_fs_family(a));
        },
        FileSystemId::MsDos1_476MbFat12 => {
            reveal_strlit("1.476MB MS-DOS FAT12");
            reveal_strlit("1.476MB");
            assert(spec_fs_description(a) =~= spec_fs_drive(a) + spec_fs_capacity(a) + " "@ + spec_fs_family(a));
        },
        FileSystemId::MsDos1_600MbFat12 => {
            reveal_strlit("1.600MB MS-DOS FAT12");
            reveal_strlit("1.600MB");
            assert(spec_fs_description(a) =~= spec_fs_drive(a) + spec_fs_capacity(a) + " "@ + spec_fs_family(a));
        },
        FileSystemId::MsDos1_640MbFat12 => {
            reveal_strlit("1.640MB MS-DOS FAT12");
            reveal_strlit("1.640MB");
            assert(spec_fs_description(a) =~= spec_fs_drive(a) + spec_fs_capacity(a) + " "@ + spec_fs_family(a));
        },
        FileSystemId::MsDos1_68MbFat12 => {
            reveal_strlit("1.68MB MS-DOS FAT12");
            reveal_strlit("1.68MB");
            assert(spec_fs_description(a) =~= spec_fs_drive(a) + spec_fs_capacity(a) + " "@ + spec_fs_family(a));
        },
        FileSystemId::MsDos1_722MbFat12 => {
            reveal_strlit("1.722MB MS-DOS FAT12");
            reveal_strlit("1.722MB");
            assert(spec_fs_description(a) =~= spec_fs_drive(a) + spec_fs_capacity(a) + " "@ + spec_fs_family(a));
        },
        FileSystemId::MsDos1_743MbFat12 => {
            reveal_strlit("1.743MB MS-DOS FAT12");
            reveal_strlit("1.743MB");
            assert(spec_fs_description(a) =~= spec_fs_drive(a) + spec_fs_capacity(a) + " "@ + spec_fs_family(a));
        },
        FileSystemId::MsDos1_764MbFat12 => {
            reveal_strlit("1.764MB MS-DOS FAT12");
            reveal_strlit("1.764MB");
            assert(spec_fs_description(a) =~= spec_fs_drive(a) + spec_fs_capacity(a) + " "@ + spec_fs_family(a));
        },
        FileSystemId::MsDos1_785MbFat12 => {
            reveal_strlit("1.785MB MS-DOS FAT12");
            reveal_strlit("1.785MB");
            assert(spec_fs_description(a) =~= spec_fs_drive(a) + spec_fs_capacity(a) + " "@ + spec_fs_family(a));
        },
        FileSystemId::MsDos2_50MbFat12 => {
            reveal_strlit("2.50MB MS-DOS FAT12");
            reveal_strlit("2.50MB");
            assert(spec_fs_description(a) =~= spec_fs_drive(a) + spec_fs_capacity(a) + " "@ + spec_fs_family(a));
        },
        FileSystemId::MsDos2_88MbFat12 => {
            reveal_strlit("2.88MB MS-DOS FAT12");
            reveal_strlit("2.88MB");
            assert(spec_fs_description(a) =~= spec_fs_drive(a) + spec_fs_capacity(a) + " "@ + spec_fs_family(a));
        },
        FileSystemId::MsDos3_38MbFat12 => {
            reveal_strlit("3.38MB MS-DOS FAT12");
            reveal_strlit("3.38MB");
            assert(spec_fs_description(a) =~= spec_fs_drive(a) + spec_fs_capacity(a) + " "@ + spec_fs_family(a));
        },
        FileSystemId::MsDos4_50MbFat12 => {
            reveal_strlit("4.50MB MS-DOS FAT12");
            reveal_strlit("4.50MB");
            assert(spec_fs_description(a) =~= spec_fs_drive(a) + spec_fs_capacity(a) + " "@ + spec_fs_family(a));
        },
        FileSystemId::MsDos5_35MbFat12 => {
            reveal_strlit("5.35MB MS-DOS FAT12");
            reveal_strlit("5.35MB");
            assert(spec_fs_description(a) =~= spec_fs_drive(a) + spec_fs_capacity(a) + " "@ + spec_fs_family(a));
        },
        FileSystemId::MsDos5_35MbBFat12 => {
            reveal_strlit("5.35MB-B MS-DOS FAT12");
            reveal_strlit("5.35MB-B");
            assert(spec_fs_description(a) =~= spec_fs_drive(a) + spec_fs_capacity(a) + " "@ + spec_fs_family(a));
        },
        FileSystemId::MsDos6_78MbFat12 => {
            reveal_strlit("6.78MB MS-DOS FAT12");
            reveal_strlit("6.78MB");
            assert(spec_fs_description(a) =~= spec_fs_drive(a) + spec_fs_capacity(a) + " "@ + spec_fs_family(a));
        },
        FileSystemId::MsDos16MbFat12 => {
            reveal_strlit("16MB MS-DOS FAT12");
            reveal_strlit("16MB");
            assert(spec_fs_description(a) =~= spec_fs_drive(a) + spec_fs_capacity(a) + " "@ + spec_fs_family(a));
        },
    }
}

} // verus!
