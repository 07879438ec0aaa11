use vstd::prelude::*;

use crate::img::Img;
use crate::types::HeadId;
use crate::types::SectorId;
use crate::types::TrackId;

verus! {

/// What libhxcfe's sector record tells of one sector: where the record lies,
/// and the header fields the library reads from it.
#[derive(Debug, Clone, Copy, PartialEq, Eq, Structural)]
pub struct SectorRecord {
    /// Address of libhxcfe's sector record (never 0 for a found sector).
    pub cfg: usize,
    /// Head (side) number written in the sector header.
    pub head: i32,
    /// Sector number written in the sector header.
    pub sector: i32,
    /// Sector size in bytes.
    pub sectorsize: i32,
    /// Number of sectors left on the track after this one.
    pub sectorsleft: i32,
    /// Track encoding number of the sector.
    pub trackencoding: i32,
}

/// Sector-level access to an image, through a libhxcfe sector-access context.
pub struct SectorAccess<'img> {
    access: usize,
    img: &'img Img,
}

/// One sector found on a track. A sector returned by a single search owns its
/// libhxcfe record; one taken from a [`SectorConfigArray`] borrows it from the
/// array, which frees it.
pub struct SectorConfig<'access, 'img> {
    access: &'access SectorAccess<'img>,
    record: SectorRecord,
    track: i32,
    owned: bool,
}

/// All the sectors found on one track.
pub struct SectorConfigArray<'access, 'img> {
    records: Vec<SectorRecord>,
    access: &'access SectorAccess<'img>,
    track: i32,
}

/// The addresses of the records that dropping a sector array frees, in
/// order: the record of every sector found, except null ones.
pub open spec fn spec_freed_cfgs(records: Seq<SectorRecord>) -> Seq<usize>
    decreases records.len(),
{
    if records.len() == 0 {
        Seq::empty()
    } else {
        let rest = spec_freed_cfgs(records.drop_last());
        if records.last().cfg != 0 {
            rest.push(records.last().cfg)
        } else {
            rest
        }
    }
}

/// How many times the address `a` occurs in `s`.
pub open spec fn occurrences(s: Seq<usize>, a: usize) -> nat
    decreases s.len(),
{
    if s.len() == 0 {
        0
    } else {
        occurrences(s.drop_last(), a) + if s.last() == a {
            1nat
        } else {
            0nat
        }
    }
}

/// How many of `records` lie at the address `a`.
pub open spec fn holders(records: Seq<SectorRecord>, a: usize) -> nat
    decreases records.len(),
{
    if records.len() == 0 {
        0
    } else {
        holders(records.drop_last(), a) + if records.last().cfg == a {
            1nat
        } else {
            0nat
        }
    }
}

/// Dropping a sector array frees each non-null record exactly as many times
/// as the array holds it (so once, for the distinct records libhxcfe gives),
/// and never frees a null address.
pub proof fn lemma_array_frees_each_record_once(records: Seq<SectorRecord>, a: usize)
    ensures
        a != 0 ==> occurrences(spec_freed_cfgs(records), a) == holders(records, a),
        occurrences(spec_freed_cfgs(records), 0) == 0,
    decreases records.len(),
{
    if records.len() > 0 {
        lemma_array_frees_each_record_once(records.drop_last(), a);
        let rest = spec_freed_cfgs(records.drop_last());
        if records.last().cfg != 0 {
            assert(rest.push(records.last().cfg).drop_last() =~= rest);
        }
    }
}

/// The arguments of libhxcfe's sector write for one sector: where it writes
/// (track, side, sector), how many sectors and bytes, in which encoding, and
/// the bytes.
pub struct SectorWrite {
    pub track: i32,
    pub side: i32,
    pub sector: i32,
    pub count: i32,
    pub size: i32,
    pub encoding: i32,
    pub data: Vec<u8>,
}

impl<'img> SectorAccess<'img> {
    /// Sector access to `img`, given the context that libhxcfe opened for it:
    /// `None` when libhxcfe returned no context (0).
    pub fn new(img: &'img Img, access: usize) -> (r: Option<Self>)
        ensures
            r is Some <==> access != 0,
            r matches Some(a) ==> a.spec_img() == img && a.spec_access() == access,
    {
        if access == 0 {
            None
        } else {
            Some(SectorAccess { access, img })
        }
    }

    /// The address of the libhxcfe sector-access context.
    pub closed spec fn spec_access(&self) -> usize {
        self.access
    }

    /// The image that is accessed.
    pub closed spec fn spec_img(&self) -> &'img Img {
        self.img
    }

    /// The address of the libhxcfe sector-access context.
    pub fn access(&self) -> (r: usize)
        ensures
            r == self.spec_access(),
    {
        self.access
    }

    /// The image that is accessed.
    pub fn img(&self) -> (r: &'img Img)
        ensures
            r == self.spec_img(),
    {
        self.img
    }

    /// The next sector of track `track` on head `head`, given what libhxcfe's
    /// search found (`None` when it found no further sector). The sector owns
    /// its record.
    pub fn get_next_sector(&self, head: HeadId, track: TrackId, found: Option<SectorRecord>) -> (r:
        Option<SectorConfig<'_, 'img>>)
        ensures
            r is Some <==> found is Some,
            r matches Some(c) ==> {
                &&& Some(c.spec_record()) == found
                &&& c.spec_track() == track@
                &&& c.spec_owned()
                &&& c.spec_access() == self
            },
    {
        match found {
            Some(record) => Some(SectorConfig { access: self, record, track: track.get(), owned: true }),
            None => None,
        }
    }

    /// The sector numbered `id` on track `track`, head `head`, given what
    /// libhxcfe's search found (`None` when there is no such sector). The
    /// sector owns its record.
    pub fn search_sector(
        &self,
        head: HeadId,
        track: TrackId,
        id: SectorId,
        found: Option<SectorRecord>,
    ) -> (r: Option<SectorConfig<'_, 'img>>)
        ensures
            r is Some <==> found is Some,
            r matches Some(c) ==> {
                &&& Some(c.spec_record()) == found
                &&& c.spec_track() == track@
                &&& c.spec_owned()
                &&& c.spec_access() == self
            },
    {
        match found {
            Some(record) => Some(SectorConfig { access: self, record, track: track.get(), owned: true }),
            None => None,
        }
    }

    /// All sectors of track `track`, head `head`, given what libhxcfe's scan
    /// returned (`None` when it returned no array).
    pub fn all_track_sectors(
        &self,
        head: HeadId,
        track: TrackId,
        found: Option<Vec<SectorRecord>>,
    ) -> (r: Option<SectorConfigArray<'_, 'img>>)
        requires
            found matches Some(v) ==> v.len() <= i32::MAX,
        ensures
            r is Some <==> found is Some,
            r matches Some(a) ==> {
                &&& Some(a.spec_records()) == (match found {
                    Some(v) => Some(v@),
                    None => None,
                })
                &&& a.spec_track() == track@
                &&& a.spec_access() == self
            },
    {
        match found {
            Some(records) => Some(SectorConfigArray { records, access: self, track: track.get() }),
            None => None,
        }
    }
}

impl<'access, 'img> SectorConfigArray<'access, 'img> {
    /// The records of the sectors found, in the order libhxcfe gave them.
    pub closed spec fn spec_records(&self) -> Seq<SectorRecord> {
        self.records@
    }

    /// The track that was scanned.
    pub closed spec fn spec_track(&self) -> i32 {
        self.track
    }

    /// The sector access that made the scan.
    pub closed spec fn spec_access(&self) -> &'access SectorAccess<'img> {
        self.access
    }

    #[verifier::type_invariant]
    spec fn array_invariant(self) -> bool {
        self.records.len() <= i32::MAX
    }

    /// The sector access that made the scan.
    pub fn access(&self) -> (r: &'access SectorAccess<'img>)
        ensures
            r == self.spec_access(),
    {
        self.access
    }

    /// The number of sectors found.
    pub fn nb_sectors(&self) -> (r: i32)
        ensures
            r == self.spec_records().len(),
    {
        proof {
            use_type_invariant(self);
        }
        self.records.len() as i32
    }

    /// The addresses of the records that dropping the array frees, in order:
    /// those of all its sectors but null ones. The sectors taken from the
    /// array free nothing themselves.
    pub fn records_to_free(&self) -> (r: Vec<usize>)
        ensures
            r@ == spec_freed_cfgs(self.spec_records()),
    {
        let mut r: Vec<usize> = Vec::new();
        let mut i: usize = 0;
        while i < self.records.len()
            invariant
                i <= self.records@.len(),
                r@ == spec_freed_cfgs(self.records@.take(i as int)),
            decreases self.records@.len() - i,
        {
            let record = self.records[i];
            assert(self.records@.take(i + 1).drop_last() =~= self.records@.take(i as int));
            if record.cfg != 0 {
                r.push(record.cfg);
            }
            i = i + 1;
        }
        assert(self.records@.take(i as int) =~= self.records@);
        r
    }

    /// The sector at position `pos` of the array. It borrows its record from
    /// the array.
    pub fn sector_config(&self, pos: i32) -> (r: SectorConfig<'access, 'img>)
        requires
            0 <= pos < self.spec_records().len(),
        ensures
            r.spec_record() == self.spec_records()[pos as int],
            r.spec_track() == self.spec_track(),
            !r.spec_owned(),
            r.spec_frees() == None::<usize>,
            r.spec_access() == self.spec_access(),
    {
        SectorConfig {
            access: self.access,
            record: self.records[pos as usize],
            track: self.track,
            owned: false,
        }
    }
}

impl<'access, 'img> SectorConfig<'access, 'img> {
    /// The libhxcfe record of the sector.
    pub closed spec fn spec_record(&self) -> SectorRecord {
        self.record
    }

    /// The track on which the sector was found.
    pub closed spec fn spec_track(&self) -> i32 {
        self.track
    }

    /// Whether this sector frees its record when it is dropped.
    pub closed spec fn spec_owned(&self) -> bool {
        self.owned
    }

    /// The sector access that found the sector.
    pub closed spec fn spec_access(&self) -> &'access SectorAccess<'img> {
        self.access
    }

    /// The libhxcfe record of the sector.
    pub fn record(&self) -> (r: SectorRecord)
        ensures
            r == self.spec_record(),
    {
        self.record
    }

    /// The track on which the sector was found.
    pub fn track(&self) -> (r: i32)
        ensures
            r == self.spec_track(),
    {
        self.track
    }

    /// The sector access that found the sector.
    pub fn access(&self) -> (r: &'access SectorAccess<'img>)
        ensures
            r == self.spec_access(),
    {
        self.access
    }

    /// Whether this sector frees its record when it is dropped.
    pub fn owned(&self) -> (r: bool)
        ensures
            r == self.spec_owned(),
    {
        self.owned
    }

    /// The address of the record that dropping this sector frees: its own
    /// record when it owns it, none when it borrows it from an array.
    pub open spec fn spec_frees(&self) -> Option<usize> {
        if self.spec_owned() {
            Some(self.spec_record().cfg)
        } else {
            None
        }
    }

    /// The address of the record that dropping this sector frees, if any.
    pub fn record_to_free(&self) -> (r: Option<usize>)
        ensures
            r == self.spec_frees(),
    {
        if self.owned {
            Some(self.record.cfg)
        } else {
            None
        }
    }

    /// The arguments of libhxcfe's write of `data` over this sector, in
    /// `encoding`, given the sector size `len` that libhxcfe reports: one
    /// sector of `len` bytes, at this sector's track, side and number. The
    /// data must have exactly the sector's size.
    pub fn write_request(&self, len: i32, encoding: i32, data: &[u8]) -> (r: SectorWrite)
        requires
            0 <= len,
            len == data@.len(),
        ensures
            r.track == self.spec_track(),
            r.side == self.spec_record().head,
            r.sector == self.spec_record().sector,
            r.count == 1,
            r.size == len,
            r.encoding == encoding,
            r.data@ == data@,
    {
        SectorWrite {
            track: self.track,
            side: self.record.head,
            sector: self.record.sector,
            count: 1,
            size: len,
            encoding,
            data: vstd::slice::slice_to_vec(data),
        }
    }

    /// The head number written in the sector header.
    pub fn head(&self) -> (r: HeadId)
        ensures
            r@ == self.spec_record().head,
    {
        HeadId::new(self.record.head)
    }

    /// The sector number written in the sector header.
    pub fn sector_id(&self) -> (r: SectorId)
        ensures
            r@ == self.spec_record().sector,
    {
        SectorId::new(self.record.sector)
    }

    /// The sector size in bytes.
    pub fn sector_size(&self) -> (r: i32)
        ensures
            r == self.spec_record().sectorsize,
    {
        self.record.sectorsize
    }

    /// The number of sectors left on the track after this one.
    pub fn sectors_left(&self) -> (r: i32)
        ensures
            r == self.spec_record().sectorsleft,
    {
        self.record.sectorsleft
    }

    /// The track encoding number of the sector, which libhxcfe never gives
    /// negative.
    pub fn track_encoding(&self) -> (r: u32)
        requires
            self.spec_record().trackencoding >= 0,
        ensures
            r == self.spec_record().trackencoding,
    {
        self.record.trackencoding as u32
    }
}

} // verus!
