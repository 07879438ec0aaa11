use hxcfe::error::HxcfeError;
use hxcfe::img::Img;
use hxcfe::sector_access::SectorRecord;
use hxcfe::types::{HeadId, SectorId, TrackId};

fn record(cfg: usize, sector: i32, left: i32) -> SectorRecord {
    SectorRecord { cfg, head: 0, sector, sectorsize: 512, sectorsleft: left, trackencoding: 1 }
}

fn track0() -> Vec<SectorRecord> {
    (0..9).map(|i| record(0x9000 + i as usize, 0xC1 + i, 8 - i)).collect()
}

#[test]
fn sector_access_created_and_dropped_repeatedly() {
    let img = Img::new(0x4000);
    for i in 0..50usize {
        let _sa = img.sector_access(0x8000 + i).expect("sector_access");
    }
}

#[test]
fn sector_access_needs_a_context() {
    let img = Img::new(0x4000);
    assert!(img.sector_access(0).is_none());
    assert_eq!(img.sector_access(0x8000).unwrap().access(), 0x8000);
}

#[test]
fn search_sector_drop_is_clean() {
    let img = Img::new(0x4000);
    let sa = img.sector_access(0x8000).expect("sector_access");
    for _ in 0..20 {
        let c = sa.search_sector(HeadId::new(0), TrackId::new(0), SectorId::new(0xC1), Some(record(0x9000, 0xC1, 8)));
        let c = c.expect("sector C1 must exist");
        assert!(c.owned());
        assert_eq!(c.sector_id().get(), 0xC1);
        assert_eq!(c.track(), 0);
    }
    assert!(sa.search_sector(HeadId::new(0), TrackId::new(0), SectorId::new(0x99), None).is_none());
}

#[test]
fn get_next_sector_drop_is_clean() {
    let img = Img::new(0x4000);
    let sa = img.sector_access(0x8000).expect("sector_access");
    let mut count = 0;
    for r in track0() {
        let c = sa.get_next_sector(HeadId::new(0), TrackId::new(0), Some(r));
        let c = c.expect("expected at least one sector on track 0");
        assert_eq!(c.sectors_left(), 8 - count);
        assert_eq!(c.sector_size(), 512);
        assert_eq!(c.head().get(), 0);
        assert_eq!(c.track_encoding(), 1);
        count += 1;
    }
    assert!(sa.get_next_sector(HeadId::new(0), TrackId::new(0), None).is_none());
    assert_eq!(count, 9);
}

#[test]
fn borrowed_sector_configs_dropped_before_array_no_double_free() {
    let img = Img::new(0x4000);
    let sa = img.sector_access(0x8000).expect("sector_access");
    let arr = sa
        .all_track_sectors(HeadId::new(0), TrackId::new(0), Some(track0()))
        .expect("track 0 must have sectors");
    assert!(arr.nb_sectors() > 0);
    for i in 0..arr.nb_sectors() {
        let c = arr.sector_config(i);
        assert!(!c.owned());
        assert_eq!(c.sector_id().get(), 0xC1 + i);
        assert_eq!(c.record().cfg, 0x9000 + i as usize);
    }
}

#[test]
fn sector_config_array_dropped_without_borrowing() {
    let img = Img::new(0x4000);
    let sa = img.sector_access(0x8000).expect("sector_access");
    for _ in 0..20 {
        let arr = sa.all_track_sectors(HeadId::new(1), TrackId::new(3), Some(track0()));
        assert_eq!(arr.map(|a| a.nb_sectors()), Some(9));
    }
    assert!(sa.all_track_sectors(HeadId::new(0), TrackId::new(0), None).is_none());
}

#[test]
fn test_image_duplicate() {
    let img = Img::new(0x4000);
    let dup = img.duplicate(0x5000).expect("Failed to duplicate image");
    assert_eq!(dup.floppy(), 0x5000);
    assert_ne!(dup.floppy(), img.floppy());
    assert_eq!(img.duplicate(0).unwrap_err(), HxcfeError::HXCFE_INTERNALERROR);
}

#[test]
fn test_sector_copy() {
    let img = Img::new(0x4000);
    let mut target = img.duplicate(0x5000).expect("Failed to duplicate image");
    assert_eq!(target.copy_sectors_from(&img, 0), Ok(()));
    assert_eq!(target.copy_sectors_from(&img, -5), Err(HxcfeError::HXCFE_INTERNALERROR));
    assert_eq!(target.copy_sectors_from(&img, 1), Err(HxcfeError::HXCFE_VALIDFILE));
    assert_eq!(target.floppy(), 0x5000);
}

#[test]
fn sector_access_drops_on_dsk() {
    let img = Img::new(0x6000);
    let sa = img.sector_access(0x8100).expect("sector_access");
    for id in [0xC1, 0xC2] {
        let c = sa.search_sector(HeadId::new(0), TrackId::new(0), SectorId::new(id), Some(record(0x9100, id, 0)));
        assert_eq!(c.map(|c| c.sector_id().get()), Some(id));
    }
}

#[test]
fn full_scan_all_tracks_repeated() {
    let img = Img::new(0x4000);
    for _ in 0..2 {
        let sa = img.sector_access(0x8000).expect("sector_access");
        let mut total = 0;
        for track in 0..40 {
            let mut left: Vec<SectorRecord> = track0();
            left.reverse();
            while let Some(c) = sa.get_next_sector(HeadId::new(0), TrackId::new(track), left.pop()) {
                assert_eq!(c.track(), track);
                total += 1;
            }
        }
        assert_eq!(total, 40 * 9);
    }
}

#[test]
fn array_frees_each_non_null_record_once() {
    let img = Img::new(0x4000);
    let sa = img.sector_access(0x8000).expect("sector_access");
    let mut records = track0();
    records.insert(2, record(0, 0, 0));
    let arr = sa
        .all_track_sectors(HeadId::new(0), TrackId::new(0), Some(records))
        .expect("track 0 must have sectors");
    assert_eq!(arr.nb_sectors(), 10);
    assert_eq!(arr.sector_config(3).sector_id().get(), 0xC3);
    let freed = arr.records_to_free();
    assert_eq!(freed, (0..9).map(|i| 0x9000 + i as usize).collect::<Vec<_>>());
    for i in 0..arr.nb_sectors() {
        assert_eq!(arr.sector_config(i).record_to_free(), None);
    }
}

#[test]
fn searched_sector_frees_its_own_record() {
    let img = Img::new(0x4000);
    let sa = img.sector_access(0x8000).expect("sector_access");
    let c = sa
        .search_sector(HeadId::new(0), TrackId::new(0), SectorId::new(0xC1), Some(record(0x9000, 0xC1, 8)))
        .unwrap();
    assert_eq!(c.record_to_free(), Some(0x9000));
}

#[test]
fn sector_write_request_targets_the_sector() {
    let img = Img::new(0x4000);
    let sa = img.sector_access(0x8000).expect("sector_access");
    let mut r = record(0x9000, 0xC4, 5);
    r.head = 1;
    let c = sa.get_next_sector(HeadId::new(1), TrackId::new(7), Some(r)).unwrap();
    let data = vec![0xE5u8; 512];
    let w = c.write_request(512, 2, &data);
    assert_eq!((w.track, w.side, w.sector, w.count, w.size, w.encoding), (7, 1, 0xC4, 1, 512, 2));
    assert_eq!(w.data, data);
}

#[test]
fn floppy_size_info_accessors() {
    let info = hxcfe::img::FloppySizeInfo::new(1440, 3, 737280);
    assert_eq!(info.nb_sectors(), 1440);
    assert_eq!(info.nb_bad_sectors(), 3);
    assert_eq!(info.size(), 737280);
}
