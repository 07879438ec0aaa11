use hxcfe::types::{
    DriveId, FileHandle, FileSystemId, HeadId, InterfaceModeId, LayoutIndex, SectorId, TrackId,
    NB_FILE_SYSTEMS,
};

#[test]
fn id_newtypes_roundtrip() {
    assert_eq!(TrackId::new(42).get(), 42);
    assert_eq!(HeadId::new(1).get(), 1);
    assert_eq!(SectorId::new(0xC1).get(), 0xC1);
    assert_eq!(DriveId::new(3).get(), 3);
    assert_eq!(InterfaceModeId::new(6).get(), 6);
    assert_eq!(LayoutIndex::new(11).get(), 11);
    assert_eq!(i32::from(TrackId::from(-7)), -7);
    assert_eq!(i32::from(HeadId::from(0)), 0);
    assert_eq!(i32::from(SectorId::from(0xC2)), 0xC2);
    assert_eq!(i32::from(DriveId::from(2)), 2);
    assert_eq!(i32::from(FileHandle::from(5)), 5);
    assert_eq!(i32::from(InterfaceModeId::from(9)), 9);
    assert_eq!(i32::from(LayoutIndex::from(23)), 23);
    assert_eq!(TrackId::from(12), TrackId::new(12));
    assert!(TrackId::new(1) < TrackId::new(2));
}

#[test]
fn id_display_is_decimal() {
    assert_eq!(TrackId::new(42).to_string(), "42");
    assert_eq!(HeadId::new(0).to_string(), "0");
    assert_eq!(SectorId::new(193).to_string(), "193");
    assert_eq!(DriveId::new(-3).to_string(), "-3");
    assert_eq!(FileHandle::from(1234567).to_string(), "1234567");
    assert_eq!(InterfaceModeId::new(i32::MAX).to_string(), "2147483647");
    assert_eq!(LayoutIndex::new(i32::MIN).to_string(), "-2147483648");
    assert_eq!(TrackId::new(10).to_string(), "10");
}

#[test]
fn drive_id_from_u8_accepts_only_0_to_3() {
    for d in 0u8..=3 {
        assert_eq!(DriveId::from_u8(d).map(|x| x.get()), Some(d as i32));
    }
    assert!(DriveId::from_u8(4).is_none());
    assert!(DriveId::from_u8(255).is_none());
}

#[test]
fn file_system_id_numbers() {
    assert_eq!(FileSystemId::from_i32(15), Some(FileSystemId::MsDos720KbFat12));
    assert_eq!(FileSystemId::from_i32(0), Some(FileSystemId::Atari720KbFat12));
    assert_eq!(FileSystemId::from_i32(16), Some(FileSystemId::MsDos5P25_300Rpm_1200KbFat12));
    assert_eq!(FileSystemId::from_i32(17), Some(FileSystemId::MsDos1_44MbFat12));
    assert_eq!(FileSystemId::from_i32(3), Some(FileSystemId::Amiga880KbDos));
    assert_eq!(FileSystemId::from_i32(-1), None);
    assert_eq!(FileSystemId::from_i32(40), None);
    assert_eq!(FileSystemId::from_u32(40), None);
    assert_eq!(FileSystemId::from_u32(u32::MAX), None);
    assert_eq!(FileSystemId::MsDos720KbFat12.get(), 15);
    assert_eq!(i32::from(FileSystemId::Atari720KbFat12), 0);
    assert_eq!(u32::from(FileSystemId::MsDos1_44MbFat12), 17);
}

#[test]
fn file_system_ids_tried_on_a_dsk_are_valid() {
    // The filesystem numbers that are tried when mounting a CPC disk.
    for id in [6, 15, 0, 9, 16, 17] {
        assert!(FileSystemId::from_i32(id).is_some(), "Invalid filesystem ID {}", id);
    }
}

#[test]
fn file_system_id_roundtrip_over_all_numbers() {
    let mut seen = Vec::new();
    for v in 0..NB_FILE_SYSTEMS {
        let f = FileSystemId::from_u32(v).expect("every number below the count is valid");
        assert_eq!(f.get_u32(), v);
        assert_eq!(FileSystemId::from_u32(f.get_u32()), Some(f));
        assert!(!seen.contains(&f));
        seen.push(f);
    }
    assert_eq!(seen.len(), 40);
}

#[test]
fn file_system_id_description() {
    assert_eq!(FileSystemId::Atari720KbFat12.description(), "720KB Atari FAT12");
    assert_eq!(FileSystemId::Amiga880KbDos.description(), "880KB AmigaDOS");
    assert_eq!(
        FileSystemId::MsDos5P25Ds_360Rpm_360KbFat12.description(),
        "5.25\" DS 360RPM 360KB MS-DOS FAT12"
    );
    assert_eq!(FileSystemId::MsDos5_35MbBFat12.description(), "5.35MB-B MS-DOS FAT12");
    assert_eq!(FileSystemId::MsDos16MbFat12.to_string(), "16MB MS-DOS FAT12");
}

#[test]
fn file_system_descriptions_are_distinct_and_named_by_family() {
    let all: Vec<FileSystemId> = (0..NB_FILE_SYSTEMS).map(|v| FileSystemId::from_u32(v).unwrap()).collect();
    for (i, a) in all.iter().enumerate() {
        let d = a.description();
        assert!(!d.is_empty());
        let amiga = matches!(a, FileSystemId::Amiga880KbDos | FileSystemId::Amiga1760KbDos);
        let atari = matches!(
            a,
            FileSystemId::Atari720KbFat12
                | FileSystemId::Atari902KbFat12
                | FileSystemId::Atari360KbFat12
                | FileSystemId::Atari3_42MbFat12
        );
        assert_eq!(d.ends_with("AmigaDOS"), amiga);
        if !amiga {
            assert!(d.ends_with("FAT12"));
        }
        assert_eq!(d.contains("Atari"), atari);
        for b in &all[i + 1..] {
            assert_ne!(d, b.description());
        }
    }
}

#[test]
fn id_conversions_through_into() {
    let t: TrackId = 80.into();
    let back: i32 = t.into();
    assert_eq!(back, 80);
    let h: i32 = HeadId::from(1).into();
    assert_eq!(h, 1);
}
