use hxcfe::fs_manager::{c_size, count_result, DirEntry, FileSystemManager, BAD_PARAMETER_STATUS};
use hxcfe::text::{c_compatible, c_text, decimal_u64, push_right_aligned};
use hxcfe::types::FileHandle;

#[test]
fn names_with_nul_bytes_are_refused() {
    assert!(c_compatible("/ECOLE.BIN"));
    assert!(c_compatible(""));
    assert!(!c_compatible("a\0b"));
    let fs = FileSystemManager::new(0x700).unwrap();
    assert_eq!(fs.open_file("bad\0name", 3).unwrap_err(), BAD_PARAMETER_STATUS);
    assert_eq!(fs.open_dir("bad\0", 3).unwrap_err(), -4);
    assert_eq!(fs.delete_file("x\0", 0), Err(-4));
    assert_eq!(fs.create_dir("d\0", 0), Err(-4));
    assert_eq!(fs.remove_dir("d\0", 0), Err(-4));
}

#[test]
fn handles_above_zero_are_open() {
    let fs = FileSystemManager::new(0x700).unwrap();
    assert_eq!(fs.open_file("/ECOLE.BIN", 3).unwrap().get(), 3);
    assert_eq!(fs.open_file("/ECOLE.BIN", 0).unwrap_err(), 0);
    assert_eq!(fs.create_file("/NEW.TXT", -2).unwrap_err(), -2);
    let dir = fs.open_dir("/", 1).unwrap();
    assert_eq!(dir.handle(), 1);
    assert_eq!(dir.manager().handler(), 0x700);
    assert_eq!(fs.open_dir("/", -1).unwrap_err(), -1);
    assert!(FileSystemManager::new(0).is_none());
}

#[test]
fn reads_and_writes() {
    let fs = FileSystemManager::new(0x700).unwrap();
    let h = FileHandle::from(3);
    assert_eq!(fs.read_file(h, 512), Ok(512));
    assert_eq!(fs.read_file(h, 0), Ok(0));
    assert_eq!(fs.read_file(h, -1), Err(-1));
    assert_eq!(fs.write_file(h, 13), Ok(13));
    assert_eq!(count_result(-3), Err(-3));
    assert_eq!(c_size(512), 512);
    assert_eq!(fs.delete_file("/A.TXT", 0), Ok(()));
    assert_eq!(fs.delete_file("/A.TXT", -1), Err(-1));
}

#[test]
fn directory_entries() {
    let fs = FileSystemManager::new(0x700).unwrap();
    let dir = fs.open_dir("/", 1).unwrap();
    let e = dir.read(1, DirEntry::new(0, 1024, "ECOLE.BIN".to_string())).unwrap();
    assert!(!e.is_dir());
    assert_eq!(e.size(), 1024);
    assert_eq!(e.entry_name(), "ECOLE.BIN");
    let d = dir.read(1, DirEntry::new(16, 0, "SUB".to_string())).unwrap();
    assert!(d.is_dir());
    assert_eq!(dir.read(0, DirEntry::new(0, 0, String::new())).err(), Some(0));
    assert_eq!(dir.read(-1, DirEntry::new(0, 0, String::new())).err(), Some(-1));
}

#[test]
fn c_strings_from_libhxcfe() {
    assert_eq!(c_text(Some(b"HXC_HFE")), "HXC_HFE");
    assert_eq!(c_text(Some("Disque \u{e9}".as_bytes())), "Disque \u{e9}");
    assert_eq!(c_text(Some(&[0x41, 0xff, 0x42])), "");
    assert_eq!(c_text(None), "");
    assert_eq!(c_text(Some(b"")), "");
}

#[test]
fn decimal_and_right_aligned_texts() {
    assert_eq!(decimal_u64(0), "0");
    assert_eq!(decimal_u64(18446744073709551615), "18446744073709551615");
    let mut s = String::from("[");
    push_right_aligned(&mut s, "42", 8);
    assert_eq!(s, "[      42");
    let mut s = String::new();
    push_right_aligned(&mut s, "123456789", 8);
    assert_eq!(s, "123456789");
}
