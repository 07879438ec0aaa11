use hxcfe::error::HxcfeError;
use hxcfe::img::Img;
use hxcfe::img_loaders::{load_result, ImgLoaderAccess, ImgLoaderManager};

#[test]
fn access_modes() {
    assert_eq!(ImgLoaderAccess::n(1), Some(ImgLoaderAccess::Read));
    assert_eq!(ImgLoaderAccess::n(2), Some(ImgLoaderAccess::Write));
    assert_eq!(ImgLoaderAccess::n(3), Some(ImgLoaderAccess::ReadAndWrite));
    assert_eq!(ImgLoaderAccess::n(0), None);
    assert_eq!(ImgLoaderAccess::n(4), None);
    assert!(ImgLoaderAccess::Read.readable());
    assert!(!ImgLoaderAccess::Read.writeable());
    assert!(!ImgLoaderAccess::Write.readable());
    assert!(ImgLoaderAccess::Write.writeable());
    assert!(ImgLoaderAccess::ReadAndWrite.readable());
    assert!(ImgLoaderAccess::ReadAndWrite.writeable());
    assert_eq!(ImgLoaderAccess::Read.to_string(), "R");
    assert_eq!(ImgLoaderAccess::Write.as_str(), "W");
    assert_eq!(ImgLoaderAccess::ReadAndWrite.to_string(), "RW");
    for a in [ImgLoaderAccess::Read, ImgLoaderAccess::Write, ImgLoaderAccess::ReadAndWrite] {
        assert!(a.readable() || a.writeable());
        assert_eq!(ImgLoaderAccess::n(a.code()), Some(a));
    }
}

#[test]
fn list_modules() {
    let manager = ImgLoaderManager::new(0x100, 5).unwrap();
    let codes = [3, 1, 3, 2, 1];
    for i in 0..manager.nb_loaders() {
        println!("Loader {i}");
        let loader = manager.loader_for_id(i).unwrap();
        println!("\t{}", loader.access(codes[i as usize]).to_string());
        assert_eq!(loader.idx(), i);
    }
}

#[test]
fn loader_for_id_bounds() {
    let manager = ImgLoaderManager::new(0x100, 5).unwrap();
    assert!(manager.loader_for_id(-1).is_none());
    assert!(manager.loader_for_id(0).is_some());
    assert!(manager.loader_for_id(4).is_some());
    assert!(manager.loader_for_id(5).is_none());
    assert!(ImgLoaderManager::new(0, 5).is_none());
    assert_eq!(manager.handler(), 0x100);
}

#[test]
fn dsk_loader() {
    let manager = ImgLoaderManager::new(0x100, 80).unwrap();
    // libhxcfe's name lookup of "AMSTRADCPC_DSK" gives its loader number.
    assert!(manager.loader_for_text_id("AMSTRADCPC_DSK", 12).is_some());
    assert!(manager.loader_for_text_id("AMSTRADCPC_DSK", 12).is_some());
    assert!(manager.loader_for_text_id("AMSTRADCPC_DSK", 12).is_some());
    // An unknown name is reported by libhxcfe as a negative number.
    assert!(manager.loader_for_text_id("NO_SUCH_LOADER", -1).is_none());
    assert!(manager.loader_for_text_id("AMSTRAD\0CPC", 12).is_none());

    assert!(manager.loader_for_fname("tests/EXPERTS.HFE", true, 7).is_some());
    assert!(manager.loader_for_fname("tests/EXPERTS.DSK", true, 12).is_some());
    assert!(manager.loader_for_fname("missing.dsk", false, 12).is_none());
    assert!(manager.loader_for_format("HXC_HFE", 7).is_some());
    assert!(manager.loader_for_format("HXC_HFE", 80).is_none());
}

#[test]
fn loader_load_and_save() {
    let manager = ImgLoaderManager::new(0x100, 10).unwrap();
    let loader = manager.loader_for_id(3).unwrap();
    assert_eq!(loader.load("disk.dsk", 0, 0x5000).unwrap().floppy(), 0x5000);
    assert_eq!(loader.load("disk\0.dsk", 0, 0x5000).unwrap_err(), HxcfeError::HXCFE_BADPARAMETER);
    assert_eq!(loader.load("disk.dsk", -1, 0).unwrap_err(), HxcfeError::HXCFE_ACCESSERROR);
    let img = Img::new(0x5000);
    assert_eq!(loader.save("out.hfe", &img, 0), Ok(()));
    assert_eq!(loader.save("out.hfe", &img, -6), Err(HxcfeError::HXCFE_UNSUPPORTEDFILE));
    assert_eq!(loader.save("o\0ut.hfe", &img, 0), Err(HxcfeError::HXCFE_BADPARAMETER));
}

#[test]
fn load_result_quirks() {
    assert!(load_result(0, 0x10).is_ok());
    assert_eq!(load_result(0, 0).unwrap_err(), HxcfeError::HXCFE_NOERROR);
    assert_eq!(load_result(1, 0x10).unwrap_err(), HxcfeError::HXCFE_VALIDFILE);
    assert_eq!(load_result(-77, 0x10).unwrap_err(), HxcfeError::HXCFE_INTERNALERROR);
}
