use hxcfe::error::HxcfeError;
use hxcfe::floppy_interface::InterfaceMode;
use hxcfe::img::Img;
use hxcfe::img_loaders::ImgLoaderManager;
use hxcfe::{load_step, save_step, Hxcfe, LoadAction, LoadEvent, SaveAction, SaveEvent};

fn modes() -> Vec<InterfaceMode> {
    vec![
        InterfaceMode::new(0, "IBMPC_DD_FLOPPYMODE".to_string(), "IBM PC DD".to_string()),
        InterfaceMode::new(1, "IBMPC_HD_FLOPPYMODE".to_string(), "IBM PC HD".to_string()),
        InterfaceMode::new(2, "ATARIST_DD_FLOPPYMODE".to_string(), "Atari ST DD".to_string()),
        InterfaceMode::new(4, "AMIGA_DD_FLOPPYMODE".to_string(), "Amiga DD".to_string()),
        InterfaceMode::new(6, "CPC_DD_FLOPPYMODE".to_string(), "Amstrad CPC DD".to_string()),
    ]
}

/// Drives a load of `path` through its steps with the given outcomes of the
/// outside work: whether a manager is made, whether the file exists, the
/// detected loader number, and what the loader returns.
fn run_load(
    path: &str,
    manager_handler: usize,
    nb_loaders: i32,
    exists: bool,
    detected: i32,
    status: i32,
    floppy: usize,
) -> Result<Img, String> {
    let hxcfe = Hxcfe::new(0x1000);
    let mut manager = None;
    let mut event = LoadEvent::Begin;
    loop {
        match load_step(path, event) {
            LoadAction::MakeManager => {
                manager = hxcfe.loaders_manager(manager_handler, nb_loaders);
                event = LoadEvent::ManagerMade(manager.is_some());
            }
            LoadAction::FindLoader => {
                let m: &ImgLoaderManager = manager.as_ref().unwrap();
                let found = m.loader_for_fname(path, exists, detected).map(|l| l.idx());
                event = LoadEvent::LoaderFound(found);
            }
            LoadAction::RunLoader(idx) => {
                let m: &ImgLoaderManager = manager.as_ref().unwrap();
                let loader = m.loader_for_id(idx).unwrap();
                event = LoadEvent::LoaderRan(loader.load(path, status, floppy));
            }
            LoadAction::Finish(r) => return r,
        }
    }
}

#[test]
fn load_missing_dsk() {
    let res = run_load("missing.dsk", 0x2000, 60, false, 3, 0, 0x3000);
    assert!(res.is_err());
    assert_eq!(res.unwrap_err(), "Unable to find a loading loader for missing.dsk");
}

#[test]
fn load_existing_image_succeeds() {
    let res = run_load("tests/EXPERTS.HFE", 0x2000, 60, true, 12, 0, 0x3000);
    assert_eq!(res.unwrap().floppy(), 0x3000);
}

#[test]
fn load_errors_have_messages() {
    assert_eq!(
        run_load("a.dsk", 0, 60, true, 1, 0, 0x3000).unwrap_err(),
        "Unable to get the loader manager"
    );
    assert_eq!(
        run_load("a.dsk", 0x2000, 60, true, 1, -2, 0).unwrap_err(),
        "Load error HXCFE_BADFILE"
    );
    // The detected loader number is out of range: no loader.
    assert_eq!(
        run_load("a.dsk", 0x2000, 60, true, 60, 0, 0x3000).unwrap_err(),
        "Unable to find a loading loader for a.dsk"
    );
    // libhxcfe reports no error but makes no image.
    assert_eq!(
        run_load("a.dsk", 0x2000, 60, true, 1, 0, 0).unwrap_err(),
        "Load error HXCFE_NOERROR"
    );
}

#[test]
fn save_steps() {
    assert!(matches!(save_step("out.hfe", SaveEvent::Begin), SaveAction::MakeManager));
    assert!(matches!(save_step("out.hfe", SaveEvent::ManagerMade(true)), SaveAction::FindLoader));
    match save_step("out.hfe", SaveEvent::LoaderFound(None)) {
        SaveAction::Finish(Err(m)) => assert_eq!(m, "Unable to find a saving loader for out.hfe"),
        _ => panic!("expected an error"),
    }
    assert!(matches!(
        save_step("out.hfe", SaveEvent::LoaderFound(Some(4))),
        SaveAction::RunLoader(4)
    ));
    assert!(matches!(save_step("out.hfe", SaveEvent::LoaderRan(Ok(()))), SaveAction::Finish(Ok(()))));
    match save_step("out.hfe", SaveEvent::LoaderRan(Err(HxcfeError::HXCFE_ACCESSERROR))) {
        SaveAction::Finish(Err(m)) => assert_eq!(m, "Save error HXCFE_ACCESSERROR"),
        _ => panic!("expected an error"),
    }
    match save_step("out.hfe", SaveEvent::ManagerMade(false)) {
        SaveAction::Finish(Err(m)) => assert_eq!(m, "Unable to get the loader manager"),
        _ => panic!("expected an error"),
    }
}

#[test]
fn list_interfaces() {
    let hxcfe = Hxcfe::new(0x1000);
    for mode in modes() {
        let id = mode.id();
        let name = mode.mode_name().to_string();
        let desc = mode.description().to_string();
        let interface = hxcfe.floppy_interface(mode).expect("every mode has an interface");
        println!("{} {} {}", id, interface.name(), interface.description());
        assert_eq!(interface.name(), name);
        assert_eq!(interface.description(), desc);
        assert_eq!(interface.mode().id(), id);
    }
}

#[test]
fn generate_floppy_outcomes() {
    let hxcfe = Hxcfe::new(0x1000);
    assert_eq!(hxcfe.generate_floppy("./my_files", 0, 0x4000).unwrap().floppy(), 0x4000);
    assert_eq!(
        hxcfe.generate_floppy("bad\0path", 0, 0x4000).unwrap_err(),
        HxcfeError::HXCFE_BADPARAMETER
    );
    assert_eq!(hxcfe.generate_floppy("", -3, 0).unwrap_err(), HxcfeError::HXCFE_FILECORRUPTED);
    assert_eq!(hxcfe.generate_floppy("", 42, 0).unwrap_err(), HxcfeError::HXCFE_INTERNALERROR);
}

#[test]
fn test_interface_utilities() {
    let hxcfe = Hxcfe::new(0x1000);
    let found = InterfaceMode::new(0, "IBMPC_DD_FLOPPYMODE".to_string(), "IBM PC DD".to_string());
    let mode = hxcfe.get_interface_mode_id("IBMPC_DD_FLOPPYMODE", Some(found));
    assert_eq!(mode.map(|m| m.id()), Some(0));
    assert!(hxcfe.get_interface_mode_id("IBMPC\0DD", None).is_none());
}

#[test]
fn managers_need_a_context() {
    let hxcfe = Hxcfe::new(0x1000);
    assert!(hxcfe.loaders_manager(0, 10).is_none());
    assert!(hxcfe.layout_manager(0).is_none());
    assert!(hxcfe.file_system_manager(0).is_none());
    assert_eq!(hxcfe.layout_manager(0x10).unwrap().handler(), 0x10);
    assert_eq!(hxcfe.file_system_manager(0x20).unwrap().handler(), 0x20);
    assert_eq!(hxcfe.loaders_manager(0x30, 7).unwrap().nb_loaders(), 7);
    assert_eq!(hxcfe.handler(), 0x1000);
}
