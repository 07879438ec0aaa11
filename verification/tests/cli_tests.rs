use hxcfe::cli::{image_path, module_line, output_name, plan, take_chunk, use_double_step, Command, HxcfeCli};

fn cli() -> HxcfeCli {
    HxcfeCli {
        input: None,
        output: None,
        convert: None,
        reffile: None,
        layout: None,
        interface_mode: None,
        single_step: false,
        double_step: false,
        script: None,
        verbose: false,
        license: false,
        module_list: false,
        raw_list: false,
        interface_list: false,
        infos: false,
        list: false,
        getfile: None,
        putfile: None,
        usb: None,
    }
}

#[test]
fn no_arguments_points_at_help() {
    assert!(matches!(plan(cli()).command, Command::Help));
}

#[test]
fn license_comes_first_and_silences_verbose() {
    let mut c = cli();
    c.license = true;
    c.verbose = true;
    c.module_list = true;
    let p = plan(c);
    assert!(matches!(p.command, Command::License));
    assert!(!p.verbose);
    let mut c = cli();
    c.verbose = true;
    c.module_list = true;
    let p = plan(c);
    assert!(p.verbose);
    assert!(matches!(p.command, Command::ModuleList));
}

#[test]
fn list_options_in_order() {
    let mut c = cli();
    c.interface_list = true;
    c.raw_list = true;
    assert!(matches!(plan(c).command, Command::InterfaceList));
    let mut c = cli();
    c.raw_list = true;
    c.input = Some("FAT_720kB.hfe".to_string());
    c.infos = true;
    assert!(matches!(plan(c).command, Command::LayoutList));
    let mut c = cli();
    c.script = Some("run.script".to_string());
    c.input = Some("a.hfe".to_string());
    match plan(c).command {
        Command::Script(s) => assert_eq!(s, "run.script"),
        _ => panic!("expected the script command"),
    }
}

#[test]
fn input_commands() {
    let mut c = cli();
    c.input = Some("FAT_720kB.hfe".to_string());
    c.infos = true;
    c.list = true;
    match plan(c).command {
        Command::Info { input } => assert_eq!(input, "FAT_720kB.hfe"),
        _ => panic!("expected info"),
    }
    let mut c = cli();
    c.input = Some("FAT_720kB.hfe".to_string());
    c.getfile = Some("/text01.txt".to_string());
    c.putfile = Some("text01.txt".to_string());
    match plan(c).command {
        Command::GetFile { input, filename } => {
            assert_eq!(input, "FAT_720kB.hfe");
            assert_eq!(filename, "/text01.txt");
        }
        _ => panic!("expected getfile"),
    }
    let mut c = cli();
    c.input = Some("ADOS_880kB.hfe".to_string());
    c.putfile = Some("text01.txt".to_string());
    c.convert = Some("HXC_HFE".to_string());
    assert!(matches!(plan(c).command, Command::PutFile { .. }));
    let mut c = cli();
    c.input = Some("ADOS_880kB.hfe".to_string());
    c.convert = Some("AMIGA_ADF".to_string());
    c.output = Some("I001.ADF".to_string());
    match plan(c).command {
        Command::Convert { input, format, output, reffile } => {
            assert_eq!(input, "ADOS_880kB.hfe");
            assert_eq!(format, "AMIGA_ADF");
            assert_eq!(output, Some("I001.ADF".to_string()));
            assert_eq!(reffile, None);
        }
        _ => panic!("expected convert"),
    }
    let mut c = cli();
    c.input = Some("a.hfe".to_string());
    assert!(matches!(plan(c).command, Command::Idle { .. }));
}

#[test]
fn usb_drive_numbers() {
    let mut c = cli();
    c.input = Some("a.hfe".to_string());
    c.usb = Some(2);
    c.double_step = true;
    match plan(c).command {
        Command::Usb { drive, double_step, .. } => {
            assert_eq!(drive.get(), 2);
            assert!(double_step);
        }
        _ => panic!("expected usb"),
    }
    let mut c = cli();
    c.input = Some("a.hfe".to_string());
    c.usb = Some(4);
    assert!(matches!(plan(c).command, Command::BadDrive { drive: 4, .. }));
}

#[test]
fn file_names() {
    assert_eq!(output_name("/text01.txt"), "text01.txt");
    assert_eq!(output_name("text01.txt"), "text01.txt");
    assert_eq!(output_name("//x"), "/x");
    assert_eq!(output_name(""), "");
    assert_eq!(image_path("text01.txt"), "/text01.txt");
}

#[test]
fn double_step_choice() {
    assert!(use_double_step(true, true, 80));
    assert!(!use_double_step(false, true, 40));
    assert!(use_double_step(false, false, 42));
    assert!(!use_double_step(false, false, 43));
}

#[test]
fn module_lines() {
    assert_eq!(module_line("HXC_HFE", "RW", "SD/SD-HxC Floppy Emulator HFE file", "hfe"), "HXC_HFE;RW;SD/SD-HxC Floppy Emulator HFE file;*.hfe;");
}

#[test]
fn reading_a_file_in_chunks() {
    let mut buffer = Vec::new();
    let chunk = [1u8, 2, 3, 4, 5];
    assert!(take_chunk(&mut buffer, &chunk, Ok(3)));
    assert_eq!(buffer, vec![1, 2, 3]);
    assert!(take_chunk(&mut buffer, &chunk, Ok(5)));
    assert_eq!(buffer, vec![1, 2, 3, 1, 2, 3, 4, 5]);
    assert!(!take_chunk(&mut buffer, &chunk, Ok(0)));
    assert!(!take_chunk(&mut buffer, &chunk, Err(-1)));
    assert_eq!(buffer.len(), 8);
}
