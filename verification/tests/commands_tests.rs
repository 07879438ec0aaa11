use hxcfe::commands::{
    GetAction, GetEvent, GetFile, ListAction, ListEvent, Listing, PutAction, PutEvent, PutFile, CHUNK_SIZE,
};
use hxcfe::fs_manager::DirEntry;
use hxcfe::types::FileSystemId;

fn list_finish(a: ListAction) -> Option<Result<(), String>> {
    match a {
        ListAction::Finish(r) => Some(r),
        _ => None,
    }
}

#[test]
fn listing_prints_header_entries_and_total() {
    let mut l = Listing::new();
    let s = l.step(ListEvent::Begin);
    assert!(matches!(s.action, ListAction::LoadImage));
    assert!(s.lines.is_empty());
    let s = l.step(ListEvent::ImageLoaded(Ok(())));
    assert!(matches!(s.action, ListAction::MakeManager));
    assert_eq!(
        s.lines,
        vec![
            "---------------------------------------------------------------------------".to_string(),
            "-                        Directory Listing                                -".to_string(),
            "---------------------------------------------------------------------------".to_string(),
        ]
    );
    assert!(matches!(l.step(ListEvent::ManagerMade(true)).action, ListAction::Mount));
    assert!(matches!(l.step(ListEvent::Mounted(0)).action, ListAction::OpenRoot));
    assert!(matches!(l.step(ListEvent::RootOpened(Ok(()))).action, ListAction::ReadEntry));
    let s = l.step(ListEvent::EntryRead(Some(DirEntry::new(0, 1234, "TEXT01.TXT".to_string()))));
    assert!(matches!(s.action, ListAction::ReadEntry));
    assert_eq!(s.lines, vec!["-     1234 TEXT01.TXT".to_string()]);
    let s = l.step(ListEvent::EntryRead(Some(DirEntry::new(1, 0, "FOLDER".to_string()))));
    assert_eq!(s.lines, vec!["d        0 FOLDER".to_string()]);
    let s = l.step(ListEvent::EntryRead(Some(DirEntry::new(0, 123456789, "BIG.BIN".to_string()))));
    assert_eq!(s.lines, vec!["- 123456789 BIG.BIN".to_string()]);
    assert_eq!(l.count(), 3);
    let s = l.step(ListEvent::EntryRead(None));
    assert!(matches!(s.action, ListAction::CloseDir));
    let s = l.step(ListEvent::DirClosed);
    assert!(matches!(s.action, ListAction::Unmount));
    assert_eq!(s.lines, vec!["\nTotal: 3 entries".to_string()]);
    let s = l.step(ListEvent::Unmounted);
    assert_eq!(list_finish(s.action), Some(Ok(())));
}

#[test]
fn listing_reports_a_failed_mount_without_error() {
    let mut l = Listing::new();
    let s = l.step(ListEvent::Mounted(-3));
    assert_eq!(
        s.lines,
        vec![
            "Failed to mount image (code: -3)".to_string(),
            "(Filesystem support may not be available for this image format)".to_string(),
        ]
    );
    assert_eq!(list_finish(s.action), Some(Ok(())));
}

#[test]
fn listing_errors() {
    let mut l = Listing::new();
    let s = l.step(ListEvent::ImageLoaded(Err("Load error HXCFE_ACCESSERROR".to_string())));
    assert_eq!(
        list_finish(s.action),
        Some(Err("Failed to load image: Load error HXCFE_ACCESSERROR".to_string()))
    );
    let s = l.step(ListEvent::ManagerMade(false));
    assert_eq!(list_finish(s.action), Some(Err("Failed to initialize filesystem manager".to_string())));
    let s = l.step(ListEvent::RootOpened(Err(-1)));
    assert!(matches!(s.action, ListAction::Unmount));
    assert_eq!(s.lines, vec!["Failed to open directory (code: -1)".to_string()]);
    assert_eq!(l.count(), 0);
}

fn get_finish(a: GetAction) -> Option<Result<(), String>> {
    match a {
        GetAction::Finish(r) => Some(r),
        _ => None,
    }
}

#[test]
fn get_file_reads_chunks_and_writes_them() {
    let mut g = GetFile::new("/text01.txt");
    assert!(matches!(g.step(GetEvent::Begin).action, GetAction::LoadImage));
    let s = g.step(GetEvent::ImageLoaded(Ok(())));
    assert_eq!(s.lines, vec!["Getting file: /text01.txt".to_string()]);
    assert!(matches!(s.action, GetAction::MakeManager));
    assert!(matches!(
        g.step(GetEvent::ManagerMade(true)).action,
        GetAction::SelectFs(FileSystemId::Atari720KbFat12)
    ));
    assert!(matches!(g.step(GetEvent::FsSelected).action, GetAction::Mount));
    assert!(matches!(g.step(GetEvent::Mounted(0)).action, GetAction::OpenFile));
    assert!(matches!(g.step(GetEvent::FileOpened(Ok(()))).action, GetAction::ReadChunk(512)));
    let mut chunk = vec![0u8; CHUNK_SIZE];
    chunk[..3].copy_from_slice(b"abc");
    assert!(matches!(g.step(GetEvent::ChunkRead(chunk, Ok(3))).action, GetAction::ReadChunk(512)));
    let chunk = vec![7u8; CHUNK_SIZE];
    assert!(matches!(g.step(GetEvent::ChunkRead(chunk, Ok(0))).action, GetAction::CloseFile));
    assert_eq!(g.bytes(), b"abc");
    assert!(matches!(g.step(GetEvent::FileClosed).action, GetAction::Unmount));
    match g.step(GetEvent::Unmounted).action {
        GetAction::WriteOutput(name) => assert_eq!(name, "text01.txt"),
        _ => panic!("expected the output to be written"),
    }
    let s = g.step(GetEvent::OutputWritten(true));
    assert_eq!(s.lines, vec!["File extracted successfully (3 bytes)".to_string()]);
    assert_eq!(get_finish(s.action), Some(Ok(())));
}

#[test]
fn get_file_errors() {
    let mut g = GetFile::new("MISSING.TXT");
    assert_eq!(get_finish(g.step(GetEvent::Mounted(-1)).action), Some(Err("Failed to mount image".to_string())));
    assert_eq!(
        get_finish(g.step(GetEvent::FileOpened(Err(-5))).action),
        Some(Err("Failed to open file: -5".to_string()))
    );
    assert!(matches!(g.step(GetEvent::ChunkRead(vec![0u8; 512], Err(-2))).action, GetAction::CloseFile));
    assert!(g.bytes().is_empty());
    assert_eq!(
        get_finish(g.step(GetEvent::OutputWritten(false)).action),
        Some(Err("Failed to write output file".to_string()))
    );
}

fn put_finish(a: PutAction) -> Option<Result<(), String>> {
    match a {
        PutAction::Finish(r) => Some(r),
        _ => None,
    }
}

#[test]
fn put_file_creates_writes_and_saves() {
    let mut p = PutFile::new("dir/text01.txt");
    assert!(matches!(p.step(PutEvent::Begin).action, PutAction::LoadImage));
    assert!(matches!(p.step(PutEvent::ImageLoaded(Ok(()))).action, PutAction::TakeName));
    let s = p.step(PutEvent::NameTaken(Some("text01.txt".to_string())));
    assert_eq!(s.lines, vec!["Putting file: dir/text01.txt".to_string()]);
    assert!(matches!(s.action, PutAction::MakeManager));
    assert_eq!(p.name(), "text01.txt");
    assert!(matches!(
        p.step(PutEvent::ManagerMade(true)).action,
        PutAction::SelectFs(FileSystemId::Atari720KbFat12)
    ));
    assert!(matches!(p.step(PutEvent::FsSelected).action, PutAction::Mount));
    assert!(matches!(p.step(PutEvent::Mounted(0)).action, PutAction::ReadInput));
    match p.step(PutEvent::InputRead(Some(b"hello".to_vec()))).action {
        PutAction::CreateFile(path) => assert_eq!(path, "/text01.txt"),
        _ => panic!("expected the file to be created"),
    }
    assert_eq!(p.contents(), b"hello");
    assert!(matches!(p.step(PutEvent::FileCreated(Ok(()))).action, PutAction::WriteFile));
    assert!(matches!(p.step(PutEvent::FileWritten(Ok(()))).action, PutAction::CloseFile));
    assert!(matches!(p.step(PutEvent::FileClosed).action, PutAction::Unmount));
    assert!(matches!(p.step(PutEvent::Unmounted).action, PutAction::MakeLoaderManager));
    assert!(matches!(p.step(PutEvent::LoaderManagerMade(true)).action, PutAction::FindLoader));
    match p.step(PutEvent::LoaderFound(Some("HXC_HFE".to_string()))).action {
        PutAction::CheckFormat(f) => assert_eq!(f, "HXC_HFE"),
        _ => panic!("expected the format to be checked"),
    }
    match p.step(PutEvent::FormatChecked(true)).action {
        PutAction::Save(f) => assert_eq!(f, "HXC_HFE"),
        _ => panic!("expected the image to be saved"),
    }
    let s = p.step(PutEvent::Saved(Ok(())));
    assert_eq!(s.lines, vec!["File added successfully".to_string()]);
    assert_eq!(put_finish(s.action), Some(Ok(())));
}

#[test]
fn put_file_errors() {
    let mut p = PutFile::new("x");
    assert_eq!(put_finish(p.step(PutEvent::NameTaken(None)).action), Some(Err("Invalid filename".to_string())));
    assert_eq!(
        put_finish(p.step(PutEvent::InputRead(None)).action),
        Some(Err("Failed to read input file".to_string()))
    );
    assert_eq!(
        put_finish(p.step(PutEvent::FileCreated(Err(-4))).action),
        Some(Err("Failed to create file: -4".to_string()))
    );
    assert_eq!(
        put_finish(p.step(PutEvent::FileWritten(Err(-7))).action),
        Some(Err("Failed to write file: -7".to_string()))
    );
    assert_eq!(
        put_finish(p.step(PutEvent::LoaderManagerMade(false)).action),
        Some(Err("Failed to get loader manager".to_string()))
    );
    assert_eq!(
        put_finish(p.step(PutEvent::LoaderFound(None)).action),
        Some(Err("Failed to detect image format".to_string()))
    );
    let _ = p.step(PutEvent::LoaderFound(Some("RAW_IMG".to_string())));
    assert_eq!(
        put_finish(p.step(PutEvent::FormatChecked(false)).action),
        Some(Err("Unsupported format for saving: RAW_IMG".to_string()))
    );
    assert_eq!(
        put_finish(p.step(PutEvent::Saved(Err("Save error HXCFE_ACCESSERROR".to_string()))).action),
        Some(Err("Failed to save image: Save error HXCFE_ACCESSERROR".to_string()))
    );
}
