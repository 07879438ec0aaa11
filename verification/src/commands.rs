//! The decisions of the command line's filesystem commands, as state machines.
//!
//! Each command alternates work that only the caller can do (loading an
//! image, calling libhxcfe's filesystem functions, reading and writing local
//! files) with decisions: which call comes next, what is printed, and how
//! the command ends. A machine takes the outcome of the last call as an event
//! and answers with the lines to print and the next call to make.
use vstd::prelude::*;

use crate::fs_manager::DirEntry;
use crate::text::decimal_string;
use crate::text::decimal_u64;
use crate::text::push_right_aligned;
use crate::text::spec_decimal;
use crate::text::spec_right_aligned;

verus! {

/// What a command prints, line by line, and what it does next.
pub struct Step<A> {
    pub lines: Vec<String>,
    pub action: A,
}

/// The texts of a list of lines.
pub open spec fn texts(lines: Seq<String>) -> Seq<Seq<char>> {
    lines.map_values(|s: String| s@)
}

/// No line to print.
fn no_lines() -> (r: Vec<String>)
    ensures
        texts(r@) == Seq::<Seq<char>>::empty(),
{
    let r: Vec<String> = Vec::new();
    assert(texts(r@) =~= Seq::<Seq<char>>::empty());
    r
}

/// The single line `s`.
fn one_line(s: String) -> (r: Vec<String>)
    ensures
        texts(r@) == seq![s@],
{
    let mut r: Vec<String> = Vec::new();
    r.push(s);
    assert(texts(r@) =~= seq![s@]);
    r
}

/// The two lines `a` and `b`.
fn two_lines(a: String, b: String) -> (r: Vec<String>)
    ensures
        texts(r@) == seq![a@, b@],
{
    let mut r: Vec<String> = Vec::new();
    r.push(a);
    r.push(b);
    assert(texts(r@) =~= seq![a@, b@]);
    r
}

/// `a` followed by `b`, as a new string.
fn cat(a: &str, b: &str) -> (r: String)
    ensures
        r@ == a@ + b@,
{
    let mut s = String::from_str(a);
    s.append(b);
    s
}

/// The message when an image could not be loaded, with the load's message.
pub open spec fn spec_load_failed(e: Seq<char>) -> Seq<char> {
    "Failed to load image: "@ + e
}

/// The message when no filesystem manager could be made.
pub open spec fn spec_no_fs_manager() -> Seq<char> {
    "Failed to initialize filesystem manager"@
}

// ------------------------------------------------------------------------
// Directory listing

/// The outcome of the caller's last call in a directory listing.
pub enum ListEvent {
    /// The listing starts.
    Begin,
    /// The image was loaded, or not, with the load's message.
    ImageLoaded(Result<(), String>),
    /// A filesystem manager was made, or not.
    ManagerMade(bool),
    /// libhxcfe's mount returned this status.
    Mounted(i32),
    /// The root directory was opened, or not, with libhxcfe's error code.
    RootOpened(Result<(), i32>),
    /// The next entry of the directory, or none when the reading ended.
    EntryRead(Option<DirEntry>),
    /// The directory was closed.
    DirClosed,
    /// The filesystem was unmounted.
    Unmounted,
}

/// The next call of a directory listing.
pub enum ListAction {
    /// Load the image.
    LoadImage,
    /// Make a filesystem manager.
    MakeManager,
    /// Mount the image's filesystem.
    Mount,
    /// Open the root directory, "/".
    OpenRoot,
    /// Read the next directory entry.
    ReadEntry,
    /// Close the directory.
    CloseDir,
    /// Unmount the filesystem.
    Unmount,
    /// The listing ends with this outcome.
    Finish(Result<(), String>),
}

/// The three header lines of a directory listing.
pub open spec fn spec_listing_header() -> Seq<Seq<char>> {
    seq![
        "---------------------------------------------------------------------------"@,
        "-                        Directory Listing                                -"@,
        "---------------------------------------------------------------------------"@,
    ]
}

/// The listing line of one directory entry: "d" for a directory and "-"
/// otherwise, its size right-aligned in eight characters, and its name.
pub open spec fn spec_entry_line(e: DirEntry) -> Seq<char> {
    (if e.spec_isdir() != 0 {
        "d"@
    } else {
        "-"@
    }) + " "@ + spec_right_aligned(spec_decimal(e.spec_size() as int), 8) + " "@ + e.spec_name()
}

/// The listing line of an entry whose size has fewer than eight digits is
/// its type character, a space, the size right-aligned in exactly eight
/// characters (spaces, then the digits), a space, and the name.
pub proof fn lemma_entry_line_layout(e: DirEntry)
    ensures
        ({
            let line = spec_entry_line(e);
            let d = spec_decimal(e.spec_size() as int);
            d.len() < 8 ==> {
                &&& line.len() == 11 + e.spec_name().len()
                &&& line[0] == (if e.spec_isdir() != 0 {
                    'd'
                } else {
                    '-'
                })
                &&& line[1] == ' '
                &&& forall|i: int| 2 <= i < 10 - d.len() ==> line[i] == ' '
                &&& line.subrange(10 - d.len(), 10) == d
                &&& line[10] == ' '
                &&& line.subrange(11, line.len() as int) == e.spec_name()
            }
        }),
{
    reveal_strlit("d");
    reveal_strlit("-");
    reveal_strlit(" ");
    let d = spec_decimal(e.spec_size() as int);
    let line = spec_entry_line(e);
    if d.len() < 8 {
        let ra = spec_right_aligned(d, 8);
        crate::text::lemma_right_aligned_fills_the_field(d, 8);
        let head = (if e.spec_isdir() != 0 {
            "d"@
        } else {
            "-"@
        }) + " "@;
        assert(line == head + ra + " "@ + e.spec_name());
        assert(line.subrange(10 - d.len(), 10) =~= ra.subrange(8 - d.len(), 8));
        assert(line.subrange(11, line.len() as int) =~= e.spec_name());
        assert forall|i: int| 2 <= i < 10 - d.len() implies line[i] == ' ' by {
            assert(line[i] == ra[i - 2]);
        }
    }
}

/// The closing line of a listing of `n` entries (after an empty line).
pub open spec fn spec_total_line(n: int) -> Seq<char> {
    "\nTotal: "@ + spec_decimal(n) + " entries"@
}

/// The two lines printed when the mount failed with status `r`.
pub open spec fn spec_mount_failed_lines(r: i32) -> Seq<Seq<char>> {
    seq![
        "Failed to mount image (code: "@ + spec_decimal(r as int) + ")"@,
        "(Filesystem support may not be available for this image format)"@,
    ]
}

/// The line printed when the root directory could not be opened.
pub open spec fn spec_open_dir_failed(e: i32) -> Seq<char> {
    "Failed to open directory (code: "@ + spec_decimal(e as int) + ")"@
}

/// A directory listing in progress: the number of entries listed so far.
pub struct Listing {
    count: i32,
}

impl Listing {
    /// A listing that has listed nothing yet.
    pub fn new() -> (r: Self)
        ensures
            r.spec_count() == 0,
    {
        Listing { count: 0 }
    }

    /// The number of entries listed so far.
    pub closed spec fn spec_count(&self) -> i32 {
        self.count
    }

    /// The number of entries listed so far.
    pub fn count(&self) -> (r: i32)
        ensures
            r == self.spec_count(),
    {
        self.count
    }

    /// The next step of the listing after `event`.
    ///
    /// The listing loads the image, prints the header, makes a filesystem
    /// manager and mounts the image. A failed mount is reported in two lines
    /// and ends the listing without error. Otherwise the root directory is
    /// opened; each entry read is printed on a line of its own and counted,
    /// and when no entry is left the directory is closed, the total printed
    /// and the filesystem unmounted. A root directory that cannot be opened is
    /// reported before unmounting. Only a failed load or a missing manager end
    /// the listing with an error.
    pub fn step(&mut self, event: ListEvent) -> (r: Step<ListAction>)
        requires
            event matches ListEvent::EntryRead(Some(_)) ==> old(self).spec_count() < i32::MAX,
        ensures
            (event matches ListEvent::EntryRead(Some(_))) ==> final(self).spec_count()
                == old(self).spec_count() + 1,
            !(event matches ListEvent::EntryRead(Some(_))) ==> final(self).spec_count() == old(
                self,
            ).spec_count(),
            event is Begin ==> r.action is LoadImage && texts(r.lines@) == Seq::<
                Seq<char>,
            >::empty(),
            event matches ListEvent::ImageLoaded(Err(e)) ==> (r.action matches ListAction::Finish(
                Err(m),
            ) && m@ == spec_load_failed(e@) && texts(r.lines@) == Seq::<Seq<char>>::empty()),
            event matches ListEvent::ImageLoaded(Ok(_)) ==> r.action is MakeManager && texts(
                r.lines@,
            ) == spec_listing_header(),
            event == ListEvent::ManagerMade(false) ==> (r.action matches ListAction::Finish(
                Err(m),
            ) && m@ == spec_no_fs_manager() && texts(r.lines@) == Seq::<Seq<char>>::empty()),
            event == ListEvent::ManagerMade(true) ==> r.action is Mount && texts(r.lines@) == Seq::<
                Seq<char>,
            >::empty(),
            event matches ListEvent::Mounted(ret) ==> (if ret < 0 {
                r.action == ListAction::Finish(Ok::<(), String>(())) && texts(r.lines@)
                    == spec_mount_failed_lines(ret)
            } else {
                r.action is OpenRoot && texts(r.lines@) == Seq::<Seq<char>>::empty()
            }),
            event matches ListEvent::RootOpened(Err(e)) ==> r.action is Unmount && texts(r.lines@)
                == seq![spec_open_dir_failed(e)],
            event matches ListEvent::RootOpened(Ok(_)) ==> r.action is ReadEntry && texts(r.lines@)
                == Seq::<Seq<char>>::empty(),
            event matches ListEvent::EntryRead(Some(e)) ==> r.action is ReadEntry && texts(r.lines@)
                == seq![spec_entry_line(e)],
            event matches ListEvent::EntryRead(None) ==> r.action is CloseDir && texts(r.lines@)
                == Seq::<Seq<char>>::empty(),
            event is DirClosed ==> r.action is Unmount && texts(r.lines@) == seq![
                spec_total_line(old(self).spec_count() as int),
            ],
            event is Unmounted ==> r.action == ListAction::Finish(Ok::<(), String>(())) && texts(
                r.lines@,
            ) == Seq::<Seq<char>>::empty(),
    {
        match event {
            ListEvent::Begin => Step { lines: no_lines(), action: ListAction::LoadImage },
            ListEvent::ImageLoaded(loaded) => match loaded {
                Err(e) => Step {
                    lines: no_lines(),
                    action: ListAction::Finish(Err(cat("Failed to load image: ", e.as_str()))),
                },
                Ok(()) => {
                    let mut lines: Vec<String> = Vec::new();
                    lines.push(
                        String::from_str(
                            "---------------------------------------------------------------------------",
                        ),
                    );
                    lines.push(
                        String::from_str(
                            "-                        Directory Listing                                -",
                        ),
                    );
                    lines.push(
                        String::from_str(
                            "---------------------------------------------------------------------------",
                        ),
                    );
                    assert(texts(lines@) =~= spec_listing_header());
                    Step { lines, action: ListAction::MakeManager }
                },
            },
            ListEvent::ManagerMade(made) => {
                if made {
                    Step { lines: no_lines(), action: ListAction::Mount }
                } else {
                    Step {
                        lines: no_lines(),
                        action: ListAction::Finish(
                            Err(String::from_str("Failed to initialize filesystem manager")),
                        ),
                    }
                }
            },
            ListEvent::Mounted(ret) => {
                if ret < 0 {
                    let code = decimal_string(ret);
                    let mut first = cat("Failed to mount image (code: ", code.as_str());
                    first.append(")");
                    let second = String::from_str(
                        "(Filesystem support may not be available for this image format)",
                    );
                    Step { lines: two_lines(first, second), action: ListAction::Finish(Ok(())) }
                } else {
                    Step { lines: no_lines(), action: ListAction::OpenRoot }
                }
            },
            ListEvent::RootOpened(opened) => match opened {
                Ok(()) => Step { lines: no_lines(), action: ListAction::ReadEntry },
                Err(e) => {
                    let code = decimal_string(e);
                    let mut line = cat("Failed to open directory (code: ", code.as_str());
                    line.append(")");
                    Step { lines: one_line(line), action: ListAction::Unmount }
                },
            },
            ListEvent::EntryRead(read) => match read {
                Some(entry) => {
                    let mut line = if entry.is_dir() {
                        String::from_str("d")
                    } else {
                        String::from_str("-")
                    };
                    line.append(" ");
                    let size = decimal_string(entry.size());
                    push_right_aligned(&mut line, size.as_str(), 8);
                    line.append(" ");
                    line.append(entry.entry_name());
                    self.count = self.count + 1;
                    Step { lines: one_line(line), action: ListAction::ReadEntry }
                },
                None => Step { lines: no_lines(), action: ListAction::CloseDir },
            },
            ListEvent::DirClosed => {
                let n = decimal_string(self.count);
                let mut line = cat("\nTotal: ", n.as_str());
                line.append(" entries");
                Step { lines: one_line(line), action: ListAction::Unmount }
            },
            ListEvent::Unmounted => Step { lines: no_lines(), action: ListAction::Finish(Ok(())) },
        }
    }
}

// ------------------------------------------------------------------------
// Getting a file out of an image

/// The outcome of the caller's last call while getting a file.
pub enum GetEvent {
    /// The command starts.
    Begin,
    /// The image was loaded, or not, with the load's message.
    ImageLoaded(Result<(), String>),
    /// A filesystem manager was made, or not.
    ManagerMade(bool),
    /// The filesystem type was selected.
    FsSelected,
    /// libhxcfe's mount returned this status.
    Mounted(i32),
    /// The file was opened, or not, with libhxcfe's error code.
    FileOpened(Result<(), i32>),
    /// A chunk buffer and the outcome of reading into it: the number of
    /// bytes read, or libhxcfe's error code.
    ChunkRead(Vec<u8>, Result<i32, i32>),
    /// The file was closed.
    FileClosed,
    /// The filesystem was unmounted.
    Unmounted,
    /// The local file was written, or not.
    OutputWritten(bool),
}

/// The next call while getting a file.
pub enum GetAction {
    /// Load the image.
    LoadImage,
    /// Make a filesystem manager.
    MakeManager,
    /// Select this filesystem type.
    SelectFs(crate::types::FileSystemId),
    /// Mount the image's filesystem.
    Mount,
    /// Open the file in the image.
    OpenFile,
    /// Read the next chunk of the file, of this many bytes at most.
    ReadChunk(usize),
    /// Close the file.
    CloseFile,
    /// Unmount the filesystem.
    Unmount,
    /// Write the bytes read to the local file of this name.
    WriteOutput(String),
    /// The command ends with this outcome.
    Finish(Result<(), String>),
}

/// The size of the chunks in which a file is read from an image.
pub const CHUNK_SIZE: usize = 512;

/// Getting the file `filename` out of an image: the bytes read so far.
pub struct GetFile {
    filename: String,
    bytes: Vec<u8>,
}

impl GetFile {
    /// Getting the file `filename`, with nothing read yet.
    pub fn new(filename: &str) -> (r: Self)
        ensures
            r.spec_filename() == filename@,
            r.spec_bytes() == Seq::<u8>::empty(),
    {
        GetFile { filename: filename.to_string(), bytes: Vec::new() }
    }

    /// The name of the file in the image.
    pub closed spec fn spec_filename(&self) -> Seq<char> {
        self.filename@
    }

    /// The bytes of the file read so far.
    pub closed spec fn spec_bytes(&self) -> Seq<u8> {
        self.bytes@
    }

    /// The name of the file in the image.
    pub fn filename(&self) -> (r: &str)
        ensures
            r@ == self.spec_filename(),
    {
        self.filename.as_str()
    }

    /// The bytes of the file read so far.
    pub fn bytes(&self) -> (r: &[u8])
        ensures
            r@ == self.spec_bytes(),
    {
        self.bytes.as_slice()
    }

    /// The next step of getting the file after `event`.
    ///
    /// The command loads the image, prints which file it gets, makes a
    /// filesystem manager, selects the Atari 720KB FAT12 filesystem (which
    /// libhxcfe detects from) and mounts the image. It then opens the file
    /// and reads it in chunks of 512 bytes, keeping each chunk's bytes read,
    /// until a read gives nothing or fails. It closes the file, unmounts, and
    /// writes the bytes to the local file named like the file in the image
    /// without a leading "/". Each failure ends the command with its message.
    pub fn step(&mut self, event: GetEvent) -> (r: Step<GetAction>)
        requires
            event matches GetEvent::ChunkRead(chunk, Ok(n)) ==> n <= chunk@.len(),
        ensures
            final(self).spec_filename() == old(self).spec_filename(),
            !(event is ChunkRead) ==> final(self).spec_bytes() == old(self).spec_bytes(),
            event is Begin ==> r.action is LoadImage && texts(r.lines@) == Seq::<
                Seq<char>,
            >::empty(),
            event matches GetEvent::ImageLoaded(Err(e)) ==> (r.action matches GetAction::Finish(
                Err(m),
            ) && m@ == spec_load_failed(e@) && texts(r.lines@) == Seq::<Seq<char>>::empty()),
            event matches GetEvent::ImageLoaded(Ok(_)) ==> r.action is MakeManager && texts(
                r.lines@,
            ) == seq!["Getting file: "@ + old(self).spec_filename()],
            event == GetEvent::ManagerMade(false) ==> (r.action matches GetAction::Finish(Err(m))
                && m@ == spec_no_fs_manager() && texts(r.lines@) == Seq::<Seq<char>>::empty()),
            event == GetEvent::ManagerMade(true) ==> r.action == GetAction::SelectFs(
                crate::types::FileSystemId::Atari720KbFat12,
            ) && texts(r.lines@) == Seq::<Seq<char>>::empty(),
            event is FsSelected ==> r.action is Mount && texts(r.lines@) == Seq::<
                Seq<char>,
            >::empty(),
            event matches GetEvent::Mounted(ret) ==> texts(r.lines@) == Seq::<Seq<char>>::empty()
                && (if ret < 0 {
                r.action matches GetAction::Finish(Err(m)) && m@ == "Failed to mount image"@
            } else {
                r.action is OpenFile
            }),
            event matches GetEvent::FileOpened(Err(e)) ==> (r.action matches GetAction::Finish(
                Err(m),
            ) && m@ == "Failed to open file: "@ + spec_decimal(e as int) && texts(r.lines@)
                == Seq::<Seq<char>>::empty()),
            event matches GetEvent::FileOpened(Ok(_)) ==> r.action == GetAction::ReadChunk(
                CHUNK_SIZE,
            ) && texts(r.lines@) == Seq::<Seq<char>>::empty(),
            event matches GetEvent::ChunkRead(chunk, read) ==> texts(r.lines@) == Seq::<
                Seq<char>,
            >::empty() && (read matches Ok(n) ==> (n > 0 ==> r.action == GetAction::ReadChunk(
                CHUNK_SIZE,
            ) && final(self).spec_bytes() == old(self).spec_bytes() + chunk@.take(n as int)))
                && (!(read matches Ok(n) && n > 0) ==> r.action is CloseFile
                && final(self).spec_bytes() == old(self).spec_bytes()),
            event is FileClosed ==> r.action is Unmount && texts(r.lines@) == Seq::<
                Seq<char>,
            >::empty(),
            event is Unmounted ==> (r.action matches GetAction::WriteOutput(name) && name@
                == crate::cli::spec_output_name(old(self).spec_filename()) && texts(r.lines@)
                == Seq::<Seq<char>>::empty()),
            event == GetEvent::OutputWritten(false) ==> (r.action matches GetAction::Finish(Err(m))
                && m@ == "Failed to write output file"@ && texts(r.lines@) == Seq::<
                Seq<char>,
            >::empty()),
            event == GetEvent::OutputWritten(true) ==> r.action == GetAction::Finish(
                Ok::<(), String>(()),
            ) && texts(r.lines@) == seq![
                "File extracted successfully ("@ + spec_decimal(old(self).spec_bytes().len() as int)
                    + " bytes)"@,
            ],
    {
        match event {
            GetEvent::Begin => Step { lines: no_lines(), action: GetAction::LoadImage },
            GetEvent::ImageLoaded(loaded) => match loaded {
                Err(e) => Step {
                    lines: no_lines(),
                    action: GetAction::Finish(Err(cat("Failed to load image: ", e.as_str()))),
                },
                Ok(()) => Step {
                    lines: one_line(cat("Getting file: ", self.filename.as_str())),
                    action: GetAction::MakeManager,
                },
            },
            GetEvent::ManagerMade(made) => {
                if made {
                    Step {
                        lines: no_lines(),
                        action: GetAction::SelectFs(crate::types::FileSystemId::Atari720KbFat12),
                    }
                } else {
                    Step {
                        lines: no_lines(),
                        action: GetAction::Finish(
                            Err(String::from_str("Failed to initialize filesystem manager")),
                        ),
                    }
                }
            },
            GetEvent::FsSelected => Step { lines: no_lines(), action: GetAction::Mount },
            GetEvent::Mounted(ret) => {
                if ret < 0 {
                    Step {
                        lines: no_lines(),
                        action: GetAction::Finish(Err(String::from_str("Failed to mount image"))),
                    }
                } else {
                    Step { lines: no_lines(), action: GetAction::OpenFile }
                }
            },
            GetEvent::FileOpened(opened) => match opened {
                Ok(()) => Step { lines: no_lines(), action: GetAction::ReadChunk(CHUNK_SIZE) },
                Err(e) => {
                    let code = decimal_string(e);
                    Step {
                        lines: no_lines(),
                        action: GetAction::Finish(
                            Err(cat("Failed to open file: ", code.as_str())),
                        ),
                    }
                },
            },
            GetEvent::ChunkRead(chunk, read) => {
                let more = crate::cli::take_chunk(&mut self.bytes, chunk.as_slice(), read);
                if more {
                    Step { lines: no_lines(), action: GetAction::ReadChunk(CHUNK_SIZE) }
                } else {
                    Step { lines: no_lines(), action: GetAction::CloseFile }
                }
            },
            GetEvent::FileClosed => Step { lines: no_lines(), action: GetAction::Unmount },
            GetEvent::Unmounted => {
                let name = crate::cli::output_name(self.filename.as_str()).to_string();
                Step { lines: no_lines(), action: GetAction::WriteOutput(name) }
            },
            GetEvent::OutputWritten(written) => {
                if written {
                    let n = decimal_u64(self.bytes.len() as u64);
                    let mut line = cat("File extracted successfully (", n.as_str());
                    line.append(" bytes)");
                    Step { lines: one_line(line), action: GetAction::Finish(Ok(())) }
                } else {
                    Step {
                        lines: no_lines(),
                        action: GetAction::Finish(
                            Err(String::from_str("Failed to write output file")),
                        ),
                    }
                }
            },
        }
    }
}

// ------------------------------------------------------------------------
// Putting a file into an image

/// The outcome of the caller's last call while putting a file.
pub enum PutEvent {
    /// The command starts.
    Begin,
    /// The image was loaded, or not, with the load's message.
    ImageLoaded(Result<(), String>),
    /// The last part of the local file's path, if it is a valid text.
    NameTaken(Option<String>),
    /// A filesystem manager was made, or not.
    ManagerMade(bool),
    /// The filesystem type was selected.
    FsSelected,
    /// libhxcfe's mount returned this status.
    Mounted(i32),
    /// The bytes of the local file, or none when it could not be read.
    InputRead(Option<Vec<u8>>),
    /// The file was created in the image, or not, with libhxcfe's error code.
    FileCreated(Result<(), i32>),
    /// The local file's bytes were written into it, or not, with libhxcfe's
    /// error code.
    FileWritten(Result<(), i32>),
    /// The file was closed.
    FileClosed,
    /// The filesystem was unmounted.
    Unmounted,
    /// A loader manager was made, or not.
    LoaderManagerMade(bool),
    /// The name of the loader that reads the image file, if any.
    LoaderFound(Option<String>),
    /// Whether a loader can save images in the format of that name.
    FormatChecked(bool),
    /// The image was saved, or not, with the save's message.
    Saved(Result<(), String>),
}

/// The next call while putting a file.
pub enum PutAction {
    /// Load the image.
    LoadImage,
    /// Take the last part of the local file's path.
    TakeName,
    /// Make a filesystem manager.
    MakeManager,
    /// Select this filesystem type.
    SelectFs(crate::types::FileSystemId),
    /// Mount the image's filesystem.
    Mount,
    /// Read the local file.
    ReadInput,
    /// Create the file of this path in the image.
    CreateFile(String),
    /// Write the local file's bytes (see [`PutFile::contents`]) into the
    /// created file.
    WriteFile,
    /// Close the file.
    CloseFile,
    /// Unmount the filesystem.
    Unmount,
    /// Make a loader manager.
    MakeLoaderManager,
    /// Find the loader that reads the image file.
    FindLoader,
    /// Check that a loader saves images in the format of this name.
    CheckFormat(String),
    /// Save the image in the format of this name.
    Save(String),
    /// The command ends with this outcome.
    Finish(Result<(), String>),
}

/// Putting a local file into an image: how the local file's path is shown,
/// its name, its bytes, and the image format found for saving.
pub struct PutFile {
    shown: String,
    name: String,
    contents: Vec<u8>,
    format: String,
}

impl PutFile {
    /// Putting the local file whose path is shown as `shown`.
    pub fn new(shown: &str) -> (r: Self)
        ensures
            r.spec_shown() == shown@,
            r.spec_name() == Seq::<char>::empty(),
            r.spec_contents() == Seq::<u8>::empty(),
            r.spec_format() == Seq::<char>::empty(),
    {
        PutFile {
            shown: shown.to_string(),
            name: String::new(),
            contents: Vec::new(),
            format: String::new(),
        }
    }

    /// How the local file's path is shown.
    pub closed spec fn spec_shown(&self) -> Seq<char> {
        self.shown@
    }

    /// The local file's name, once taken.
    pub closed spec fn spec_name(&self) -> Seq<char> {
        self.name@
    }

    /// The name of the image format, once found.
    pub closed spec fn spec_format(&self) -> Seq<char> {
        self.format@
    }

    /// The bytes of the local file, once read.
    pub closed spec fn spec_contents(&self) -> Seq<u8> {
        self.contents@
    }

    /// The bytes of the local file, once read: those written into the image.
    pub fn contents(&self) -> (r: &[u8])
        ensures
            r@ == self.spec_contents(),
    {
        self.contents.as_slice()
    }

    /// The local file's name, once taken.
    pub fn name(&self) -> (r: &str)
        ensures
            r@ == self.spec_name(),
    {
        self.name.as_str()
    }

    /// The next step of putting the file after `event`.
    ///
    /// The command loads the image and takes the local file's name, then
    /// prints which file it puts, makes a filesystem manager, selects the
    /// Atari 720KB FAT12 filesystem (which libhxcfe detects from) and mounts
    /// the image. It reads the local file, creates "/" followed by its name in
    /// the image, writes the file's bytes, closes the file and unmounts. It then finds
    /// the loader that reads the image file, checks that its format can be
    /// saved, and saves the image in that format. Each failure ends the command
    /// with its message.
    pub fn step(&mut self, event: PutEvent) -> (r: Step<PutAction>)
        ensures
            final(self).spec_shown() == old(self).spec_shown(),
            event matches PutEvent::NameTaken(Some(n)) ==> final(self).spec_name() == n@,
            !(event matches PutEvent::NameTaken(Some(_))) ==> final(self).spec_name() == old(
                self,
            ).spec_name(),
            event matches PutEvent::LoaderFound(Some(f)) ==> final(self).spec_format() == f@,
            !(event matches PutEvent::LoaderFound(Some(_))) ==> final(self).spec_format() == old(
                self,
            ).spec_format(),
            event matches PutEvent::InputRead(Some(c)) ==> final(self).spec_contents() == c@,
            !(event matches PutEvent::InputRead(Some(_))) ==> final(self).spec_contents() == old(
                self,
            ).spec_contents(),
            event is Begin ==> r.action is LoadImage && texts(r.lines@) == Seq::<Seq<char>>::empty(),
            event matches PutEvent::ImageLoaded(Err(e)) ==> (r.action matches PutAction::Finish(
                Err(m),
            ) && m@ == spec_load_failed(e@) && texts(r.lines@) == Seq::<Seq<char>>::empty()),
            event matches PutEvent::ImageLoaded(Ok(_)) ==> r.action is TakeName && texts(r.lines@)
                == Seq::<Seq<char>>::empty(),
            event == PutEvent::NameTaken(None) ==> (r.action matches PutAction::Finish(Err(m))
                && m@ == "Invalid filename"@ && texts(r.lines@) == Seq::<Seq<char>>::empty()),
            event matches PutEvent::NameTaken(Some(_)) ==> r.action is MakeManager && texts(
                r.lines@,
            ) == seq!["Putting file: "@ + old(self).spec_shown()],
            event == PutEvent::ManagerMade(false) ==> (r.action matches PutAction::Finish(Err(m))
                && m@ == spec_no_fs_manager() && texts(r.lines@) == Seq::<Seq<char>>::empty()),
            event == PutEvent::ManagerMade(true) ==> r.action == PutAction::SelectFs(
                crate::types::FileSystemId::Atari720KbFat12,
            ) && texts(r.lines@) == Seq::<Seq<char>>::empty(),
            event is FsSelected ==> r.action is Mount && texts(r.lines@) == Seq::<Seq<char>>::empty(),
            event matches PutEvent::Mounted(ret) ==> texts(r.lines@) == Seq::<Seq<char>>::empty() && (if ret < 0 {
                r.action matches PutAction::Finish(Err(m)) && m@ == "Failed to mount image"@
            } else {
                r.action is ReadInput
            }),
            event == PutEvent::InputRead(None) ==> (r.action matches PutAction::Finish(Err(m))
                && m@ == "Failed to read input file"@ && texts(r.lines@) == Seq::<Seq<char>>::empty()),
            event matches PutEvent::InputRead(Some(_)) ==> (r.action matches PutAction::CreateFile(
                p,
            ) && p@ == "/"@ + old(self).spec_name() && texts(r.lines@) == Seq::<Seq<char>>::empty()),
            event matches PutEvent::FileCreated(Err(e)) ==> (r.action matches PutAction::Finish(
                Err(m),
            ) && m@ == "Failed to create file: "@ + spec_decimal(e as int) && texts(r.lines@)
                == Seq::<Seq<char>>::empty()),
            event matches PutEvent::FileCreated(Ok(_)) ==> r.action is WriteFile && texts(r.lines@)
                == Seq::<Seq<char>>::empty(),
            event matches PutEvent::FileWritten(Err(e)) ==> (r.action matches PutAction::Finish(
                Err(m),
            ) && m@ == "Failed to write file: "@ + spec_decimal(e as int) && texts(r.lines@)
                == Seq::<Seq<char>>::empty()),
            event matches PutEvent::FileWritten(Ok(_)) ==> r.action is CloseFile && texts(r.lines@)
                == Seq::<Seq<char>>::empty(),
            event is FileClosed ==> r.action is Unmount && texts(r.lines@) == Seq::<Seq<char>>::empty(),
            event is Unmounted ==> r.action is MakeLoaderManager && texts(r.lines@) == Seq::<Seq<char>>::empty(),
            event == PutEvent::LoaderManagerMade(false) ==> (r.action matches PutAction::Finish(
                Err(m),
            ) && m@ == "Failed to get loader manager"@ && texts(r.lines@) == Seq::<Seq<char>>::empty()),
            event == PutEvent::LoaderManagerMade(true) ==> r.action is FindLoader && texts(r.lines@)
                == Seq::<Seq<char>>::empty(),
            event == PutEvent::LoaderFound(None) ==> (r.action matches PutAction::Finish(Err(m))
                && m@ == "Failed to detect image format"@ && texts(r.lines@) == Seq::<Seq<char>>::empty()),
            event matches PutEvent::LoaderFound(Some(f)) ==> (r.action matches PutAction::CheckFormat(
                c,
            ) && c@ == f@ && texts(r.lines@) == Seq::<Seq<char>>::empty()),
            event == PutEvent::FormatChecked(false) ==> (r.action matches PutAction::Finish(Err(m))
                && m@ == "Unsupported format for saving: "@ + old(self).spec_format() && texts(
                r.lines@,
            ) == Seq::<Seq<char>>::empty()),
            event == PutEvent::FormatChecked(true) ==> (r.action matches PutAction::Save(f) && f@
                == old(self).spec_format() && texts(r.lines@) == Seq::<Seq<char>>::empty()),
            event matches PutEvent::Saved(Err(e)) ==> (r.action matches PutAction::Finish(Err(m))
                && m@ == "Failed to save image: "@ + e@ && texts(r.lines@) == Seq::<Seq<char>>::empty()),
            event matches PutEvent::Saved(Ok(_)) ==> r.action == PutAction::Finish(
                Ok::<(), String>(()),
            ) && texts(r.lines@) == seq!["File added successfully"@],
    {
        match event {
            PutEvent::Begin => Step { lines: no_lines(), action: PutAction::LoadImage },
            PutEvent::ImageLoaded(loaded) => match loaded {
                Err(e) => Step {
                    lines: no_lines(),
                    action: PutAction::Finish(Err(cat("Failed to load image: ", e.as_str()))),
                },
                Ok(()) => Step { lines: no_lines(), action: PutAction::TakeName },
            },
            PutEvent::NameTaken(taken) => match taken {
                None => Step {
                    lines: no_lines(),
                    action: PutAction::Finish(Err(String::from_str("Invalid filename"))),
                },
                Some(n) => {
                    self.name = n;
                    Step {
                        lines: one_line(cat("Putting file: ", self.shown.as_str())),
                        action: PutAction::MakeManager,
                    }
                },
            },
            PutEvent::ManagerMade(made) => {
                if made {
                    Step {
                        lines: no_lines(),
                        action: PutAction::SelectFs(crate::types::FileSystemId::Atari720KbFat12),
                    }
                } else {
                    Step {
                        lines: no_lines(),
                        action: PutAction::Finish(
                            Err(String::from_str("Failed to initialize filesystem manager")),
                        ),
                    }
                }
            },
            PutEvent::FsSelected => Step { lines: no_lines(), action: PutAction::Mount },
            PutEvent::Mounted(ret) => {
                if ret < 0 {
                    Step {
                        lines: no_lines(),
                        action: PutAction::Finish(Err(String::from_str("Failed to mount image"))),
                    }
                } else {
                    Step { lines: no_lines(), action: PutAction::ReadInput }
                }
            },
            PutEvent::InputRead(read) => match read {
                Some(bytes) => {
                    self.contents = bytes;
                    let path = crate::cli::image_path(self.name.as_str());
                    Step { lines: no_lines(), action: PutAction::CreateFile(path) }
                },
                None => Step {
                    lines: no_lines(),
                    action: PutAction::Finish(Err(String::from_str("Failed to read input file"))),
                },
            },
            PutEvent::FileCreated(created) => match created {
                Ok(()) => Step { lines: no_lines(), action: PutAction::WriteFile },
                Err(e) => {
                    let code = decimal_string(e);
                    Step {
                        lines: no_lines(),
                        action: PutAction::Finish(
                            Err(cat("Failed to create file: ", code.as_str())),
                        ),
                    }
                },
            },
            PutEvent::FileWritten(written) => match written {
                Ok(()) => Step { lines: no_lines(), action: PutAction::CloseFile },
                Err(e) => {
                    let code = decimal_string(e);
                    Step {
                        lines: no_lines(),
                        action: PutAction::Finish(Err(cat("Failed to write file: ", code.as_str()))),
                    }
                },
            },
            PutEvent::FileClosed => Step { lines: no_lines(), action: PutAction::Unmount },
            PutEvent::Unmounted => Step { lines: no_lines(), action: PutAction::MakeLoaderManager },
            PutEvent::LoaderManagerMade(made) => {
                if made {
                    Step { lines: no_lines(), action: PutAction::FindLoader }
                } else {
                    Step {
                        lines: no_lines(),
                        action: PutAction::Finish(
                            Err(String::from_str("Failed to get loader manager")),
                        ),
                    }
                }
            },
            PutEvent::LoaderFound(found) => match found {
                None => Step {
                    lines: no_lines(),
                    action: PutAction::Finish(
                        Err(String::from_str("Failed to detect image format")),
                    ),
                },
                Some(f) => {
                    let c = f.clone();
                    self.format = f;
                    Step { lines: no_lines(), action: PutAction::CheckFormat(c) }
                },
            },
            PutEvent::FormatChecked(ok) => {
                if ok {
                    Step { lines: no_lines(), action: PutAction::Save(self.format.clone()) }
                } else {
                    Step {
                        lines: no_lines(),
                        action: PutAction::Finish(
                            Err(cat("Unsupported format for saving: ", self.format.as_str())),
                        ),
                    }
                }
            },
            PutEvent::Saved(saved) => match saved {
                Err(e) => Step {
                    lines: no_lines(),
                    action: PutAction::Finish(Err(cat("Failed to save image: ", e.as_str()))),
                },
                Ok(()) => Step {
                    lines: one_line(String::from_str("File added successfully")),
                    action: PutAction::Finish(Ok(())),
                },
            },
        }
    }
}

} // verus!
