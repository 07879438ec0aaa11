use vstd::prelude::*;

use crate::types::DriveId;

verus! {

/// The options of the command-line converter, as plain values.
pub struct HxcfeCli {
    /// Input file image
    pub input: Option<String>,
    /// Output file image
    pub output: Option<String>,
    /// Convert the input file to specified format
    pub convert: Option<String>,
    /// Sector to sector copy mode: specify the format reference image
    pub reffile: Option<String>,
    /// Use the specified disk layout
    pub layout: Option<String>,
    /// Select the floppy interface mode
    pub interface_mode: Option<String>,
    /// Force single step mode
    pub single_step: bool,
    /// Force double step mode
    pub double_step: bool,
    /// Execute script file
    pub script: Option<String>,
    /// Enable verbose mode
    pub verbose: bool,
    /// Print license information
    pub license: bool,
    /// List modules in libhxcfe (format loaders)
    pub module_list: bool,
    /// List disk layouts
    pub raw_list: bool,
    /// List floppy interface modes
    pub interface_list: bool,
    /// Print information about the input file
    pub infos: bool,
    /// List the content of the floppy image
    pub list: bool,
    /// Get a file from the floppy image
    pub getfile: Option<String>,
    /// Put a file to the floppy image
    pub putfile: Option<String>,
    /// Start the USB floppy emulator with specified drive (0-3)
    pub usb: Option<u8>,
}

/// The one thing that a run of the converter does.
pub enum Command {
    /// Print the license.
    License,
    /// List the image loaders.
    ModuleList,
    /// List the floppy interface modes.
    InterfaceList,
    /// List the disk layouts.
    LayoutList,
    /// Execute a script file (which this version does not support).
    Script(String),
    /// No input file and nothing else to do: point at `--help`.
    Help,
    /// Print information about the input image.
    Info { input: String },
    /// List the root directory of the input image.
    List { input: String },
    /// Extract a file from the input image.
    GetFile { input: String, filename: String },
    /// Add a local file to the input image.
    PutFile { input: String, file: String },
    /// Emulate the input image on the USB hardware, on a drive 0 to 3.
    Usb {
        input: String,
        drive: DriveId,
        interface_mode: Option<String>,
        double_step: bool,
        single_step: bool,
    },
    /// The USB drive number is out of range.
    BadDrive { input: String, drive: u8 },
    /// Convert the input image to a format, by plain saving or, with a
    /// reference image, by sector-by-sector copy.
    Convert { input: String, format: String, output: Option<String>, reffile: Option<String> },
    /// An input image was given but no command for it.
    Idle { input: String },
}

/// A run of the converter: whether it announces verbose mode, and its command.
pub struct Plan {
    pub verbose: bool,
    pub command: Command,
}

/// The view of an optional text.
pub open spec fn opt_view(o: Option<String>) -> Option<Seq<char>> {
    match o {
        Some(s) => Some(s@),
        None => None,
    }
}

/// Whether `cmd` is the command that the options `cli` ask for. The options
/// are looked at in a fixed order, and the first that applies decides: the
/// license, the module list, the interface list, the layout list, a script;
/// then, with no input file, the pointer to `--help`; with one, the
/// information, the listing, getting a file, putting a file, USB emulation
/// (for a drive number 0 to 3, else an error), conversion, and otherwise
/// nothing.
pub open spec fn spec_command_for(cli: HxcfeCli, cmd: Command) -> bool {
    if cli.license {
        cmd is License
    } else if cli.module_list {
        cmd is ModuleList
    } else if cli.interface_list {
        cmd is InterfaceList
    } else if cli.raw_list {
        cmd is LayoutList
    } else if cli.script is Some {
        cmd matches Command::Script(s) && s@ == cli.script.unwrap()@
    } else if cli.input is None {
        cmd is Help
    } else {
        let input = cli.input.unwrap()@;
        if cli.infos {
            cmd matches Command::Info { input: i } && i@ == input
        } else if cli.list {
            cmd matches Command::List { input: i } && i@ == input
        } else if cli.getfile is Some {
            cmd matches Command::GetFile { input: i, filename: f } && i@ == input && f@
                == cli.getfile.unwrap()@
        } else if cli.putfile is Some {
            cmd matches Command::PutFile { input: i, file: f } && i@ == input && f@
                == cli.putfile.unwrap()@
        } else if cli.usb is Some {
            if cli.usb.unwrap() <= 3 {
                cmd matches Command::Usb { input: i, drive, interface_mode, double_step, single_step }
                    && i@ == input && drive@ == cli.usb.unwrap() as i32 && opt_view(interface_mode)
                    == opt_view(cli.interface_mode) && double_step == cli.double_step
                    && single_step == cli.single_step
            } else {
                cmd matches Command::BadDrive { input: i, drive } && i@ == input && drive
                    == cli.usb.unwrap()
            }
        } else if cli.convert is Some {
            cmd matches Command::Convert { input: i, format, output, reffile } && i@ == input
                && format@ == cli.convert.unwrap()@ && opt_view(output) == opt_view(cli.output)
                && opt_view(reffile) == opt_view(cli.reffile)
        } else {
            cmd matches Command::Idle { input: i } && i@ == input
        }
    }
}

/// Decides what a run of the converter does with the options `cli`: the
/// command (see [`spec_command_for`]), and whether "verbose mode" is
/// announced first, which happens when verbose mode is asked and the run does
/// not just print the license.
pub fn plan(cli: HxcfeCli) -> (r: Plan)
    ensures
        r.verbose == (cli.verbose && !cli.license),
        spec_command_for(cli, r.command),
{
    let verbose = cli.verbose && !cli.license;
    let HxcfeCli {
        input,
        output,
        convert,
        reffile,
        layout,
        interface_mode,
        single_step,
        double_step,
        script,
        verbose: _,
        license,
        module_list,
        raw_list,
        interface_list,
        infos,
        list,
        getfile,
        putfile,
        usb,
    } = cli;
    let command = if license {
        Command::License
    } else if module_list {
        Command::ModuleList
    } else if interface_list {
        Command::InterfaceList
    } else if raw_list {
        Command::LayoutList
    } else if let Some(s) = script {
        Command::Script(s)
    } else {
        match input {
            None => Command::Help,
            Some(input) => {
                if infos {
                    Command::Info { input }
                } else if list {
                    Command::List { input }
                } else if let Some(filename) = getfile {
                    Command::GetFile { input, filename }
                } else if let Some(file) = putfile {
                    Command::PutFile { input, file }
                } else if let Some(drive) = usb {
                    match DriveId::from_u8(drive) {
                        Some(drive_id) => Command::Usb {
                            input,
                            drive: drive_id,
                            interface_mode,
                            double_step,
                            single_step,
                        },
                        None => Command::BadDrive { input, drive },
                    }
                } else if let Some(format) = convert {
                    Command::Convert { input, format, output, reffile }
                } else {
                    Command::Idle { input }
                }
            },
        }
    };
    Plan { verbose, command }
}

/// Every command that works on a file carries the file names the options
/// give: the input image, the file to get or put, the script; and a drive
/// number out of range is reported as given.
pub proof fn lemma_commands_carry_their_files(cli: HxcfeCli, cmd: Command)
    requires
        spec_command_for(cli, cmd),
    ensures
        cmd matches Command::Script(s) ==> cli.script matches Some(o) && o@ == s@,
        cmd matches Command::Info { input } ==> {
            &&& cli.infos
            &&& cli.input matches Some(i) && i@ == input@
        },
        cmd matches Command::List { input } ==> {
            &&& cli.list
            &&& cli.input matches Some(i) && i@ == input@
        },
        cmd matches Command::GetFile { input, filename } ==> {
            &&& cli.input matches Some(i) && i@ == input@
            &&& cli.getfile matches Some(g) && g@ == filename@
        },
        cmd matches Command::PutFile { input, file } ==> {
            &&& cli.input matches Some(i) && i@ == input@
            &&& cli.putfile matches Some(f) && f@ == file@
        },
        cmd matches Command::BadDrive { input, drive } ==> {
            &&& cli.input matches Some(i) && i@ == input@
            &&& cli.usb == Some(drive)
            &&& drive > 3
        },
        cmd is Help ==> cli.input is None,
{
}

/// A conversion is what the options ask for only when they name an input
/// image and a format, and it carries exactly the options' input, format,
/// output file and reference file (a reference file selecting the
/// sector-by-sector copy).
pub proof fn lemma_convert_carries_options(cli: HxcfeCli, cmd: Command)
    requires
        spec_command_for(cli, cmd),
    ensures
        cmd matches Command::Convert { input, format, output, reffile } ==> {
            &&& cli.input matches Some(i) && i@ == input@
            &&& cli.convert matches Some(c) && c@ == format@
            &&& opt_view(output) == opt_view(cli.output)
            &&& opt_view(reffile) == opt_view(cli.reffile)
        },
{
}

/// A USB emulation is what the options ask for only when they name an input
/// image and a drive 0 to 3, and it carries exactly that drive, the
/// interface mode the options name (none when they name none, the mode then
/// coming from the image), and the step options.
pub proof fn lemma_usb_carries_options(cli: HxcfeCli, cmd: Command)
    requires
        spec_command_for(cli, cmd),
    ensures
        cmd matches Command::Usb { input, drive, interface_mode, double_step, single_step } ==> {
            &&& cli.input matches Some(i) && i@ == input@
            &&& cli.usb matches Some(d) && d <= 3 && drive@ == d as i32
            &&& opt_view(interface_mode) == opt_view(cli.interface_mode)
            &&& double_step == cli.double_step
            &&& single_step == cli.single_step
        },
{
}

/// The name under which a file taken from an image is written locally: the
/// file's name in the image, without one leading "/".
pub open spec fn spec_output_name(filename: Seq<char>) -> Seq<char> {
    if filename.len() > 0 && filename[0] == '/' {
        filename.drop_first()
    } else {
        filename
    }
}

/// The local name for a file taken from an image: its name in the image
/// without one leading "/".
pub fn output_name(filename: &str) -> (r: &str)
    ensures
        r@ == spec_output_name(filename@),
{
    let len = filename.unicode_len();
    if len > 0 && filename.get_char(0) == '/' {
        filename.substring_char(1, len)
    } else {
        filename
    }
}

/// The absolute path in an image under which a local file named `filename`
/// is stored: "/" followed by the name.
pub fn image_path(filename: &str) -> (r: String)
    ensures
        r@ == "/"@ + filename@,
{
    let mut s = String::from_str("/");
    s.append(filename);
    s
}

/// A local file put into an image under its name `f` is stored at "/" + `f`,
/// and getting that file back writes it locally under the name `f` again.
pub proof fn lemma_put_then_get_name(f: Seq<char>)
    ensures
        spec_output_name("/"@ + f) == f,
{
    reveal_strlit("/");
    assert(("/"@ + f).drop_first() =~= f);
}

/// Whether the USB emulation uses double step: forced on by the double-step
/// option, forced off by the single-step option, and otherwise on exactly for
/// images of at most 42 tracks.
pub fn use_double_step(double_step: bool, single_step: bool, nb_tracks: i32) -> (r: bool)
    ensures
        r == (if double_step {
            true
        } else if single_step {
            false
        } else {
            nb_tracks <= 42
        }),
{
    if double_step {
        true
    } else if single_step {
        false
    } else {
        nb_tracks <= 42
    }
}

/// The line that the module list prints for one loader:
/// `name;access;description;*.extension;`.
pub fn module_line(name: &str, access: &str, description: &str, ext: &str) -> (r: String)
    ensures
        r@ == name@ + ";"@ + access@ + ";"@ + description@ + ";*."@ + ext@ + ";"@,
{
    let mut s = String::from_str(name);
    s.append(";");
    s.append(access);
    s.append(";");
    s.append(description);
    s.append(";*.");
    s.append(ext);
    s.append(";");
    s
}

/// Takes the outcome of reading one chunk of a file from an image into the
/// bytes read so far. A read of `n > 0` bytes appends the first `n` bytes of
/// `chunk` and asks for more; a read of nothing, or an error, ends the
/// reading and leaves the bytes as they were.
pub fn take_chunk(buffer: &mut Vec<u8>, chunk: &[u8], read: Result<i32, i32>) -> (more: bool)
    requires
        read matches Ok(n) ==> n <= chunk@.len(),
    ensures
        more == (read matches Ok(n) && n > 0),
        more ==> (read matches Ok(n) && final(buffer)@ == old(buffer)@ + chunk@.take(n as int)),
        !more ==> final(buffer)@ == old(buffer)@,
{
    match read {
        Ok(n) => {
            if n > 0 {
                let count = n as usize;
                let ghost start = buffer@;
                let mut i: usize = 0;
                while i < count
                    invariant
                        count <= chunk@.len(),
                        0 <= i <= count,
                        buffer@ == start + chunk@.take(i as int),
                    decreases count - i,
                {
                    buffer.push(chunk[i]);
                    i = i + 1;
                    assert(chunk@.take(i as int) == chunk@.take((i - 1) as int).push(
                        chunk@[(i - 1) as int],
                    ));
                }
                true
            } else {
                false
            }
        },
        Err(_) => false,
    }
}

} // verus!
