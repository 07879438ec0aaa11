use vstd::prelude::*;

use crate::text::c_compatible;
use crate::text::spec_c_compatible;
use crate::types::DirHandle;
use crate::types::FileHandle;

verus! {

/// The status that a filesystem call gives when a name cannot be handed to
/// libhxcfe (it holds a 0 byte): `HXCFE_BADPARAMETER`'s code.
pub const BAD_PARAMETER_STATUS: i32 = -4;

/// A libhxcfe filesystem manager, known by the address of its context.
#[derive(Debug)]
pub struct FileSystemManager {
    handler: usize,
}

/// An open directory of a mounted image.
#[derive(Debug)]
pub struct DirHandler<'manager> {
    dirhandle: DirHandle,
    fs_manager: &'manager FileSystemManager,
}

/// One entry of a directory: whether it is a directory, its size, and its name.
pub struct DirEntry {
    isdir: i32,
    size: i32,
    name: String,
}

/// The outcome of opening or creating a file or directory, from the handle
/// that libhxcfe returned: a handle above 0 is open, anything else is the
/// error status.
pub open spec fn spec_handle_ok(raw: i32) -> bool {
    raw > 0
}

/// The outcome of a call that returns a byte count or status: 0 and above is
/// a count, below 0 an error status.
pub fn count_result(ret: i32) -> (r: Result<i32, i32>)
    ensures
        ret >= 0 ==> r == Ok::<i32, i32>(ret),
        ret < 0 ==> r == Err::<i32, i32>(ret),
{
    if ret >= 0 {
        Ok(ret)
    } else {
        Err(ret)
    }
}

/// The outcome of a call on a named file or directory that returns a status:
/// a name holding a 0 byte gives `BAD_PARAMETER_STATUS` without a call;
/// otherwise 0 and above succeeds, below 0 is the error status.
pub fn named_status_result(name: &str, ret: i32) -> (r: Result<(), i32>)
    ensures
        !spec_c_compatible(name) ==> r == Err::<(), i32>(BAD_PARAMETER_STATUS),
        spec_c_compatible(name) && ret >= 0 ==> r == Ok::<(), i32>(()),
        spec_c_compatible(name) && ret < 0 ==> r == Err::<(), i32>(ret),
{
    if !c_compatible(name) {
        return Err(BAD_PARAMETER_STATUS);
    }
    if ret >= 0 {
        Ok(())
    } else {
        Err(ret)
    }
}

/// The `i32` size that libhxcfe is told for a buffer of `len` bytes, as
/// `len as i32` computes it.
pub fn c_size(len: usize) -> (r: i32)
    ensures
        r == len as i32,
        len <= i32::MAX ==> r == len,
{
    len as i32
}

impl FileSystemManager {
    /// A manager for the filesystem context that libhxcfe made (`None` when it
    /// returned none, 0).
    pub fn new(handler: usize) -> (r: Option<Self>)
        ensures
            r is Some <==> handler != 0,
            r matches Some(m) ==> m.spec_handler() == handler,
    {
        if handler == 0 {
            None
        } else {
            Some(FileSystemManager { handler })
        }
    }

    /// The address of the libhxcfe filesystem context.
    pub closed spec fn spec_handler(&self) -> usize {
        self.handler
    }

    /// The address of the libhxcfe filesystem context.
    pub fn handler(&self) -> (r: usize)
        ensures
            r == self.spec_handler(),
    {
        self.handler
    }

    /// Open the directory `folder`, given the handle that libhxcfe's
    /// `openDir` returned. A name holding a 0 byte gives
    /// `BAD_PARAMETER_STATUS`; a handle above 0 is the open directory; any
    /// other value is the error.
    pub fn open_dir(&self, folder: &str, raw: i32) -> (r: Result<DirHandler<'_>, i32>)
        ensures
            !spec_c_compatible(folder) ==> (r matches Err(e) && e == BAD_PARAMETER_STATUS),
            spec_c_compatible(folder) && spec_handle_ok(raw) ==> (r matches Ok(d) && d.spec_handle()
                == raw && d.spec_manager() == self),
            spec_c_compatible(folder) && !spec_handle_ok(raw) ==> (r matches Err(e) && e == raw),
    {
        if !c_compatible(folder) {
            return Err(BAD_PARAMETER_STATUS);
        }
        if raw > 0 {
            Ok(DirHandler { dirhandle: DirHandle::new(raw), fs_manager: self })
        } else {
            Err(raw)
        }
    }

    /// Open the file `filename`, given the handle that libhxcfe's `openFile`
    /// returned; read as in [`Self::open_dir`].
    pub fn open_file(&self, filename: &str, raw: i32) -> (r: Result<FileHandle, i32>)
        ensures
            !spec_c_compatible(filename) ==> r == Err::<FileHandle, i32>(BAD_PARAMETER_STATUS),
            spec_c_compatible(filename) && spec_handle_ok(raw) ==> (r matches Ok(h) && h@ == raw),
            spec_c_compatible(filename) && !spec_handle_ok(raw) ==> r == Err::<FileHandle, i32>(
                raw,
            ),
    {
        if !c_compatible(filename) {
            return Err(BAD_PARAMETER_STATUS);
        }
        if raw > 0 {
            Ok(FileHandle::new(raw))
        } else {
            Err(raw)
        }
    }

    /// Create the file `filename`, given the handle that libhxcfe's
    /// `createFile` returned; read as in [`Self::open_dir`].
    pub fn create_file(&self, filename: &str, raw: i32) -> (r: Result<FileHandle, i32>)
        ensures
            !spec_c_compatible(filename) ==> r == Err::<FileHandle, i32>(BAD_PARAMETER_STATUS),
            spec_c_compatible(filename) && spec_handle_ok(raw) ==> (r matches Ok(h) && h@ == raw),
            spec_c_compatible(filename) && !spec_handle_ok(raw) ==> r == Err::<FileHandle, i32>(
                raw,
            ),
    {
        self.open_file(filename, raw)
    }

    /// The outcome of reading from an open file, given what libhxcfe's
    /// `readFile` returned: the number of bytes read, or an error status.
    pub fn read_file(&self, filehandle: FileHandle, ret: i32) -> (r: Result<i32, i32>)
        ensures
            ret >= 0 ==> r == Ok::<i32, i32>(ret),
            ret < 0 ==> r == Err::<i32, i32>(ret),
    {
        count_result(ret)
    }

    /// The outcome of writing to an open file, given what libhxcfe's
    /// `writeFile` returned: the number of bytes written, or an error status.
    pub fn write_file(&self, filehandle: FileHandle, ret: i32) -> (r: Result<i32, i32>)
        ensures
            ret >= 0 ==> r == Ok::<i32, i32>(ret),
            ret < 0 ==> r == Err::<i32, i32>(ret),
    {
        count_result(ret)
    }

    /// Delete the file `filename`, given the status libhxcfe returned.
    pub fn delete_file(&self, filename: &str, ret: i32) -> (r: Result<(), i32>)
        ensures
            !spec_c_compatible(filename) ==> r == Err::<(), i32>(BAD_PARAMETER_STATUS),
            spec_c_compatible(filename) && ret >= 0 ==> r == Ok::<(), i32>(()),
            spec_c_compatible(filename) && ret < 0 ==> r == Err::<(), i32>(ret),
    {
        named_status_result(filename, ret)
    }

    /// Create the directory `dirname`, given the status libhxcfe returned.
    pub fn create_dir(&self, dirname: &str, ret: i32) -> (r: Result<(), i32>)
        ensures
            !spec_c_compatible(dirname) ==> r == Err::<(), i32>(BAD_PARAMETER_STATUS),
            spec_c_compatible(dirname) && ret >= 0 ==> r == Ok::<(), i32>(()),
            spec_c_compatible(dirname) && ret < 0 ==> r == Err::<(), i32>(ret),
    {
        named_status_result(dirname, ret)
    }

    /// Remove the directory `dirname`, given the status libhxcfe returned.
    pub fn remove_dir(&self, dirname: &str, ret: i32) -> (r: Result<(), i32>)
        ensures
            !spec_c_compatible(dirname) ==> r == Err::<(), i32>(BAD_PARAMETER_STATUS),
            spec_c_compatible(dirname) && ret >= 0 ==> r == Ok::<(), i32>(()),
            spec_c_compatible(dirname) && ret < 0 ==> r == Err::<(), i32>(ret),
    {
        named_status_result(dirname, ret)
    }
}

impl<'manager> DirHandler<'manager> {
    /// The libhxcfe handle of the directory.
    pub closed spec fn spec_handle(&self) -> i32 {
        self.dirhandle@
    }

    /// The manager that opened the directory.
    pub closed spec fn spec_manager(&self) -> &'manager FileSystemManager {
        self.fs_manager
    }

    /// The libhxcfe handle of the directory.
    pub fn handle(&self) -> (r: i32)
        ensures
            r == self.spec_handle(),
    {
        self.dirhandle.get()
    }

    /// The manager that opened the directory.
    pub fn manager(&self) -> (r: &'manager FileSystemManager)
        ensures
            r == self.spec_manager(),
    {
        self.fs_manager
    }

    /// The next entry of the directory, given what libhxcfe's `readDir`
    /// returned: a status above 0 means `entry` was read; anything else is the
    /// status that ends the listing.
    pub fn read(&self, ret: i32, entry: DirEntry) -> (r: Result<DirEntry, i32>)
        ensures
            ret > 0 ==> r == Ok::<DirEntry, i32>(entry),
            ret <= 0 ==> r == Err::<DirEntry, i32>(ret),
    {
        if ret > 0 {
            Ok(entry)
        } else {
            Err(ret)
        }
    }
}

impl DirEntry {
    /// An entry as libhxcfe describes it: its directory flag (non-zero for a
    /// directory), its size, and its name.
    pub fn new(isdir: i32, size: i32, name: String) -> (r: Self)
        ensures
            r.spec_isdir() == isdir,
            r.spec_size() == size,
            r.spec_name() == name@,
    {
        DirEntry { isdir, size, name }
    }

    /// libhxcfe's directory flag of the entry.
    pub closed spec fn spec_isdir(&self) -> i32 {
        self.isdir
    }

    /// The size of the entry.
    pub closed spec fn spec_size(&self) -> i32 {
        self.size
    }

    /// The name of the entry.
    pub closed spec fn spec_name(&self) -> Seq<char> {
        self.name@
    }

    /// Whether the entry is a directory: its flag is non-zero.
    pub fn is_dir(&self) -> (r: bool)
        ensures
            r == (self.spec_isdir() != 0),
    {
        self.isdir != 0
    }

    /// The name of the entry.
    pub fn entry_name(&self) -> (r: &str)
        ensures
            r@ == self.spec_name(),
    {
        self.name.as_str()
    }

    /// The size of the entry in bytes.
    pub fn size(&self) -> (r: i32)
        ensures
            r == self.spec_size(),
    {
        self.size
    }
}

} // verus!
