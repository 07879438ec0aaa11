use vstd::prelude::*;

pub mod cli;
pub mod commands;
pub mod error;
pub mod floppy_interface;
pub mod fs_manager;
pub mod img;
pub mod img_loaders;
pub mod layouts;
pub mod sector_access;
pub mod text;
pub mod types;
pub mod usb;

pub use crate::error::HxcfeError;
pub use crate::floppy_interface::FloppyInterface;
pub use crate::floppy_interface::InterfaceMode;
pub use crate::fs_manager::FileSystemManager;
pub use crate::img::Img;
pub use crate::img_loaders::ImgLoaderManager;
pub use crate::layouts::LayoutManager;
pub use crate::types::DriveId;
pub use crate::types::FileHandle;
pub use crate::types::FileSystemId;
pub use crate::types::HeadId;
pub use crate::types::SectorId;
pub use crate::types::TrackId;
pub use crate::usb::UsbHxcfe;

use crate::error::spec_error_from_status;
use crate::error::spec_error_name;
use crate::img_loaders::load_result;
use crate::img_loaders::spec_load_ok;
use crate::text::c_compatible;
use crate::text::spec_c_compatible;

verus! {

/// Main HxC Floppy Emulator context, known by the address of libhxcfe's
/// context record.
#[derive(Debug)]
pub struct Hxcfe {
    handler: usize,
}

/// What happened in the last step of loading an image from a file.
pub enum LoadEvent {
    /// Nothing yet: the load begins.
    Begin,
    /// libhxcfe made a loader manager (`true`) or failed to (`false`).
    ManagerMade(bool),
    /// The search for a loader that reads the file ended: the loader's number,
    /// or `None` when no loader was found.
    LoaderFound(Option<i32>),
    /// The chosen loader ran: the image, or the error it reported.
    LoaderRan(Result<Img, HxcfeError>),
}

/// What to do next when loading an image from a file.
pub enum LoadAction {
    /// Ask libhxcfe for a loader manager.
    MakeManager,
    /// Look for the loader that reads the file.
    FindLoader,
    /// Run the loader with this number on the file.
    RunLoader(i32),
    /// The load is over, with this outcome.
    Finish(Result<Img, String>),
}

/// What happened in the last step of saving an image to a file.
pub enum SaveEvent {
    /// Nothing yet: the save begins.
    Begin,
    /// libhxcfe made a loader manager (`true`) or failed to (`false`).
    ManagerMade(bool),
    /// The search for the loader of the output format ended: its number, or
    /// `None` when no loader was found.
    LoaderFound(Option<i32>),
    /// The chosen loader ran: success, or the error it reported.
    LoaderRan(Result<(), HxcfeError>),
}

/// What to do next when saving an image to a file.
pub enum SaveAction {
    /// Ask libhxcfe for a loader manager.
    MakeManager,
    /// Look for the loader of the output format.
    FindLoader,
    /// Run the loader with this number to write the file.
    RunLoader(i32),
    /// The save is over, with this outcome.
    Finish(Result<(), String>),
}

/// The message when libhxcfe gives no loader manager.
pub open spec fn spec_no_manager_message() -> Seq<char> {
    "Unable to get the loader manager"@
}

/// The message when no loader reads the file `path`.
pub open spec fn spec_no_loading_loader_message(path: Seq<char>) -> Seq<char> {
    "Unable to find a loading loader for "@ + path
}

/// The message when no loader writes the file `path`.
pub open spec fn spec_no_saving_loader_message(path: Seq<char>) -> Seq<char> {
    "Unable to find a saving loader for "@ + path
}

/// The message when a loader failed to read a file with error `e`.
pub open spec fn spec_load_error_message(e: HxcfeError) -> Seq<char> {
    "Load error "@ + spec_error_name(e)
}

/// The message when a loader failed to write a file with error `e`.
pub open spec fn spec_save_error_message(e: HxcfeError) -> Seq<char> {
    "Save error "@ + spec_error_name(e)
}

/// `prefix` followed by `rest`, as a new string.
fn joined(prefix: &str, rest: &str) -> (r: String)
    ensures
        r@ == prefix@ + rest@,
{
    let mut s = String::from_str(prefix);
    s.append(rest);
    s
}

/// The next step of loading the image file `path`, after `event`.
///
/// The load asks for a loader manager, then for the loader that reads the
/// file, then runs that loader. A missing manager, a missing loader, or a
/// loader error ends the load with the matching message; a loaded image ends
/// it with that image.
pub fn load_step(path: &str, event: LoadEvent) -> (r: LoadAction)
    ensures
        event is Begin ==> r is MakeManager,
        event == LoadEvent::ManagerMade(true) ==> r is FindLoader,
        event == LoadEvent::ManagerMade(false) ==> (r matches LoadAction::Finish(Err(m)) && m@
            == spec_no_manager_message()),
        event == LoadEvent::LoaderFound(None) ==> (r matches LoadAction::Finish(Err(m)) && m@
            == spec_no_loading_loader_message(path@)),
        event matches LoadEvent::LoaderFound(Some(i)) ==> r == LoadAction::RunLoader(i),
        event matches LoadEvent::LoaderRan(Ok(img)) ==> r == LoadAction::Finish(
            Ok::<Img, String>(img),
        ),
        event matches LoadEvent::LoaderRan(Err(e)) ==> (r matches LoadAction::Finish(Err(m))
            && m@ == spec_load_error_message(e)),
{
    match event {
        LoadEvent::Begin => LoadAction::MakeManager,
        LoadEvent::ManagerMade(made) => {
            if made {
                LoadAction::FindLoader
            } else {
                let m = String::from_str("Unable to get the loader manager");
                LoadAction::Finish(Err(m))
            }
        },
        LoadEvent::LoaderFound(found) => match found {
            Some(i) => LoadAction::RunLoader(i),
            None => LoadAction::Finish(Err(joined("Unable to find a loading loader for ", path))),
        },
        LoadEvent::LoaderRan(res) => match res {
            Ok(img) => LoadAction::Finish(Ok(img)),
            Err(e) => LoadAction::Finish(Err(joined("Load error ", e.name()))),
        },
    }
}

/// The next step of saving an image to the file `path`, after `event`; the
/// steps and messages mirror [`load_step`].
pub fn save_step(path: &str, event: SaveEvent) -> (r: SaveAction)
    ensures
        event is Begin ==> r is MakeManager,
        event == SaveEvent::ManagerMade(true) ==> r is FindLoader,
        event == SaveEvent::ManagerMade(false) ==> (r matches SaveAction::Finish(Err(m)) && m@
            == spec_no_manager_message()),
        event == SaveEvent::LoaderFound(None) ==> (r matches SaveAction::Finish(Err(m)) && m@
            == spec_no_saving_loader_message(path@)),
        event matches SaveEvent::LoaderFound(Some(i)) ==> r == SaveAction::RunLoader(i),
        event == SaveEvent::LoaderRan(Ok(())) ==> r == SaveAction::Finish(Ok::<(), String>(())),
        event matches SaveEvent::LoaderRan(Err(e)) ==> (r matches SaveAction::Finish(Err(m))
            && m@ == spec_save_error_message(e)),
{
    match event {
        SaveEvent::Begin => SaveAction::MakeManager,
        SaveEvent::ManagerMade(made) => {
            if made {
                SaveAction::FindLoader
            } else {
                let m = String::from_str("Unable to get the loader manager");
                SaveAction::Finish(Err(m))
            }
        },
        SaveEvent::LoaderFound(found) => match found {
            Some(i) => SaveAction::RunLoader(i),
            None => SaveAction::Finish(Err(joined("Unable to find a saving loader for ", path))),
        },
        SaveEvent::LoaderRan(res) => match res {
            Ok(()) => SaveAction::Finish(Ok(())),
            Err(e) => SaveAction::Finish(Err(joined("Save error ", e.name()))),
        },
    }
}

impl Hxcfe {
    /// The context whose libhxcfe record lies at `handler`.
    pub fn new(handler: usize) -> (r: Self)
        ensures
            r.spec_handler() == handler,
    {
        Hxcfe { handler }
    }

    /// The address of libhxcfe's context record.
    pub closed spec fn spec_handler(&self) -> usize {
        self.handler
    }

    /// The address of libhxcfe's context record, for libhxcfe calls.
    pub fn handler(&self) -> (r: usize)
        ensures
            r == self.spec_handler(),
    {
        self.handler
    }

    /// An image loader manager, given the loader context that libhxcfe made
    /// (0 when it failed) and the number of loaders in it.
    pub fn loaders_manager(&self, handler: usize, nb_loaders: i32) -> (r: Option<ImgLoaderManager>)
        ensures
            r is Some <==> handler != 0,
            r matches Some(m) ==> m.spec_handler() == handler && m.spec_nb_loaders() == nb_loaders,
    {
        ImgLoaderManager::new(handler, nb_loaders)
    }

    /// A layout manager, given the layout context that libhxcfe made (0 when
    /// it failed).
    pub fn layout_manager(&self, handler: usize) -> (r: Option<LayoutManager>)
        ensures
            r is Some <==> handler != 0,
            r matches Some(m) ==> m.spec_handler() == handler,
    {
        LayoutManager::new(handler)
    }

    /// A file system manager, given the filesystem context that libhxcfe made
    /// (0 when it failed).
    pub fn file_system_manager(&self, handler: usize) -> (r: Option<FileSystemManager>)
        ensures
            r is Some <==> handler != 0,
            r matches Some(m) ==> m.spec_handler() == handler,
    {
        FileSystemManager::new(handler)
    }

    /// The floppy interface for `mode`; every mode has one.
    pub fn floppy_interface(&self, mode: InterfaceMode) -> (r: Option<FloppyInterface<'_>>)
        ensures
            r matches Some(i) && i.spec_mode() == mode,
    {
        FloppyInterface::new(self, mode)
    }

    /// A floppy image generated from the directory `path`, given what
    /// libhxcfe's generator returned: its status and the floppy record it made
    /// (0 for none). A path holding a 0 byte gives `HXCFE_BADPARAMETER`;
    /// otherwise the outcome is read as a load's is.
    pub fn generate_floppy(&self, path: &str, status: i32, floppydisk: usize) -> (r: Result<
        Img,
        HxcfeError,
    >)
        ensures
            !spec_c_compatible(path) ==> r == Err::<Img, HxcfeError>(
                HxcfeError::HXCFE_BADPARAMETER,
            ),
            spec_c_compatible(path) && spec_load_ok(status, floppydisk) ==> (r matches Ok(img)
                && img.spec_floppy() == floppydisk),
            spec_c_compatible(path) && !spec_load_ok(status, floppydisk) ==> r == Err::<
                Img,
                HxcfeError,
            >(spec_error_from_status(status)),
    {
        if !c_compatible(path) {
            return Err(HxcfeError::HXCFE_BADPARAMETER);
        }
        load_result(status, floppydisk)
    }

    /// The interface mode named `name`, given the mode that libhxcfe's lookup
    /// of the name found. A name holding a 0 byte cannot be looked up and
    /// names no mode.
    pub fn get_interface_mode_id(&self, name: &str, found: Option<InterfaceMode>) -> (r: Option<
        InterfaceMode,
    >)
        ensures
            !spec_c_compatible(name) ==> r is None,
            spec_c_compatible(name) ==> r == found,
    {
        if !c_compatible(name) {
            return None;
        }
        found
    }
}

} // verus!
