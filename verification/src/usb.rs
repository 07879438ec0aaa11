use vstd::prelude::*;

use crate::error::HxcfeError;
use crate::types::DriveId;
use crate::types::InterfaceModeId;
use crate::types::TrackId;

verus! {

/// USB HxC Floppy Emulator handle, known by the address of libusbhxcfe's
/// context.
pub struct UsbHxcfe {
    handler: usize,
}

/// The outcome of a USB command, from the status libusbhxcfe returned: 0
/// succeeds; any other status is an access error.
pub open spec fn spec_usb_result(ret: i32) -> Result<(), HxcfeError> {
    if ret == 0 {
        Ok(())
    } else {
        Err(HxcfeError::HXCFE_ACCESSERROR)
    }
}

fn usb_result(ret: i32) -> (r: Result<(), HxcfeError>)
    ensures
        r == spec_usb_result(ret),
{
    if ret == 0 {
        Ok(())
    } else {
        Err(HxcfeError::HXCFE_ACCESSERROR)
    }
}

impl UsbHxcfe {
    /// The USB emulator for the context that libusbhxcfe opened (`None` when
    /// the hardware was not found, 0).
    pub fn init(handler: usize) -> (r: Option<Self>)
        ensures
            r is Some <==> handler != 0,
            r matches Some(u) ==> u.spec_handler() == handler,
    {
        if handler == 0 {
            None
        } else {
            Some(UsbHxcfe { handler })
        }
    }

    /// The address of the libusbhxcfe context.
    pub closed spec fn spec_handler(&self) -> usize {
        self.handler
    }

    /// The address of the libusbhxcfe context.
    pub fn handler(&self) -> (r: usize)
        ensures
            r == self.spec_handler(),
    {
        self.handler
    }

    /// The outcome of loading an image into the hardware, from the status.
    pub fn load_floppy(&self, ret: i32) -> (r: Result<(), HxcfeError>)
        ensures
            r == spec_usb_result(ret),
    {
        usb_result(ret)
    }

    /// The outcome of ejecting the image, from the status.
    pub fn eject_floppy(&self, ret: i32) -> (r: Result<(), HxcfeError>)
        ensures
            r == spec_usb_result(ret),
    {
        usb_result(ret)
    }

    /// The double-step flag handed to libusbhxcfe: 1 when enabled, else 0.
    pub fn double_step_flag(double_step: bool) -> (r: i32)
        ensures
            r == (if double_step { 1i32 } else { 0i32 }),
    {
        if double_step {
            1
        } else {
            0
        }
    }

    /// The outcome of setting the interface mode, from the status.
    pub fn set_interface_mode(
        &self,
        interface_mode: InterfaceModeId,
        double_step: bool,
        drive: DriveId,
        ret: i32,
    ) -> (r: Result<(), HxcfeError>)
        ensures
            r == spec_usb_result(ret),
    {
        usb_result(ret)
    }

    /// The current interface mode, from the number libusbhxcfe reports.
    pub fn get_interface_mode(&self, raw: i32) -> (r: InterfaceModeId)
        ensures
            r@ == raw,
    {
        InterfaceModeId::new(raw)
    }

    /// The current double-step setting: enabled when libusbhxcfe reports a
    /// non-zero value.
    pub fn get_double_step(&self, raw: i32) -> (r: bool)
        ensures
            r == (raw != 0),
    {
        raw != 0
    }

    /// The current drive select, from the number libusbhxcfe reports.
    pub fn get_drive(&self, raw: i32) -> (r: DriveId)
        ensures
            r@ == raw,
    {
        DriveId::new(raw)
    }

    /// The current track position, from the number libusbhxcfe reports.
    pub fn get_current_track(&self, raw: i32) -> (r: TrackId)
        ensures
            r@ == raw,
    {
        TrackId::new(raw)
    }
}

} // verus!
