use hxcfe::error::HxcfeError;
use hxcfe::types::{DriveId, InterfaceModeId};
use hxcfe::usb::UsbHxcfe;

#[test]
fn usb_statuses() {
    assert!(UsbHxcfe::init(0).is_none());
    let usb = UsbHxcfe::init(0x77).unwrap();
    assert_eq!(usb.handler(), 0x77);
    assert_eq!(usb.load_floppy(0), Ok(()));
    assert_eq!(usb.load_floppy(-1), Err(HxcfeError::HXCFE_ACCESSERROR));
    assert_eq!(usb.eject_floppy(3), Err(HxcfeError::HXCFE_ACCESSERROR));
    assert_eq!(usb.set_interface_mode(InterfaceModeId::new(6), true, DriveId::new(0), 0), Ok(()));
    assert_eq!(UsbHxcfe::double_step_flag(true), 1);
    assert_eq!(UsbHxcfe::double_step_flag(false), 0);
    assert!(usb.get_double_step(2));
    assert!(!usb.get_double_step(0));
    assert_eq!(usb.get_drive(1).get(), 1);
    assert_eq!(usb.get_current_track(79).get(), 79);
    assert_eq!(usb.get_interface_mode(6).get(), 6);
}
