use sysmaster_core::usb::{parse_i32, UsbId};

#[test]
fn test_usb_mass_storage_ifsubtype() {
    let mut protocol = 0;
    assert_eq!(UsbId::usb_mass_storage_ifsubtype("1", &mut protocol), Some("rbc"));
    assert_eq!(UsbId::usb_mass_storage_ifsubtype("2", &mut protocol), Some("atapi"));
    assert_eq!(UsbId::usb_mass_storage_ifsubtype("3", &mut protocol), Some("tape"));
    assert_eq!(UsbId::usb_mass_storage_ifsubtype("4", &mut protocol), Some("floppy"));

    assert_eq!(UsbId::usb_mass_storage_ifsubtype("6", &mut protocol), Some("scsi"));
    assert_eq!(UsbId::usb_mass_storage_ifsubtype("0", &mut protocol), Some("generic"));
    assert_eq!(UsbId::usb_mass_storage_ifsubtype("7", &mut protocol), Some("generic"));
}

#[test]
fn test_scsi_type() {
    assert_eq!(UsbId::scsi_type("0"), Some("disk"));
    assert_eq!(UsbId::scsi_type("14"), Some("disk"));
    assert_eq!(UsbId::scsi_type("1"), Some("tape"));
    assert_eq!(UsbId::scsi_type("4"), Some("optical"));
    assert_eq!(UsbId::scsi_type("7"), Some("optical"));
    assert_eq!(UsbId::scsi_type("15"), Some("optical"));
    assert_eq!(UsbId::scsi_type("5"), Some("cd"));
    assert_eq!(UsbId::scsi_type("10"), Some("generic"));
}

#[test]
fn usb_iftype_table() {
    assert_eq!(UsbId::usb_iftype(1), Some("audio"));
    assert_eq!(UsbId::usb_iftype(8), Some("storage"));
    assert_eq!(UsbId::usb_iftype(14), Some("video"));
    assert_eq!(UsbId::usb_iftype(255), Some("generic"));
    assert_eq!(UsbId::usb_iftype(2), None);
}

#[test]
fn scsi_type_rejects_junk() {
    assert_eq!(UsbId::scsi_type("abc"), None);
    assert_eq!(UsbId::scsi_type(""), None);
    assert_eq!(UsbId::scsi_type("1x"), None);
}

#[test]
fn parse_i32_cases() {
    assert_eq!(parse_i32("0"), Some(0));
    assert_eq!(parse_i32("15"), Some(15));
    assert_eq!(parse_i32("-42"), Some(-42));
    assert_eq!(parse_i32("+7"), Some(7));
    assert_eq!(parse_i32("2147483647"), Some(2147483647));
    assert_eq!(parse_i32("2147483648"), None);
    assert_eq!(parse_i32("-2147483648"), Some(-2147483648));
    assert_eq!(parse_i32("-2147483649"), None);
    assert_eq!(parse_i32(""), None);
    assert_eq!(parse_i32("-"), None);
    assert_eq!(parse_i32("12a"), None);
    assert_eq!(parse_i32("99999999999999999999"), None);
}
