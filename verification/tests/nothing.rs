use earbuds::devices::enums::{DeviceData, DeviceInformation, DeviceList, DeviceType};
use earbuds::devices::nothing::{
    cut_short, parse_reply, NothingDevice, NothingInformation, Reply, FIRMWARE_REPLY,
    FIRMWARE_REQUEST, SERIAL_REPLY, SERIAL_REQUEST,
};

const ADDRESS: [u8; 6] = [0x00, 0x1A, 0x7D, 0xDA, 0x71, 0x13];

fn key() -> String {
    "00:1A:7D:DA:71:13".to_string()
}

fn firmware_reply(text: &[u8]) -> Vec<u8> {
    let mut data = FIRMWARE_REPLY.to_vec();
    data.extend_from_slice(&[0, 0, 0]);
    data.extend_from_slice(text);
    data
}

fn serial_reply(text: &[u8]) -> Vec<u8> {
    let mut data = SERIAL_REPLY.to_vec();
    data.extend_from_slice(text);
    data
}

fn stored(name: &str, information: Option<DeviceInformation>) -> DeviceList {
    let mut devices = DeviceList::new();
    devices.insert(
        key(),
        DeviceData {
            name: name.to_string(),
            type_: DeviceType::Other("AirPods".to_string()),
            information,
        },
    );
    devices
}

fn known() -> NothingInformation {
    NothingInformation {
        serial_number: "SH1".to_string(),
        firmware_version: "1.0".to_string(),
    }
}

fn information(devices: &DeviceList) -> NothingInformation {
    match &devices.get(&key()).unwrap().information {
        Some(DeviceInformation::Nothing(information)) => information.clone(),
        _ => panic!("no information"),
    }
}

#[test]
fn new_device_is_keyed_by_its_address() {
    let device = NothingDevice::new(ADDRESS, DeviceList::new());
    assert_eq!(device.listener.device_key, key());
    assert_eq!(device.information.serial_number, "");
    assert_eq!(device.information.firmware_version, "");
    let other = NothingDevice::new([0xFF, 0, 0, 0, 0, 0x0A], DeviceList::new());
    assert_eq!(other.listener.device_key, "FF:00:00:00:00:0A");
}

#[test]
fn known_device_brings_its_information() {
    let devices = stored("Ear", Some(DeviceInformation::Nothing(known())));
    let device = NothingDevice::new(ADDRESS, devices);
    assert_eq!(device.information.serial_number, "SH1");
    assert_eq!(device.information.firmware_version, "1.0");
}

#[test]
fn information_of_another_maker_does_not_count() {
    let devices = stored("Ear", Some(DeviceInformation::Other("{}".to_string())));
    assert_eq!(NothingDevice::new(ADDRESS, devices).information.serial_number, "");
    assert_eq!(NothingDevice::new(ADDRESS, stored("Ear", None)).information.serial_number, "");
}

#[test]
fn firmware_version_of_a_new_device_is_stored() {
    let device = NothingDevice::new(ADDRESS, DeviceList::new());
    let devices = device.listener.handle(&firmware_reply(b"1.0.1.57")).unwrap();
    let data = devices.get(&key()).unwrap();
    assert_eq!(data.name, "Nothing Device");
    assert!(matches!(data.type_, DeviceType::Nothing));
    assert_eq!(information(&devices).firmware_version, "1.0.1.57");
    assert_eq!(information(&devices).serial_number, "");
}

#[test]
fn serial_number_is_stored_beside_what_was_known() {
    let devices = stored("Ear", Some(DeviceInformation::Nothing(known())));
    let device = NothingDevice::new(ADDRESS, devices);
    let devices = device.listener.handle(&serial_reply(b"\0\0\0x4,SH123456\nrest")).unwrap();
    let data = devices.get(&key()).unwrap();
    assert_eq!(data.name, "Ear");
    assert!(matches!(&data.type_, DeviceType::Other(stored) if stored == "AirPods"));
    assert_eq!(information(&devices).serial_number, "SH123456");
    assert_eq!(information(&devices).firmware_version, "1.0");
}

#[test]
fn stored_information_is_found_again() {
    let device = NothingDevice::new(ADDRESS, DeviceList::new());
    let devices = device.listener.handle(&firmware_reply(b"2.0")).unwrap();
    let again = NothingDevice::new(ADDRESS, devices);
    assert_eq!(again.information.firmware_version, "2.0");
}

#[test]
fn replies_do_not_add_up() {
    let device = NothingDevice::new(ADDRESS, DeviceList::new());
    device.listener.handle(&firmware_reply(b"2.0")).unwrap();
    let devices = device.listener.handle(&serial_reply(b"SH9")).unwrap();
    assert_eq!(information(&devices).serial_number, "SH9");
    assert_eq!(information(&devices).firmware_version, "");
}

#[test]
fn other_devices_stay_as_they_were() {
    let mut devices = stored("Ear", None);
    devices.insert(
        "AA:AA:AA:AA:AA:AA".to_string(),
        DeviceData { name: "Other".to_string(), type_: DeviceType::Nothing, information: None },
    );
    let device = NothingDevice::new(ADDRESS, devices);
    let devices = device.listener.handle(&firmware_reply(b"2.0")).unwrap();
    assert_eq!(devices.entries().len(), 2);
    let other = devices.get(&"AA:AA:AA:AA:AA:AA".to_string()).unwrap();
    assert_eq!(other.name, "Other");
    assert!(other.information.is_none());
}

#[test]
fn invalid_text_is_read_lossily() {
    let device = NothingDevice::new(ADDRESS, DeviceList::new());
    let devices = device.listener.handle(&firmware_reply(b"a\xFFb")).unwrap();
    assert_eq!(information(&devices).firmware_version, "a\u{FFFD}b");
    let devices = device.listener.handle(&firmware_reply("\u{e9}".as_bytes())).unwrap();
    assert_eq!(information(&devices).firmware_version, "\u{e9}");
}

#[test]
fn unrelated_data_stores_nothing() {
    let device = NothingDevice::new(ADDRESS, DeviceList::new());
    assert!(device.listener.handle(&[]).is_none());
    assert!(device.listener.handle(&[0x55, 0x20, 0x01, 0x42]).is_none());
    assert!(device.listener.handle(&FIRMWARE_REQUEST).is_none());
    assert!(device.listener.handle(&SERIAL_REQUEST).is_none());
    assert!(device.listener.handle(&serial_reply(b"no number")).is_none());
}

#[test]
fn serial_numbers_are_delimited() {
    let texts: [(&[u8], &[u8]); 4] = [
        // From the first S to the line feed.
        (b"SH1\n2", b"SH1"),
        // To the end where there is no line feed.
        (b"abcSHxyz", b"SHxyz"),
        // A line feed before the start does not end it.
        (b"\nSH1", b"SH1"),
        // Without an S it starts at the ninth byte, here with an H behind it.
        (b"abcdHe", b"dHe"),
    ];
    for (text, number) in texts {
        let data = serial_reply(text);
        assert!(matches!(parse_reply(&data), Reply::SerialNumber(t) if t == number));
    }
    let data = serial_reply(b"abc\nHe");
    assert!(matches!(parse_reply(&data), Reply::SerialNumber(t) if t.is_empty()));
}

#[test]
fn unexpected_serial_numbers_are_told_apart() {
    // The first S counts, and it has to be followed by an H.
    for text in [&b"S1SH2"[..], &b"S"[..], &b""[..], &b"abcde"[..]] {
        let data = serial_reply(text);
        assert!(matches!(parse_reply(&data), Reply::UnexpectedSerialNumber));
    }
    assert!(matches!(parse_reply(&[0x55]), Reply::Unrelated));
}

#[test]
fn firmware_replies_can_break_off() {
    assert!(cut_short(&FIRMWARE_REPLY));
    assert!(cut_short(&firmware_reply(b"")[..7]));
    assert!(!cut_short(&firmware_reply(b"")));
    assert!(!cut_short(&SERIAL_REPLY));
    assert!(matches!(parse_reply(&firmware_reply(b"")), Reply::FirmwareVersion(t) if t.is_empty()));
}

#[test]
fn device_list_replaces_what_is_stored() {
    let mut devices = stored("Ear", None);
    assert!(devices.get(&"none".to_string()).is_none());
    devices.insert(
        key(),
        DeviceData { name: "Ear 2".to_string(), type_: DeviceType::Nothing, information: None },
    );
    assert_eq!(devices.entries().len(), 1);
    let copy = devices.duplicate();
    assert_eq!(copy.get(&key()).unwrap().name, "Ear 2");
}
