//! Devices by Nothing: what they are asked, what they answer and what is kept
//! of the answers.
use crate::devices::enums::{
    DeviceData, DeviceDataView, DeviceInformation, DeviceInformationView, DeviceList, DeviceType,
    DeviceTypeView,
};
use vstd::prelude::*;

verus! {

/// Asks for the firmware version.
pub const FIRMWARE_REQUEST: [u8; 10] = [
    0x55,
    0x20,
    0x01,
    0x42,
    0xC0,
    0x00,
    0x00,
    0x00,
    0x00,
    0x00,
];

/// Asks for the serial number.
pub const SERIAL_REQUEST: [u8; 10] = [
    0x55,
    0x20,
    0x01,
    0x06,
    0xC0,
    0x00,
    0x00,
    0x13,
    0x00,
    0x00,
];

/// How long to wait between the two requests, in milliseconds.
pub const REQUEST_GAP_MS: u64 = 100;

/// What an answer with the firmware version begins with.
pub const FIRMWARE_REPLY: [u8; 5] = [0x55, 0x20, 0x01, 0x42, 0x40];

/// What an answer with the serial number begins with.
pub const SERIAL_REPLY: [u8; 5] = [0x55, 0x20, 0x01, 0x06, 0x40];

/// Where the text of an answer starts, unless the answer shows otherwise.
pub const TEXT_START: usize = 8;

/// What a device by Nothing told about itself.
#[derive(Debug)]
pub struct NothingInformation {
    pub serial_number: String,
    pub firmware_version: String,
}

pub struct NothingInformationView {
    pub serial_number: Seq<char>,
    pub firmware_version: Seq<char>,
}

impl View for NothingInformation {
    type V = NothingInformationView;

    open spec fn view(&self) -> NothingInformationView {
        NothingInformationView {
            serial_number: self.serial_number@,
            firmware_version: self.firmware_version@,
        }
    }
}

impl Clone for NothingInformation {
    fn clone(&self) -> (copy: Self)
        ensures
            copy == *self,
    {
        NothingInformation {
            serial_number: self.serial_number.clone(),
            firmware_version: self.firmware_version.clone(),
        }
    }
}


/// What is stored about `key` before anything was heard from a device by
/// Nothing: its own earlier answers, or two empty texts.
pub open spec fn stored_information(
    devices: Map<Seq<char>, DeviceDataView>,
    key: Seq<char>,
) -> NothingInformationView {
    let none = NothingInformationView {
        serial_number: Seq::empty(),
        firmware_version: Seq::empty(),
    };
    if devices.contains_key(key) {
        match devices[key].information {
            Some(DeviceInformationView::Nothing(information)) => information,
            _ => none,
        }
    } else {
        none
    }
}

/// The stored devices with `information` noted for the device `key`. A device
/// that was stored before keeps its name and its type.
pub open spec fn devices_with(
    devices: Map<Seq<char>, DeviceDataView>,
    key: Seq<char>,
    information: NothingInformationView,
) -> Map<Seq<char>, DeviceDataView> {
    let known = devices.contains_key(key);
    devices.insert(
        key,
        DeviceDataView {
            name: if known {
                devices[key].name
            } else {
                "Nothing Device"@
            },
            type_: if known {
                devices[key].type_
            } else {
                DeviceTypeView::Nothing
            },
            information: Some(DeviceInformationView::Nothing(information)),
        },
    )
}

/// The upper-case hexadecimal digit for `n`, which is below 16.
pub open spec fn hex_digit(n: int) -> char {
    if n < 10 {
        ('0' as int + n) as char
    } else {
        ('A' as int + n - 10) as char
    }
}

/// A Bluetooth address in colon-hexadecimal notation, `00:1A:7D:DA:71:13`.
pub open spec fn address_text(octets: Seq<u8>) -> Seq<char> {
    Seq::new(
        17,
        |i: int|
            if i % 3 == 2 {
                ':'
            } else if i % 3 == 1 {
                hex_digit(octets[i / 3] as int % 16)
            } else {
                hex_digit(octets[i / 3] as int / 16)
            },
    )
}

/// The text of a Bluetooth address, as `to_string` of `bluer::Address` gives
/// it. Trusted: the six octets in the order in which they stand in the
/// address, each as two upper-case hexadecimal digits, with colons between.
#[verifier::external_body]
fn address_to_string(octets: [u8; 6]) -> (text: String)
    ensures
        text@ == address_text(octets@),
{
    bluer::Address::new(octets).to_string()
}

/// The text that `String::from_utf8_lossy` makes of some bytes.
pub uninterp spec fn utf8_lossy(bytes: Seq<u8>) -> Seq<char>;

/// The text of some bytes, as `String::from_utf8_lossy` reads them. Trusted:
/// the text depends on the bytes alone, and bytes that are valid UTF-8 give
/// exactly the text that they encode. Which replacement characters stand for
/// invalid bytes is left unsaid.
#[verifier::external_body]
fn text_from_utf8_lossy(bytes: &[u8]) -> (text: String)
    ensures
        text@ == utf8_lossy(bytes@),
        vstd::utf8::valid_utf8(bytes@) ==> text@ == vstd::utf8::decode_utf8(bytes@),
{
    String::from_utf8_lossy(bytes).into_owned()
}

/// Whether `data` begins with `prefix`.
pub open spec fn begins_with(data: Seq<u8>, prefix: Seq<u8>) -> bool {
    data.len() >= prefix.len() && data.take(prefix.len() as int) == prefix
}

/// Whether `data` begins with the five bytes of `prefix`.
fn starts_with(data: &[u8], prefix: [u8; 5]) -> (starts: bool)
    ensures
        starts == begins_with(data@, prefix@),
{
    if data.len() < 5 {
        return false;
    }
    let mut i: usize = 0;
    while i < 5
        invariant
            i <= 5,
            data@.len() >= 5,
            forall|j: int| 0 <= j < i ==> data@[j] == prefix@[j],
        decreases 5 - i,
    {
        if data[i] != prefix[i] {
            assert(data@.take(5)[i as int] != prefix@[i as int]);
            return false;
        }
        i += 1;
    }
    assert(data@.take(5) =~= prefix@);
    true
}

/// The first place at or after `from` where `byte` stands.
pub open spec fn position_from(data: Seq<u8>, byte: u8, from: int) -> Option<int>
    decreases data.len() - from,
{
    if from >= data.len() {
        None
    } else if data[from] == byte {
        Some(from)
    } else {
        position_from(data, byte, from + 1)
    }
}

/// Finds the first place at or after `from` where `byte` stands.
fn position(data: &[u8], byte: u8, from: usize) -> (found: Option<usize>)
    ensures
        found matches Some(i) ==> position_from(data@, byte, from as int) == Some(i as int),
        found is None ==> position_from(data@, byte, from as int) is None,
{
    let mut i: usize = from;
    while i < data.len()
        invariant
            from <= i,
            position_from(data@, byte, from as int) == position_from(data@, byte, i as int),
        decreases data@.len() - i,
    {
        if data[i] == byte {
            return Some(i);
        }
        i += 1;
    }
    None
}

proof fn position_is_first(data: Seq<u8>, byte: u8, from: int)
    requires
        0 <= from,
    ensures
        position_from(data, byte, from) matches Some(i) ==> from <= i < data.len() && data[i]
            == byte && forall|j: int| from <= j < i ==> data[j] != byte,
        position_from(data, byte, from) is None ==> forall|j: int|
            from <= j < data.len() ==> data[j] != byte,
    decreases data.len() - from,
{
    if from < data.len() && data[from] != byte {
        position_is_first(data, byte, from + 1);
    }
}

/// Where the serial number of an answer starts: at its first `S`.
pub open spec fn serial_start(data: Seq<u8>) -> int {
    match position_from(data, 0x53, 0) {
        Some(i) => i,
        None => TEXT_START as int,
    }
}

/// Where the serial number of an answer ends: before the first line feed that
/// follows its start, or with the answer.
pub open spec fn serial_end(data: Seq<u8>) -> int {
    match position_from(data, 0x0A, serial_start(data)) {
        Some(i) => i,
        None => data.len() as int,
    }
}

/// Whether an answer has the form of one with a serial number: an `H` is the
/// second character.
pub open spec fn has_serial(data: Seq<u8>) -> bool {
    serial_start(data) + 1 < data.len() && data[serial_start(data) + 1] == 0x48
}

/// What an answer says, with the bytes of its text.
pub enum ReplyView {
    FirmwareVersion(Seq<u8>),
    SerialNumber(Seq<u8>),
    UnexpectedSerialNumber,
    Unrelated,
}

pub open spec fn reply_of(data: Seq<u8>) -> ReplyView {
    if begins_with(data, FIRMWARE_REPLY@) {
        ReplyView::FirmwareVersion(data.skip(TEXT_START as int))
    } else if begins_with(data, SERIAL_REPLY@) {
        if has_serial(data) {
            ReplyView::SerialNumber(data.subrange(serial_start(data), serial_end(data)))
        } else {
            ReplyView::UnexpectedSerialNumber
        }
    } else {
        ReplyView::Unrelated
    }
}

/// What an answer says, with the bytes of its text.
pub enum Reply<'a> {
    FirmwareVersion(&'a [u8]),
    SerialNumber(&'a [u8]),
    /// An answer to the question for the serial number without one in it.
    UnexpectedSerialNumber,
    Unrelated,
}

impl<'a> View for Reply<'a> {
    type V = ReplyView;

    open spec fn view(&self) -> ReplyView {
        match self {
            Reply::FirmwareVersion(text) => ReplyView::FirmwareVersion(text@),
            Reply::SerialNumber(text) => ReplyView::SerialNumber(text@),
            Reply::UnexpectedSerialNumber => ReplyView::UnexpectedSerialNumber,
            Reply::Unrelated => ReplyView::Unrelated,
        }
    }
}

/// Whether an answer announces a firmware version and breaks off before the
/// place where its text would start.
pub open spec fn is_cut_short(data: Seq<u8>) -> bool {
    begins_with(data, FIRMWARE_REPLY@) && data.len() < TEXT_START
}

/// Tells whether an answer announces a firmware version and breaks off before
/// the place where its text would start.
pub fn cut_short(data: &[u8]) -> (cut: bool)
    ensures
        cut == is_cut_short(data@),
        cut <==> 5 <= data@.len() < 8 && data@[0] == 0x55 && data@[1] == 0x20 && data@[2] == 0x01
            && data@[3] == 0x42 && data@[4] == 0x40,
{
    proof {
        prefixes_are_told_by_five_bytes(data@);
    }
    starts_with(data, FIRMWARE_REPLY) && data.len() < TEXT_START
}

/// Takes an answer apart.
pub fn parse_reply<'a>(data: &'a [u8]) -> (reply: Reply<'a>)
    requires
        !is_cut_short(data@),
    ensures
        reply@ == reply_of(data@),
        reply is FirmwareVersion <==> data@.len() >= 8 && data@[0] == 0x55 && data@[1] == 0x20
            && data@[2] == 0x01 && data@[3] == 0x42 && data@[4] == 0x40,
        reply matches Reply::FirmwareVersion(text) ==> text@ == data@.subrange(
            8,
            data@.len() as int,
        ),
        reply is SerialNumber || reply is UnexpectedSerialNumber <==> data@.len() >= 5 && data@[0]
            == 0x55 && data@[1] == 0x20 && data@[2] == 0x01 && data@[3] == 0x06 && data@[4] == 0x40,
{
    proof {
        prefixes_are_told_by_five_bytes(data@);
    }
    if starts_with(data, FIRMWARE_REPLY) {
        let text: &'a [u8] = &data[TEXT_START..data.len()];
        assert(text@ =~= data@.skip(TEXT_START as int));
        Reply::FirmwareVersion(text)
    } else if starts_with(data, SERIAL_REPLY) {
        let start: usize = match position(data, 0x53, 0) {
            Some(i) => i,
            None => TEXT_START,
        };
        let end: usize = match position(data, 0x0A, start) {
            Some(i) => i,
            None => data.len(),
        };
        proof {
            position_is_first(data@, 0x53, 0);
            position_is_first(data@, 0x0A, start as int);
        }
        if start < data.len() && data.len() - start > 1 && data[start + 1] == 0x48 {
            Reply::SerialNumber(&data[start..end])
        } else {
            Reply::UnexpectedSerialNumber
        }
    } else {
        Reply::Unrelated
    }
}

/// What the answers of one device are noted against: the devices that were
/// stored when it was connected, and what was known of it then.
pub struct ReplyListener {
    pub devices: DeviceList,
    pub device_key: String,
    pub information: NothingInformation,
}

impl ReplyListener {
    pub open spec fn wf(self) -> bool {
        self.devices.wf()
    }

    /// The stored devices with `information` noted for this one.
    fn noted(&self, information: NothingInformation) -> (devices: DeviceList)
        requires
            self.wf(),
        ensures
            devices.wf(),
            devices@ == devices_with(self.devices@, self.device_key@, information@),
    {
        let (name, type_) = match self.devices.get(&self.device_key) {
            Some(data) => (data.name.clone(), data.type_.clone()),
            None => ("Nothing Device".to_owned(), DeviceType::Nothing),
        };
        let data = DeviceData {
            name,
            type_,
            information: Some(DeviceInformation::Nothing(information)),
        };
        let mut devices = self.devices.duplicate();
        devices.insert(self.device_key.clone(), data);
        devices
    }

    /// The stored devices after this one told its firmware version.
    pub fn with_firmware_version(&self, firmware_version: String) -> (devices: DeviceList)
        requires
            self.wf(),
        ensures
            devices.wf(),
            devices@ == devices_with(
                self.devices@,
                self.device_key@,
                (NothingInformationView { firmware_version: firmware_version@, ..self.information@
                }),
            ),
    {
        self.noted(
            NothingInformation {
                serial_number: self.information.serial_number.clone(),
                firmware_version,
            },
        )
    }

    /// The stored devices after this one told its serial number.
    pub fn with_serial_number(&self, serial_number: String) -> (devices: DeviceList)
        requires
            self.wf(),
        ensures
            devices.wf(),
            devices@ == devices_with(
                self.devices@,
                self.device_key@,
                (NothingInformationView { serial_number: serial_number@, ..self.information@ }),
            ),
    {
        self.noted(
            NothingInformation {
                serial_number,
                firmware_version: self.information.firmware_version.clone(),
            },
        )
    }

    /// What is to be stored after the answer `data`, if anything. Earlier
    /// answers do not matter: each is noted against what was stored when the
    /// device was connected.
    pub fn handle(&self, data: &[u8]) -> (devices: Option<DeviceList>)
        requires
            self.wf(),
            !is_cut_short(data@),
        ensures
            devices matches Some(list) ==> list.wf(),
            match reply_of(data@) {
                ReplyView::FirmwareVersion(text) => {
                    &&& devices matches Some(list)
                    &&& list@ == devices_with(
                        self.devices@,
                        self.device_key@,
                        (NothingInformationView {
                            firmware_version: utf8_lossy(text),
                            ..self.information@
                        }),
                    )
                    &&& vstd::utf8::valid_utf8(text) ==> utf8_lossy(text)
                        == vstd::utf8::decode_utf8(text)
                },
                ReplyView::SerialNumber(text) => {
                    &&& devices matches Some(list)
                    &&& list@ == devices_with(
                        self.devices@,
                        self.device_key@,
                        (NothingInformationView {
                            serial_number: utf8_lossy(text),
                            ..self.information@
                        }),
                    )
                    &&& vstd::utf8::valid_utf8(text) ==> utf8_lossy(text)
                        == vstd::utf8::decode_utf8(text)
                },
                _ => devices is None,
            },
            data@.len() >= 8 && data@[0] == 0x55 && data@[1] == 0x20 && data@[2] == 0x01 && data@[3]
                == 0x42 && data@[4] == 0x40 ==> {
                &&& devices matches Some(list)
                &&& list@.contains_key(self.device_key@)
                &&& list@[self.device_key@].information matches Some(
                    DeviceInformationView::Nothing(told),
                )
                &&& told.firmware_version == utf8_lossy(data@.subrange(8, data@.len() as int))
                &&& told.serial_number == self.information.serial_number@
            },
            devices matches Some(list) ==> list@.remove(self.device_key@) == self.devices@.remove(
                self.device_key@,
            ),
    {
        proof {
            prefixes_are_told_by_five_bytes(data@);
            assert(data@.len() >= 8 ==> data@.skip(8) =~= data@.subrange(8, data@.len() as int));
        }
        match parse_reply(data) {
            Reply::FirmwareVersion(text) => {
                let list = self.with_firmware_version(text_from_utf8_lossy(text));
                assert(list@.remove(self.device_key@) =~= self.devices@.remove(self.device_key@));
                Some(list)
            },
            Reply::SerialNumber(text) => {
                let list = self.with_serial_number(text_from_utf8_lossy(text));
                assert(list@.remove(self.device_key@) =~= self.devices@.remove(self.device_key@));
                Some(list)
            },
            Reply::UnexpectedSerialNumber => None,
            Reply::Unrelated => None,
        }
    }
}

/// A connected device: what was known of it when it was connected, and what
/// its answers are noted against.
pub struct NothingDevice {
    pub information: NothingInformation,
    pub listener: ReplyListener,
}

impl NothingDevice {
    /// The device with the Bluetooth address `mac_address`, given what is
    /// stored.
    pub fn new(mac_address: [u8; 6], devices: DeviceList) -> (device: Self)
        requires
            devices.wf(),
        ensures
            device.information@ == stored_information(devices@, address_text(mac_address@)),
            device.listener.wf(),
            device.listener.devices@ == devices@,
            device.listener.device_key@ == address_text(mac_address@),
            device.listener.information@ == device.information@,
    {
        let device_key = address_to_string(mac_address);
        let stored: Option<NothingInformation> = match devices.get(&device_key) {
            Some(data) => match &data.information {
                Some(DeviceInformation::Nothing(information)) => Some(information.clone()),
                _ => None,
            },
            None => None,
        };
        let information = match stored {
            Some(information) => information,
            None => NothingInformation {
                serial_number: String::new(),
                firmware_version: String::new(),
            },
        };
        let listener = ReplyListener { devices, device_key, information: information.clone() };
        NothingDevice { information, listener }
    }
}

/// What is noted for a device is what it is known by when it is connected the
/// next time.
pub proof fn noted_information_is_found_again(
    devices: Map<Seq<char>, DeviceDataView>,
    key: Seq<char>,
    information: NothingInformationView,
)
    ensures
        stored_information(devices_with(devices, key, information), key) == information,
{
}

/// Noting something for one device leaves the others as they were stored, and
/// of the device itself its name and type, where it had them.
pub proof fn only_the_information_of_one_device_changes(
    devices: Map<Seq<char>, DeviceDataView>,
    key: Seq<char>,
    information: NothingInformationView,
    other: Seq<char>,
)
    ensures
        devices_with(devices, key, information).contains_key(other) == (other == key
            || devices.contains_key(other)),
        other != key && devices.contains_key(other) ==> devices_with(
            devices,
            key,
            information,
        )[other] == devices[other],
        devices.contains_key(key) ==> {
            &&& devices_with(devices, key, information)[key].name == devices[key].name
            &&& devices_with(devices, key, information)[key].type_ == devices[key].type_
        },
{
}

/// Of two notes on one device only the later one stays.
pub proof fn later_note_replaces_earlier_one(
    devices: Map<Seq<char>, DeviceDataView>,
    key: Seq<char>,
    earlier: NothingInformationView,
    later: NothingInformationView,
)
    ensures
        devices_with(devices_with(devices, key, earlier), key, later) == devices_with(
            devices,
            key,
            later,
        ),
{
    assert(devices_with(devices_with(devices, key, earlier), key, later) =~= devices_with(
        devices,
        key,
        later,
    ));
}

/// The text of a serial number lies within the answer, goes on from its start
/// to the first line feed, and begins with `SH` where the answer holds an `S`.
pub proof fn serial_number_is_a_line_of_the_answer(data: Seq<u8>)
    requires
        reply_of(data) is SerialNumber,
    ensures
        reply_of(data) matches ReplyView::SerialNumber(text) ==> {
            &&& 0 <= serial_start(data) <= serial_end(data) <= data.len()
            &&& text == data.subrange(serial_start(data), serial_end(data))
            &&& !text.contains(0x0A)
            &&& serial_end(data) < data.len() ==> data[serial_end(data)] == 0x0A
            &&& data.contains(0x53) ==> text.len() >= 2 && text[0] == 0x53 && text[1] == 0x48
        },
{
    let start = serial_start(data);
    let end = serial_end(data);
    position_is_first(data, 0x53, 0);
    position_is_first(data, 0x0A, start);
    let text = data.subrange(start, end);
    assert forall|i: int| 0 <= i < text.len() implies text[i] != 0x0A by {
        assert(text[i] == data[start + i]);
    }
    if data.contains(0x53) {
        let i = choose|i: int| 0 <= i < data.len() && data[i] == 0x53;
        assert(position_from(data, 0x53, 0) is Some);
        assert(data[start] == 0x53);
        assert(end > start + 1);
    }
}

/// Each request and its answer begin alike, up to the byte that tells a
/// request from an answer, and no answer passes for one to the other request.
pub proof fn answers_belong_to_their_requests(data: Seq<u8>)
    ensures
        FIRMWARE_REQUEST@.take(4) == FIRMWARE_REPLY@.take(4),
        SERIAL_REQUEST@.take(4) == SERIAL_REPLY@.take(4),
        !(begins_with(data, FIRMWARE_REPLY@) && begins_with(data, SERIAL_REPLY@)),
{
    assert(FIRMWARE_REQUEST@.take(4) =~= FIRMWARE_REPLY@.take(4));
    assert(SERIAL_REQUEST@.take(4) =~= SERIAL_REPLY@.take(4));
    if begins_with(data, FIRMWARE_REPLY@) && begins_with(data, SERIAL_REPLY@) {
        assert(FIRMWARE_REPLY@[3] == SERIAL_REPLY@[3]);
    }
}

/// Two devices are never stored under the same key.
pub proof fn keys_tell_addresses_apart(one: Seq<u8>, other: Seq<u8>)
    requires
        one.len() == 6,
        other.len() == 6,
        address_text(one) == address_text(other),
    ensures
        one == other,
{
    assert forall|i: int| 0 <= i < 6 implies one[i] == other[i] by {
        let high = 3 * i;
        let low = 3 * i + 1;
        assert(high / 3 == i && high % 3 == 0);
        assert(low / 3 == i && low % 3 == 1);
        assert(address_text(one)[high] == hex_digit(one[i] as int / 16));
        assert(address_text(other)[high] == hex_digit(other[i] as int / 16));
        assert(address_text(one)[low] == hex_digit(one[i] as int % 16));
        assert(address_text(other)[low] == hex_digit(other[i] as int % 16));
        hex_digit_is_injective(one[i] as int / 16, other[i] as int / 16);
        hex_digit_is_injective(one[i] as int % 16, other[i] as int % 16);
    }
    assert(one =~= other);
}

proof fn hex_digit_is_injective(m: int, n: int)
    requires
        0 <= m < 16,
        0 <= n < 16,
        hex_digit(m) == hex_digit(n),
    ensures
        m == n,
{
}

/// Which question an answer belongs to is told by its first five bytes.
pub proof fn prefixes_are_told_by_five_bytes(data: Seq<u8>)
    ensures
        begins_with(data, FIRMWARE_REPLY@) <==> data.len() >= 5 && data[0] == 0x55 && data[1]
            == 0x20 && data[2] == 0x01 && data[3] == 0x42 && data[4] == 0x40,
        begins_with(data, SERIAL_REPLY@) <==> data.len() >= 5 && data[0] == 0x55 && data[1] == 0x20
            && data[2] == 0x01 && data[3] == 0x06 && data[4] == 0x40,
{
    if data.len() >= 5 {
        let start = data.take(5);
        assert(start[0] == data[0] && start[1] == data[1] && start[2] == data[2] && start[3]
            == data[3] && start[4] == data[4]);
        if data[0] == 0x55 && data[1] == 0x20 && data[2] == 0x01 && data[3] == 0x42 && data[4]
            == 0x40 {
            assert(start =~= FIRMWARE_REPLY@);
        }
        if data[0] == 0x55 && data[1] == 0x20 && data[2] == 0x01 && data[3] == 0x06 && data[4]
            == 0x40 {
            assert(start =~= SERIAL_REPLY@);
        }
    }
}

/// The firmware version is everything behind the first eight bytes of the
/// answer, whole and of any length.
pub proof fn firmware_version_is_taken_whole(head: Seq<u8>, text: Seq<u8>)
    requires
        head.len() == 8,
        head.take(5) == seq![0x55u8, 0x20, 0x01, 0x42, 0x40],
    ensures
        !is_cut_short(head + text),
        reply_of(head + text) == ReplyView::FirmwareVersion(text),
{
    let data = head + text;
    assert forall|i: int| 0 <= i < 5 implies data[i] == head.take(5)[i] by {}
    prefixes_are_told_by_five_bytes(data);
    assert(data.skip(8) =~= text);
}

/// An answer breaks off too early exactly if it announces a firmware version
/// and has fewer than eight bytes.
pub proof fn answer_is_cut_short_below_eight_bytes(data: Seq<u8>)
    ensures
        is_cut_short(data) <==> 5 <= data.len() < 8 && data[0] == 0x55 && data[1] == 0x20 && data[2]
            == 0x01 && data[3] == 0x42 && data[4] == 0x40,
{
    prefixes_are_told_by_five_bytes(data);
}

/// The serial number starts at the first `S` of the answer, or behind eight
/// bytes if it has none, and ends before the first line feed from there on, or
/// with the answer. It is there exactly if its second character is an `H`.
pub proof fn serial_number_goes_from_s_to_the_line_feed(data: Seq<u8>, start: int, end: int)
    requires
        data.len() >= 5,
        data.take(5) == seq![0x55u8, 0x20, 0x01, 0x06, 0x40],
        (0 <= start < data.len() && data[start] == 0x53 && !data.take(start).contains(0x53)) || (
        start == 8 && !data.contains(0x53)),
        (start <= end < data.len() && data[end] == 0x0A && !data.subrange(start, end).contains(
            0x0A,
        )) || (end == data.len() && forall|i: int|
            start <= i < data.len() ==> #[trigger] data[i] != 0x0A),
    ensures
        !is_cut_short(data),
        start + 1 < data.len() && data[start + 1] == 0x48 ==> reply_of(data)
            == ReplyView::SerialNumber(data.subrange(start, end)),
        !(start + 1 < data.len() && data[start + 1] == 0x48) ==> reply_of(data)
            is UnexpectedSerialNumber,
{
    assert forall|i: int| 0 <= i < 5 implies data[i] == data.take(5)[i] by {}
    prefixes_are_told_by_five_bytes(data);
    position_is_first(data, 0x53, 0);
    assert(serial_start(data) == start) by {
        if data.contains(0x53) {
            let found = position_from(data, 0x53, 0)->0;
            assert(position_from(data, 0x53, 0) is Some) by {
                assert(data[start] == 0x53);
            }
            if found < start {
                assert(data.take(start)[found] == 0x53);
            }
        } else if position_from(data, 0x53, 0) is Some {
            assert(data[position_from(data, 0x53, 0)->0] == 0x53);
        } else if 0 <= start < data.len() && data[start] == 0x53 {
            assert(data.contains(data[start]));
        }
    }
    position_is_first(data, 0x0A, start);
    assert(serial_end(data) == end) by {
        if end < data.len() {
            assert(position_from(data, 0x0A, start) is Some) by {
                assert(data[end] == 0x0A);
            }
            let found = position_from(data, 0x0A, start)->0;
            if found < end {
                assert(data.subrange(start, end)[found - start] == 0x0A);
            }
        }
    }
}

/// A serial number that stands as a line of its own in the answer is taken
/// whole and of any length: nothing before it, and nothing from the line feed
/// on.
pub proof fn serial_number_is_taken_whole(head: Seq<u8>, rest: Seq<u8>, tail: Seq<u8>)
    requires
        head.len() >= 5,
        head.take(5) == seq![0x55u8, 0x20, 0x01, 0x06, 0x40],
        !head.contains(0x53),
        !rest.contains(0x0A),
        tail.len() == 0 || tail[0] == 0x0A,
    ensures
        reply_of(head + (seq![0x53u8, 0x48] + rest) + tail) == ReplyView::SerialNumber(
            seq![0x53u8, 0x48] + rest,
        ),
{
    let serial = seq![0x53u8, 0x48] + rest;
    let data = head + serial + tail;
    let start = head.len() as int;
    let end = start + serial.len();
    assert(data.take(5) =~= head.take(5));
    assert(data.take(start) =~= head);
    assert(data.subrange(start, end) =~= serial);
    assert forall|i: int| 0 <= i < serial.len() implies serial[i] != 0x0A by {
        if i >= 2 {
            assert(rest.contains(serial[i]) || serial[i] != 0x0A) by {
                assert(serial[i] == rest[i - 2]);
            }
        }
    }
    if tail.len() == 0 {
        assert forall|i: int| start <= i < data.len() implies #[trigger] data[i] != 0x0A by {
            assert(data[i] == serial[i - start]);
        }
    }
    serial_number_goes_from_s_to_the_line_feed(data, start, end);
}

/// Whatever begins otherwise is no answer to one of the two questions.
pub proof fn anything_else_is_unrelated(data: Seq<u8>)
    ensures
        reply_of(data) is Unrelated <==> !(data.len() >= 5 && data[0] == 0x55 && data[1] == 0x20
            && data[2] == 0x01 && (data[3] == 0x42 || data[3] == 0x06) && data[4] == 0x40),
{
    prefixes_are_told_by_five_bytes(data);
}

/// A note on a device is stored with it, as it was told. A device that was
/// stored before keeps its name and its type; another is called "Nothing Device"
/// and is of that type. No other device is added, removed or changed.
pub proof fn note_is_stored_as_told(
    devices: Map<Seq<char>, DeviceDataView>,
    key: Seq<char>,
    information: NothingInformationView,
)
    ensures
        ({
            let noted = devices_with(devices, key, information);
            &&& noted.contains_key(key)
            &&& noted[key].information == Some(DeviceInformationView::Nothing(information))
            &&& devices.contains_key(key) ==> noted[key].name == devices[key].name
                && noted[key].type_ == devices[key].type_
            &&& !devices.contains_key(key) ==> noted[key].name == "Nothing Device"@
                && noted[key].type_ is Nothing
            &&& noted.remove(key) == devices.remove(key)
        }),
{
    assert(devices_with(devices, key, information).remove(key) =~= devices.remove(key));
}

/// A device is known by what it told before, if that is stored, and otherwise
/// by two empty texts.
pub proof fn device_is_known_by_what_is_stored(
    devices: Map<Seq<char>, DeviceDataView>,
    key: Seq<char>,
)
    ensures
        devices.contains_key(key) ==> (devices[key].information matches Some(
            DeviceInformationView::Nothing(information),
        ) ==> stored_information(devices, key) == information),
        !devices.contains_key(key) || devices[key].information is None || (
        devices[key].information->0 is Other) ==> {
            &&& stored_information(devices, key).serial_number == Seq::<char>::empty()
            &&& stored_information(devices, key).firmware_version == Seq::<char>::empty()
        },
{
}

/// The key of a device has two upper-case hexadecimal digits for each octet of
/// its address, the high one first, with colons between the octets.
pub proof fn key_spells_the_address(octets: Seq<u8>, i: int)
    requires
        octets.len() == 6,
        0 <= i < 6,
    ensures
        address_text(octets).len() == 17,
        address_text(octets)[3 * i] == "0123456789ABCDEF"@[octets[i] as int / 16],
        address_text(octets)[3 * i + 1] == "0123456789ABCDEF"@[octets[i] as int % 16],
        i < 5 ==> address_text(octets)[3 * i + 2] == ':',
{
    reveal_strlit("0123456789ABCDEF");
    assert((3 * i) / 3 == i && (3 * i) % 3 == 0);
    assert((3 * i + 1) / 3 == i && (3 * i + 1) % 3 == 1);
    assert((3 * i + 2) % 3 == 2);
}

/// What a device is asked: for its firmware version first, and 100 milliseconds
/// later for its serial number.
pub proof fn device_is_asked_two_questions()
    ensures
        FIRMWARE_REQUEST@ == seq![
            0x55u8,
            0x20,
            0x01,
            0x42,
            0xC0,
            0x00,
            0x00,
            0x00,
            0x00,
            0x00,
        ],
        SERIAL_REQUEST@ == seq![
            0x55u8,
            0x20,
            0x01,
            0x06,
            0xC0,
            0x00,
            0x00,
            0x13,
            0x00,
            0x00,
        ],
        REQUEST_GAP_MS == 100,
{
    assert(FIRMWARE_REQUEST@ =~= seq![
        0x55u8,
        0x20,
        0x01,
        0x42,
        0xC0,
        0x00,
        0x00,
        0x00,
        0x00,
        0x00,
    ]);
    assert(SERIAL_REQUEST@ =~= seq![
        0x55u8,
        0x20,
        0x01,
        0x06,
        0xC0,
        0x00,
        0x00,
        0x13,
        0x00,
        0x00,
    ]);
}

/// What an answer and a device's information hold is seen as it is.
pub proof fn answers_and_information_are_seen_whole(
    reply: Reply<'_>,
    information: NothingInformation,
)
    ensures
        reply matches Reply::FirmwareVersion(text) ==> reply@ == ReplyView::FirmwareVersion(text@),
        reply matches Reply::SerialNumber(text) ==> reply@ == ReplyView::SerialNumber(text@),
        reply is UnexpectedSerialNumber ==> reply@ is UnexpectedSerialNumber,
        reply is Unrelated ==> reply@ is Unrelated,
        information@.serial_number == information.serial_number@,
        information@.firmware_version == information.firmware_version@,
{
}

} // verus!
