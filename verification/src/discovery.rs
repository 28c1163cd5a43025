//! Finding the device among the ports of the host, and naming the port to open.
//!
//! A local port is named by a prefix that says which kind of backend drives it, followed by
//! the name under which that backend knows it. Enumeration is the host's business: it hands
//! in what it found, and the library picks the ports that hold the device.

use vstd::prelude::*;
use vstd::string::StrSliceExecFns;
use vstd::string::StringExecFns;
use crate::error::Error;

verus! {

/// The USB vendor id of the device's bridge chip.
pub const SC64_VID: u16 = 0x0403;

/// The USB product id of the device's bridge chip.
pub const SC64_PID: u16 = 0x6014;

/// The kinds of local backend.
#[derive(Debug, Clone, Copy, PartialEq, Eq, Structural)]
pub enum BackendType {
    Serial,
    Ftdi,
}

/// The prefix of the ports that the serial backend opens.
pub open spec fn serial_prefix() -> Seq<char> {
    "serial://"@
}

/// The prefix of the ports that the USB bridge backend opens.
pub open spec fn ftdi_prefix() -> Seq<char> {
    "ftdi://"@
}

/// What the serial number of every device begins with.
pub open spec fn serial_id() -> Seq<char> {
    "SC64"@
}

impl BackendType {
    /// The name under which a kind of backend is shown.
    pub open spec fn label(self) -> Seq<char> {
        match self {
            BackendType::Serial => "serial"@,
            BackendType::Ftdi => "libftdi"@,
        }
    }

    /// The name under which this kind of backend is shown.
    pub fn name(&self) -> (name: String)
        ensures
            name@ == self.label(),
    {
        match self {
            BackendType::Serial => String::from_str("serial"),
            BackendType::Ftdi => String::from_str("libftdi"),
        }
    }
}

/// A device that enumeration found.
#[derive(Debug, Clone, PartialEq, Eq)]
pub struct DeviceInfo {
    pub backend: BackendType,
    /// The port, as [`parse_port`] takes it.
    pub port: String,
    /// The device's serial number.
    pub serial: String,
}

/// A device that enumeration found, as a value.
pub struct DeviceView {
    pub backend: BackendType,
    pub port: Seq<char>,
    pub serial: Seq<char>,
}

impl View for DeviceInfo {
    type V = DeviceView;

    open spec fn view(&self) -> DeviceView {
        DeviceView { backend: self.backend, port: self.port@, serial: self.serial@ }
    }
}

/// A port that the USB bridge driver lists for the device's vendor and product id.
#[derive(Debug, Clone, PartialEq, Eq)]
pub struct FtdiPort {
    pub port: String,
    pub serial: String,
}

/// What a USB serial port says of the device behind it.
#[derive(Debug, Clone, PartialEq, Eq)]
pub struct UsbIdentity {
    pub vid: u16,
    pub pid: u16,
    pub serial_number: Option<String>,
}

/// A serial port of the host. Only a port on USB has an identity.
#[derive(Debug, Clone, PartialEq, Eq)]
pub struct SerialPort {
    pub port_name: String,
    pub usb: Option<UsbIdentity>,
}

/// Whether `text` begins with `prefix`.
pub open spec fn has_prefix(text: Seq<char>, prefix: Seq<char>) -> bool {
    prefix.len() <= text.len() && text.subrange(0, prefix.len() as int) == prefix
}

/// Tells whether `text` begins with `prefix`.
pub fn starts_with(text: &str, prefix: &str) -> (r: bool)
    ensures
        r == has_prefix(text@, prefix@),
{
    let length: usize = prefix.unicode_len();
    if text.unicode_len() < length {
        return false;
    }
    let mut i: usize = 0;
    while i < length
        invariant
            i <= length,
            length == prefix@.len(),
            length <= text@.len(),
            text@.subrange(0, i as int) == prefix@.subrange(0, i as int),
        decreases length - i,
    {
        if text.get_char(i) != prefix.get_char(i) {
            assert(text@.subrange(0, length as int)[i as int] != prefix@[i as int]);
            return false;
        }
        assert(text@.subrange(0, i + 1) =~= text@.subrange(0, i as int).push(text@[i as int]));
        assert(prefix@.subrange(0, i + 1) =~= prefix@.subrange(0, i as int).push(
            prefix@[i as int],
        ));
        i = i + 1;
    }
    assert(prefix@.subrange(0, length as int) =~= prefix@);
    true
}

/// The device behind a port of the USB bridge driver, if its serial number is a device's.
pub open spec fn ftdi_device(port: FtdiPort) -> Option<DeviceView> {
    if has_prefix(port.serial@, serial_id()) {
        Some(
            DeviceView {
                backend: BackendType::Ftdi,
                port: ftdi_prefix() + port.port@,
                serial: port.serial@,
            },
        )
    } else {
        None
    }
}

/// The device behind a serial port: the port is on USB, has a serial number, and vendor id,
/// product id and serial number are a device's.
pub open spec fn serial_device(port: SerialPort) -> Option<DeviceView> {
    match port.usb {
        Some(usb) => match usb.serial_number {
            Some(serial) => if usb.vid == SC64_VID && usb.pid == SC64_PID && has_prefix(
                serial@,
                serial_id(),
            ) {
                Some(
                    DeviceView {
                        backend: BackendType::Serial,
                        port: serial_prefix() + port.port_name@,
                        serial: serial@,
                    },
                )
            } else {
                None
            },
            None => None,
        },
        None => None,
    }
}

/// The devices among the ports of the USB bridge driver, in the order of the ports.
pub open spec fn ftdi_devices(ports: Seq<FtdiPort>) -> Seq<DeviceView>
    decreases ports.len(),
{
    if ports.len() == 0 {
        Seq::empty()
    } else {
        let before = ftdi_devices(ports.drop_last());
        match ftdi_device(ports.last()) {
            Some(device) => before.push(device),
            None => before,
        }
    }
}

/// The devices among the serial ports, in the order of the ports.
pub open spec fn serial_devices(ports: Seq<SerialPort>) -> Seq<DeviceView>
    decreases ports.len(),
{
    if ports.len() == 0 {
        Seq::empty()
    } else {
        let before = serial_devices(ports.drop_last());
        match serial_device(ports.last()) {
            Some(device) => before.push(device),
            None => before,
        }
    }
}

/// The found devices as values.
pub open spec fn views(devices: Seq<DeviceInfo>) -> Seq<DeviceView> {
    devices.map_values(|device: DeviceInfo| device@)
}

/// Picks the devices from what enumeration found: first those of the USB bridge driver, then
/// those on serial ports, each in the order given. Finding none is an error.
pub fn list_local_devices(ftdi: &Vec<FtdiPort>, serial: &Vec<SerialPort>) -> (r: Result<
    Vec<DeviceInfo>,
    Error,
>)
    ensures
        match r {
            Ok(devices) => devices@.len() > 0 && views(devices@) == ftdi_devices(ftdi@)
                + serial_devices(serial@),
            Err(e) => e == Error::NoDevicesFound && (ftdi_devices(ftdi@) + serial_devices(
                serial@,
            )).len() == 0,
        },
{
    let mut devices: Vec<DeviceInfo> = Vec::new();
    let mut i: usize = 0;
    assert(ftdi@.take(0) =~= Seq::empty());
    assert(views(devices@) =~= Seq::empty());
    while i < ftdi.len()
        invariant
            i <= ftdi.len(),
            views(devices@) == ftdi_devices(ftdi@.take(i as int)),
        decreases ftdi.len() - i,
    {
        let port = &ftdi[i];
        assert(ftdi@.take(i + 1).drop_last() =~= ftdi@.take(i as int));
        assert(ftdi@.take(i + 1).last() == ftdi@[i as int]);
        if starts_with(port.serial.as_str(), "SC64") {
            let device = DeviceInfo {
                backend: BackendType::Ftdi,
                port: String::from_str("ftdi://").concat(port.port.as_str()),
                serial: port.serial.clone(),
            };
            let ghost before = devices@;
            devices.push(device);
            assert(views(devices@) =~= views(before).push(device@));
        }
        i = i + 1;
    }
    assert(ftdi@.take(i as int) =~= ftdi@);
    let ghost found = devices@;
    let mut j: usize = 0;
    assert(serial@.take(0) =~= Seq::empty());
    assert(views(devices@) =~= views(found) + Seq::empty());
    while j < serial.len()
        invariant
            j <= serial.len(),
            views(found) == ftdi_devices(ftdi@),
            views(devices@) == views(found) + serial_devices(serial@.take(j as int)),
        decreases serial.len() - j,
    {
        let port = &serial[j];
        assert(serial@.take(j + 1).drop_last() =~= serial@.take(j as int));
        assert(serial@.take(j + 1).last() == serial@[j as int]);
        match &port.usb {
            Some(usb) => match &usb.serial_number {
                Some(number) => {
                    if usb.vid == SC64_VID && usb.pid == SC64_PID && starts_with(
                        number.as_str(),
                        "SC64",
                    ) {
                        let device = DeviceInfo {
                            backend: BackendType::Serial,
                            port: String::from_str("serial://").concat(port.port_name.as_str()),
                            serial: number.clone(),
                        };
                        let ghost before = devices@;
                        devices.push(device);
                        assert(views(devices@) =~= views(before).push(device@));
                        assert(views(devices@) =~= views(found) + serial_devices(
                            serial@.take(j as int),
                        ).push(device@));
                    }
                },
                None => {},
            },
            None => {},
        }
        j = j + 1;
    }
    assert(serial@.take(j as int) =~= serial@);
    if devices.len() == 0 {
        assert(views(devices@).len() == 0);
        return Err(Error::NoDevicesFound);
    }
    assert(views(devices@).len() == devices@.len());
    Ok(devices)
}

/// A local port by its parts: the kind of backend, and the name that the backend opens.
#[derive(Debug, Clone, PartialEq, Eq)]
pub struct LocalPort {
    pub backend: BackendType,
    pub path: String,
}

/// The parts of a port name: the kind of backend whose prefix it begins with, and the rest.
pub open spec fn port_parts(port: Seq<char>) -> Option<(BackendType, Seq<char>)> {
    if has_prefix(port, serial_prefix()) {
        Some((BackendType::Serial, port.skip(serial_prefix().len() as int)))
    } else if has_prefix(port, ftdi_prefix()) {
        Some((BackendType::Ftdi, port.skip(ftdi_prefix().len() as int)))
    } else {
        None
    }
}

/// Splits a port name into the kind of backend and the name that the backend opens. A name
/// with neither prefix is refused.
pub fn parse_port(port: &str) -> (r: Result<LocalPort, Error>)
    ensures
        match r {
            Ok(parsed) => port_parts(port@) == Some((parsed.backend, parsed.path@)),
            Err(e) => e == Error::InvalidPortPrefix && port_parts(port@) is None,
        },
{
    let length: usize = port.unicode_len();
    if starts_with(port, "serial://") {
        let skipped: usize = "serial://".unicode_len();
        let path = String::from_str(port.substring_char(skipped, length));
        assert(port@.subrange(skipped as int, length as int) =~= port@.skip(skipped as int));
        Ok(LocalPort { backend: BackendType::Serial, path })
    } else if starts_with(port, "ftdi://") {
        let skipped: usize = "ftdi://".unicode_len();
        let path = String::from_str(port.substring_char(skipped, length));
        assert(port@.subrange(skipped as int, length as int) =~= port@.skip(skipped as int));
        Ok(LocalPort { backend: BackendType::Ftdi, path })
    } else {
        Err(Error::InvalidPortPrefix)
    }
}

/// The port under which a device is listed names the backend that found it, and the name
/// under which that backend opens it.
pub proof fn lemma_listed_port_parses(name: Seq<char>)
    ensures
        port_parts(serial_prefix() + name) == Some((BackendType::Serial, name)),
        port_parts(ftdi_prefix() + name) == Some((BackendType::Ftdi, name)),
{
    reveal_strlit("serial://");
    reveal_strlit("ftdi://");
    let serial = serial_prefix() + name;
    let ftdi = ftdi_prefix() + name;
    assert(serial.subrange(0, serial_prefix().len() as int) =~= serial_prefix());
    assert(serial.skip(serial_prefix().len() as int) =~= name);
    assert(ftdi.subrange(0, ftdi_prefix().len() as int) =~= ftdi_prefix());
    assert(ftdi.skip(ftdi_prefix().len() as int) =~= name);
    assert(!has_prefix(ftdi, serial_prefix())) by {
        assert(ftdi[0] != serial_prefix()[0]);
        if serial_prefix().len() <= ftdi.len() {
            assert(ftdi.subrange(0, serial_prefix().len() as int)[0] == ftdi[0]);
        }
    }
}

} // verus!
