use vstd::prelude::*;

pub mod dcb;
pub mod enumerate;
pub mod control;
pub mod lifecycle;

verus! {

/// The error kinds of the library.
#[derive(Debug, Clone, PartialEq, Eq)]
pub enum Error {
    /// A native call failed with this OS error code.
    Io(i32),
    /// A value given by the caller has no native representation.
    InvalidInput(String),
    /// The operation is not available on this platform.
    NotImplemented,
    /// The device vanished, was never present, or the handle was released.
    NoDevice,
    /// A native call failed without a categorizable code.
    Unknown,
}

/// Number of data bits per character; `Unknown` only comes from reading back.
#[derive(Debug, Copy, Clone, PartialEq, Eq, Structural)]
pub enum DataBits {
    Five,
    Six,
    Seven,
    Eight,
    Unknown,
}

/// Parity checking mode; `Unknown` only comes from reading back.
#[derive(Debug, Copy, Clone, PartialEq, Eq, Structural)]
pub enum Parity {
    Off,
    Odd,
    Even,
    Unknown,
}

/// Number of stop bits; `Unknown` only comes from reading back.
#[derive(Debug, Copy, Clone, PartialEq, Eq, Structural)]
pub enum StopBits {
    One,
    OnePointFive,
    Two,
    Unknown,
}

/// Flow control mode; `Unknown` only comes from reading back.
#[derive(Debug, Copy, Clone, PartialEq, Eq, Structural)]
pub enum FlowControl {
    Off,
    Software,
    Hardware,
    Unknown,
}

/// Which buffers a purge discards.
#[derive(Debug, Copy, Clone, PartialEq, Eq, Structural)]
pub enum Clear {
    Input,
    Output,
    All,
}

/// The portable link parameters of a port.
#[derive(Debug, Copy, Clone, PartialEq, Eq, Structural)]
pub struct PortSettings {
    pub baud_rate: u32,
    pub data_bits: DataBits,
    pub parity: Parity,
    pub stop_bits: StopBits,
    pub flow_control: FlowControl,
}

/// Whether every field of the settings is a concrete variant.
pub open spec fn settings_known(s: PortSettings) -> bool {
    s.data_bits != DataBits::Unknown && s.parity != Parity::Unknown && s.stop_bits
        != StopBits::Unknown && s.flow_control != FlowControl::Unknown
}


/// The parameters with which a port is to be opened.
#[derive(Debug, Clone, PartialEq, Eq)]
pub struct SerialPortBuilder {
    path: String,
    baudrate: u32,
    data_bits: DataBits,
    flow_control: FlowControl,
    parity: Parity,
    stop_bits: StopBits,
    timeout_ms: u32,
}

impl SerialPortBuilder {
    /// The bound on each read and write, in milliseconds; 0 returns at once with
    /// whatever is available.
    pub closed spec fn timeout_view(&self) -> u32 {
        self.timeout_ms
    }

    /// The device path of the port.
    pub closed spec fn path_view(&self) -> Seq<char> {
        self.path@
    }

    /// The link settings that the port is opened with.
    pub closed spec fn settings_view(&self) -> PortSettings {
        PortSettings {
            baud_rate: self.baudrate,
            data_bits: self.data_bits,
            parity: self.parity,
            stop_bits: self.stop_bits,
            flow_control: self.flow_control,
        }
    }

    #[must_use]
    pub fn path(self, path: &str) -> (r: Self)
        ensures
            r.path_view() == path@,
            r.settings_view() == self.settings_view(),
            r.timeout_view() == self.timeout_view(),
    {
        SerialPortBuilder { path: path.to_owned(), ..self }
    }

    #[must_use]
    pub fn baud_rate(self, baud_rate: u32) -> (r: Self)
        ensures
            r.path_view() == self.path_view(),
            r.settings_view() == (PortSettings { baud_rate, ..self.settings_view() }),
            r.timeout_view() == self.timeout_view(),
    {
        SerialPortBuilder { baudrate: baud_rate, ..self }
    }

    #[must_use]
    pub fn data_bits(self, data_bits: DataBits) -> (r: Self)
        ensures
            r.path_view() == self.path_view(),
            r.settings_view() == (PortSettings { data_bits, ..self.settings_view() }),
            r.timeout_view() == self.timeout_view(),
    {
        SerialPortBuilder { data_bits, ..self }
    }

    #[must_use]
    pub fn flow_control(self, flow_control: FlowControl) -> (r: Self)
        ensures
            r.path_view() == self.path_view(),
            r.settings_view() == (PortSettings { flow_control, ..self.settings_view() }),
            r.timeout_view() == self.timeout_view(),
    {
        SerialPortBuilder { flow_control, ..self }
    }

    #[must_use]
    pub fn parity(self, parity: Parity) -> (r: Self)
        ensures
            r.path_view() == self.path_view(),
            r.settings_view() == (PortSettings { parity, ..self.settings_view() }),
            r.timeout_view() == self.timeout_view(),
    {
        SerialPortBuilder { parity, ..self }
    }

    #[must_use]
    pub fn stop_bits(self, stop_bits: StopBits) -> (r: Self)
        ensures
            r.path_view() == self.path_view(),
            r.settings_view() == (PortSettings { stop_bits, ..self.settings_view() }),
            r.timeout_view() == self.timeout_view(),
    {
        SerialPortBuilder { stop_bits, ..self }
    }

    /// Bounds each read and write by `timeout_ms` milliseconds.
    #[must_use]
    pub fn timeout(self, timeout_ms: u32) -> (r: Self)
        ensures
            r.path_view() == self.path_view(),
            r.settings_view() == self.settings_view(),
            r.timeout_view() == timeout_ms,
    {
        SerialPortBuilder { timeout_ms, ..self }
    }

    /// The bound on each read and write, in milliseconds.
    pub fn timeout_ms(&self) -> (r: u32)
        ensures
            r == self.timeout_view(),
    {
        self.timeout_ms
    }

    /// The device path of the port.
    pub fn port_path(&self) -> (r: &String)
        ensures
            r@ == self.path_view(),
    {
        &self.path
    }

    /// The link settings that the port is opened with.
    pub fn settings(&self) -> (r: PortSettings)
        ensures
            r == self.settings_view(),
    {
        PortSettings {
            baud_rate: self.baudrate,
            data_bits: self.data_bits,
            parity: self.parity,
            stop_bits: self.stop_bits,
            flow_control: self.flow_control,
        }
    }
}

/// A builder for the port at `path` at `baudrate` symbols per second, with eight
/// data bits, no parity, one stop bit, no flow control and a zero timeout.
pub fn new(path: &str, baudrate: u32) -> (r: SerialPortBuilder)
    ensures
        r.path_view() == path@,
        r.settings_view() == (PortSettings {
            baud_rate: baudrate,
            data_bits: DataBits::Eight,
            parity: Parity::Off,
            stop_bits: StopBits::One,
            flow_control: FlowControl::Off,
        }),
        r.timeout_view() == 0,
{
    SerialPortBuilder {
        path: path.to_owned(),
        baudrate,
        data_bits: DataBits::Eight,
        flow_control: FlowControl::Off,
        parity: Parity::Off,
        stop_bits: StopBits::One,
        timeout_ms: 0,
    }
}

/// The operations of an open serial port.
pub trait SerialPort {
    fn name(&self) -> String;

    fn baudrate(&self) -> Result<u32, Error>;

    fn data_bits(&self) -> Result<DataBits, Error>;

    fn flow_control(&self) -> Result<FlowControl, Error>;

    fn parity(&self) -> Result<Parity, Error>;

    fn stop_bits(&self) -> Result<StopBits, Error>;

    fn set_baud_rate(&mut self, baud_rate: u32) -> Result<(), Error>;

    fn set_data_bits(&mut self, data_bits: DataBits) -> Result<(), Error>;

    fn set_flow_control(&mut self, flow_control: FlowControl) -> Result<(), Error>;

    fn set_parity(&mut self, parity: Parity) -> Result<(), Error>;

    fn set_stop_bits(&mut self, stop_bits: StopBits) -> Result<(), Error>;

    fn set_rts(&mut self, level: bool) -> Result<(), Error>;

    fn set_dtr(&mut self, level: bool) -> Result<(), Error>;

    fn set_break(&mut self, level: bool) -> Result<(), Error>;

    fn cts(&mut self) -> Result<bool, Error>;

    fn dsr(&mut self) -> Result<bool, Error>;

    fn ri(&mut self) -> Result<bool, Error>;

    fn cd(&mut self) -> Result<bool, Error>;

    fn bytes_to_read(&self) -> Result<u32, Error>;

    fn bytes_to_write(&self) -> Result<u32, Error>;

    fn clear(&self, buffer_to_clear: Clear) -> Result<(), Error>;
}

/// A port found on the system: its device path and its human-readable name.
#[derive(Debug, Clone, PartialEq, Eq)]
pub struct PortInfo {
    pub path: String,
    pub name: String,
}

/// The ports that the OS lists under the communication port class: the class
/// query either failed with an OS error code or gave each device's properties.
/// A failed class query fails the whole listing; a device whose lookups failed
/// still has a record, with the failed fields empty.
pub fn available_ports(devices: Result<Vec<enumerate::DeviceProperties>, i32>) -> (r: Result<
    Vec<PortInfo>,
    Error,
>)
    ensures
        match devices {
            Err(c) => r == Err::<Vec<PortInfo>, Error>(os_error(c)),
            Ok(ds) => r is Ok && r->Ok_0@.len() == ds@.len() && forall|i: int|
                0 <= i < ds@.len() ==> enumerate::is_record_of(#[trigger] r->Ok_0@[i], ds@[i]),
        },
{
    match devices {
        Err(c) => Err(error_from_os(c)),
        Ok(ds) => Ok(enumerate::port_records(&ds)),
    }
}

/// OS error code of a missing file or device.
pub const ERROR_FILE_NOT_FOUND: i32 = 2;
/// OS error code of a missing path.
pub const ERROR_PATH_NOT_FOUND: i32 = 3;
/// OS error code of a device that is no longer connected.
pub const ERROR_DEVICE_NOT_CONNECTED: i32 = 1167;

/// The error kind of a failed native call with OS error code `code` (0 if none).
pub open spec fn os_error(code: i32) -> Error {
    if code == 0 {
        Error::Unknown
    } else if code == ERROR_FILE_NOT_FOUND || code == ERROR_PATH_NOT_FOUND || code
        == ERROR_DEVICE_NOT_CONNECTED {
        Error::NoDevice
    } else {
        Error::Io(code)
    }
}

/// Maps an OS error code (0 if none) to the library's error kinds.
pub fn error_from_os(code: i32) -> (r: Error)
    ensures
        r == os_error(code),
{
    if code == 0 {
        Error::Unknown
    } else if code == ERROR_FILE_NOT_FOUND || code == ERROR_PATH_NOT_FOUND || code
        == ERROR_DEVICE_NOT_CONNECTED {
        Error::NoDevice
    } else {
        Error::Io(code)
    }
}

} // verus!
