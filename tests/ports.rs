use serialcom::control::{
    dtr_function, purge_flags, read_pin, rts_function, Pin, Transfer, TransferAction,
    TransferEvent, CLRDTR, CLRRTS, SETDTR, SETRTS,
};
use serialcom::dcb::{default_block, ControlBlock};
use serialcom::enumerate::{as_utf16, from_utf16_lossy_trimmed, DeviceProperties};
use serialcom::lifecycle::{device_path, Held, OpenAction, OpenEvent, Phase, PortLifecycle};
use serialcom::{
    available_ports, error_from_os, new, Clear, DataBits, Error, FlowControl, Parity, PortInfo,
    PortSettings, StopBits,
};

fn units(s: &str) -> Vec<u16> {
    s.encode_utf16().collect()
}

#[test]
fn builder_defaults_and_setters() {
    let b = new("COM11", 115200);
    assert_eq!(b.port_path(), "COM11");
    assert_eq!(b.timeout_ms(), 0);
    assert_eq!(
        b.settings(),
        PortSettings {
            baud_rate: 115200,
            data_bits: DataBits::Eight,
            parity: Parity::Off,
            stop_bits: StopBits::One,
            flow_control: FlowControl::Off,
        }
    );
    let b = b
        .path("COM3")
        .baud_rate(9600)
        .data_bits(DataBits::Seven)
        .parity(Parity::Odd)
        .stop_bits(StopBits::Two)
        .flow_control(FlowControl::Hardware)
        .timeout(500);
    assert_eq!(b.port_path(), "COM3");
    assert_eq!(b.timeout_ms(), 500);
    assert_eq!(
        b.settings(),
        PortSettings {
            baud_rate: 9600,
            data_bits: DataBits::Seven,
            parity: Parity::Odd,
            stop_bits: StopBits::Two,
            flow_control: FlowControl::Hardware,
        }
    );
}

#[test]
fn utf16_helpers() {
    assert_eq!(as_utf16("COM1"), vec![67, 79, 77, 49, 0]);
    assert_eq!(as_utf16("é😀"), vec![0xE9, 0xD83D, 0xDE00, 0]);
    assert_eq!(from_utf16_lossy_trimmed(&[67, 79, 77, 0, 0, 0]), "COM");
    assert_eq!(from_utf16_lossy_trimmed(&[0, 0]), "");
    assert_eq!(from_utf16_lossy_trimmed(&[0xD800, 65]), "\u{FFFD}A");
}

#[test]
fn device_path_prefixes_plain_names() {
    let mut want = units(r"\\.\COM11");
    want.push(0);
    assert_eq!(device_path("COM11"), want);
    let mut want = units(r"\\.\COM3");
    want.push(0);
    assert_eq!(device_path(r"\\.\COM3"), want);
}

#[test]
fn os_error_mapping() {
    assert_eq!(error_from_os(0), Error::Unknown);
    assert_eq!(error_from_os(2), Error::NoDevice);
    assert_eq!(error_from_os(3), Error::NoDevice);
    assert_eq!(error_from_os(1167), Error::NoDevice);
    assert_eq!(error_from_os(5), Error::Io(5));
}

#[test]
fn enumeration_keeps_devices_with_failed_lookups() {
    let mut port = units("COM1");
    port.extend([0, 0, 0]);
    let devices = vec![
        DeviceProperties { port_name: Some(port), friendly_name: Some(units("USB Serial (COM1)")) },
        DeviceProperties { port_name: Some(units("COM2")), friendly_name: None },
        DeviceProperties { port_name: None, friendly_name: Some(units("Modem")) },
    ];
    let ports = available_ports(Ok(devices)).unwrap();
    assert_eq!(
        ports,
        vec![
            PortInfo { path: "COM1".to_string(), name: "USB Serial (COM1)".to_string() },
            PortInfo { path: "COM2".to_string(), name: String::new() },
            PortInfo { path: String::new(), name: "Modem".to_string() },
        ]
    );
    assert_eq!(available_ports(Ok(vec![])).unwrap(), vec![]);
    assert_eq!(available_ports(Err(5)), Err(Error::Io(5)));
}

#[test]
fn line_and_buffer_codes() {
    assert_eq!(rts_function(true), SETRTS);
    assert_eq!(rts_function(false), CLRRTS);
    assert_eq!(dtr_function(true), SETDTR);
    assert_eq!(dtr_function(false), CLRDTR);
    assert!(read_pin(16, Pin::Cts));
    assert!(!read_pin(16, Pin::Dsr));
    assert!(read_pin(0xF0, Pin::Ring));
    assert!(read_pin(128, Pin::CarrierDetect));
    assert_eq!(purge_flags(Clear::Input), 2 | 8);
    assert_eq!(purge_flags(Clear::Output), 1 | 4);
    assert_eq!(purge_flags(Clear::All), 15);
    assert_eq!(purge_flags(Clear::Output) & purge_flags(Clear::Input), 0);
}

#[test]
fn timed_out_read_returns_partial_count() {
    let mut t = Transfer::new(250);
    assert_eq!(t.step(TransferEvent::Pending), TransferAction::Wait(250));
    assert_eq!(t.step(TransferEvent::TimedOut), TransferAction::Cancel);
    assert_eq!(t.step(TransferEvent::Canceled(0)), TransferAction::Return(Ok(0)));

    let mut t = Transfer::new(0);
    assert_eq!(t.step(TransferEvent::Completed(7)), TransferAction::Return(Ok(7)));

    let mut t = Transfer::new(10);
    assert_eq!(t.step(TransferEvent::Pending), TransferAction::Wait(10));
    assert_eq!(t.step(TransferEvent::Signaled), TransferAction::QueryResult);
    assert_eq!(t.step(TransferEvent::Transferred(3)), TransferAction::Return(Ok(3)));

    let mut t = Transfer::new(10);
    assert_eq!(t.step(TransferEvent::IssueFailed(2)), TransferAction::Return(Err(Error::NoDevice)));
    // the same transfer taken again after it is done is a caller error
    assert_eq!(t.step(TransferEvent::Pending), TransferAction::Return(Err(Error::Unknown)));

    let mut t = Transfer::new(10);
    assert_eq!(t.step(TransferEvent::Pending), TransferAction::Wait(10));
    assert_eq!(t.step(TransferEvent::WaitFailed(6)), TransferAction::Cancel);
    assert_eq!(t.step(TransferEvent::Canceled(2)), TransferAction::Return(Err(Error::Io(6))));
}

fn start(s: PortSettings) -> PortLifecycle {
    let (p, a) = PortLifecycle::begin(s);
    assert_eq!(a, OpenAction::OpenDevice);
    p
}

fn good() -> PortSettings {
    PortSettings {
        baud_rate: 9600,
        data_bits: DataBits::Eight,
        parity: Parity::Off,
        stop_bits: StopBits::One,
        flow_control: FlowControl::Off,
    }
}

const NOTHING: Held = Held { device: false, read_event: false, write_event: false };
const DEVICE: Held = Held { device: true, read_event: false, write_event: false };

#[test]
fn open_succeeds_and_close_is_idempotent() {
    let mut p = start(good());
    assert_eq!(p.step(OpenEvent::DeviceOpened), OpenAction::ReadBlock);
    let block: ControlBlock = default_block();
    match p.step(OpenEvent::BlockRead(block)) {
        OpenAction::WriteBlock(b) => {
            assert_eq!(b.baud_rate, 9600);
            assert_eq!(b.byte_size, 8);
            assert_eq!(b.bitfield & 1, 1);
        }
        other => panic!("unexpected {:?}", other),
    }
    assert_eq!(p.step(OpenEvent::BlockWritten), OpenAction::CreateEvents);
    assert_eq!(
        p.step(OpenEvent::EventsCreated { read: true, write: true, code: 0 }),
        OpenAction::Finish
    );
    assert_eq!(p.phase, Phase::Ready);
    assert!(p.check_open().is_ok());
    assert_eq!(p.close(), Held { device: true, read_event: true, write_event: true });
    assert_eq!(p.close(), NOTHING);
    assert_eq!(p.phase, Phase::Closed);
    assert_eq!(p.check_open(), Err(Error::NoDevice));
}

#[test]
fn open_failure_at_each_step_releases_everything() {
    let mut p = start(good());
    assert_eq!(
        p.step(OpenEvent::DeviceFailed(2)),
        OpenAction::Abort { release: NOTHING, error: Error::NoDevice }
    );
    assert_eq!(p.held, NOTHING);

    let mut p = start(good());
    p.step(OpenEvent::DeviceOpened);
    assert_eq!(
        p.step(OpenEvent::BlockReadFailed(5)),
        OpenAction::Abort { release: DEVICE, error: Error::Io(5) }
    );
    assert_eq!(p.held, NOTHING);

    let mut p = start(PortSettings { parity: Parity::Unknown, ..good() });
    p.step(OpenEvent::DeviceOpened);
    assert_eq!(
        p.step(OpenEvent::BlockRead(default_block())),
        OpenAction::Abort {
            release: DEVICE,
            error: Error::InvalidInput("Parity::Unknown".to_string())
        }
    );
    assert_eq!(p.held, NOTHING);

    let mut p = start(good());
    p.step(OpenEvent::DeviceOpened);
    p.step(OpenEvent::BlockRead(default_block()));
    assert_eq!(
        p.step(OpenEvent::BlockWriteFailed(31)),
        OpenAction::Abort { release: DEVICE, error: Error::Io(31) }
    );
    assert_eq!(p.held, NOTHING);

    let mut p = start(good());
    p.step(OpenEvent::DeviceOpened);
    p.step(OpenEvent::BlockRead(default_block()));
    p.step(OpenEvent::BlockWritten);
    assert_eq!(
        p.step(OpenEvent::EventsCreated { read: true, write: false, code: 8 }),
        OpenAction::Abort {
            release: Held { device: true, read_event: true, write_event: false },
            error: Error::Io(8)
        }
    );
    assert_eq!(p.held, NOTHING);
    assert_eq!(p.phase, Phase::Failed);
    assert_eq!(p.close(), NOTHING);
}

#[test]
fn duplicate_gets_own_events_and_releases_on_failure() {
    let (mut p, a) = PortLifecycle::begin_duplicate(good());
    assert_eq!(a, OpenAction::DuplicateDevice);
    assert_eq!(p.step(OpenEvent::DeviceOpened), OpenAction::CreateEvents);
    assert_eq!(
        p.step(OpenEvent::EventsCreated { read: true, write: true, code: 0 }),
        OpenAction::Finish
    );
    assert_eq!(p.phase, Phase::Ready);

    let (mut p, _) = PortLifecycle::begin_duplicate(good());
    assert_eq!(
        p.step(OpenEvent::DeviceFailed(6)),
        OpenAction::Abort { release: NOTHING, error: Error::Io(6) }
    );

    let (mut p, _) = PortLifecycle::begin_duplicate(good());
    p.step(OpenEvent::DeviceOpened);
    assert_eq!(
        p.step(OpenEvent::EventsCreated { read: false, write: true, code: 8 }),
        OpenAction::Abort {
            release: Held { device: true, read_event: false, write_event: true },
            error: Error::Io(8)
        }
    );
    assert_eq!(p.held, NOTHING);
}
