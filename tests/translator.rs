use serialcom::dcb::{
    apply_defaults, default_block, from_native, set_data_bits, set_flow_control, set_parity,
    set_stop_bits, to_native, ControlBlock, DtrControl, RtsControl, EVENPARITY, ODDPARITY,
    ONE5STOPBITS, TWOSTOPBITS,
};
use serialcom::{DataBits, Error, FlowControl, Parity, PortSettings, StopBits};

fn settings(d: DataBits, p: Parity, s: StopBits, f: FlowControl) -> PortSettings {
    PortSettings { baud_rate: 115200, data_bits: d, parity: p, stop_bits: s, flow_control: f }
}

#[test]
fn round_trip_every_known_setting() {
    let ds = [DataBits::Five, DataBits::Six, DataBits::Seven, DataBits::Eight];
    let ps = [Parity::Off, Parity::Odd, Parity::Even];
    let ss = [StopBits::One, StopBits::OnePointFive, StopBits::Two];
    let fs = [FlowControl::Off, FlowControl::Software, FlowControl::Hardware];
    for d in ds {
        for p in ps {
            for s in ss {
                for f in fs {
                    let want = settings(d, p, s, f);
                    let block = to_native(&want, &default_block()).unwrap();
                    assert_eq!(from_native(&block), want);
                }
            }
        }
    }
}

#[test]
fn to_native_field_values() {
    let s = settings(DataBits::Seven, Parity::Even, StopBits::Two, FlowControl::Hardware);
    let b = to_native(&s, &default_block()).unwrap();
    assert_eq!(b.baud_rate, 115200);
    assert_eq!(b.byte_size, 7);
    assert_eq!(b.parity, EVENPARITY);
    assert_eq!(b.stop_bits, TWOSTOPBITS);
    // parity check (bit 1), CTS flow (bit 2), RTS enable (bits 12-13 = 1)
    assert_eq!(b.bitfield, (1 << 1) | (1 << 2) | (1 << 12));

    let s = settings(DataBits::Five, Parity::Odd, StopBits::OnePointFive, FlowControl::Software);
    let b = to_native(&s, &default_block()).unwrap();
    assert_eq!(b.byte_size, 5);
    assert_eq!(b.parity, ODDPARITY);
    assert_eq!(b.stop_bits, ONE5STOPBITS);
    // parity check (bit 1), XON/XOFF out (bit 8) and in (bit 9)
    assert_eq!(b.bitfield, (1 << 1) | (1 << 8) | (1 << 9));
}

#[test]
fn flow_control_none_clears_group() {
    let mut b = default_block();
    b.bitfield = 0xFFFF_FFFF;
    set_flow_control(&mut b, FlowControl::Off).unwrap();
    assert_eq!(b.bitfield, 0xFFFF_FFFF & !((1 << 2) | (3 << 12) | (1 << 8) | (1 << 9)));
    assert_eq!(from_native(&b).flow_control, FlowControl::Off);
}

#[test]
fn mixed_flow_flags_read_back_as_unknown() {
    let mut b = default_block();
    b.set_out_x(true);
    b.set_rts_control(RtsControl::Toggle);
    assert_eq!(from_native(&b).flow_control, FlowControl::Unknown);
    let mut b = default_block();
    b.set_in_x(true);
    b.set_outx_cts_flow(true);
    assert_eq!(from_native(&b).flow_control, FlowControl::Unknown);
    let mut b = default_block();
    b.set_rts_control(RtsControl::Handshake);
    assert_eq!(from_native(&b).flow_control, FlowControl::Hardware);
    let mut b = default_block();
    b.set_in_x(true);
    assert_eq!(from_native(&b).flow_control, FlowControl::Software);
}

#[test]
fn unknown_native_values_read_back_as_unknown() {
    let mut b = default_block();
    b.byte_size = 9;
    b.parity = 4;
    b.stop_bits = 3;
    let s = from_native(&b);
    assert_eq!(s.data_bits, DataBits::Unknown);
    assert_eq!(s.parity, Parity::Unknown);
    assert_eq!(s.stop_bits, StopBits::Unknown);
}

#[test]
fn defaults_hold_after_settings() {
    let mut b = default_block();
    b.bitfield = 0xFFFF_FFFF;
    apply_defaults(&mut b);
    assert_eq!(b.xon_char, 0x11);
    assert_eq!(b.xoff_char, 0x13);
    assert_eq!(b.error_char, 0);
    assert_eq!(b.eof_char, 0x1A);
    for f in [FlowControl::Off, FlowControl::Software, FlowControl::Hardware] {
        let c = to_native(&settings(DataBits::Eight, Parity::Off, StopBits::One, f), &b).unwrap();
        assert_eq!(c.bitfield & 1, 1);
        assert_eq!(c.bitfield & (1 << 6), 0);
        assert_eq!(c.bitfield & (1 << 14), 0);
        assert_eq!(c.bitfield & (3 << 4), 0);
    }
}

#[test]
fn dtr_control_occupies_bits_four_and_five() {
    let mut b = default_block();
    b.set_dtr_control(DtrControl::Handshake);
    assert_eq!(b.bitfield, 2 << 4);
    b.set_dtr_control(DtrControl::Enable);
    assert_eq!(b.bitfield, 1 << 4);
}

#[test]
fn unknown_settings_are_rejected_without_change() {
    let base: ControlBlock = default_block();
    let cases = [
        (settings(DataBits::Unknown, Parity::Off, StopBits::One, FlowControl::Off), "DataBits::Unknown"),
        (settings(DataBits::Eight, Parity::Unknown, StopBits::One, FlowControl::Off), "Parity::Unknown"),
        (settings(DataBits::Eight, Parity::Off, StopBits::Unknown, FlowControl::Off), "StopBits::Unknown"),
        (settings(DataBits::Eight, Parity::Off, StopBits::One, FlowControl::Unknown), "FlowControl::Unknown"),
    ];
    for (s, msg) in cases {
        let given = base;
        assert_eq!(to_native(&s, &given), Err(Error::InvalidInput(msg.to_string())));
        assert_eq!(given, base);
    }
    let mut b = default_block();
    assert!(set_data_bits(&mut b, DataBits::Unknown).is_err());
    assert!(set_parity(&mut b, Parity::Unknown).is_err());
    assert!(set_stop_bits(&mut b, StopBits::Unknown).is_err());
    assert!(set_flow_control(&mut b, FlowControl::Unknown).is_err());
    assert_eq!(b, default_block());
}
