//! The native control block, and the mapping between it and the portable settings.
use vstd::prelude::*;

use crate::{DataBits, Error, FlowControl, Parity, PortSettings, StopBits};

verus! {

/// Parity field value for no parity.
pub const NOPARITY: u8 = 0;
/// Parity field value for odd parity.
pub const ODDPARITY: u8 = 1;
/// Parity field value for even parity.
pub const EVENPARITY: u8 = 2;
/// Stop-bit field value for one stop bit.
pub const ONESTOPBIT: u8 = 0;
/// Stop-bit field value for one and a half stop bits.
pub const ONE5STOPBITS: u8 = 1;
/// Stop-bit field value for two stop bits.
pub const TWOSTOPBITS: u8 = 2;

/// Bit positions of the flags packed in `ControlBlock::bitfield`.
pub const BIT_BINARY: u32 = 0;
pub const BIT_PARITY: u32 = 1;
pub const BIT_OUTX_CTS_FLOW: u32 = 2;
pub const BIT_OUTX_DSR_FLOW: u32 = 3;
pub const BIT_DTR_CONTROL: u32 = 4;
pub const BIT_DSR_SENSITIVITY: u32 = 6;
pub const BIT_TX_CONTINUE_ON_XOFF: u32 = 7;
pub const BIT_OUT_X: u32 = 8;
pub const BIT_IN_X: u32 = 9;
pub const BIT_ERROR_CHAR: u32 = 10;
pub const BIT_NULL: u32 = 11;
pub const BIT_RTS_CONTROL: u32 = 12;
pub const BIT_ABORT_ON_ERROR: u32 = 14;

/// Plain copy of the native device control block.
#[derive(Debug, Copy, Clone, PartialEq, Eq, Structural)]
pub struct ControlBlock {
    pub baud_rate: u32,
    pub bitfield: u32,
    pub xon_lim: u16,
    pub xoff_lim: u16,
    pub byte_size: u8,
    pub parity: u8,
    pub stop_bits: u8,
    pub xon_char: i8,
    pub xoff_char: i8,
    pub error_char: i8,
    pub eof_char: i8,
    pub evt_char: i8,
}

/// Drive mode of the DTR line.
#[derive(Debug, Copy, Clone, PartialEq, Eq, Structural)]
pub enum DtrControl {
    Disable,
    Enable,
    Handshake,
}

/// Drive mode of the RTS line.
#[derive(Debug, Copy, Clone, PartialEq, Eq, Structural)]
pub enum RtsControl {
    Disable,
    Enable,
    Handshake,
    Toggle,
}

pub open spec fn dtr_code(v: DtrControl) -> u32 {
    match v {
        DtrControl::Disable => 0,
        DtrControl::Enable => 1,
        DtrControl::Handshake => 2,
    }
}

pub open spec fn rts_code(v: RtsControl) -> u32 {
    match v {
        RtsControl::Disable => 0,
        RtsControl::Enable => 1,
        RtsControl::Handshake => 2,
        RtsControl::Toggle => 3,
    }
}

pub open spec fn rts_of_code(c: u32) -> RtsControl {
    if c == 0 {
        RtsControl::Disable
    } else if c == 1 {
        RtsControl::Enable
    } else if c == 2 {
        RtsControl::Handshake
    } else {
        RtsControl::Toggle
    }
}

/// The one-bit flag at position `k` of `w`.
pub open spec fn flag(w: u32, k: u32) -> bool {
    (w >> k) & 1u32 == 1u32
}

/// `w` with the flag at position `k` set to `v`.
pub open spec fn with_flag(w: u32, k: u32, v: bool) -> u32 {
    if v {
        w | (1u32 << k)
    } else {
        w & !(1u32 << k)
    }
}

/// The two-bit field at positions `k` and `k + 1` of `w`.
pub open spec fn field2(w: u32, k: u32) -> u32 {
    (w >> k) & 3u32
}

/// `w` with the two-bit field at positions `k` and `k + 1` set to the low bits of `v`.
pub open spec fn with_field2(w: u32, k: u32, v: u32) -> u32 {
    (w & !(3u32 << k)) | ((v & 3u32) << k)
}

pub proof fn lemma_with_flag(w: u32, k: u32, v: bool, j: u32)
    by (bit_vector)
    requires
        k < 32,
        j < 32,
    ensures
        flag(with_flag(w, k, v), j) == if j == k {
            v
        } else {
            flag(w, j)
        },
        j + 1 < 32 && j != k && j + 1 != k ==> field2(with_flag(w, k, v), j) == field2(w, j),
{
}

impl ControlBlock {
    fn set_flag(&mut self, k: u32, value: bool)
        requires
            k < 32,
        ensures
            *final(self) == (ControlBlock { bitfield: with_flag(old(self).bitfield, k, value), ..*old(self) }),
    {
        if value {
            self.bitfield = self.bitfield | (1u32 << k);
        } else {
            self.bitfield = self.bitfield & !(1u32 << k);
        }
    }

    fn set_field2(&mut self, k: u32, value: u32)
        requires
            k + 1 < 32,
        ensures
            *final(self) == (ControlBlock { bitfield: with_field2(old(self).bitfield, k, value), ..*old(self) }),
    {
        self.bitfield = (self.bitfield & !(3u32 << k)) | ((value & 3u32) << k);
    }

    fn get_flag(&self, k: u32) -> (r: bool)
        requires
            k < 32,
        ensures
            r == flag(self.bitfield, k),
    {
        let w = self.bitfield;
        assert(((w & (1u32 << k)) != 0u32) == ((w >> k) & 1u32 == 1u32)) by (bit_vector)
            requires
                k < 32,
        ;
        (w & (1u32 << k)) != 0u32
    }

    /// Binary mode.
    pub fn set_binary(&mut self, value: bool)
        ensures
            *final(self) == (ControlBlock { bitfield: with_flag(old(self).bitfield, BIT_BINARY, value), ..*old(self) }),
    {
        self.set_flag(BIT_BINARY, value)
    }

    /// Parity checking.
    pub fn set_parity_check(&mut self, value: bool)
        ensures
            *final(self) == (ControlBlock { bitfield: with_flag(old(self).bitfield, BIT_PARITY, value), ..*old(self) }),
    {
        self.set_flag(BIT_PARITY, value)
    }

    /// Output gated by the CTS line.
    pub fn set_outx_cts_flow(&mut self, value: bool)
        ensures
            *final(self) == (ControlBlock { bitfield: with_flag(old(self).bitfield, BIT_OUTX_CTS_FLOW, value), ..*old(self) }),
    {
        self.set_flag(BIT_OUTX_CTS_FLOW, value)
    }

    /// Output gated by the DSR line.
    pub fn set_outx_dsr_flow(&mut self, value: bool)
        ensures
            *final(self) == (ControlBlock { bitfield: with_flag(old(self).bitfield, BIT_OUTX_DSR_FLOW, value), ..*old(self) }),
    {
        self.set_flag(BIT_OUTX_DSR_FLOW, value)
    }

    /// Drive mode of the DTR line.
    pub fn set_dtr_control(&mut self, value: DtrControl)
        ensures
            *final(self) == (ControlBlock { bitfield: with_field2(old(self).bitfield, BIT_DTR_CONTROL, dtr_code(value)), ..*old(self) }),
    {
        let code: u32 = match value {
            DtrControl::Disable => 0,
            DtrControl::Enable => 1,
            DtrControl::Handshake => 2,
        };
        self.set_field2(BIT_DTR_CONTROL, code)
    }

    /// Input ignored while DSR is low.
    pub fn set_dsr_sensitivity(&mut self, value: bool)
        ensures
            *final(self) == (ControlBlock { bitfield: with_flag(old(self).bitfield, BIT_DSR_SENSITIVITY, value), ..*old(self) }),
    {
        self.set_flag(BIT_DSR_SENSITIVITY, value)
    }

    /// Transmission continues after XOFF was sent.
    pub fn set_tx_continue_on_xoff(&mut self, value: bool)
        ensures
            *final(self) == (ControlBlock { bitfield: with_flag(old(self).bitfield, BIT_TX_CONTINUE_ON_XOFF, value), ..*old(self) }),
    {
        self.set_flag(BIT_TX_CONTINUE_ON_XOFF, value)
    }

    /// XON/XOFF flow control on output.
    pub fn set_out_x(&mut self, value: bool)
        ensures
            *final(self) == (ControlBlock { bitfield: with_flag(old(self).bitfield, BIT_OUT_X, value), ..*old(self) }),
    {
        self.set_flag(BIT_OUT_X, value)
    }

    /// XON/XOFF flow control on input.
    pub fn set_in_x(&mut self, value: bool)
        ensures
            *final(self) == (ControlBlock { bitfield: with_flag(old(self).bitfield, BIT_IN_X, value), ..*old(self) }),
    {
        self.set_flag(BIT_IN_X, value)
    }

    /// Replacement of bytes with parity errors by the error character.
    pub fn set_error_char(&mut self, value: bool)
        ensures
            *final(self) == (ControlBlock { bitfield: with_flag(old(self).bitfield, BIT_ERROR_CHAR, value), ..*old(self) }),
    {
        self.set_flag(BIT_ERROR_CHAR, value)
    }

    /// Stripping of null bytes.
    pub fn set_null(&mut self, value: bool)
        ensures
            *final(self) == (ControlBlock { bitfield: with_flag(old(self).bitfield, BIT_NULL, value), ..*old(self) }),
    {
        self.set_flag(BIT_NULL, value)
    }

    /// Drive mode of the RTS line.
    pub fn set_rts_control(&mut self, value: RtsControl)
        ensures
            *final(self) == (ControlBlock { bitfield: with_field2(old(self).bitfield, BIT_RTS_CONTROL, rts_code(value)), ..*old(self) }),
    {
        let code: u32 = match value {
            RtsControl::Disable => 0,
            RtsControl::Enable => 1,
            RtsControl::Handshake => 2,
            RtsControl::Toggle => 3,
        };
        self.set_field2(BIT_RTS_CONTROL, code)
    }

    /// Termination of transfers on an error.
    pub fn set_abort_on_error(&mut self, value: bool)
        ensures
            *final(self) == (ControlBlock { bitfield: with_flag(old(self).bitfield, BIT_ABORT_ON_ERROR, value), ..*old(self) }),
    {
        self.set_flag(BIT_ABORT_ON_ERROR, value)
    }

    pub fn outx_cts_flow(&self) -> (r: bool)
        ensures
            r == flag(self.bitfield, BIT_OUTX_CTS_FLOW),
    {
        self.get_flag(BIT_OUTX_CTS_FLOW)
    }

    pub fn rts_control(&self) -> (r: RtsControl)
        ensures
            r == rts_of_code(field2(self.bitfield, BIT_RTS_CONTROL)),
    {
        let bits = (self.bitfield >> BIT_RTS_CONTROL) & 3u32;
        if bits == 0 {
            RtsControl::Disable
        } else if bits == 1 {
            RtsControl::Enable
        } else if bits == 2 {
            RtsControl::Handshake
        } else {
            RtsControl::Toggle
        }
    }

    pub fn out_x(&self) -> (r: bool)
        ensures
            r == flag(self.bitfield, BIT_OUT_X),
    {
        self.get_flag(BIT_OUT_X)
    }

    pub fn in_x(&self) -> (r: bool)
        ensures
            r == flag(self.bitfield, BIT_IN_X),
    {
        self.get_flag(BIT_IN_X)
    }
}


/// The control block with every field zero.
pub open spec fn zero_block() -> ControlBlock {
    ControlBlock {
        baud_rate: 0,
        bitfield: 0,
        xon_lim: 0,
        xoff_lim: 0,
        byte_size: 0,
        parity: 0,
        stop_bits: 0,
        xon_char: 0,
        xoff_char: 0,
        error_char: 0,
        eof_char: 0,
        evt_char: 0,
    }
}

/// A control block with every field zero.
pub fn default_block() -> (r: ControlBlock)
    ensures
        r == zero_block(),
{
    ControlBlock {
        baud_rate: 0,
        bitfield: 0,
        xon_lim: 0,
        xoff_lim: 0,
        byte_size: 0,
        parity: 0,
        stop_bits: 0,
        xon_char: 0,
        xoff_char: 0,
        error_char: 0,
        eof_char: 0,
        evt_char: 0,
    }
}

/// The flag word with the fixed baseline applied: binary mode on; DSR output flow,
/// DSR sensitivity, error-character substitution, null stripping and abort-on-error
/// off; DTR control disabled.
pub open spec fn defaults_word(w: u32) -> u32 {
    let w = with_flag(w, BIT_BINARY, true);
    let w = with_flag(w, BIT_OUTX_DSR_FLOW, false);
    let w = with_field2(w, BIT_DTR_CONTROL, 0);
    let w = with_flag(w, BIT_DSR_SENSITIVITY, false);
    let w = with_flag(w, BIT_ERROR_CHAR, false);
    let w = with_flag(w, BIT_NULL, false);
    with_flag(w, BIT_ABORT_ON_ERROR, false)
}

/// The block with the fixed baseline applied, including the XON, XOFF, error and
/// end-of-file characters.
pub open spec fn defaults_applied(b: ControlBlock) -> ControlBlock {
    ControlBlock {
        xon_char: 0x11,
        xoff_char: 0x13,
        error_char: 0,
        eof_char: 0x1A,
        bitfield: defaults_word(b.bitfield),
        ..b
    }
}

/// Sets the fixed baseline that the port needs whatever the caller's settings.
pub fn apply_defaults(dcb: &mut ControlBlock)
    ensures
        *final(dcb) == defaults_applied(*old(dcb)),
{
    dcb.xon_char = 0x11;
    dcb.xoff_char = 0x13;
    dcb.error_char = 0;
    dcb.eof_char = 0x1A;

    dcb.set_binary(true);
    dcb.set_outx_dsr_flow(false);
    dcb.set_dtr_control(DtrControl::Disable);
    dcb.set_dsr_sensitivity(false);
    dcb.set_error_char(false);
    dcb.set_null(false);
    dcb.set_abort_on_error(false);
}

pub open spec fn byte_size_of(d: DataBits) -> u8 {
    match d {
        DataBits::Five => 5,
        DataBits::Six => 6,
        DataBits::Seven => 7,
        _ => 8,
    }
}

pub open spec fn parity_code_of(p: Parity) -> u8 {
    match p {
        Parity::Odd => ODDPARITY,
        Parity::Even => EVENPARITY,
        _ => NOPARITY,
    }
}

pub open spec fn stop_code_of(s: StopBits) -> u8 {
    match s {
        StopBits::OnePointFive => ONE5STOPBITS,
        StopBits::Two => TWOSTOPBITS,
        _ => ONESTOPBIT,
    }
}

/// The flag word with the flow-control group set: CTS-gated output, RTS mode,
/// XON/XOFF on output and on input.
pub open spec fn flow_group(w: u32, cts: bool, rts: RtsControl, out_x: bool, in_x: bool) -> u32 {
    let w = with_flag(w, BIT_OUTX_CTS_FLOW, cts);
    let w = with_field2(w, BIT_RTS_CONTROL, rts_code(rts));
    let w = with_flag(w, BIT_OUT_X, out_x);
    with_flag(w, BIT_IN_X, in_x)
}

/// The flag word with the flow-control group set from the fixed table.
pub open spec fn flow_word(w: u32, f: FlowControl) -> u32 {
    match f {
        FlowControl::Software => flow_group(w, false, RtsControl::Disable, true, true),
        FlowControl::Hardware => flow_group(w, true, RtsControl::Enable, false, false),
        _ => flow_group(w, false, RtsControl::Disable, false, false),
    }
}

/// The block with the settings applied (meaningful where the settings are known).
pub open spec fn native_of(s: PortSettings, b: ControlBlock) -> ControlBlock {
    ControlBlock {
        baud_rate: s.baud_rate,
        byte_size: byte_size_of(s.data_bits),
        parity: parity_code_of(s.parity),
        stop_bits: stop_code_of(s.stop_bits),
        bitfield: flow_word(with_flag(b.bitfield, BIT_PARITY, s.parity != Parity::Off), s.flow_control),
        ..b
    }
}

pub open spec fn data_bits_of(c: u8) -> DataBits {
    if c == 5 {
        DataBits::Five
    } else if c == 6 {
        DataBits::Six
    } else if c == 7 {
        DataBits::Seven
    } else if c == 8 {
        DataBits::Eight
    } else {
        DataBits::Unknown
    }
}

pub open spec fn parity_of(c: u8) -> Parity {
    if c == ODDPARITY {
        Parity::Odd
    } else if c == EVENPARITY {
        Parity::Even
    } else if c == NOPARITY {
        Parity::Off
    } else {
        Parity::Unknown
    }
}

pub open spec fn stop_bits_of(c: u8) -> StopBits {
    if c == TWOSTOPBITS {
        StopBits::Two
    } else if c == ONESTOPBIT {
        StopBits::One
    } else if c == ONE5STOPBITS {
        StopBits::OnePointFive
    } else {
        StopBits::Unknown
    }
}

/// Hardware when CTS gates output or RTS is driven, software when XON/XOFF is on
/// in either direction, none when neither; a mix of hardware and software flags
/// matches no mode and reads as `Unknown`.
pub open spec fn flow_control_of(w: u32) -> FlowControl {
    let hardware = flag(w, BIT_OUTX_CTS_FLOW) || field2(w, BIT_RTS_CONTROL) != 0;
    let software = flag(w, BIT_OUT_X) || flag(w, BIT_IN_X);
    if hardware && software {
        FlowControl::Unknown
    } else if hardware {
        FlowControl::Hardware
    } else if software {
        FlowControl::Software
    } else {
        FlowControl::Off
    }
}

/// The portable settings that a block reads back as.
pub open spec fn settings_of(b: ControlBlock) -> PortSettings {
    PortSettings {
        baud_rate: b.baud_rate,
        data_bits: data_bits_of(b.byte_size),
        parity: parity_of(b.parity),
        stop_bits: stop_bits_of(b.stop_bits),
        flow_control: flow_control_of(b.bitfield),
    }
}


/// The message of the `InvalidInput` error for settings with an `Unknown` field:
/// it names the first such field in the order data bits, parity, stop bits, flow
/// control.
pub open spec fn unknown_field_message(s: PortSettings) -> Seq<char> {
    if s.data_bits == DataBits::Unknown {
        "DataBits::Unknown"@
    } else if s.parity == Parity::Unknown {
        "Parity::Unknown"@
    } else if s.stop_bits == StopBits::Unknown {
        "StopBits::Unknown"@
    } else {
        "FlowControl::Unknown"@
    }
}

/// Whether `r` is an `InvalidInput` error with message `m`.
pub open spec fn is_invalid_input<T>(r: Result<T, Error>, m: Seq<char>) -> bool {
    match r {
        Err(Error::InvalidInput(msg)) => msg@ == m,
        _ => false,
    }
}

pub fn set_baud_rate(dcb: &mut ControlBlock, baud_rate: u32)
    ensures
        *final(dcb) == (ControlBlock { baud_rate, ..*old(dcb) }),
{
    dcb.baud_rate = baud_rate;
}

pub fn set_data_bits(dcb: &mut ControlBlock, data_bits: DataBits) -> (r: Result<(), Error>)
    ensures
        data_bits == DataBits::Unknown ==> is_invalid_input(r, "DataBits::Unknown"@) && *final(dcb)
            == *old(dcb),
        data_bits != DataBits::Unknown ==> r is Ok && *final(dcb) == (ControlBlock {
            byte_size: byte_size_of(data_bits),
            ..*old(dcb)
        }),
{
    dcb.byte_size = match data_bits {
        DataBits::Five => 5,
        DataBits::Six => 6,
        DataBits::Seven => 7,
        DataBits::Eight => 8,
        DataBits::Unknown => return Err(Error::InvalidInput("DataBits::Unknown".to_owned())),
    };
    Ok(())
}

pub fn set_parity(dcb: &mut ControlBlock, parity: Parity) -> (r: Result<(), Error>)
    ensures
        parity == Parity::Unknown ==> is_invalid_input(r, "Parity::Unknown"@) && *final(dcb)
            == *old(dcb),
        parity != Parity::Unknown ==> r is Ok && *final(dcb) == (ControlBlock {
            parity: parity_code_of(parity),
            bitfield: with_flag(old(dcb).bitfield, BIT_PARITY, parity != Parity::Off),
            ..*old(dcb)
        }),
{
    dcb.parity = match parity {
        Parity::Off => NOPARITY,
        Parity::Odd => ODDPARITY,
        Parity::Even => EVENPARITY,
        Parity::Unknown => return Err(Error::InvalidInput("Parity::Unknown".to_owned())),
    };
    let check = match parity {
        Parity::Off => false,
        _ => true,
    };
    dcb.set_parity_check(check);
    Ok(())
}

pub fn set_stop_bits(dcb: &mut ControlBlock, stop_bits: StopBits) -> (r: Result<(), Error>)
    ensures
        stop_bits == StopBits::Unknown ==> is_invalid_input(r, "StopBits::Unknown"@)
            && *final(dcb) == *old(dcb),
        stop_bits != StopBits::Unknown ==> r is Ok && *final(dcb) == (ControlBlock {
            stop_bits: stop_code_of(stop_bits),
            ..*old(dcb)
        }),
{
    dcb.stop_bits = match stop_bits {
        StopBits::One => ONESTOPBIT,
        StopBits::Two => TWOSTOPBITS,
        StopBits::OnePointFive => ONE5STOPBITS,
        StopBits::Unknown => return Err(Error::InvalidInput("StopBits::Unknown".to_owned())),
    };
    Ok(())
}

pub fn set_flow_control(dcb: &mut ControlBlock, flow_control: FlowControl) -> (r: Result<(), Error>)
    ensures
        flow_control == FlowControl::Unknown ==> is_invalid_input(r, "FlowControl::Unknown"@)
            && *final(dcb) == *old(dcb),
        flow_control != FlowControl::Unknown ==> r is Ok && *final(dcb) == (ControlBlock {
            bitfield: flow_word(old(dcb).bitfield, flow_control),
            ..*old(dcb)
        }),
{
    match flow_control {
        FlowControl::Off => {
            dcb.set_outx_cts_flow(false);
            dcb.set_rts_control(RtsControl::Disable);
            dcb.set_out_x(false);
            dcb.set_in_x(false);
        },
        FlowControl::Software => {
            dcb.set_outx_cts_flow(false);
            dcb.set_rts_control(RtsControl::Disable);
            dcb.set_out_x(true);
            dcb.set_in_x(true);
        },
        FlowControl::Hardware => {
            dcb.set_outx_cts_flow(true);
            dcb.set_rts_control(RtsControl::Enable);
            dcb.set_out_x(false);
            dcb.set_in_x(false);
        },
        FlowControl::Unknown => {
            return Err(Error::InvalidInput("FlowControl::Unknown".to_owned()));
        },
    }
    Ok(())
}

/// Writes the settings onto a copy of `existing`, which is left as it is.
/// Settings with an `Unknown` field are rejected with `InvalidInput`.
pub fn to_native(settings: &PortSettings, existing: &ControlBlock) -> (r: Result<ControlBlock, Error>)
    ensures
        crate::settings_known(*settings) ==> r == Ok::<ControlBlock, Error>(
            native_of(*settings, *existing),
        ),
        !crate::settings_known(*settings) ==> is_invalid_input(r, unknown_field_message(*settings)),
{
    let mut dcb = *existing;
    set_baud_rate(&mut dcb, settings.baud_rate);
    if let Err(e) = set_data_bits(&mut dcb, settings.data_bits) {
        return Err(e);
    }
    if let Err(e) = set_parity(&mut dcb, settings.parity) {
        return Err(e);
    }
    if let Err(e) = set_stop_bits(&mut dcb, settings.stop_bits) {
        return Err(e);
    }
    if let Err(e) = set_flow_control(&mut dcb, settings.flow_control) {
        return Err(e);
    }
    Ok(dcb)
}

pub fn read_data_bits(dcb: &ControlBlock) -> (r: DataBits)
    ensures
        r == data_bits_of(dcb.byte_size),
{
    match dcb.byte_size {
        5 => DataBits::Five,
        6 => DataBits::Six,
        7 => DataBits::Seven,
        8 => DataBits::Eight,
        _ => DataBits::Unknown,
    }
}

pub fn read_parity(dcb: &ControlBlock) -> (r: Parity)
    ensures
        r == parity_of(dcb.parity),
{
    if dcb.parity == ODDPARITY {
        Parity::Odd
    } else if dcb.parity == EVENPARITY {
        Parity::Even
    } else if dcb.parity == NOPARITY {
        Parity::Off
    } else {
        Parity::Unknown
    }
}

pub fn read_stop_bits(dcb: &ControlBlock) -> (r: StopBits)
    ensures
        r == stop_bits_of(dcb.stop_bits),
{
    if dcb.stop_bits == TWOSTOPBITS {
        StopBits::Two
    } else if dcb.stop_bits == ONESTOPBIT {
        StopBits::One
    } else if dcb.stop_bits == ONE5STOPBITS {
        StopBits::OnePointFive
    } else {
        StopBits::Unknown
    }
}

pub fn read_flow_control(dcb: &ControlBlock) -> (r: FlowControl)
    ensures
        r == flow_control_of(dcb.bitfield),
{
    let rts = dcb.rts_control();
    let driven = match rts {
        RtsControl::Disable => false,
        _ => true,
    };
    assert(driven == (field2(dcb.bitfield, BIT_RTS_CONTROL) != 0)) by {
        let w = dcb.bitfield;
        assert(field2(w, 12) < 4) by (bit_vector);
    }
    let hardware = dcb.outx_cts_flow() || driven;
    let software = dcb.out_x() || dcb.in_x();
    if hardware && software {
        FlowControl::Unknown
    } else if hardware {
        FlowControl::Hardware
    } else if software {
        FlowControl::Software
    } else {
        FlowControl::Off
    }
}

/// Reads the portable settings back from a block; a field whose native value
/// matches no variant reads as `Unknown`.
pub fn from_native(dcb: &ControlBlock) -> (r: PortSettings)
    ensures
        r == settings_of(*dcb),
{
    PortSettings {
        baud_rate: dcb.baud_rate,
        data_bits: read_data_bits(dcb),
        parity: read_parity(dcb),
        stop_bits: read_stop_bits(dcb),
        flow_control: read_flow_control(dcb),
    }
}


proof fn lemma_flow_group(w: u32, cts: bool, rts: u32, out_x: bool, in_x: bool, j: u32)
    by (bit_vector)
    requires
        rts < 4,
        j < 32,
    ensures
        ({
            let g = with_flag(
                with_flag(with_field2(with_flag(w, 2, cts), 12, rts), 8, out_x),
                9,
                in_x,
            );
            &&& flag(g, 2) == cts
            &&& field2(g, 12) == rts
            &&& flag(g, 8) == out_x
            &&& flag(g, 9) == in_x
            &&& (j != 2 && j != 8 && j != 9 && j != 12 && j != 13) ==> flag(g, j) == flag(w, j)
        }),
{
}

proof fn lemma_defaults_word(w: u32)
    by (bit_vector)
    ensures
        ({
            let d = with_flag(
                with_flag(
                    with_flag(
                        with_flag(with_field2(with_flag(with_flag(w, 0, true), 3, false), 4, 0), 6, false),
                        10,
                        false,
                    ),
                    11,
                    false,
                ),
                14,
                false,
            );
            &&& flag(d, 0)
            &&& !flag(d, 3)
            &&& field2(d, 4) == 0
            &&& !flag(d, 6)
            &&& !flag(d, 10)
            &&& !flag(d, 11)
            &&& !flag(d, 14)
        }),
{
}

/// Writing known settings onto any block and reading them back gives the same
/// settings; in particular for the all-zero block of `default_block`.
pub proof fn lemma_round_trip(s: PortSettings, b: ControlBlock)
    requires
        crate::settings_known(s),
    ensures
        settings_of(native_of(s, b)) == s,
        settings_of(native_of(s, zero_block())) == s,
{
    let w = with_flag(b.bitfield, BIT_PARITY, s.parity != Parity::Off);
    let z = with_flag(zero_block().bitfield, BIT_PARITY, s.parity != Parity::Off);
    match s.flow_control {
        FlowControl::Software => {
            lemma_flow_group(w, false, 0, true, true, 0);
            lemma_flow_group(z, false, 0, true, true, 0);
        },
        FlowControl::Hardware => {
            lemma_flow_group(w, true, 1, false, false, 0);
            lemma_flow_group(z, true, 1, false, false, 0);
        },
        _ => {
            lemma_flow_group(w, false, 0, false, false, 0);
            lemma_flow_group(z, false, 0, false, false, 0);
        },
    }
}

/// The block that an open writes, the device's block with the defaults and then
/// known settings applied, reads back as those settings field by field.
pub proof fn lemma_open_block_reads_back(s: PortSettings, b: ControlBlock)
    requires
        crate::settings_known(s),
    ensures
        ({
            let c = native_of(s, defaults_applied(b));
            &&& c.baud_rate == s.baud_rate
            &&& data_bits_of(c.byte_size) == s.data_bits
            &&& parity_of(c.parity) == s.parity
            &&& stop_bits_of(c.stop_bits) == s.stop_bits
            &&& flow_control_of(c.bitfield) == s.flow_control
        }),
{
    lemma_round_trip(s, defaults_applied(b));
}

/// Applying the defaults and then any known settings leaves binary mode on, DSR
/// sensitivity off and abort-on-error off (as well as DSR output flow, DTR
/// control, error-character substitution and null stripping off, and the fixed
/// XON, XOFF, error and end-of-file characters).
pub proof fn lemma_defaults_hold(s: PortSettings, b: ControlBlock)
    requires
        crate::settings_known(s),
    ensures
        ({
            let c = native_of(s, defaults_applied(b));
            &&& flag(c.bitfield, BIT_BINARY)
            &&& !flag(c.bitfield, BIT_DSR_SENSITIVITY)
            &&& !flag(c.bitfield, BIT_ABORT_ON_ERROR)
            &&& !flag(c.bitfield, BIT_OUTX_DSR_FLOW)
            &&& field2(c.bitfield, BIT_DTR_CONTROL) == 0
            &&& !flag(c.bitfield, BIT_ERROR_CHAR)
            &&& !flag(c.bitfield, BIT_NULL)
            &&& c.xon_char == 0x11 && c.xoff_char == 0x13
            &&& c.error_char == 0 && c.eof_char == 0x1A
        }),
{
    let d = defaults_word(b.bitfield);
    lemma_defaults_word(b.bitfield);
    let p = s.parity != Parity::Off;
    let w = with_flag(d, BIT_PARITY, p);
    lemma_with_flag(d, 1, p, 0);
    lemma_with_flag(d, 1, p, 3);
    lemma_with_flag(d, 1, p, 4);
    lemma_with_flag(d, 1, p, 6);
    lemma_with_flag(d, 1, p, 10);
    lemma_with_flag(d, 1, p, 11);
    lemma_with_flag(d, 1, p, 14);
    let (cts, rts, ox, ix) = match s.flow_control {
        FlowControl::Software => (false, 0u32, true, true),
        FlowControl::Hardware => (true, 1u32, false, false),
        _ => (false, 0u32, false, false),
    };
    lemma_flow_group(w, cts, rts, ox, ix, 0);
    lemma_flow_group(w, cts, rts, ox, ix, 3);
    lemma_flow_group(w, cts, rts, ox, ix, 4);
    lemma_flow_group(w, cts, rts, ox, ix, 5);
    lemma_flow_group(w, cts, rts, ox, ix, 6);
    lemma_flow_group(w, cts, rts, ox, ix, 10);
    lemma_flow_group(w, cts, rts, ox, ix, 11);
    lemma_flow_group(w, cts, rts, ox, ix, 14);
    assert(field2(w, 4) == 0) by {
        assert(field2(w, 4) == 0 <==> (!flag(w, 4) && !flag(w, 5))) by (bit_vector);
        lemma_with_flag(d, 1, p, 5);
        assert(field2(d, 4) == 0 <==> (!flag(d, 4) && !flag(d, 5))) by (bit_vector);
    }
    let g = flow_word(w, s.flow_control);
    assert(field2(g, 4) == 0) by {
        assert(field2(g, 4) == 0 <==> (!flag(g, 4) && !flag(g, 5))) by (bit_vector);
        assert(field2(w, 4) == 0 <==> (!flag(w, 4) && !flag(w, 5))) by (bit_vector);
    }
}

} // verus!
