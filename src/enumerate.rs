//! Port records built from what the OS device database reports for each port.
use vstd::prelude::*;

use vstd::string::StrSliceExecFns;

use crate::PortInfo;

verus! {

/// The UTF-16 code units of one character.
pub open spec fn char_units(c: char) -> Seq<u16> {
    let v = c as u32 as int;
    if v < 0x10000 {
        seq![v as u16]
    } else {
        seq![(0xD800 + (v - 0x10000) / 1024) as u16, (0xDC00 + (v - 0x10000) % 1024) as u16]
    }
}

/// The UTF-16 encoding of a string.
pub open spec fn utf16_units(s: Seq<char>) -> Seq<u16>
    decreases s.len(),
{
    if s.len() == 0 {
        Seq::empty()
    } else {
        utf16_units(s.drop_last()) + char_units(s.last())
    }
}

/// What a lossy UTF-16 decode makes of the code units.
pub uninterp spec fn utf16_lossy(units: Seq<u16>) -> Seq<char>;

/// The code units without their trailing zeros.
pub open spec fn trim_nul(s: Seq<u16>) -> Seq<u16>
    decreases s.len(),
{
    if s.len() > 0 && s.last() == 0 {
        trim_nul(s.drop_last())
    } else {
        s
    }
}

/// The UTF-16 code units of the string, in order.
fn encode_utf16(s: &str) -> (r: Vec<u16>)
    ensures
        r@ == utf16_units(s@),
{
    let n = s.unicode_len();
    let mut units: Vec<u16> = Vec::new();
    let mut i: usize = 0;
    while i < n
        invariant
            n == s@.len(),
            i <= n,
            units@ == utf16_units(s@.subrange(0, i as int)),
        decreases n - i,
    {
        let c = s.get_char(i);
        let v = c as u32;
        assert(s@.subrange(0, i + 1).drop_last() =~= s@.subrange(0, i as int));
        assert(s@.subrange(0, i + 1).last() == c);
        if v < 0x10000 {
            units.push(v as u16);
        } else {
            let w: u32 = v - 0x10000;
            units.push((0xD800u32 + w / 1024) as u16);
            units.push((0xDC00u32 + w % 1024) as u16);
        }
        i = i + 1;
        assert(units@ =~= utf16_units(s@.subrange(0, i as int)));
    }
    assert(s@.subrange(0, n as int) =~= s@);
    units
}

/// Relies on String::from_utf16_lossy: decodes UTF-16, putting U+FFFD for each
/// unpaired surrogate; nothing decodes to nothing.
#[verifier::external_body]
fn decode_utf16_lossy(units: &[u16]) -> (r: String)
    ensures
        r@ == utf16_lossy(units@),
        units@.len() == 0 ==> r@.len() == 0,
{
    String::from_utf16_lossy(units)
}

/// The string as NUL-terminated UTF-16.
pub fn as_utf16(utf8: &str) -> (r: Vec<u16>)
    ensures
        r@ == utf16_units(utf8@).push(0),
{
    let mut units = encode_utf16(utf8);
    units.push(0);
    units
}

/// Decodes a buffer filled by the OS, dropping the NUL padding at its end.
pub fn from_utf16_lossy_trimmed(utf16: &[u16]) -> (r: String)
    ensures
        r@ == utf16_lossy(trim_nul(utf16@)),
{
    let mut n: usize = utf16.len();
    assert(utf16@.subrange(0, n as int) =~= utf16@);
    while n > 0 && utf16[n - 1] == 0
        invariant
            n <= utf16@.len(),
            trim_nul(utf16@.subrange(0, n as int)) == trim_nul(utf16@),
        decreases n,
    {
        assert(utf16@.subrange(0, n as int).drop_last() =~= utf16@.subrange(0, n - 1));
        n = n - 1;
    }
    assert(trim_nul(utf16@.subrange(0, n as int)) == utf16@.subrange(0, n as int));
    decode_utf16_lossy(&utf16[0..n])
}

/// What the OS device database gave for one port: the registry value with its
/// port name and its friendly name, each as the UTF-16 buffer read, or `None`
/// where the lookup failed.
#[derive(Debug, Clone, PartialEq, Eq)]
pub struct DeviceProperties {
    pub port_name: Option<Vec<u16>>,
    pub friendly_name: Option<Vec<u16>>,
}

/// The text of a looked-up property; empty where the lookup failed.
pub open spec fn property_text(p: Option<Vec<u16>>) -> Seq<char> {
    match p {
        Some(units) => utf16_lossy(trim_nul(units@)),
        None => Seq::empty(),
    }
}

/// Whether the record is the one built from the device's properties.
pub open spec fn is_record_of(r: PortInfo, d: DeviceProperties) -> bool {
    r.path@ == property_text(d.port_name) && r.name@ == property_text(d.friendly_name)
}

fn property_string(p: &Option<Vec<u16>>) -> (r: String)
    ensures
        r@ == property_text(*p),
{
    match p {
        Some(units) => from_utf16_lossy_trimmed(units.as_slice()),
        None => String::new(),
    }
}

/// The record of one port: a failed lookup leaves its field empty.
pub fn port_record(d: &DeviceProperties) -> (r: PortInfo)
    ensures
        is_record_of(r, *d),
{
    PortInfo { path: property_string(&d.port_name), name: property_string(&d.friendly_name) }
}

/// One record per device, in the order given; a device whose lookups failed still
/// has its record.
pub fn port_records(devices: &Vec<DeviceProperties>) -> (r: Vec<PortInfo>)
    ensures
        r@.len() == devices@.len(),
        forall|i: int| 0 <= i < r@.len() ==> is_record_of(#[trigger] r@[i], devices@[i]),
{
    let mut records: Vec<PortInfo> = Vec::new();
    let mut i: usize = 0;
    while i < devices.len()
        invariant
            i <= devices@.len(),
            records@.len() == i,
            forall|k: int| 0 <= k < i ==> is_record_of(#[trigger] records@[k], devices@[k]),
        decreases devices@.len() - i,
    {
        records.push(port_record(&devices[i]));
        i = i + 1;
    }
    records
}

} // verus!
