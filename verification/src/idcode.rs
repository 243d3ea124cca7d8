//! Decoding of the 32-bit identification registers of a debug port.

use vstd::prelude::*;

verus! {

/// The revision field: bits 31 to 28.
pub open spec fn revision_of(value: u32) -> int {
    value as int / 0x1000_0000
}

/// The part number field: bits 27 to 12.
pub open spec fn part_number_of(value: u32) -> int {
    (value as int / 0x1000) % 0x1_0000
}

/// The designer field: bits 11 to 1.
pub open spec fn designer_of(value: u32) -> int {
    (value as int / 2) % 0x800
}

/// The lowest bit, which reads as one on every debug port.
pub open spec fn reserved_of(value: u32) -> int {
    value as int % 2
}

/// Splits an identification register into
/// `(revision, part number, designer, reserved bit)`.
pub fn parse_target_id(value: u32) -> (fields: (u8, u16, u16, u8))
    ensures
        fields.0 == revision_of(value),
        fields.1 == part_number_of(value),
        fields.2 == designer_of(value),
        fields.3 == reserved_of(value),
{
    let revision: u32 = value >> 28;
    let part: u32 = (value >> 12) & 0xFFFF;
    let designer: u32 = (value >> 1) & 0x07FF;
    let reserved: u32 = value & 0x01;
    assert(revision == value / 0x1000_0000 && revision < 16) by (bit_vector)
        requires
            revision == value >> 28,
    ;
    assert(part == (value / 0x1000) % 0x1_0000 && part < 0x1_0000) by (bit_vector)
        requires
            part == (value >> 12) & 0xFFFF,
    ;
    assert(designer == (value / 2) % 0x800 && designer < 0x800) by (bit_vector)
        requires
            designer == (value >> 1) & 0x07FF,
    ;
    assert(reserved == value % 2 && reserved < 2) by (bit_vector)
        requires
            reserved == value & 0x01,
    ;
    (revision as u8, part as u16, designer as u16, reserved as u8)
}

/// The register that holds the four fields, each within its width.
pub open spec fn composed(revision: u8, part_number: u16, designer: u16, reserved: u8) -> int {
    revision * 0x1000_0000 + part_number * 0x1000 + designer * 2 + reserved
}

/// Whether each field fits the bits that the register has for it.
pub open spec fn fits(revision: u8, part_number: u16, designer: u16, reserved: u8) -> bool {
    revision < 0x10 && designer < 0x800 && reserved < 2
}

/// Puts the four fields together into an identification register. A field
/// that is wider than its place in the register gives `None`.
pub fn compose_target_id(revision: u8, part_number: u16, designer: u16, reserved: u8) -> (value:
    Option<u32>)
    ensures
        fits(revision, part_number, designer, reserved) ==> value is Some && value->0 == composed(
            revision,
            part_number,
            designer,
            reserved,
        ),
        !fits(revision, part_number, designer, reserved) ==> value is None,
{
    if revision < 0x10 && designer < 0x800 && reserved < 2 {
        let high: u32 = revision as u32 * 0x1000_0000;
        let middle: u32 = part_number as u32 * 0x1000;
        let low: u32 = designer as u32 * 2 + reserved as u32;
        Some(high + middle + low)
    } else {
        None
    }
}

/// Decoding what was composed gives the fields back.
pub proof fn lemma_compose_then_parse(revision: u8, part_number: u16, designer: u16, reserved: u8)
    requires
        fits(revision, part_number, designer, reserved),
    ensures
        0 <= composed(revision, part_number, designer, reserved) <= u32::MAX,
        revision_of(composed(revision, part_number, designer, reserved) as u32) == revision,
        part_number_of(composed(revision, part_number, designer, reserved) as u32) == part_number,
        designer_of(composed(revision, part_number, designer, reserved) as u32) == designer,
        reserved_of(composed(revision, part_number, designer, reserved) as u32) == reserved,
{
}

/// Composing what was decoded gives the register back.
pub proof fn lemma_parse_then_compose(value: u32)
    ensures
        fits(
            revision_of(value) as u8,
            part_number_of(value) as u16,
            designer_of(value) as u16,
            reserved_of(value) as u8,
        ),
        composed(
            revision_of(value) as u8,
            part_number_of(value) as u16,
            designer_of(value) as u16,
            reserved_of(value) as u8,
        ) == value,
{
}

/// The kinds of debug port that an identification code can name.
#[derive(Clone, Copy, Debug, PartialEq, Eq, Structural)]
pub enum DebugPort {
    /// A debug port reached over JTAG.
    JtagDp,
    /// A debug port reached over serial wire.
    SwDp,
}

/// The selector of a JTAG debug port.
pub const JTAG_DP: u8 = 0x4;

/// The selector of a serial wire debug port.
pub const SW_DP: u8 = 0x3;

/// The kind of debug port that a protocol selector names, if it names one.
pub open spec fn port_of(selector: u8) -> Option<DebugPort> {
    if selector == JTAG_DP {
        Some(DebugPort::JtagDp)
    } else if selector == SW_DP {
        Some(DebugPort::SwDp)
    } else {
        None
    }
}

/// The kind of debug port that a protocol selector names, if it names one.
pub fn debug_port(selector: u8) -> (port: Option<DebugPort>)
    ensures
        port == port_of(selector),
{
    if selector == JTAG_DP {
        Some(DebugPort::JtagDp)
    } else if selector == SW_DP {
        Some(DebugPort::SwDp)
    } else {
        None
    }
}

/// The name of the protocol that a selector stands for.
pub open spec fn name_of(selector: u8) -> Seq<char> {
    match port_of(selector) {
        Some(DebugPort::JtagDp) => "JTAG-DP"@,
        Some(DebugPort::SwDp) => "SW-DP"@,
        None => "Unknown Protocol"@,
    }
}

/// The name of the protocol that a selector stands for.
pub fn protocol_name(selector: u8) -> (name: &'static str)
    ensures
        name@ == name_of(selector),
{
    match debug_port(selector) {
        Some(DebugPort::JtagDp) => "JTAG-DP",
        Some(DebugPort::SwDp) => "SW-DP",
        None => "Unknown Protocol",
    }
}

/// Why an identification code is not that of a known debug port.
#[derive(Clone, Copy, Debug, PartialEq, Eq, Structural)]
pub enum Mismatch {
    /// The lowest bit is not one.
    ReservedBit,
    /// The protocol selector names no known debug port.
    Protocol,
    /// The part number is not a known one.
    PartNumber,
}

/// Whether `part_number` is that of a known debug port.
pub open spec fn is_known_part(part_number: int) -> bool {
    part_number == 0xBA00 || part_number == 0xBA02
}

/// The kind of debug port that an identification code stands for, or the
/// first thing that is wrong with it. The protocol selector sits in the
/// revision field.
pub open spec fn recognised(value: u32) -> Result<DebugPort, Mismatch> {
    if reserved_of(value) != 1 {
        Err(Mismatch::ReservedBit)
    } else if port_of(revision_of(value) as u8) is None {
        Err(Mismatch::Protocol)
    } else if !is_known_part(part_number_of(value)) {
        Err(Mismatch::PartNumber)
    } else {
        Ok(port_of(revision_of(value) as u8)->0)
    }
}

/// Checks an identification code against what a known debug port reports.
pub fn validate_idcode(value: u32) -> (verdict: Result<DebugPort, Mismatch>)
    ensures
        verdict == recognised(value),
{
    let (selector, part_number, _, reserved) = parse_target_id(value);
    if reserved != 1 {
        return Err(Mismatch::ReservedBit);
    }
    match debug_port(selector) {
        None => Err(Mismatch::Protocol),
        Some(port) => if part_number == 0xBA00 || part_number == 0xBA02 {
            Ok(port)
        } else {
            Err(Mismatch::PartNumber)
        },
    }
}

/// A code whose lowest bit is zero is never recognised, whatever its other
/// fields hold.
pub proof fn lemma_reserved_bit_is_required(value: u32)
    requires
        reserved_of(value) == 0,
    ensures
        recognised(value) == Err::<DebugPort, Mismatch>(Mismatch::ReservedBit),
{
}

} // verus!
