//! What the library has from outside crates at run time: the reads that need
//! no privilege, and the setting of single bits.
use crate::protocol::Segment;
use vstd::prelude::*;
use x86::segmentation;

verus! {

/// The bits that the flags register is read with: every defined flag.
pub const RFLAGS_BITS: u64 = 0x3f7fd7;

/// Calls `x86::segmentation::cs`. The selector is whatever CS holds at that
/// moment; nothing is claimed of it.
#[verifier::external_body]
pub(crate) fn read_cs() -> (selector: u16) {
    segmentation::cs().bits()
}

/// Calls `x86::segmentation::ss`. The selector is whatever SS holds at that
/// moment; nothing is claimed of it.
#[verifier::external_body]
pub(crate) fn read_ss() -> (selector: u16) {
    segmentation::ss().bits()
}

/// Calls `x86::segmentation::ds`. The selector is whatever DS holds at that
/// moment; nothing is claimed of it.
#[verifier::external_body]
pub(crate) fn read_ds() -> (selector: u16) {
    segmentation::ds().bits()
}

/// Calls `x86::segmentation::es`. The selector is whatever ES holds at that
/// moment; nothing is claimed of it.
#[verifier::external_body]
pub(crate) fn read_es() -> (selector: u16) {
    segmentation::es().bits()
}

/// Calls `x86::segmentation::fs`. The selector is whatever FS holds at that
/// moment; nothing is claimed of it.
#[verifier::external_body]
pub(crate) fn read_fs() -> (selector: u16) {
    segmentation::fs().bits()
}

/// Calls `x86::segmentation::gs`. The selector is whatever GS holds at that
/// moment; nothing is claimed of it.
#[verifier::external_body]
pub(crate) fn read_gs() -> (selector: u16) {
    segmentation::gs().bits()
}

/// Calls `x86::bits64::rflags::read`. The flags are whatever RFLAGS holds at
/// that moment, with every bit dropped for which the crate names no flag. Bit 1
/// is among those it names, and is always set.
#[verifier::external_body]
pub(crate) fn read_rflags() -> (flags: u64)
    ensures
        flags & !RFLAGS_BITS == 0,
        flags & 2 == 2,
{
    x86::bits64::rflags::read().bits()
}

/// Calls `bitfield::BitMut::set_bit` on a word of 32 bits: the bit takes the
/// value, and the others stay. A position past the word's end would be a
/// shift out of range.
#[verifier::external_body]
pub(crate) fn set_bit(word: &mut u32, bit: usize, value: bool)
    requires
        bit < 32,
    ensures
        value ==> *final(word) == *old(word) | (1u32 << bit),
        !value ==> *final(word) == *old(word) & !(1u32 << bit),
{
    bitfield::BitMut::set_bit(word, bit, value)
}

/// Makes a read, and keeps hold of which one it was.
fn reading<T>(read: impl Fn() -> T) -> (value: T)
    requires
        call_requires(read, ()),
    ensures
        call_ensures(read, (), value),
{
    read()
}

/// Whether `selector` is what a read of that very segment register returned.
/// The two system segments are read with privilege, and never here.
pub closed spec fn selector_read(segment: Segment, selector: u16) -> bool {
    match segment {
        Segment::Cs => call_ensures(read_cs, (), selector),
        Segment::Ss => call_ensures(read_ss, (), selector),
        Segment::Ds => call_ensures(read_ds, (), selector),
        Segment::Es => call_ensures(read_es, (), selector),
        Segment::Fs => call_ensures(read_fs, (), selector),
        Segment::Gs => call_ensures(read_gs, (), selector),
        Segment::Ldtr | Segment::Tr => false,
    }
}

/// Whether `flags` is what a read of the flags register returned.
pub closed spec fn flags_read(flags: u64) -> bool {
    call_ensures(read_rflags, (), flags)
}

/// Reads a segment register's selector, where that needs no privilege.
pub(crate) fn read_own_selector(segment: Segment) -> (selector: Option<u16>)
    ensures
        selector is None <==> segment == Segment::Ldtr || segment == Segment::Tr,
        selector matches Some(selector) ==> selector_read(segment, selector),
{
    match segment {
        Segment::Cs => Some(reading(read_cs)),
        Segment::Ss => Some(reading(read_ss)),
        Segment::Ds => Some(reading(read_ds)),
        Segment::Es => Some(reading(read_es)),
        Segment::Fs => Some(reading(read_fs)),
        Segment::Gs => Some(reading(read_gs)),
        _ => None,
    }
}

/// Reads the flags.
pub(crate) fn read_own_flags() -> (flags: u64)
    ensures
        flags_read(flags),
        flags & !RFLAGS_BITS == 0,
        flags & 2 == 2,
{
    reading(read_rflags)
}

/// What counts as a read of a register is a read by the function for that
/// register, and by no other.
pub(crate) proof fn law_reads_are_of_their_registers(selector: u16, flags: u64)
    ensures
        selector_read(Segment::Cs, selector) ==> call_ensures(read_cs, (), selector),
        selector_read(Segment::Ss, selector) ==> call_ensures(read_ss, (), selector),
        selector_read(Segment::Ds, selector) ==> call_ensures(read_ds, (), selector),
        selector_read(Segment::Es, selector) ==> call_ensures(read_es, (), selector),
        selector_read(Segment::Fs, selector) ==> call_ensures(read_fs, (), selector),
        selector_read(Segment::Gs, selector) ==> call_ensures(read_gs, (), selector),
        !selector_read(Segment::Ldtr, selector),
        !selector_read(Segment::Tr, selector),
        flags_read(flags) ==> call_ensures(read_rflags, (), flags),
{
}

} // verus!
