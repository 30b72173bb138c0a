use vstd::prelude::*;

verus! {

/// The value of an ASCII hexadecimal digit written in lower case; any other
/// byte counts as zero.
pub open spec fn hex_value(b: u8) -> u8 {
    if 0x30 <= b <= 0x39 {
        (b - 0x30) as u8
    } else if 0x61 <= b <= 0x66 {
        (10 + (b - 0x61)) as u8
    } else {
        0
    }
}

/// Value of one lower-case hexadecimal digit, zero for anything else.
pub fn hex_digit(b: u8) -> (r: u8)
    ensures
        r == hex_value(b),
        r < 16,
{
    if 0x30 <= b && b <= 0x39 {
        b - 0x30
    } else if 0x61 <= b && b <= 0x66 {
        10 + (b - 0x61)
    } else {
        0
    }
}

} // verus!
