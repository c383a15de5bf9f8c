//! CPU temperature from the SMC of a Mac (or of a Hackintosh with the
//! VirtualSMC extensions).
//!
//! A temperature key is found by trying a fixed chain of keys in order; a
//! raw reading is decoded by its SMC data type: `sp78` (signed 7.8 fixed
//! point), `flt ` (little-endian IEEE 754 single) or `fpe2` (little-endian
//! hundredths).

pub mod smc;

use vstd::prelude::*;

verus! {

/// Number of keys in the probing chain.
pub const KEY_CHAIN_LEN: usize = 12;

/// The SMC keys to try, in order: package, cores 0 to 7, then three
/// platform-specific ones.
pub open spec fn key_chain_spec() -> Seq<&'static str> {
    seq!["TC0P", "TC0C", "TC1C", "TC2C", "TC3C", "TC4C", "TC5C", "TC6C", "TC7C", "TCAD", "Tp01", "TC0H"]
}

/// The SMC keys to try, in order.
pub fn key_chain() -> (r: [&'static str; 12])
    ensures
        r@ == key_chain_spec(),
{
    let r = ["TC0P", "TC0C", "TC1C", "TC2C", "TC3C", "TC4C", "TC5C", "TC6C", "TC7C", "TCAD", "Tp01", "TC0H"];
    assert(r@ =~= key_chain_spec());
    r
}

/// Tries the keys of the chain in order and gives the first one that
/// `readable` accepts (the caller reads the sensor there).
pub fn probe_key(readable: impl Fn(&'static str) -> bool) -> (r: Option<&'static str>)
    requires
        forall|k: &'static str| readable.requires((k,)),
    ensures
        r matches Some(k) ==> exists|i: int|
            0 <= i < 12 && k == key_chain_spec()[i] && readable.ensures((k,), true) && forall|j: int|
                0 <= j < i ==> readable.ensures((#[trigger] key_chain_spec()[j],), false),
        r is None ==> forall|j: int|
            0 <= j < 12 ==> readable.ensures((#[trigger] key_chain_spec()[j],), false),
{
    let keys = key_chain();
    let mut i: usize = 0;
    while i < KEY_CHAIN_LEN
        invariant
            keys@ == key_chain_spec(),
            i <= 12,
            forall|k: &'static str| readable.requires((k,)),
            forall|j: int| 0 <= j < i ==> readable.ensures((#[trigger] key_chain_spec()[j],), false),
        decreases 12 - i,
    {
        let k = keys[i];
        if readable(k) {
            return Some(k);
        }
        i = i + 1;
    }
    None
}

/// SMC data type `sp78`.
pub const TYPE_SP78: u32 = 0x73703738;

/// SMC data type `flt ` (with a trailing space).
pub const TYPE_FLT: u32 = 0x666c7420;

/// SMC data type `fpe2`.
pub const TYPE_FPE2: u32 = 0x66706532;

/// A decoded SMC reading, exactly.
#[derive(Clone, Copy, Debug, PartialEq, Eq, Structural)]
pub enum Reading {
    /// The value `num / den`.
    Ratio { num: i32, den: u32 },
    /// An IEEE 754 single, by its bits.
    F32Bits(u32),
}

/// A byte read as a two's-complement `i8`.
pub open spec fn signed_byte(b: u8) -> int {
    if b < 128 { b as int } else { b as int - 256 }
}

/// Four bytes read as a little-endian `u32`.
pub open spec fn le_u32(b: Seq<u8>) -> int {
    b[0] + 256 * b[1] + 65536 * b[2] + 16777216 * b[3]
}

/// The reading that raw bytes of a given SMC data type hold; none for
/// another type or too few bytes.
pub open spec fn decoded(dtype: u32, bytes: Seq<u8>) -> Option<Reading> {
    if dtype == TYPE_SP78 && bytes.len() >= 2 {
        Some(Reading::Ratio { num: (signed_byte(bytes[0]) * 256 + bytes[1]) as i32, den: 256 })
    } else if dtype == TYPE_FLT && bytes.len() >= 4 {
        Some(Reading::F32Bits(le_u32(bytes) as u32))
    } else if dtype == TYPE_FPE2 && bytes.len() >= 2 {
        Some(Reading::Ratio { num: (bytes[0] + 256 * bytes[1]) as i32, den: 100 })
    } else {
        None
    }
}

/// Decodes raw SMC bytes by their data type.
pub fn decode(dtype: u32, bytes: &[u8]) -> (r: Option<Reading>)
    ensures
        r == decoded(dtype, bytes@),
{
    if dtype == TYPE_SP78 && bytes.len() >= 2 {
        let b0 = bytes[0];
        let whole: i32 = if b0 < 128 { b0 as i32 } else { b0 as i32 - 256 };
        Some(Reading::Ratio { num: whole * 256 + bytes[1] as i32, den: 256 })
    } else if dtype == TYPE_FLT && bytes.len() >= 4 {
        let bits: u32 = bytes[0] as u32 + 256 * bytes[1] as u32 + 65536 * bytes[2] as u32 + 16777216
            * bytes[3] as u32;
        Some(Reading::F32Bits(bits))
    } else if dtype == TYPE_FPE2 && bytes.len() >= 2 {
        Some(Reading::Ratio { num: bytes[0] as i32 + 256 * bytes[1] as i32, den: 100 })
    } else {
        None
    }
}

} // verus!
