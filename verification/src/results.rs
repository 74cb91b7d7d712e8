//! HRESULT codes returned by the runtime, held as their signed 32-bit values.
use vstd::prelude::*;

verus! {

/// `S_OK`
pub const S_OK: i32 = 0;

/// `E_NOTIMPL` (0x80004001)
pub const E_NOTIMPL: i32 = -2147467263;

/// `E_NOINTERFACE` (0x80004002)
pub const E_NOINTERFACE: i32 = -2147467262;

/// `E_POINTER` (0x80004003)
pub const E_POINTER: i32 = -2147467261;

/// `E_ABORT` (0x80004004)
pub const E_ABORT: i32 = -2147467260;

/// `E_FAIL` (0x80004005)
pub const E_FAIL: i32 = -2147467259;

/// `E_PENDING` (0x8000000A)
pub const E_PENDING: i32 = -2147483638;

/// `CLASS_E_CLASSNOTAVAILABLE` (0x80040111)
pub const CLASS_E_CLASSNOTAVAILABLE: i32 = -2147221231;

/// An HRESULT reports failure when its sign bit is set.
pub open spec fn spec_failed(hr: i32) -> bool {
    hr < 0
}

/// `FAILED(hr)`.
pub fn failed(hr: i32) -> (r: bool)
    ensures
        r == spec_failed(hr),
{
    hr < 0
}

/// The unsigned 32-bit pattern of an HRESULT (its two's complement bits).
pub open spec fn hr_bits(hr: i32) -> u32 {
    if hr >= 0 {
        hr as u32
    } else {
        (hr + 0x1_0000_0000) as u32
    }
}

/// The HRESULT whose bit pattern is `bits`.
pub open spec fn hr_of_bits(bits: u32) -> i32 {
    if bits < 0x8000_0000 {
        bits as i32
    } else {
        (bits - 0x1_0000_0000) as i32
    }
}

/// Returns the bit pattern of an HRESULT.
pub fn hresult_bits(hr: i32) -> (r: u32)
    ensures
        r == hr_bits(hr),
{
    if hr >= 0 {
        hr as u32
    } else {
        (hr as i64 + 0x1_0000_0000i64) as u32
    }
}

/// Returns the HRESULT of a bit pattern.
pub fn hresult_from_bits(bits: u32) -> (r: i32)
    ensures
        r == hr_of_bits(bits),
{
    if bits < 0x8000_0000 {
        bits as i32
    } else {
        (bits as i64 - 0x1_0000_0000i64) as i32
    }
}

/// Reading an HRESULT back from its bits gives the same HRESULT, and the
/// bits of a pattern's HRESULT are that pattern.
pub proof fn lemma_hr_bits_roundtrip(hr: i32, bits: u32)
    ensures
        hr_of_bits(hr_bits(hr)) == hr,
        hr_bits(hr_of_bits(bits)) == bits,
{
}

/// The HRESULT codes have the bit patterns that Windows defines: `S_OK` is
/// 0, `E_NOTIMPL` 0x80004001, `E_NOINTERFACE` 0x80004002, `E_POINTER`
/// 0x80004003, `E_ABORT` 0x80004004, `E_FAIL` 0x80004005, `E_PENDING`
/// 0x8000000A and `CLASS_E_CLASSNOTAVAILABLE` 0x80040111; all but `S_OK`
/// report failure.
pub proof fn law_hresult_codes()
    ensures
        hr_bits(S_OK) == 0u32,
        hr_bits(E_NOTIMPL) == 0x80004001u32,
        hr_bits(E_NOINTERFACE) == 0x80004002u32,
        hr_bits(E_POINTER) == 0x80004003u32,
        hr_bits(E_ABORT) == 0x80004004u32,
        hr_bits(E_FAIL) == 0x80004005u32,
        hr_bits(E_PENDING) == 0x8000000Au32,
        hr_bits(CLASS_E_CLASSNOTAVAILABLE) == 0x80040111u32,
        !spec_failed(S_OK),
        spec_failed(E_NOTIMPL) && spec_failed(E_NOINTERFACE) && spec_failed(E_POINTER) && spec_failed(E_ABORT),
        spec_failed(E_FAIL) && spec_failed(E_PENDING) && spec_failed(CLASS_E_CLASSNOTAVAILABLE),
{
}

} // verus!
