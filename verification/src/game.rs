//! The game's configuration (`MicrosoftGame.config`) and the title id it
//! carries in hexadecimal.
use vstd::prelude::*;
use vstd::string::StrSliceExecFns;
use crate::results::E_FAIL;

verus! {

/// The configuration entries the runtime reads.
#[derive(Clone, Debug)]
pub struct Game {
    pub store_id: String,
    pub title_id: String,
    pub msa_app_id: Option<String>,
}

/// The value of a hexadecimal digit (either case), if `c` is one.
pub open spec fn spec_hex_digit(c: char) -> Option<int> {
    if '0' <= c && c <= '9' {
        Some(c as int - '0' as int)
    } else if 'a' <= c && c <= 'f' {
        Some(c as int - 'a' as int + 10)
    } else if 'A' <= c && c <= 'F' {
        Some(c as int - 'A' as int + 10)
    } else {
        None
    }
}

/// Every character is a hexadecimal digit.
pub open spec fn spec_all_hex(ds: Seq<char>) -> bool {
    forall|i: int| 0 <= i < ds.len() ==> spec_hex_digit(#[trigger] ds[i]) is Some
}

/// The value of a string of hexadecimal digits.
pub open spec fn spec_hex_value(ds: Seq<char>) -> int
    decreases ds.len(),
{
    if ds.len() == 0 {
        0
    } else {
        spec_hex_value(ds.drop_last()) * 16 + match spec_hex_digit(ds.last()) {
            Some(d) => d,
            None => 0,
        }
    }
}

/// `i64::from_str_radix(s, 16)`: an optional `+` or `-`, then at least one
/// hexadecimal digit, with a value that fits in an `i64`.
pub open spec fn spec_parse_hex_i64(s: Seq<char>) -> Option<i64> {
    if s.len() == 0 {
        None
    } else {
        let neg = s[0] == '-';
        let ds = if s[0] == '+' || s[0] == '-' { s.drop_first() } else { s };
        if ds.len() == 0 || !spec_all_hex(ds) {
            None
        } else {
            let v = if neg { -spec_hex_value(ds) } else { spec_hex_value(ds) };
            if i64::MIN <= v && v <= i64::MAX {
                Some(v as i64)
            } else {
                None
            }
        }
    }
}

proof fn lemma_hex_value_step(ds: Seq<char>, i: int)
    requires
        0 <= i < ds.len(),
    ensures
        spec_hex_value(ds.subrange(0, i + 1)) == spec_hex_value(ds.subrange(0, i)) * 16
            + match spec_hex_digit(ds[i]) { Some(d) => d, None => 0 },
{
    let p = ds.subrange(0, i + 1);
    assert(p.drop_last() =~= ds.subrange(0, i));
    assert(p.last() == ds[i]);
}

proof fn lemma_hex_value_grows(ds: Seq<char>, j: int)
    requires
        0 <= j <= ds.len(),
    ensures
        spec_hex_value(ds) >= spec_hex_value(ds.subrange(0, j)),
        spec_hex_value(ds.subrange(0, j)) >= 0,
    decreases ds.len() - j,
{
    lemma_hex_value_nonneg(ds.subrange(0, j));
    if j < ds.len() {
        lemma_hex_value_step(ds, j);
        lemma_hex_value_nonneg(ds.subrange(0, j + 1));
        lemma_hex_value_grows(ds, j + 1);
    } else {
        assert(ds.subrange(0, j) =~= ds);
    }
}

proof fn lemma_hex_value_nonneg(ds: Seq<char>)
    ensures
        spec_hex_value(ds) >= 0,
    decreases ds.len(),
{
    if ds.len() > 0 {
        lemma_hex_value_nonneg(ds.drop_last());
    }
}

fn hex_digit(c: char) -> (r: Option<u8>)
    ensures
        match spec_hex_digit(c) {
            Some(d) => r matches Some(v) && v as int == d,
            None => r is None,
        },
{
    if '0' <= c && c <= '9' {
        Some(((c as u32) - ('0' as u32)) as u8)
    } else if 'a' <= c && c <= 'f' {
        Some(((c as u32) - ('a' as u32) + 10) as u8)
    } else if 'A' <= c && c <= 'F' {
        Some(((c as u32) - ('A' as u32) + 10) as u8)
    } else {
        None
    }
}

/// `i64::from_str_radix(s, 16)`, with `None` for every input it rejects.
#[verifier::loop_isolation(false)]
pub fn from_str_radix_16(s: &str) -> (r: Option<i64>)
    ensures
        r == spec_parse_hex_i64(s@),
{
    let n = s.unicode_len();
    if n == 0 {
        return None;
    }
    let first = s.get_char(0);
    let neg = first == '-';
    let start: usize = if first == '+' || first == '-' { 1 } else { 0 };
    let ghost ds = if s@[0] == '+' || s@[0] == '-' { s@.drop_first() } else { s@ };
    assert(ds =~= s@.subrange(start as int, n as int));
    if start == n {
        return None;
    }
    let limit: u128 = 0x8000_0000_0000_0000;
    let mut acc: u128 = 0;
    let mut i: usize = start;
    while i < n
        invariant
            n == s@.len(),
            start <= i <= n,
            ds == s@.subrange(start as int, n as int),
            acc as int == spec_hex_value(ds.subrange(0, i - start)),
            acc <= limit,
            limit == 0x8000_0000_0000_0000u128,
            forall|k: int| 0 <= k < i - start ==> spec_hex_digit(#[trigger] ds[k]) is Some,
        decreases n - i,
    {
        let c = s.get_char(i);
        assert(c == ds[i - start]);
        match hex_digit(c) {
            None => {
                assert(spec_hex_digit(ds[i - start]) is None);
                assert(!spec_all_hex(ds));
                return None;
            },
            Some(d) => {
                proof {
                    lemma_hex_value_step(ds, i - start);
                }
                assert(acc * 16 + d <= 0x8000_0000_0000_0000 * 16 + 255) by (nonlinear_arith)
                    requires acc <= 0x8000_0000_0000_0000u128, d <= 255;
                let next = acc * 16 + d as u128;
                if next > limit {
                    proof {
                        lemma_hex_value_grows(ds, i - start + 1);
                    }
                    assert(spec_all_hex(ds) ==> spec_hex_value(ds) > limit);
                    return None;
                }
                acc = next;
            },
        }
        i = i + 1;
    }
    assert(ds.subrange(0, n - start) =~= ds);
    assert(spec_all_hex(ds));
    if neg {
        Some((0i128 - acc as i128) as i64)
    } else if acc <= 0x7FFF_FFFF_FFFF_FFFF {
        Some(acc as i64)
    } else {
        None
    }
}

impl Game {
    /// The title id is hexadecimal text that fits an `i64`.
    pub open spec fn spec_title_id_valid(&self) -> bool {
        spec_parse_hex_i64(self.title_id@) is Some
    }

    /// The title id's value.
    pub open spec fn spec_title_id(&self) -> i64 {
        spec_parse_hex_i64(self.title_id@)->0
    }

    /// The title id read as hexadecimal.
    pub fn get_title_id(&self) -> (id: i64)
        requires
            self.spec_title_id_valid(),
        ensures
            id == self.spec_title_id(),
    {
        match from_str_radix_16(self.title_id.as_str()) {
            Some(v) => v,
            None => 0,
        }
    }
}

/// The low 32 bits of a value, as `as u32` keeps them.
pub open spec fn spec_low_u32(v: i64) -> u32 {
    (v as int % 0x1_0000_0000) as u32
}

/// Returns the low 32 bits of a value.
pub fn low_u32(v: i64) -> (r: u32)
    ensures
        r == spec_low_u32(v),
{
    if v >= 0 {
        ((v as u64) % 0x1_0000_0000u64) as u32
    } else {
        let mag: u128 = (0i128 - v as i128) as u128;
        let a = mag % 0x1_0000_0000u128;
        assert((v as int) % 0x1_0000_0000 == (if a == 0 { 0 } else { 0x1_0000_0000 - a })) by (nonlinear_arith)
            requires
                v < 0,
                mag == -(v as int),
                a == mag % 0x1_0000_0000,
        ;
        if a == 0 {
            0
        } else {
            (0x1_0000_0000u128 - a) as u32
        }
    }
}

/// `XGameGetXboxTitleId`: the low 32 bits of the configured title id, or
/// `E_FAIL` when no configuration was found.
pub fn x_game_get_xbox_title_id(config: Option<&Game>) -> (r: Result<u32, i32>)
    requires
        config matches Some(g) ==> g.spec_title_id_valid(),
    ensures
        r == (match config {
            Some(g) => Ok::<u32, i32>(spec_low_u32(g.spec_title_id())),
            None => Err::<u32, i32>(E_FAIL),
        }),
{
    match config {
        Some(g) => Ok(low_u32(g.get_title_id())),
        None => Err(E_FAIL),
    }
}

/// The reply of the licensing service to a license token request.
#[derive(Clone, Debug)]
pub struct LicenseTokenResponse {
    pub license_token: String,
}

} // verus!
