//! Turning the C++ types of the GDK headers into Rust types, and function
//! names into snake case, for generating interface declarations.
use vstd::prelude::*;
use vstd::string::StrSliceExecFns;
use vstd::string::StringExecFns;
use crate::text::{push_char, to_string, str_eq, starts_with, ends_with, trim, spec_starts_with, spec_ends_with, spec_trim};

verus! {

/// One function of the runtime's API and where it sits: the class and
/// interface ids, and its slot in the interface's vtable.
#[derive(Clone, Debug)]
pub struct GDKMappingEntry {
    pub function: String,
    pub header: String,
    pub clsid: String,
    pub iid: String,
    pub vtable_offset: Option<i64>,
    pub vtable_index: Option<i64>,
}

/// The functions of the runtime's API and where they sit.
#[derive(Clone, Debug)]
pub struct GDKMapping {
    pub mappings: Vec<GDKMappingEntry>,
}


/// What `regex::Regex::new(pattern)` and then `captures(text)` give: `None`
/// when the pattern does not compile; otherwise `None` when the text does
/// not match, or the text of each group (`None` for a group that took no
/// part in the match), group 0 being the whole match.
pub uninterp spec fn regex_captures_of(pattern: Seq<char>, text: Seq<char>) -> Option<Option<Seq<Option<Seq<char>>>>>;

/// The plain view of captured groups.
pub open spec fn groups_view(groups: Seq<Option<String>>) -> Seq<Option<Seq<char>>> {
    groups.map_values(|g: Option<String>| match g {
        Some(s) => Some(s@),
        None => None,
    })
}

/// Calls `regex::Regex::new(pattern)` and `Regex::captures(text)` on the
/// compiled regex, and hands out the text of each group. The contract
/// claims that the result is a function of the pattern and the text alone
/// (named `regex_captures_of`), and, as the crate documents, that group 0
/// (the whole match) is present whenever the text matches.
#[verifier::external_body]
fn regex_captures(pattern: &str, text: &str) -> (r: Option<Option<Vec<Option<String>>>>)
    ensures
        match r {
            None => regex_captures_of(pattern@, text@) is None,
            Some(None) => regex_captures_of(pattern@, text@) == Some(None::<Seq<Option<Seq<char>>>>),
            Some(Some(groups)) => {
                &&& regex_captures_of(pattern@, text@) == Some(Some(groups_view(groups@)))
                &&& groups@.len() > 0
                &&& groups@[0] is Some
            },
        },
{
    let re = match regex::Regex::new(pattern) {
        Ok(re) => re,
        Err(_) => return None,
    };
    Some(re.captures(text).map(|caps| (0..caps.len()).map(|i| caps.get(i).map(|m| m.as_str().to_string())).collect()))
}

/// The pattern of a pointer type: an optional `const` qualifier, the
/// pointee, then `*`.
pub open spec fn spec_pointer_pattern() -> Seq<char> {
    "^(const\\s+)?(.+)\\s*\\*$"@
}

/// The Rust spelling of a C++ scalar or keyword type, if it is one.
pub open spec fn spec_primitive_type(t: Seq<char>, is_inner: bool) -> Option<Seq<char>> {
    if t == "uint8_t"@ || t == "BYTE"@ {
        Some("u8"@)
    } else if t == "uint16_t"@ || t == "UINT16"@ {
        Some("u16"@)
    } else if t == "int16_t"@ || t == "INT16"@ || t == "WORD"@ {
        Some("i16"@)
    } else if t == "uint32_t"@ || t == "UINT32"@ {
        Some("u32"@)
    } else if t == "int32_t"@ || t == "INT32"@ || t == "DWORD"@ {
        Some("i32"@)
    } else if t == "uint64_t"@ || t == "ULONG64"@ || t == "ULONGLONG"@ {
        Some("u64"@)
    } else if t == "int64_t"@ || t == "INT64"@ {
        Some("i64"@)
    } else if t == "float"@ {
        Some("f32"@)
    } else if t == "double"@ {
        Some("f64"@)
    } else if t == "time_t"@ {
        Some("libc::time_t"@)
    } else if t == "size_t"@ {
        Some("usize"@)
    } else if t == "wchar_t"@ {
        Some("u16"@)
    } else if t == "void"@ {
        if is_inner { Some("c_void"@) } else { Some("()"@) }
    } else if t == "char"@ {
        Some("c_char"@)
    } else if t == "STDAPI"@ {
        Some("()"@)
    } else if t == "STDAPI_(bool)"@ || t == "bool"@ {
        Some("BOOL"@)
    } else {
        None
    }
}

/// The pointee and qualifier of a pointer type, when the pointer pattern
/// matches with its pointee group, and the pointee is shorter than the type.
pub open spec fn spec_pointer_parts(t: Seq<char>) -> Option<(bool, Seq<char>)> {
    match regex_captures_of(spec_pointer_pattern(), t) {
        Some(Some(groups)) => if groups.len() > 2 && groups[2] is Some && groups[2]->0.len() < t.len() {
            Some((groups.len() > 1 && groups[1] is Some, groups[2]->0))
        } else {
            None
        },
        _ => None,
    }
}

/// The Rust type for a C++ type; `is_inner` marks a pointee.
pub open spec fn spec_to_rust_type_ex(t: Seq<char>, is_inner: bool) -> Seq<char>
    decreases t.len(),
{
    match spec_primitive_type(t, is_inner) {
        Some(r) => r,
        None => match spec_pointer_parts(t) {
            Some((is_const, base)) => {
                let inner = spec_to_rust_type_ex(base, true);
                if is_const {
                    "*const "@ + inner
                } else if spec_ends_with(inner, "Callback"@) {
                    "Option<"@ + inner + ">"@
                } else {
                    "*mut "@ + inner
                }
            },
            None => if spec_starts_with(t, "struct "@) {
                spec_trim(t.subrange(7, t.len() as int))
            } else if spec_starts_with(t, "const "@) {
                spec_trim(t.subrange(6, t.len() as int))
            } else {
                t
            },
        },
    }
}

fn primitive_type(t: &str, is_inner: bool) -> (r: Option<String>)
    ensures
        match spec_primitive_type(t@, is_inner) {
            Some(p) => r matches Some(s) && s@ == p,
            None => r is None,
        },
{
    let lit = if str_eq(t, "uint8_t") || str_eq(t, "BYTE") {
        "u8"
    } else if str_eq(t, "uint16_t") || str_eq(t, "UINT16") {
        "u16"
    } else if str_eq(t, "int16_t") || str_eq(t, "INT16") || str_eq(t, "WORD") {
        "i16"
    } else if str_eq(t, "uint32_t") || str_eq(t, "UINT32") {
        "u32"
    } else if str_eq(t, "int32_t") || str_eq(t, "INT32") || str_eq(t, "DWORD") {
        "i32"
    } else if str_eq(t, "uint64_t") || str_eq(t, "ULONG64") || str_eq(t, "ULONGLONG") {
        "u64"
    } else if str_eq(t, "int64_t") || str_eq(t, "INT64") {
        "i64"
    } else if str_eq(t, "float") {
        "f32"
    } else if str_eq(t, "double") {
        "f64"
    } else if str_eq(t, "time_t") {
        "libc::time_t"
    } else if str_eq(t, "size_t") {
        "usize"
    } else if str_eq(t, "wchar_t") {
        "u16"
    } else if str_eq(t, "void") {
        if is_inner { "c_void" } else { "()" }
    } else if str_eq(t, "char") {
        "c_char"
    } else if str_eq(t, "STDAPI") {
        "()"
    } else if str_eq(t, "STDAPI_(bool)") || str_eq(t, "bool") {
        "BOOL"
    } else {
        return None;
    };
    Some(to_string(lit))
}

fn pointer_parts(t: &str) -> (r: Option<(bool, String)>)
    ensures
        match spec_pointer_parts(t@) {
            Some((c, b)) => r matches Some((rc, rb)) && rc == c && rb@ == b,
            None => r is None,
        },
{
    match regex_captures(r"^(const\s+)?(.+)\s*\*$", t) {
        Some(Some(groups)) => {
            proof {
                reveal_strlit("^(const\\s+)?(.+)\\s*\\*$");
            }
            if groups.len() > 2 {
                let is_const = groups.len() > 1 && groups[1].is_some();
                match &groups[2] {
                    Some(base) => {
                        if base.as_str().unicode_len() < t.unicode_len() {
                            return Some((is_const, base.clone()));
                        }
                        None
                    },
                    None => None,
                }
            } else {
                None
            }
        },
        _ => None,
    }
}

/// The Rust spelling of a C++ type taken from a GDK header: scalars map to
/// Rust scalars, a pointer to `*const` (const pointee) or `*mut` of its
/// pointee's type, a pointer to a callback to `Option` of it, and `struct`
/// and `const` prefixes are dropped; anything else is kept. `is_inner` marks
/// a pointee (then `void` is `c_void`).
pub fn to_rust_type_ex(cpp_type: &str, is_inner: bool) -> (r: String)
    ensures
        r@ == spec_to_rust_type_ex(cpp_type@, is_inner),
    decreases cpp_type@.len(),
{
    if let Some(p) = primitive_type(cpp_type, is_inner) {
        return p;
    }
    if let Some((is_const, base)) = pointer_parts(cpp_type) {
        let inner = to_rust_type_ex(base.as_str(), true);
        if is_const {
            return to_string("*const ").concat(inner.as_str());
        } else if ends_with(inner.as_str(), "Callback") {
            return to_string("Option<").concat(inner.as_str()).concat(">");
        } else {
            return to_string("*mut ").concat(inner.as_str());
        }
    }
    let n = cpp_type.unicode_len();
    if starts_with(cpp_type, "struct ") {
        proof {
            reveal_strlit("struct ");
        }
        return to_string(trim(cpp_type.substring_char(7, n)));
    }
    if starts_with(cpp_type, "const ") {
        proof {
            reveal_strlit("const ");
        }
        return to_string(trim(cpp_type.substring_char(6, n)));
    }
    to_string(cpp_type)
}

/// The fixed-width C++ integer types become the Rust integers of the same
/// width and signedness, whether or not they are a pointee: `uint8_t` and
/// `BYTE` are `u8`, `uint16_t` and `UINT16` are `u16`, `int16_t` and `INT16`
/// are `i16`, `uint32_t` and `UINT32` are `u32`, `int32_t` and `INT32` are
/// `i32`, `uint64_t`, `ULONG64` and `ULONGLONG` are `u64`, `int64_t` and
/// `INT64` are `i64`.
pub proof fn law_fixed_width_integer_types(is_inner: bool)
    ensures
        spec_to_rust_type_ex("uint8_t"@, is_inner) == "u8"@,
        spec_to_rust_type_ex("BYTE"@, is_inner) == "u8"@,
        spec_to_rust_type_ex("uint16_t"@, is_inner) == "u16"@,
        spec_to_rust_type_ex("UINT16"@, is_inner) == "u16"@,
        spec_to_rust_type_ex("int16_t"@, is_inner) == "i16"@,
        spec_to_rust_type_ex("INT16"@, is_inner) == "i16"@,
        spec_to_rust_type_ex("uint32_t"@, is_inner) == "u32"@,
        spec_to_rust_type_ex("UINT32"@, is_inner) == "u32"@,
        spec_to_rust_type_ex("int32_t"@, is_inner) == "i32"@,
        spec_to_rust_type_ex("INT32"@, is_inner) == "i32"@,
        spec_to_rust_type_ex("uint64_t"@, is_inner) == "u64"@,
        spec_to_rust_type_ex("ULONG64"@, is_inner) == "u64"@,
        spec_to_rust_type_ex("ULONGLONG"@, is_inner) == "u64"@,
        spec_to_rust_type_ex("int64_t"@, is_inner) == "i64"@,
        spec_to_rust_type_ex("INT64"@, is_inner) == "i64"@,
{
    assert(spec_primitive_type("uint8_t"@, is_inner) == Some("u8"@)) by {
        reveal_strlit("uint8_t");
        reveal_strlit("u8");
    }
    assert(spec_primitive_type("BYTE"@, is_inner) == Some("u8"@)) by {
        reveal_strlit("BYTE");
        reveal_strlit("u8");
        reveal_strlit("uint8_t");
        assert(("BYTE"@).len() != ("uint8_t"@).len());
    }
    assert(spec_primitive_type("uint16_t"@, is_inner) == Some("u16"@)) by {
        reveal_strlit("uint16_t");
        reveal_strlit("u16");
        reveal_strlit("uint8_t");
        assert(("uint16_t"@).len() != ("uint8_t"@).len());
        reveal_strlit("BYTE");
        assert(("uint16_t"@).len() != ("BYTE"@).len());
    }
    assert(spec_primitive_type("UINT16"@, is_inner) == Some("u16"@)) by {
        reveal_strlit("UINT16");
        reveal_strlit("u16");
        reveal_strlit("uint8_t");
        assert(("UINT16"@).len() != ("uint8_t"@).len());
        reveal_strlit("BYTE");
        assert(("UINT16"@).len() != ("BYTE"@).len());
        reveal_strlit("uint16_t");
        assert(("UINT16"@).len() != ("uint16_t"@).len());
    }
    assert(spec_primitive_type("int16_t"@, is_inner) == Some("i16"@)) by {
        reveal_strlit("int16_t");
        reveal_strlit("i16");
        reveal_strlit("uint8_t");
        assert(("int16_t"@)[0] != ("uint8_t"@)[0]);
        reveal_strlit("BYTE");
        assert(("int16_t"@).len() != ("BYTE"@).len());
        reveal_strlit("uint16_t");
        assert(("int16_t"@).len() != ("uint16_t"@).len());
        reveal_strlit("UINT16");
        assert(("int16_t"@).len() != ("UINT16"@).len());
    }
    assert(spec_primitive_type("INT16"@, is_inner) == Some("i16"@)) by {
        reveal_strlit("INT16");
        reveal_strlit("i16");
        reveal_strlit("uint8_t");
        assert(("INT16"@).len() != ("uint8_t"@).len());
        reveal_strlit("BYTE");
        assert(("INT16"@).len() != ("BYTE"@).len());
        reveal_strlit("uint16_t");
        assert(("INT16"@).len() != ("uint16_t"@).len());
        reveal_strlit("UINT16");
        assert(("INT16"@).len() != ("UINT16"@).len());
        reveal_strlit("int16_t");
        assert(("INT16"@).len() != ("int16_t"@).len());
    }
    assert(spec_primitive_type("uint32_t"@, is_inner) == Some("u32"@)) by {
        reveal_strlit("uint32_t");
        reveal_strlit("u32");
        reveal_strlit("uint8_t");
        assert(("uint32_t"@).len() != ("uint8_t"@).len());
        reveal_strlit("BYTE");
        assert(("uint32_t"@).len() != ("BYTE"@).len());
        reveal_strlit("uint16_t");
        assert(("uint32_t"@)[4] != ("uint16_t"@)[4]);
        reveal_strlit("UINT16");
        assert(("uint32_t"@).len() != ("UINT16"@).len());
        reveal_strlit("int16_t");
        assert(("uint32_t"@).len() != ("int16_t"@).len());
        reveal_strlit("INT16");
        assert(("uint32_t"@).len() != ("INT16"@).len());
        reveal_strlit("WORD");
        assert(("uint32_t"@).len() != ("WORD"@).len());
    }
    assert(spec_primitive_type("UINT32"@, is_inner) == Some("u32"@)) by {
        reveal_strlit("UINT32");
        reveal_strlit("u32");
        reveal_strlit("uint8_t");
        assert(("UINT32"@).len() != ("uint8_t"@).len());
        reveal_strlit("BYTE");
        assert(("UINT32"@).len() != ("BYTE"@).len());
        reveal_strlit("uint16_t");
        assert(("UINT32"@).len() != ("uint16_t"@).len());
        reveal_strlit("UINT16");
        assert(("UINT32"@)[4] != ("UINT16"@)[4]);
        reveal_strlit("int16_t");
        assert(("UINT32"@).len() != ("int16_t"@).len());
        reveal_strlit("INT16");
        assert(("UINT32"@).len() != ("INT16"@).len());
        reveal_strlit("WORD");
        assert(("UINT32"@).len() != ("WORD"@).len());
        reveal_strlit("uint32_t");
        assert(("UINT32"@).len() != ("uint32_t"@).len());
    }
    assert(spec_primitive_type("int32_t"@, is_inner) == Some("i32"@)) by {
        reveal_strlit("int32_t");
        reveal_strlit("i32");
        reveal_strlit("uint8_t");
        assert(("int32_t"@)[0] != ("uint8_t"@)[0]);
        reveal_strlit("BYTE");
        assert(("int32_t"@).len() != ("BYTE"@).len());
        reveal_strlit("uint16_t");
        assert(("int32_t"@).len() != ("uint16_t"@).len());
        reveal_strlit("UINT16");
        assert(("int32_t"@).len() != ("UINT16"@).len());
        reveal_strlit("int16_t");
        assert(("int32_t"@)[3] != ("int16_t"@)[3]);
        reveal_strlit("INT16");
        assert(("int32_t"@).len() != ("INT16"@).len());
        reveal_strlit("WORD");
        assert(("int32_t"@).len() != ("WORD"@).len());
        reveal_strlit("uint32_t");
        assert(("int32_t"@).len() != ("uint32_t"@).len());
        reveal_strlit("UINT32");
        assert(("int32_t"@).len() != ("UINT32"@).len());
    }
    assert(spec_primitive_type("INT32"@, is_inner) == Some("i32"@)) by {
        reveal_strlit("INT32");
        reveal_strlit("i32");
        reveal_strlit("uint8_t");
        assert(("INT32"@).len() != ("uint8_t"@).len());
        reveal_strlit("BYTE");
        assert(("INT32"@).len() != ("BYTE"@).len());
        reveal_strlit("uint16_t");
        assert(("INT32"@).len() != ("uint16_t"@).len());
        reveal_strlit("UINT16");
        assert(("INT32"@).len() != ("UINT16"@).len());
        reveal_strlit("int16_t");
        assert(("INT32"@).len() != ("int16_t"@).len());
        reveal_strlit("INT16");
        assert(("INT32"@)[3] != ("INT16"@)[3]);
        reveal_strlit("WORD");
        assert(("INT32"@).len() != ("WORD"@).len());
        reveal_strlit("uint32_t");
        assert(("INT32"@).len() != ("uint32_t"@).len());
        reveal_strlit("UINT32");
        assert(("INT32"@).len() != ("UINT32"@).len());
        reveal_strlit("int32_t");
        assert(("INT32"@).len() != ("int32_t"@).len());
    }
    assert(spec_primitive_type("uint64_t"@, is_inner) == Some("u64"@)) by {
        reveal_strlit("uint64_t");
        reveal_strlit("u64");
        reveal_strlit("uint8_t");
        assert(("uint64_t"@).len() != ("uint8_t"@).len());
        reveal_strlit("BYTE");
        assert(("uint64_t"@).len() != ("BYTE"@).len());
        reveal_strlit("uint16_t");
        assert(("uint64_t"@)[4] != ("uint16_t"@)[4]);
        reveal_strlit("UINT16");
        assert(("uint64_t"@).len() != ("UINT16"@).len());
        reveal_strlit("int16_t");
        assert(("uint64_t"@).len() != ("int16_t"@).len());
        reveal_strlit("INT16");
        assert(("uint64_t"@).len() != ("INT16"@).len());
        reveal_strlit("WORD");
        assert(("uint64_t"@).len() != ("WORD"@).len());
        reveal_strlit("uint32_t");
        assert(("uint64_t"@)[4] != ("uint32_t"@)[4]);
        reveal_strlit("UINT32");
        assert(("uint64_t"@).len() != ("UINT32"@).len());
        reveal_strlit("int32_t");
        assert(("uint64_t"@).len() != ("int32_t"@).len());
        reveal_strlit("INT32");
        assert(("uint64_t"@).len() != ("INT32"@).len());
        reveal_strlit("DWORD");
        assert(("uint64_t"@).len() != ("DWORD"@).len());
    }
    assert(spec_primitive_type("ULONG64"@, is_inner) == Some("u64"@)) by {
        reveal_strlit("ULONG64");
        reveal_strlit("u64");
        reveal_strlit("uint8_t");
        assert(("ULONG64"@)[0] != ("uint8_t"@)[0]);
        reveal_strlit("BYTE");
        assert(("ULONG64"@).len() != ("BYTE"@).len());
        reveal_strlit("uint16_t");
        assert(("ULONG64"@).len() != ("uint16_t"@).len());
        reveal_strlit("UINT16");
        assert(("ULONG64"@).len() != ("UINT16"@).len());
        reveal_strlit("int16_t");
        assert(("ULONG64"@)[0] != ("int16_t"@)[0]);
        reveal_strlit("INT16");
        assert(("ULONG64"@).len() != ("INT16"@).len());
        reveal_strlit("WORD");
        assert(("ULONG64"@).len() != ("WORD"@).len());
        reveal_strlit("uint32_t");
        assert(("ULONG64"@).len() != ("uint32_t"@).len());
        reveal_strlit("UINT32");
        assert(("ULONG64"@).len() != ("UINT32"@).len());
        reveal_strlit("int32_t");
        assert(("ULONG64"@)[0] != ("int32_t"@)[0]);
        reveal_strlit("INT32");
        assert(("ULONG64"@).len() != ("INT32"@).len());
        reveal_strlit("DWORD");
        assert(("ULONG64"@).len() != ("DWORD"@).len());
        reveal_strlit("uint64_t");
        assert(("ULONG64"@).len() != ("uint64_t"@).len());
    }
    assert(spec_primitive_type("ULONGLONG"@, is_inner) == Some("u64"@)) by {
        reveal_strlit("ULONGLONG");
        reveal_strlit("u64");
        reveal_strlit("uint8_t");
        assert(("ULONGLONG"@).len() != ("uint8_t"@).len());
        reveal_strlit("BYTE");
        assert(("ULONGLONG"@).len() != ("BYTE"@).len());
        reveal_strlit("uint16_t");
        assert(("ULONGLONG"@).len() != ("uint16_t"@).len());
        reveal_strlit("UINT16");
        assert(("ULONGLONG"@).len() != ("UINT16"@).len());
        reveal_strlit("int16_t");
        assert(("ULONGLONG"@).len() != ("int16_t"@).len());
        reveal_strlit("INT16");
        assert(("ULONGLONG"@).len() != ("INT16"@).len());
        reveal_strlit("WORD");
        assert(("ULONGLONG"@).len() != ("WORD"@).len());
        reveal_strlit("uint32_t");
        assert(("ULONGLONG"@).len() != ("uint32_t"@).len());
        reveal_strlit("UINT32");
        assert(("ULONGLONG"@).len() != ("UINT32"@).len());
        reveal_strlit("int32_t");
        assert(("ULONGLONG"@).len() != ("int32_t"@).len());
        reveal_strlit("INT32");
        assert(("ULONGLONG"@).len() != ("INT32"@).len());
        reveal_strlit("DWORD");
        assert(("ULONGLONG"@).len() != ("DWORD"@).len());
        reveal_strlit("uint64_t");
        assert(("ULONGLONG"@).len() != ("uint64_t"@).len());
        reveal_strlit("ULONG64");
        assert(("ULONGLONG"@).len() != ("ULONG64"@).len());
    }
    assert(spec_primitive_type("int64_t"@, is_inner) == Some("i64"@)) by {
        reveal_strlit("int64_t");
        reveal_strlit("i64");
        reveal_strlit("uint8_t");
        assert(("int64_t"@)[0] != ("uint8_t"@)[0]);
        reveal_strlit("BYTE");
        assert(("int64_t"@).len() != ("BYTE"@).len());
        reveal_strlit("uint16_t");
        assert(("int64_t"@).len() != ("uint16_t"@).len());
        reveal_strlit("UINT16");
        assert(("int64_t"@).len() != ("UINT16"@).len());
        reveal_strlit("int16_t");
        assert(("int64_t"@)[3] != ("int16_t"@)[3]);
        reveal_strlit("INT16");
        assert(("int64_t"@).len() != ("INT16"@).len());
        reveal_strlit("WORD");
        assert(("int64_t"@).len() != ("WORD"@).len());
        reveal_strlit("uint32_t");
        assert(("int64_t"@).len() != ("uint32_t"@).len());
        reveal_strlit("UINT32");
        assert(("int64_t"@).len() != ("UINT32"@).len());
        reveal_strlit("int32_t");
        assert(("int64_t"@)[3] != ("int32_t"@)[3]);
        reveal_strlit("INT32");
        assert(("int64_t"@).len() != ("INT32"@).len());
        reveal_strlit("DWORD");
        assert(("int64_t"@).len() != ("DWORD"@).len());
        reveal_strlit("uint64_t");
        assert(("int64_t"@).len() != ("uint64_t"@).len());
        reveal_strlit("ULONG64");
        assert(("int64_t"@)[0] != ("ULONG64"@)[0]);
        reveal_strlit("ULONGLONG");
        assert(("int64_t"@).len() != ("ULONGLONG"@).len());
    }
    assert(spec_primitive_type("INT64"@, is_inner) == Some("i64"@)) by {
        reveal_strlit("INT64");
        reveal_strlit("i64");
        reveal_strlit("uint8_t");
        assert(("INT64"@).len() != ("uint8_t"@).len());
        reveal_strlit("BYTE");
        assert(("INT64"@).len() != ("BYTE"@).len());
        reveal_strlit("uint16_t");
        assert(("INT64"@).len() != ("uint16_t"@).len());
        reveal_strlit("UINT16");
        assert(("INT64"@).len() != ("UINT16"@).len());
        reveal_strlit("int16_t");
        assert(("INT64"@).len() != ("int16_t"@).len());
        reveal_strlit("INT16");
        assert(("INT64"@)[3] != ("INT16"@)[3]);
        reveal_strlit("WORD");
        assert(("INT64"@).len() != ("WORD"@).len());
        reveal_strlit("uint32_t");
        assert(("INT64"@).len() != ("uint32_t"@).len());
        reveal_strlit("UINT32");
        assert(("INT64"@).len() != ("UINT32"@).len());
        reveal_strlit("int32_t");
        assert(("INT64"@).len() != ("int32_t"@).len());
        reveal_strlit("INT32");
        assert(("INT64"@)[3] != ("INT32"@)[3]);
        reveal_strlit("DWORD");
        assert(("INT64"@)[0] != ("DWORD"@)[0]);
        reveal_strlit("uint64_t");
        assert(("INT64"@).len() != ("uint64_t"@).len());
        reveal_strlit("ULONG64");
        assert(("INT64"@).len() != ("ULONG64"@).len());
        reveal_strlit("ULONGLONG");
        assert(("INT64"@).len() != ("ULONGLONG"@).len());
        reveal_strlit("int64_t");
        assert(("INT64"@).len() != ("int64_t"@).len());
    }
}

/// The other C++ scalar and keyword types of the GDK headers: `WORD` is
/// `i16` and `DWORD` is `i32`, `float` is `f32`, `double` is `f64`, `time_t`
/// is `libc::time_t`, `size_t` is `usize`, `wchar_t` is `u16`, `char` is
/// `c_char`, `STDAPI` is `()`, `STDAPI_(bool)` and `bool` are `BOOL`, and
/// `void` is `c_void` as a pointee and `()` otherwise.
pub proof fn law_scalar_types(is_inner: bool)
    ensures
        spec_to_rust_type_ex("WORD"@, is_inner) == "i16"@,
        spec_to_rust_type_ex("DWORD"@, is_inner) == "i32"@,
        spec_to_rust_type_ex("float"@, is_inner) == "f32"@,
        spec_to_rust_type_ex("double"@, is_inner) == "f64"@,
        spec_to_rust_type_ex("time_t"@, is_inner) == "libc::time_t"@,
        spec_to_rust_type_ex("size_t"@, is_inner) == "usize"@,
        spec_to_rust_type_ex("wchar_t"@, is_inner) == "u16"@,
        spec_to_rust_type_ex("char"@, is_inner) == "c_char"@,
        spec_to_rust_type_ex("STDAPI"@, is_inner) == "()"@,
        spec_to_rust_type_ex("STDAPI_(bool)"@, is_inner) == "BOOL"@,
        spec_to_rust_type_ex("bool"@, is_inner) == "BOOL"@,
        spec_to_rust_type_ex("void"@, is_inner) == if is_inner { "c_void"@ } else { "()"@ },
{
    assert(spec_primitive_type("WORD"@, is_inner) == Some("i16"@)) by {
        reveal_strlit("WORD");
        reveal_strlit("i16");
        reveal_strlit("uint8_t");
        assert(("WORD"@).len() != ("uint8_t"@).len());
        reveal_strlit("BYTE");
        assert(("WORD"@)[0] != ("BYTE"@)[0]);
        reveal_strlit("uint16_t");
        assert(("WORD"@).len() != ("uint16_t"@).len());
        reveal_strlit("UINT16");
        assert(("WORD"@).len() != ("UINT16"@).len());
        reveal_strlit("int16_t");
        assert(("WORD"@).len() != ("int16_t"@).len());
        reveal_strlit("INT16");
        assert(("WORD"@).len() != ("INT16"@).len());
    }
    assert(spec_primitive_type("DWORD"@, is_inner) == Some("i32"@)) by {
        reveal_strlit("DWORD");
        reveal_strlit("i32");
        reveal_strlit("uint8_t");
        assert(("DWORD"@).len() != ("uint8_t"@).len());
        reveal_strlit("BYTE");
        assert(("DWORD"@).len() != ("BYTE"@).len());
        reveal_strlit("uint16_t");
        assert(("DWORD"@).len() != ("uint16_t"@).len());
        reveal_strlit("UINT16");
        assert(("DWORD"@).len() != ("UINT16"@).len());
        reveal_strlit("int16_t");
        assert(("DWORD"@).len() != ("int16_t"@).len());
        reveal_strlit("INT16");
        assert(("DWORD"@)[0] != ("INT16"@)[0]);
        reveal_strlit("WORD");
        assert(("DWORD"@).len() != ("WORD"@).len());
        reveal_strlit("uint32_t");
        assert(("DWORD"@).len() != ("uint32_t"@).len());
        reveal_strlit("UINT32");
        assert(("DWORD"@).len() != ("UINT32"@).len());
        reveal_strlit("int32_t");
        assert(("DWORD"@).len() != ("int32_t"@).len());
        reveal_strlit("INT32");
        assert(("DWORD"@)[0] != ("INT32"@)[0]);
    }
    assert(spec_primitive_type("float"@, is_inner) == Some("f32"@)) by {
        reveal_strlit("float");
        reveal_strlit("f32");
        reveal_strlit("uint8_t");
        assert(("float"@).len() != ("uint8_t"@).len());
        reveal_strlit("BYTE");
        assert(("float"@).len() != ("BYTE"@).len());
        reveal_strlit("uint16_t");
        assert(("float"@).len() != ("uint16_t"@).len());
        reveal_strlit("UINT16");
        assert(("float"@).len() != ("UINT16"@).len());
        reveal_strlit("int16_t");
        assert(("float"@).len() != ("int16_t"@).len());
        reveal_strlit("INT16");
        assert(("float"@)[0] != ("INT16"@)[0]);
        reveal_strlit("WORD");
        assert(("float"@).len() != ("WORD"@).len());
        reveal_strlit("uint32_t");
        assert(("float"@).len() != ("uint32_t"@).len());
        reveal_strlit("UINT32");
        assert(("float"@).len() != ("UINT32"@).len());
        reveal_strlit("int32_t");
        assert(("float"@).len() != ("int32_t"@).len());
        reveal_strlit("INT32");
        assert(("float"@)[0] != ("INT32"@)[0]);
        reveal_strlit("DWORD");
        assert(("float"@)[0] != ("DWORD"@)[0]);
        reveal_strlit("uint64_t");
        assert(("float"@).len() != ("uint64_t"@).len());
        reveal_strlit("ULONG64");
        assert(("float"@).len() != ("ULONG64"@).len());
        reveal_strlit("ULONGLONG");
        assert(("float"@).len() != ("ULONGLONG"@).len());
        reveal_strlit("int64_t");
        assert(("float"@).len() != ("int64_t"@).len());
        reveal_strlit("INT64");
        assert(("float"@)[0] != ("INT64"@)[0]);
    }
    assert(spec_primitive_type("double"@, is_inner) == Some("f64"@)) by {
        reveal_strlit("double");
        reveal_strlit("f64");
        reveal_strlit("uint8_t");
        assert(("double"@).len() != ("uint8_t"@).len());
        reveal_strlit("BYTE");
        assert(("double"@).len() != ("BYTE"@).len());
        reveal_strlit("uint16_t");
        assert(("double"@).len() != ("uint16_t"@).len());
        reveal_strlit("UINT16");
        assert(("double"@)[0] != ("UINT16"@)[0]);
        reveal_strlit("int16_t");
        assert(("double"@).len() != ("int16_t"@).len());
        reveal_strlit("INT16");
        assert(("double"@).len() != ("INT16"@).len());
        reveal_strlit("WORD");
        assert(("double"@).len() != ("WORD"@).len());
        reveal_strlit("uint32_t");
        assert(("double"@).len() != ("uint32_t"@).len());
        reveal_strlit("UINT32");
        assert(("double"@)[0] != ("UINT32"@)[0]);
        reveal_strlit("int32_t");
        assert(("double"@).len() != ("int32_t"@).len());
        reveal_strlit("INT32");
        assert(("double"@).len() != ("INT32"@).len());
        reveal_strlit("DWORD");
        assert(("double"@).len() != ("DWORD"@).len());
        reveal_strlit("uint64_t");
        assert(("double"@).len() != ("uint64_t"@).len());
        reveal_strlit("ULONG64");
        assert(("double"@).len() != ("ULONG64"@).len());
        reveal_strlit("ULONGLONG");
        assert(("double"@).len() != ("ULONGLONG"@).len());
        reveal_strlit("int64_t");
        assert(("double"@).len() != ("int64_t"@).len());
        reveal_strlit("INT64");
        assert(("double"@).len() != ("INT64"@).len());
        reveal_strlit("float");
        assert(("double"@).len() != ("float"@).len());
    }
    assert(spec_primitive_type("time_t"@, is_inner) == Some("libc::time_t"@)) by {
        reveal_strlit("time_t");
        reveal_strlit("libc::time_t");
        reveal_strlit("uint8_t");
        assert(("time_t"@).len() != ("uint8_t"@).len());
        reveal_strlit("BYTE");
        assert(("time_t"@).len() != ("BYTE"@).len());
        reveal_strlit("uint16_t");
        assert(("time_t"@).len() != ("uint16_t"@).len());
        reveal_strlit("UINT16");
        assert(("time_t"@)[0] != ("UINT16"@)[0]);
        reveal_strlit("int16_t");
        assert(("time_t"@).len() != ("int16_t"@).len());
        reveal_strlit("INT16");
        assert(("time_t"@).len() != ("INT16"@).len());
        reveal_strlit("WORD");
        assert(("time_t"@).len() != ("WORD"@).len());
        reveal_strlit("uint32_t");
        assert(("time_t"@).len() != ("uint32_t"@).len());
        reveal_strlit("UINT32");
        assert(("time_t"@)[0] != ("UINT32"@)[0]);
        reveal_strlit("int32_t");
        assert(("time_t"@).len() != ("int32_t"@).len());
        reveal_strlit("INT32");
        assert(("time_t"@).len() != ("INT32"@).len());
        reveal_strlit("DWORD");
        assert(("time_t"@).len() != ("DWORD"@).len());
        reveal_strlit("uint64_t");
        assert(("time_t"@).len() != ("uint64_t"@).len());
        reveal_strlit("ULONG64");
        assert(("time_t"@).len() != ("ULONG64"@).len());
        reveal_strlit("ULONGLONG");
        assert(("time_t"@).len() != ("ULONGLONG"@).len());
        reveal_strlit("int64_t");
        assert(("time_t"@).len() != ("int64_t"@).len());
        reveal_strlit("INT64");
        assert(("time_t"@).len() != ("INT64"@).len());
        reveal_strlit("float");
        assert(("time_t"@).len() != ("float"@).len());
        reveal_strlit("double");
        assert(("time_t"@)[0] != ("double"@)[0]);
    }
    assert(spec_primitive_type("size_t"@, is_inner) == Some("usize"@)) by {
        reveal_strlit("size_t");
        reveal_strlit("usize");
        reveal_strlit("uint8_t");
        assert(("size_t"@).len() != ("uint8_t"@).len());
        reveal_strlit("BYTE");
        assert(("size_t"@).len() != ("BYTE"@).len());
        reveal_strlit("uint16_t");
        assert(("size_t"@).len() != ("uint16_t"@).len());
        reveal_strlit("UINT16");
        assert(("size_t"@)[0] != ("UINT16"@)[0]);
        reveal_strlit("int16_t");
        assert(("size_t"@).len() != ("int16_t"@).len());
        reveal_strlit("INT16");
        assert(("size_t"@).len() != ("INT16"@).len());
        reveal_strlit("WORD");
        assert(("size_t"@).len() != ("WORD"@).len());
        reveal_strlit("uint32_t");
        assert(("size_t"@).len() != ("uint32_t"@).len());
        reveal_strlit("UINT32");
        assert(("size_t"@)[0] != ("UINT32"@)[0]);
        reveal_strlit("int32_t");
        assert(("size_t"@).len() != ("int32_t"@).len());
        reveal_strlit("INT32");
        assert(("size_t"@).len() != ("INT32"@).len());
        reveal_strlit("DWORD");
        assert(("size_t"@).len() != ("DWORD"@).len());
        reveal_strlit("uint64_t");
        assert(("size_t"@).len() != ("uint64_t"@).len());
        reveal_strlit("ULONG64");
        assert(("size_t"@).len() != ("ULONG64"@).len());
        reveal_strlit("ULONGLONG");
        assert(("size_t"@).len() != ("ULONGLONG"@).len());
        reveal_strlit("int64_t");
        assert(("size_t"@).len() != ("int64_t"@).len());
        reveal_strlit("INT64");
        assert(("size_t"@).len() != ("INT64"@).len());
        reveal_strlit("float");
        assert(("size_t"@).len() != ("float"@).len());
        reveal_strlit("double");
        assert(("size_t"@)[0] != ("double"@)[0]);
        reveal_strlit("time_t");
        assert(("size_t"@)[0] != ("time_t"@)[0]);
    }
    assert(spec_primitive_type("wchar_t"@, is_inner) == Some("u16"@)) by {
        reveal_strlit("wchar_t");
        reveal_strlit("u16");
        reveal_strlit("uint8_t");
        assert(("wchar_t"@)[0] != ("uint8_t"@)[0]);
        reveal_strlit("BYTE");
        assert(("wchar_t"@).len() != ("BYTE"@).len());
        reveal_strlit("uint16_t");
        assert(("wchar_t"@).len() != ("uint16_t"@).len());
        reveal_strlit("UINT16");
        assert(("wchar_t"@).len() != ("UINT16"@).len());
        reveal_strlit("int16_t");
        assert(("wchar_t"@)[0] != ("int16_t"@)[0]);
        reveal_strlit("INT16");
        assert(("wchar_t"@).len() != ("INT16"@).len());
        reveal_strlit("WORD");
        assert(("wchar_t"@).len() != ("WORD"@).len());
        reveal_strlit("uint32_t");
        assert(("wchar_t"@).len() != ("uint32_t"@).len());
        reveal_strlit("UINT32");
        assert(("wchar_t"@).len() != ("UINT32"@).len());
        reveal_strlit("int32_t");
        assert(("wchar_t"@)[0] != ("int32_t"@)[0]);
        reveal_strlit("INT32");
        assert(("wchar_t"@).len() != ("INT32"@).len());
        reveal_strlit("DWORD");
        assert(("wchar_t"@).len() != ("DWORD"@).len());
        reveal_strlit("uint64_t");
        assert(("wchar_t"@).len() != ("uint64_t"@).len());
        reveal_strlit("ULONG64");
        assert(("wchar_t"@)[0] != ("ULONG64"@)[0]);
        reveal_strlit("ULONGLONG");
        assert(("wchar_t"@).len() != ("ULONGLONG"@).len());
        reveal_strlit("int64_t");
        assert(("wchar_t"@)[0] != ("int64_t"@)[0]);
        reveal_strlit("INT64");
        assert(("wchar_t"@).len() != ("INT64"@).len());
        reveal_strlit("float");
        assert(("wchar_t"@).len() != ("float"@).len());
        reveal_strlit("double");
        assert(("wchar_t"@).len() != ("double"@).len());
        reveal_strlit("time_t");
        assert(("wchar_t"@).len() != ("time_t"@).len());
        reveal_strlit("size_t");
        assert(("wchar_t"@).len() != ("size_t"@).len());
    }
    assert(spec_primitive_type("char"@, is_inner) == Some("c_char"@)) by {
        reveal_strlit("char");
        reveal_strlit("c_char");
        reveal_strlit("uint8_t");
        assert(("char"@).len() != ("uint8_t"@).len());
        reveal_strlit("BYTE");
        assert(("char"@)[0] != ("BYTE"@)[0]);
        reveal_strlit("uint16_t");
        assert(("char"@).len() != ("uint16_t"@).len());
        reveal_strlit("UINT16");
        assert(("char"@).len() != ("UINT16"@).len());
        reveal_strlit("int16_t");
        assert(("char"@).len() != ("int16_t"@).len());
        reveal_strlit("INT16");
        assert(("char"@).len() != ("INT16"@).len());
        reveal_strlit("WORD");
        assert(("char"@)[0] != ("WORD"@)[0]);
        reveal_strlit("uint32_t");
        assert(("char"@).len() != ("uint32_t"@).len());
        reveal_strlit("UINT32");
        assert(("char"@).len() != ("UINT32"@).len());
        reveal_strlit("int32_t");
        assert(("char"@).len() != ("int32_t"@).len());
        reveal_strlit("INT32");
        assert(("char"@).len() != ("INT32"@).len());
        reveal_strlit("DWORD");
        assert(("char"@).len() != ("DWORD"@).len());
        reveal_strlit("uint64_t");
        assert(("char"@).len() != ("uint64_t"@).len());
        reveal_strlit("ULONG64");
        assert(("char"@).len() != ("ULONG64"@).len());
        reveal_strlit("ULONGLONG");
        assert(("char"@).len() != ("ULONGLONG"@).len());
        reveal_strlit("int64_t");
        assert(("char"@).len() != ("int64_t"@).len());
        reveal_strlit("INT64");
        assert(("char"@).len() != ("INT64"@).len());
        reveal_strlit("float");
        assert(("char"@).len() != ("float"@).len());
        reveal_strlit("double");
        assert(("char"@).len() != ("double"@).len());
        reveal_strlit("time_t");
        assert(("char"@).len() != ("time_t"@).len());
        reveal_strlit("size_t");
        assert(("char"@).len() != ("size_t"@).len());
        reveal_strlit("wchar_t");
        assert(("char"@).len() != ("wchar_t"@).len());
        reveal_strlit("void");
        assert(("char"@)[0] != ("void"@)[0]);
    }
    assert(spec_primitive_type("STDAPI"@, is_inner) == Some("()"@)) by {
        reveal_strlit("STDAPI");
        reveal_strlit("()");
        reveal_strlit("uint8_t");
        assert(("STDAPI"@).len() != ("uint8_t"@).len());
        reveal_strlit("BYTE");
        assert(("STDAPI"@).len() != ("BYTE"@).len());
        reveal_strlit("uint16_t");
        assert(("STDAPI"@).len() != ("uint16_t"@).len());
        reveal_strlit("UINT16");
        assert(("STDAPI"@)[0] != ("UINT16"@)[0]);
        reveal_strlit("int16_t");
        assert(("STDAPI"@).len() != ("int16_t"@).len());
        reveal_strlit("INT16");
        assert(("STDAPI"@).len() != ("INT16"@).len());
        reveal_strlit("WORD");
        assert(("STDAPI"@).len() != ("WORD"@).len());
        reveal_strlit("uint32_t");
        assert(("STDAPI"@).len() != ("uint32_t"@).len());
        reveal_strlit("UINT32");
        assert(("STDAPI"@)[0] != ("UINT32"@)[0]);
        reveal_strlit("int32_t");
        assert(("STDAPI"@).len() != ("int32_t"@).len());
        reveal_strlit("INT32");
        assert(("STDAPI"@).len() != ("INT32"@).len());
        reveal_strlit("DWORD");
        assert(("STDAPI"@).len() != ("DWORD"@).len());
        reveal_strlit("uint64_t");
        assert(("STDAPI"@).len() != ("uint64_t"@).len());
        reveal_strlit("ULONG64");
        assert(("STDAPI"@).len() != ("ULONG64"@).len());
        reveal_strlit("ULONGLONG");
        assert(("STDAPI"@).len() != ("ULONGLONG"@).len());
        reveal_strlit("int64_t");
        assert(("STDAPI"@).len() != ("int64_t"@).len());
        reveal_strlit("INT64");
        assert(("STDAPI"@).len() != ("INT64"@).len());
        reveal_strlit("float");
        assert(("STDAPI"@).len() != ("float"@).len());
        reveal_strlit("double");
        assert(("STDAPI"@)[0] != ("double"@)[0]);
        reveal_strlit("time_t");
        assert(("STDAPI"@)[0] != ("time_t"@)[0]);
        reveal_strlit("size_t");
        assert(("STDAPI"@)[0] != ("size_t"@)[0]);
        reveal_strlit("wchar_t");
        assert(("STDAPI"@).len() != ("wchar_t"@).len());
        reveal_strlit("void");
        assert(("STDAPI"@).len() != ("void"@).len());
        reveal_strlit("char");
        assert(("STDAPI"@).len() != ("char"@).len());
    }
    assert(spec_primitive_type("STDAPI_(bool)"@, is_inner) == Some("BOOL"@)) by {
        reveal_strlit("STDAPI_(bool)");
        reveal_strlit("BOOL");
        reveal_strlit("uint8_t");
        assert(("STDAPI_(bool)"@).len() != ("uint8_t"@).len());
        reveal_strlit("BYTE");
        assert(("STDAPI_(bool)"@).len() != ("BYTE"@).len());
        reveal_strlit("uint16_t");
        assert(("STDAPI_(bool)"@).len() != ("uint16_t"@).len());
        reveal_strlit("UINT16");
        assert(("STDAPI_(bool)"@).len() != ("UINT16"@).len());
        reveal_strlit("int16_t");
        assert(("STDAPI_(bool)"@).len() != ("int16_t"@).len());
        reveal_strlit("INT16");
        assert(("STDAPI_(bool)"@).len() != ("INT16"@).len());
        reveal_strlit("WORD");
        assert(("STDAPI_(bool)"@).len() != ("WORD"@).len());
        reveal_strlit("uint32_t");
        assert(("STDAPI_(bool)"@).len() != ("uint32_t"@).len());
        reveal_strlit("UINT32");
        assert(("STDAPI_(bool)"@).len() != ("UINT32"@).len());
        reveal_strlit("int32_t");
        assert(("STDAPI_(bool)"@).len() != ("int32_t"@).len());
        reveal_strlit("INT32");
        assert(("STDAPI_(bool)"@).len() != ("INT32"@).len());
        reveal_strlit("DWORD");
        assert(("STDAPI_(bool)"@).len() != ("DWORD"@).len());
        reveal_strlit("uint64_t");
        assert(("STDAPI_(bool)"@).len() != ("uint64_t"@).len());
        reveal_strlit("ULONG64");
        assert(("STDAPI_(bool)"@).len() != ("ULONG64"@).len());
        reveal_strlit("ULONGLONG");
        assert(("STDAPI_(bool)"@).len() != ("ULONGLONG"@).len());
        reveal_strlit("int64_t");
        assert(("STDAPI_(bool)"@).len() != ("int64_t"@).len());
        reveal_strlit("INT64");
        assert(("STDAPI_(bool)"@).len() != ("INT64"@).len());
        reveal_strlit("float");
        assert(("STDAPI_(bool)"@).len() != ("float"@).len());
        reveal_strlit("double");
        assert(("STDAPI_(bool)"@).len() != ("double"@).len());
        reveal_strlit("time_t");
        assert(("STDAPI_(bool)"@).len() != ("time_t"@).len());
        reveal_strlit("size_t");
        assert(("STDAPI_(bool)"@).len() != ("size_t"@).len());
        reveal_strlit("wchar_t");
        assert(("STDAPI_(bool)"@).len() != ("wchar_t"@).len());
        reveal_strlit("void");
        assert(("STDAPI_(bool)"@).len() != ("void"@).len());
        reveal_strlit("char");
        assert(("STDAPI_(bool)"@).len() != ("char"@).len());
        reveal_strlit("STDAPI");
        assert(("STDAPI_(bool)"@).len() != ("STDAPI"@).len());
    }
    assert(spec_primitive_type("bool"@, is_inner) == Some("BOOL"@)) by {
        reveal_strlit("bool");
        reveal_strlit("BOOL");
        reveal_strlit("uint8_t");
        assert(("bool"@).len() != ("uint8_t"@).len());
        reveal_strlit("BYTE");
        assert(("bool"@)[0] != ("BYTE"@)[0]);
        reveal_strlit("uint16_t");
        assert(("bool"@).len() != ("uint16_t"@).len());
        reveal_strlit("UINT16");
        assert(("bool"@).len() != ("UINT16"@).len());
        reveal_strlit("int16_t");
        assert(("bool"@).len() != ("int16_t"@).len());
        reveal_strlit("INT16");
        assert(("bool"@).len() != ("INT16"@).len());
        reveal_strlit("WORD");
        assert(("bool"@)[0] != ("WORD"@)[0]);
        reveal_strlit("uint32_t");
        assert(("bool"@).len() != ("uint32_t"@).len());
        reveal_strlit("UINT32");
        assert(("bool"@).len() != ("UINT32"@).len());
        reveal_strlit("int32_t");
        assert(("bool"@).len() != ("int32_t"@).len());
        reveal_strlit("INT32");
        assert(("bool"@).len() != ("INT32"@).len());
        reveal_strlit("DWORD");
        assert(("bool"@).len() != ("DWORD"@).len());
        reveal_strlit("uint64_t");
        assert(("bool"@).len() != ("uint64_t"@).len());
        reveal_strlit("ULONG64");
        assert(("bool"@).len() != ("ULONG64"@).len());
        reveal_strlit("ULONGLONG");
        assert(("bool"@).len() != ("ULONGLONG"@).len());
        reveal_strlit("int64_t");
        assert(("bool"@).len() != ("int64_t"@).len());
        reveal_strlit("INT64");
        assert(("bool"@).len() != ("INT64"@).len());
        reveal_strlit("float");
        assert(("bool"@).len() != ("float"@).len());
        reveal_strlit("double");
        assert(("bool"@).len() != ("double"@).len());
        reveal_strlit("time_t");
        assert(("bool"@).len() != ("time_t"@).len());
        reveal_strlit("size_t");
        assert(("bool"@).len() != ("size_t"@).len());
        reveal_strlit("wchar_t");
        assert(("bool"@).len() != ("wchar_t"@).len());
        reveal_strlit("void");
        assert(("bool"@)[0] != ("void"@)[0]);
        reveal_strlit("char");
        assert(("bool"@)[0] != ("char"@)[0]);
        reveal_strlit("STDAPI");
        assert(("bool"@).len() != ("STDAPI"@).len());
        reveal_strlit("STDAPI_(bool)");
        assert(("bool"@).len() != ("STDAPI_(bool)"@).len());
    }
    assert(spec_primitive_type("void"@, is_inner) == Some(if is_inner { "c_void"@ } else { "()"@ })) by {
        reveal_strlit("void");
        reveal_strlit("uint8_t");
        assert(("void"@).len() != ("uint8_t"@).len());
        reveal_strlit("BYTE");
        assert(("void"@)[0] != ("BYTE"@)[0]);
        reveal_strlit("uint16_t");
        assert(("void"@).len() != ("uint16_t"@).len());
        reveal_strlit("UINT16");
        assert(("void"@).len() != ("UINT16"@).len());
        reveal_strlit("int16_t");
        assert(("void"@).len() != ("int16_t"@).len());
        reveal_strlit("INT16");
        assert(("void"@).len() != ("INT16"@).len());
        reveal_strlit("WORD");
        assert(("void"@)[0] != ("WORD"@)[0]);
        reveal_strlit("uint32_t");
        assert(("void"@).len() != ("uint32_t"@).len());
        reveal_strlit("UINT32");
        assert(("void"@).len() != ("UINT32"@).len());
        reveal_strlit("int32_t");
        assert(("void"@).len() != ("int32_t"@).len());
        reveal_strlit("INT32");
        assert(("void"@).len() != ("INT32"@).len());
        reveal_strlit("DWORD");
        assert(("void"@).len() != ("DWORD"@).len());
        reveal_strlit("uint64_t");
        assert(("void"@).len() != ("uint64_t"@).len());
        reveal_strlit("ULONG64");
        assert(("void"@).len() != ("ULONG64"@).len());
        reveal_strlit("ULONGLONG");
        assert(("void"@).len() != ("ULONGLONG"@).len());
        reveal_strlit("int64_t");
        assert(("void"@).len() != ("int64_t"@).len());
        reveal_strlit("INT64");
        assert(("void"@).len() != ("INT64"@).len());
        reveal_strlit("float");
        assert(("void"@).len() != ("float"@).len());
        reveal_strlit("double");
        assert(("void"@).len() != ("double"@).len());
        reveal_strlit("time_t");
        assert(("void"@).len() != ("time_t"@).len());
        reveal_strlit("size_t");
        assert(("void"@).len() != ("size_t"@).len());
        reveal_strlit("wchar_t");
        assert(("void"@).len() != ("wchar_t"@).len());
    }
}

/// A pointer to a fixed-width C++ integer type is a raw pointer (`*const`
/// for a const pointee, `*mut` otherwise) to the Rust integer of the same
/// width and signedness.
pub proof fn law_fixed_width_integer_pointers(t: Seq<char>, is_inner: bool, is_const: bool, base: Seq<char>)
    requires
        spec_primitive_type(t, is_inner) is None,
        spec_pointer_parts(t) == Some((is_const, base)),
    ensures
        base == "uint8_t"@ ==> spec_to_rust_type_ex(t, is_inner) == (if is_const { "*const "@ } else { "*mut "@ }) + "u8"@,
        base == "BYTE"@ ==> spec_to_rust_type_ex(t, is_inner) == (if is_const { "*const "@ } else { "*mut "@ }) + "u8"@,
        base == "uint16_t"@ ==> spec_to_rust_type_ex(t, is_inner) == (if is_const { "*const "@ } else { "*mut "@ }) + "u16"@,
        base == "UINT16"@ ==> spec_to_rust_type_ex(t, is_inner) == (if is_const { "*const "@ } else { "*mut "@ }) + "u16"@,
        base == "int16_t"@ ==> spec_to_rust_type_ex(t, is_inner) == (if is_const { "*const "@ } else { "*mut "@ }) + "i16"@,
        base == "INT16"@ ==> spec_to_rust_type_ex(t, is_inner) == (if is_const { "*const "@ } else { "*mut "@ }) + "i16"@,
        base == "uint32_t"@ ==> spec_to_rust_type_ex(t, is_inner) == (if is_const { "*const "@ } else { "*mut "@ }) + "u32"@,
        base == "UINT32"@ ==> spec_to_rust_type_ex(t, is_inner) == (if is_const { "*const "@ } else { "*mut "@ }) + "u32"@,
        base == "int32_t"@ ==> spec_to_rust_type_ex(t, is_inner) == (if is_const { "*const "@ } else { "*mut "@ }) + "i32"@,
        base == "INT32"@ ==> spec_to_rust_type_ex(t, is_inner) == (if is_const { "*const "@ } else { "*mut "@ }) + "i32"@,
        base == "uint64_t"@ ==> spec_to_rust_type_ex(t, is_inner) == (if is_const { "*const "@ } else { "*mut "@ }) + "u64"@,
        base == "ULONG64"@ ==> spec_to_rust_type_ex(t, is_inner) == (if is_const { "*const "@ } else { "*mut "@ }) + "u64"@,
        base == "ULONGLONG"@ ==> spec_to_rust_type_ex(t, is_inner) == (if is_const { "*const "@ } else { "*mut "@ }) + "u64"@,
        base == "int64_t"@ ==> spec_to_rust_type_ex(t, is_inner) == (if is_const { "*const "@ } else { "*mut "@ }) + "i64"@,
        base == "INT64"@ ==> spec_to_rust_type_ex(t, is_inner) == (if is_const { "*const "@ } else { "*mut "@ }) + "i64"@,
{
    law_fixed_width_integer_types(true);
    let inner = spec_to_rust_type_ex(base, true);
    reveal_strlit("Callback");
    reveal_strlit("u8");
    reveal_strlit("u16");
    reveal_strlit("i16");
    reveal_strlit("u32");
    reveal_strlit("i32");
    reveal_strlit("u64");
    reveal_strlit("i64");
    assert(spec_to_rust_type_ex(t, is_inner) == if is_const {
        "*const "@ + inner
    } else if spec_ends_with(inner, "Callback"@) {
        "Option<"@ + inner + ">"@
    } else {
        "*mut "@ + inner
    });
    if inner.len() < 8 {
        assert(!spec_ends_with(inner, "Callback"@));
    }
}

/// The Rust spelling of a C++ type that is not a pointee.
pub fn to_rust_type(cpp_type: &str) -> (r: String)
    ensures
        r@ == spec_to_rust_type_ex(cpp_type@, false),
{
    to_rust_type_ex(cpp_type, false)
}

/// The Unicode `Uppercase` property, which `char::is_uppercase` tests.
pub uninterp spec fn char_is_uppercase(c: char) -> bool;

/// Calls `char::is_uppercase`. The contract claims that the answer depends
/// on the character alone (named `char_is_uppercase`) and, as the Unicode
/// property that std documents gives, that among ASCII characters exactly
/// `A` to `Z` are uppercase.
#[verifier::external_body]
fn is_uppercase(c: char) -> (r: bool)
    ensures
        r == char_is_uppercase(c),
        (c as u32) < 128 ==> (r <==> ('A' <= c && c <= 'Z')),
{
    c.is_uppercase()
}

/// `char::to_ascii_lowercase`: `A` to `Z` become `a` to `z`; every other
/// character is kept.
pub open spec fn spec_to_ascii_lowercase(c: char) -> char {
    if 'A' <= c && c <= 'Z' {
        ((c as u32) + 32) as char
    } else {
        c
    }
}

/// Returns the ASCII lowercase of a character.
pub fn to_ascii_lowercase(c: char) -> (r: char)
    ensures
        r == spec_to_ascii_lowercase(c),
{
    if 'A' <= c && c <= 'Z' {
        let v = ((c as u32) + 32) as u8;
        v as char
    } else {
        c
    }
}

/// The snake case of the first `n` characters of `s`: an uppercase
/// character becomes `_` (except at the start) and its ASCII lowercase.
pub open spec fn spec_snake_prefix(s: Seq<char>, n: nat) -> Seq<char>
    decreases n,
{
    if n == 0 {
        Seq::<char>::empty()
    } else {
        let prev = spec_snake_prefix(s, (n - 1) as nat);
        let c = s[n - 1];
        if char_is_uppercase(c) {
            if n - 1 != 0 {
                prev.push('_').push(spec_to_ascii_lowercase(c))
            } else {
                prev.push(spec_to_ascii_lowercase(c))
            }
        } else {
            prev.push(c)
        }
    }
}

/// The snake case of a name, with the Rust keywords `async`, `fn`, `dyn`,
/// `type` and `self` followed by `_`.
pub open spec fn spec_to_snake_case(s: Seq<char>) -> Seq<char> {
    let r = spec_snake_prefix(s, s.len());
    if r == "async"@ || r == "fn"@ || r == "dyn"@ || r == "type"@ || r == "self"@ {
        r.push('_')
    } else {
        r
    }
}

/// Every uppercase character of `s` (in the sense of `char_is_uppercase`)
/// is ASCII; an ASCII name is one such text.
pub open spec fn spec_uppercase_is_ascii(s: Seq<char>) -> bool {
    forall|i: int| 0 <= i < s.len() && char_is_uppercase(#[trigger] s[i]) ==> (s[i] as u32) < 128
}

/// `c` is an ASCII uppercase letter, `A` to `Z`.
pub open spec fn spec_ascii_upper(c: char) -> bool {
    'A' <= c && c <= 'Z'
}

/// `spec_snake_prefix` for ASCII text, where the uppercase characters are
/// exactly `A` to `Z`.
pub open spec fn spec_snake_prefix_ascii(s: Seq<char>, n: nat) -> Seq<char>
    decreases n,
{
    if n == 0 {
        Seq::<char>::empty()
    } else {
        let prev = spec_snake_prefix_ascii(s, (n - 1) as nat);
        let c = s[n - 1];
        if spec_ascii_upper(c) {
            if n - 1 != 0 {
                prev.push('_').push(spec_to_ascii_lowercase(c))
            } else {
                prev.push(spec_to_ascii_lowercase(c))
            }
        } else {
            prev.push(c)
        }
    }
}

/// One of the Rust keywords that `to_snake_case` follows with `_`.
pub open spec fn spec_is_snake_keyword(r: Seq<char>) -> bool {
    r == "async"@ || r == "fn"@ || r == "dyn"@ || r == "type"@ || r == "self"@
}

/// The snake case of an ASCII name.
pub open spec fn spec_to_snake_case_ascii(s: Seq<char>) -> Seq<char> {
    let r = spec_snake_prefix_ascii(s, s.len());
    if spec_is_snake_keyword(r) {
        r.push('_')
    } else {
        r
    }
}

/// The number of `A` to `Z` among the first `n` characters of `s`, the
/// first character left out.
pub open spec fn spec_upper_after_start(s: Seq<char>, n: nat) -> nat
    decreases n,
{
    if n <= 1 {
        0
    } else {
        spec_upper_after_start(s, (n - 1) as nat) + if spec_ascii_upper(s[n - 1]) { 1nat } else { 0nat }
    }
}

proof fn lemma_snake_prefix_ascii_shape(s: Seq<char>, n: nat)
    requires
        n <= s.len(),
        spec_uppercase_is_ascii(s),
    ensures
        spec_snake_prefix_ascii(s, n).len() == n + spec_upper_after_start(s, n),
        forall|i: int| 0 <= i < spec_snake_prefix_ascii(s, n).len() ==> !spec_ascii_upper(
            #[trigger] spec_snake_prefix_ascii(s, n)[i],
        ),
        spec_uppercase_is_ascii(spec_snake_prefix_ascii(s, n)),
        n > 0 ==> spec_snake_prefix_ascii(s, n).len() > 0,
    decreases n,
{
    if n > 0 {
        lemma_snake_prefix_ascii_shape(s, (n - 1) as nat);
        let prev = spec_snake_prefix_ascii(s, (n - 1) as nat);
        let p = spec_snake_prefix_ascii(s, n);
        let c = s[n - 1];
        if spec_ascii_upper(c) {
            let l = spec_to_ascii_lowercase(c);
            assert((l as u32) == (c as u32) + 32);
            assert(!spec_ascii_upper(l));
            assert((l as u32) < 128);
        }
        assert forall|i: int| 0 <= i < p.len() && char_is_uppercase(#[trigger] p[i]) implies (p[i] as u32) < 128 by {
            if i < prev.len() {
                assert(p[i] == prev[i]);
            } else if !spec_ascii_upper(c) {
                assert(p[i] == c);
            }
        }
    }
}

proof fn lemma_snake_prefix_ascii_keeps_lower(s: Seq<char>, n: nat)
    requires
        n <= s.len(),
        forall|i: int| 0 <= i < s.len() ==> !spec_ascii_upper(#[trigger] s[i]),
    ensures
        spec_snake_prefix_ascii(s, n) == s.subrange(0, n as int),
    decreases n,
{
    if n > 0 {
        lemma_snake_prefix_ascii_keeps_lower(s, (n - 1) as nat);
        assert(s.subrange(0, n as int) =~= s.subrange(0, n - 1).push(s[n - 1]));
    } else {
        assert(s.subrange(0, 0) =~= Seq::<char>::empty());
    }
}

/// The snake case of a name whose uppercase characters are all ASCII holds
/// no `A` to `Z` and no other uppercase character, is not one of the
/// keywords `async`, `fn`, `dyn`, `type`, `self`, is its own snake case, and
/// is as long as the name plus one `_` for each uppercase letter after the
/// first character, plus one more when a keyword was followed by `_`.
pub proof fn law_snake_case_ascii(s: Seq<char>)
    requires
        spec_uppercase_is_ascii(s),
    ensures
        ({
            let r = spec_to_snake_case_ascii(s);
            &&& forall|i: int| 0 <= i < r.len() ==> !spec_ascii_upper(#[trigger] r[i])
            &&& spec_uppercase_is_ascii(r)
            &&& !spec_is_snake_keyword(r)
            &&& spec_to_snake_case_ascii(r) == r
            &&& r.len() == s.len() + spec_upper_after_start(s, s.len())
                + if spec_is_snake_keyword(spec_snake_prefix_ascii(s, s.len())) { 1nat } else { 0nat }
        }),
{
    reveal_strlit("async");
    reveal_strlit("fn");
    reveal_strlit("dyn");
    reveal_strlit("type");
    reveal_strlit("self");
    let p = spec_snake_prefix_ascii(s, s.len());
    lemma_snake_prefix_ascii_shape(s, s.len());
    let r = spec_to_snake_case_ascii(s);
    if spec_is_snake_keyword(p) {
        assert(r == p.push('_'));
        assert(r[r.len() - 1] == '_');
        assert(!spec_is_snake_keyword(r));
    }
    assert forall|i: int| 0 <= i < r.len() implies !spec_ascii_upper(#[trigger] r[i]) by {
        if i < p.len() {
            assert(r[i] == p[i]);
        }
    }
    assert forall|i: int| 0 <= i < r.len() && char_is_uppercase(#[trigger] r[i]) implies (r[i] as u32) < 128 by {
        if i < p.len() {
            assert(r[i] == p[i]);
        }
    }
    lemma_snake_prefix_ascii_keeps_lower(r, r.len());
    assert(r.subrange(0, r.len() as int) =~= r);
}

/// A snake case name that is one of the Rust keywords `async`, `fn`, `dyn`,
/// `type` or `self` gets `_` appended; every other name is kept as it is.
pub proof fn law_snake_case_keywords(s: Seq<char>)
    ensures
        ({
            let p = spec_snake_prefix_ascii(s, s.len());
            let k = p == "async"@ || p == "fn"@ || p == "dyn"@ || p == "type"@ || p == "self"@;
            &&& k ==> spec_to_snake_case_ascii(s) == p + "_"@
            &&& !k ==> spec_to_snake_case_ascii(s) == p
        }),
{
    reveal_strlit("_");
    let p = spec_snake_prefix_ascii(s, s.len());
    assert(p.push('_') =~= p + "_"@);
}

/// Turns a `CamelCase` name into `snake_case`. On a name whose uppercase
/// characters are all ASCII (an ASCII name among them) the result is
/// `spec_to_snake_case_ascii`: there the uppercase characters are exactly
/// `A` to `Z`.
pub fn to_snake_case(s: &str) -> (r: String)
    ensures
        r@ == spec_to_snake_case(s@),
        spec_uppercase_is_ascii(s@) ==> r@ == spec_to_snake_case_ascii(s@),
{
    let n = s.unicode_len();
    let mut snake_case = String::new();
    let mut i: usize = 0;
    while i < n
        invariant
            n == s@.len(),
            i <= n,
            snake_case@ == spec_snake_prefix(s@, i as nat),
            spec_uppercase_is_ascii(s@) ==> snake_case@ == spec_snake_prefix_ascii(s@, i as nat),
        decreases n - i,
    {
        let c = s.get_char(i);
        assert(spec_uppercase_is_ascii(s@) && (c as u32) >= 128 ==> !char_is_uppercase(c) && !spec_ascii_upper(c));
        if is_uppercase(c) {
            if i != 0 {
                push_char(&mut snake_case, '_');
            }
            push_char(&mut snake_case, to_ascii_lowercase(c));
        } else {
            push_char(&mut snake_case, c);
        }
        i = i + 1;
    }
    let sc = snake_case.as_str();
    if str_eq(sc, "async") || str_eq(sc, "fn") || str_eq(sc, "dyn") || str_eq(sc, "type") || str_eq(sc, "self") {
        let mut r = to_string(sc);
        push_char(&mut r, '_');
        r
    } else {
        snake_case
    }
}

} // verus!

verus! {

/// What a slot of a generated interface declaration holds.
#[derive(Clone, Debug)]
pub enum VtableSlot {
    /// Nothing is known of the slot (it is declared as a reserved slot).
    Empty,
    /// The documented prototype of this function.
    Prototype(String),
    /// A placeholder for this undocumented function.
    Reserved(String),
}

/// A slot, with its function's name as text.
pub enum SlotView {
    Empty,
    Prototype(Seq<char>),
    Reserved(Seq<char>),
}

impl View for VtableSlot {
    type V = SlotView;

    open spec fn view(&self) -> SlotView {
        match self {
            VtableSlot::Empty => SlotView::Empty,
            VtableSlot::Prototype(f) => SlotView::Prototype(f@),
            VtableSlot::Reserved(f) => SlotView::Reserved(f@),
        }
    }
}

/// The slots of one interface of one class, in vtable order.
#[derive(Clone, Debug)]
pub struct InterfaceSlots {
    pub clsid: String,
    pub iid: String,
    pub slots: Vec<VtableSlot>,
}

/// An interface's slots, as text.
pub struct InterfaceView {
    pub clsid: Seq<char>,
    pub iid: Seq<char>,
    pub slots: Seq<SlotView>,
}

impl View for InterfaceSlots {
    type V = InterfaceView;

    open spec fn view(&self) -> InterfaceView {
        InterfaceView {
            clsid: self.clsid@,
            iid: self.iid@,
            slots: self.slots@.map_values(|s: VtableSlot| s@),
        }
    }
}

/// The interfaces as text.
pub open spec fn interfaces_view(v: Seq<InterfaceSlots>) -> Seq<InterfaceView> {
    v.map_values(|g: InterfaceSlots| g@)
}

/// The names as text.
pub open spec fn names_view(v: Seq<String>) -> Seq<Seq<char>> {
    v.map_values(|s: String| s@)
}

/// No name occurs twice.
pub open spec fn spec_distinct_names(v: Seq<Seq<char>>) -> bool {
    forall|i: int, j: int| 0 <= i < j < v.len() ==> v[i] != v[j]
}

/// No class and interface pair occurs twice.
pub open spec fn spec_distinct_interfaces(gs: Seq<InterfaceView>) -> bool {
    forall|i: int, j: int| 0 <= i < j < gs.len() ==> !(gs[i].clsid == gs[j].clsid && gs[i].iid == gs[j].iid)
}

/// The slots grown with empty slots to hold at least `n`.
pub open spec fn spec_grow(s: Seq<SlotView>, n: int) -> Seq<SlotView> {
    if s.len() >= n {
        s
    } else {
        s + Seq::new((n - s.len()) as nat, |k: int| SlotView::Empty)
    }
}

/// The interfaces and the documented functions not yet placed, after
/// placing one mapping entry. Entries without a vtable index, or with one
/// of the three `IUnknown` slots, are skipped. Otherwise the entry's
/// interface (added at the end when new) grows to hold the slot; a
/// documented function not yet placed takes the slot with its prototype and
/// is placed; an undocumented or already placed function leaves a
/// placeholder in an empty slot and nothing in a filled one.
pub open spec fn spec_place(gs: Seq<InterfaceView>, avail: Seq<Seq<char>>, e: GDKMappingEntry) -> (Seq<InterfaceView>, Seq<Seq<char>>) {
    match e.vtable_index {
        None => (gs, avail),
        Some(i) => if i < 3 {
            (gs, avail)
        } else {
            let has = exists|k: int| 0 <= k < gs.len() && gs[k].clsid == e.clsid@ && gs[k].iid == e.iid@;
            let k = if has {
                choose|k: int| 0 <= k < gs.len() && gs[k].clsid == e.clsid@ && gs[k].iid == e.iid@
            } else {
                gs.len() as int
            };
            let g0 = if has { gs[k] } else { InterfaceView { clsid: e.clsid@, iid: e.iid@, slots: Seq::<SlotView>::empty() } };
            let slots1 = spec_grow(g0.slots, i + 1);
            let f = e.function@;
            let documented = avail.contains(f);
            let slots2 = if documented {
                slots1.update(i as int, SlotView::Prototype(f))
            } else if slots1[i as int] is Empty {
                slots1.update(i as int, SlotView::Reserved(f))
            } else {
                slots1
            };
            let avail2 = if documented { avail.remove(avail.index_of(f)) } else { avail };
            let g2 = InterfaceView { slots: slots2, ..g0 };
            (if has { gs.update(k, g2) } else { gs.push(g2) }, avail2)
        },
    }
}

/// The interfaces and unplaced functions after placing the entries in order,
/// starting from no interfaces and the documented functions.
pub open spec fn spec_fill(entries: Seq<GDKMappingEntry>, documented: Seq<Seq<char>>) -> (Seq<InterfaceView>, Seq<Seq<char>>)
    decreases entries.len(),
{
    if entries.len() == 0 {
        (Seq::<InterfaceView>::empty(), documented)
    } else {
        let prev = spec_fill(entries.drop_last(), documented);
        spec_place(prev.0, prev.1, entries.last())
    }
}

/// Entries whose vtable index is small enough to size a vtable by.
pub open spec fn spec_indices_fit(entries: Seq<GDKMappingEntry>) -> bool {
    forall|k: int| 0 <= k < entries.len() ==> (#[trigger] entries[k].vtable_index matches Some(i) ==> i < usize::MAX)
}

/// Finds the position of a name in a list of names.
fn find_name(v: &Vec<String>, name: &str) -> (r: Option<usize>)
    ensures
        match r {
            Some(k) => k < v@.len() && v@[k as int]@ == name@,
            None => !names_view(v@).contains(name@),
        },
{
    let mut k: usize = 0;
    while k < v.len()
        invariant
            k <= v@.len(),
            forall|j: int| 0 <= j < k ==> v@[j]@ != name@,
        decreases v@.len() - k,
    {
        if str_eq(v[k].as_str(), name) {
            return Some(k);
        }
        k = k + 1;
    }
    proof {
        if names_view(v@).contains(name@) {
            let j = choose|j: int| 0 <= j < names_view(v@).len() && names_view(v@)[j] == name@;
            assert(v@[j]@ == name@);
        }
    }
    None
}

/// Places one mapping entry (see `spec_place`).
pub fn place_entry(groups: &mut Vec<InterfaceSlots>, available: &mut Vec<String>, e: &GDKMappingEntry)
    requires
        spec_distinct_interfaces(interfaces_view(old(groups)@)),
        spec_distinct_names(names_view(old(available)@)),
        e.vtable_index matches Some(i) ==> i < usize::MAX,
    ensures
        spec_distinct_interfaces(interfaces_view(final(groups)@)),
        spec_distinct_names(names_view(final(available)@)),
        (interfaces_view(final(groups)@), names_view(final(available)@))
            == spec_place(interfaces_view(old(groups)@), names_view(old(available)@), *e),
{
    let ghost gs = interfaces_view(groups@);
    let ghost avail = names_view(available@);
    let i = match e.vtable_index {
        None => {
            return;
        },
        Some(i) => i,
    };
    if i < 3 {
        return;
    }
    let idx: usize = i as usize;
    let mut g: usize = 0;
    while g < groups.len()
        invariant
            groups@ == old(groups)@,
            g <= groups@.len(),
            forall|j: int| 0 <= j < g ==> !(groups@[j].clsid@ == e.clsid@ && groups@[j].iid@ == e.iid@),
        ensures
            groups@ == old(groups)@,
            g <= groups@.len(),
            forall|j: int| 0 <= j < g ==> !(groups@[j].clsid@ == e.clsid@ && groups@[j].iid@ == e.iid@),
            g < groups@.len() ==> groups@[g as int].clsid@ == e.clsid@ && groups@[g as int].iid@ == e.iid@,
        decreases groups@.len() - g,
    {
        if str_eq(groups[g].clsid.as_str(), e.clsid.as_str()) && str_eq(groups[g].iid.as_str(), e.iid.as_str()) {
            break;
        }
        g = g + 1;
    }
    let has = g < groups.len();
    let ghost has_spec = exists|k: int| 0 <= k < gs.len() && gs[k].clsid == e.clsid@ && gs[k].iid == e.iid@;
    proof {
        if has {
            assert(gs[g as int].clsid == e.clsid@ && gs[g as int].iid == e.iid@);
            assert(has_spec);
            let k = choose|k: int| 0 <= k < gs.len() && gs[k].clsid == e.clsid@ && gs[k].iid == e.iid@;
            if k != g as int {
                if k < g as int {
                    assert(groups@[k].clsid@ == gs[k].clsid && groups@[k].iid@ == gs[k].iid);
                } else {
                    assert(!(gs[g as int].clsid == gs[k].clsid && gs[g as int].iid == gs[k].iid));
                }
            }
        } else {
            if has_spec {
                let k = choose|k: int| 0 <= k < gs.len() && gs[k].clsid == e.clsid@ && gs[k].iid == e.iid@;
                assert(groups@[k].clsid@ == gs[k].clsid);
            }
        }
    }
    let mut grp = if has {
        groups.remove(g)
    } else {
        InterfaceSlots { clsid: e.clsid.clone(), iid: e.iid.clone(), slots: Vec::new() }
    };
    let ghost g0 = grp@;
    let ghost rest = groups@;
    while grp.slots.len() <= idx
        invariant
            grp.clsid@ == g0.clsid,
            grp.iid@ == g0.iid,
            grp.slots@.map_values(|s: VtableSlot| s@) == spec_grow(g0.slots, grp.slots@.len() as int),
            g0.slots.len() <= grp.slots@.len(),
            grp.slots@.len() == g0.slots.len() || grp.slots@.len() <= idx + 1,
            idx < usize::MAX,
        decreases idx + 1 - grp.slots@.len(),
    {
        let ghost before = grp.slots@;
        grp.slots.push(VtableSlot::Empty);
        proof {
            assert(grp.slots@.map_values(|s: VtableSlot| s@) =~= before.map_values(|s: VtableSlot| s@).push(SlotView::Empty));
            assert(spec_grow(g0.slots, grp.slots@.len() as int) =~= spec_grow(g0.slots, before.len() as int).push(SlotView::Empty));
        }
    }
    proof {
        if g0.slots.len() >= i + 1 {
            assert(grp.slots@.len() == g0.slots.len());
        }
        assert(spec_grow(g0.slots, grp.slots@.len() as int) == spec_grow(g0.slots, i + 1));
    }
    let ghost slots1 = grp.slots@.map_values(|s: VtableSlot| s@);
    let found = find_name(available, e.function.as_str());
    match found {
        Some(k) => {
            grp.slots.set(idx, VtableSlot::Prototype(e.function.clone()));
            proof {
                assert(avail[k as int] == e.function@);
                assert(avail.index_of(e.function@) == k as int) by {
                    assert(avail.contains(e.function@));
                    let m = avail.index_of(e.function@);
                    assert(avail[m] == e.function@);
                    if m != k as int {
                        assert(false);
                    }
                }
            }
            available.remove(k);
            proof {
                assert(names_view(available@) =~= avail.remove(k as int));
                assert forall|a: int, b: int| 0 <= a < b < names_view(available@).len() implies names_view(available@)[a] != names_view(available@)[b] by {
                    let ia = if a < k { a } else { a + 1 };
                    let ib = if b < k { b } else { b + 1 };
                    assert(names_view(available@)[a] == avail[ia]);
                    assert(names_view(available@)[b] == avail[ib]);
                }
            }
        },
        None => {
            match grp.slots[idx] {
                VtableSlot::Empty => {
                    grp.slots.set(idx, VtableSlot::Reserved(e.function.clone()));
                },
                _ => {},
            }
        },
    }
    proof {
        assert(grp.slots@.map_values(|s: VtableSlot| s@) =~= (if avail.contains(e.function@) {
            slots1.update(i as int, SlotView::Prototype(e.function@))
        } else if slots1[i as int] is Empty {
            slots1.update(i as int, SlotView::Reserved(e.function@))
        } else {
            slots1
        }));
    }
    let ghost g2 = grp@;
    if has {
        groups.insert(g, grp);
        proof {
            assert(interfaces_view(groups@) =~= gs.update(g as int, g2));
            assert forall|a: int, b: int| 0 <= a < b < interfaces_view(groups@).len() implies !(interfaces_view(groups@)[a].clsid == interfaces_view(groups@)[b].clsid && interfaces_view(groups@)[a].iid == interfaces_view(groups@)[b].iid) by {
                assert(gs[a].clsid == interfaces_view(groups@)[a].clsid && gs[a].iid == interfaces_view(groups@)[a].iid);
                assert(gs[b].clsid == interfaces_view(groups@)[b].clsid && gs[b].iid == interfaces_view(groups@)[b].iid);
            }
        }
    } else {
        groups.push(grp);
        proof {
            assert(interfaces_view(groups@) =~= gs.push(g2));
            assert forall|a: int, b: int| 0 <= a < b < interfaces_view(groups@).len() implies !(interfaces_view(groups@)[a].clsid == interfaces_view(groups@)[b].clsid && interfaces_view(groups@)[a].iid == interfaces_view(groups@)[b].iid) by {
                if b == gs.len() {
                    assert(interfaces_view(groups@)[a] == gs[a]);
                    assert(groups@[a].clsid@ == gs[a].clsid);
                } else {
                    assert(interfaces_view(groups@)[a] == gs[a] && interfaces_view(groups@)[b] == gs[b]);
                }
            }
        }
    }
}

/// Lays out the interfaces of a mapping: each entry is placed in turn (see
/// `spec_place`), starting from no interfaces, with the documented
/// functions (each named once) available as prototypes. Returns the
/// interfaces, in the order their first entry appears, and the documented
/// functions that no entry placed.
pub fn fill_vtables(mapping: &GDKMapping, documented: Vec<String>) -> (r: (Vec<InterfaceSlots>, Vec<String>))
    requires
        spec_distinct_names(names_view(documented@)),
        spec_indices_fit(mapping.mappings@),
    ensures
        (interfaces_view(r.0@), names_view(r.1@)) == spec_fill(mapping.mappings@, names_view(documented@)),
{
    let ghost docs = names_view(documented@);
    let mut groups: Vec<InterfaceSlots> = Vec::new();
    let mut available = documented;
    let mut n: usize = 0;
    assert(interfaces_view(groups@) =~= Seq::<InterfaceView>::empty());
    assert(mapping.mappings@.subrange(0, 0) =~= Seq::<GDKMappingEntry>::empty());
    while n < mapping.mappings.len()
        invariant
            n <= mapping.mappings@.len(),
            spec_indices_fit(mapping.mappings@),
            spec_distinct_interfaces(interfaces_view(groups@)),
            spec_distinct_names(names_view(available@)),
            (interfaces_view(groups@), names_view(available@)) == spec_fill(mapping.mappings@.subrange(0, n as int), docs),
        decreases mapping.mappings@.len() - n,
    {
        let e = &mapping.mappings[n];
        assert(mapping.mappings@[n as int].vtable_index matches Some(i) ==> i < usize::MAX);
        place_entry(&mut groups, &mut available, e);
        proof {
            let pre = mapping.mappings@.subrange(0, n as int + 1);
            assert(pre.drop_last() =~= mapping.mappings@.subrange(0, n as int));
            assert(pre.last() == mapping.mappings@[n as int]);
        }
        n = n + 1;
    }
    assert(mapping.mappings@.subrange(0, n as int) =~= mapping.mappings@);
    (groups, available)
}

/// Placing an entry with a vtable index past the `IUnknown` slots leaves
/// its interface with that slot filled (by a prototype or a placeholder),
/// and a documented function is placed at most once: it is no longer
/// available afterwards.
pub proof fn law_place_fills_slot(gs: Seq<InterfaceView>, avail: Seq<Seq<char>>, e: GDKMappingEntry, i: i64)
    requires
        e.vtable_index == Some(i),
        i >= 3,
        spec_distinct_names(avail),
    ensures
        ({
            let r = spec_place(gs, avail, e);
            &&& exists|k: int| #![trigger r.0[k]] 0 <= k < r.0.len() && r.0[k].clsid == e.clsid@ && r.0[k].iid == e.iid@
                && i < r.0[k].slots.len() && !(r.0[k].slots[i as int] is Empty)
            &&& !r.1.contains(e.function@)
        }),
{
    let r = spec_place(gs, avail, e);
    let has = exists|k: int| 0 <= k < gs.len() && gs[k].clsid == e.clsid@ && gs[k].iid == e.iid@;
    let k = if has {
        choose|k: int| 0 <= k < gs.len() && gs[k].clsid == e.clsid@ && gs[k].iid == e.iid@
    } else {
        gs.len() as int
    };
    assert(r.0[k].clsid == e.clsid@ && r.0[k].iid == e.iid@);
    let f = e.function@;
    if avail.contains(f) {
        let m = avail.index_of(f);
        assert forall|j: int| 0 <= j < r.1.len() implies r.1[j] != f by {
            let ij = if j < m { j } else { j + 1 };
            assert(r.1[j] == avail[ij]);
        }
    }
}

} // verus!
