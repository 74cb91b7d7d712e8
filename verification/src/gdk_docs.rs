//! Rust declarations of the GDK's enums, structs and functions, read from
//! its documentation: each declaration is found by a regular expression
//! (the `regex` crate), and its Rust text is built here from the captured
//! pieces.
use vstd::prelude::*;
use vstd::string::StringExecFns;
use crate::prototypes::{groups_view, names_view, spec_to_rust_type_ex, spec_to_snake_case, to_rust_type, to_snake_case};
use crate::text::{str_eq, to_string, trim, spec_trim};

verus! {

/// Whether `regex::Regex::new(pattern)` compiles the pattern.
pub uninterp spec fn regex_compiles(pattern: Seq<char>) -> bool;

/// What `Regex::captures_iter(text)` yields for a compiled pattern: for each
/// match, in order, the text of each group (`None` for a group that took no
/// part), group 0 being the whole match.
pub uninterp spec fn regex_all_captures_of(pattern: Seq<char>, text: Seq<char>) -> Seq<Seq<Option<Seq<char>>>>;

/// What `Regex::replace_all(text, rep)` gives for a compiled pattern.
pub uninterp spec fn regex_replace_all_of(pattern: Seq<char>, text: Seq<char>, rep: Seq<char>) -> Seq<char>;

/// The plain view of the captures of all matches.
pub open spec fn all_groups_view(v: Seq<Vec<Option<String>>>) -> Seq<Seq<Option<Seq<char>>>> {
    v.map_values(|g: Vec<Option<String>>| groups_view(g@))
}

/// Calls `regex::Regex::new(pattern)` and then `Regex::captures_iter(text)`,
/// handing out the text of each group of each match. The contract claims
/// that compiling depends on the pattern alone (named `regex_compiles`) and
/// that the captures are a function of the pattern and the text (named
/// `regex_all_captures_of`).
#[verifier::external_body]
fn regex_all_captures(pattern: &str, text: &str) -> (r: Option<Vec<Vec<Option<String>>>>)
    ensures
        r is None <==> !regex_compiles(pattern@),
        r matches Some(v) ==> all_groups_view(v@) == regex_all_captures_of(pattern@, text@),
{
    let re = regex::Regex::new(pattern).ok()?;
    Some(
        re.captures_iter(text)
            .map(|caps| (0..caps.len()).map(|i| caps.get(i).map(|m| m.as_str().to_string())).collect())
            .collect(),
    )
}

/// Calls `regex::Regex::new(pattern)` and then
/// `Regex::replace_all(text, rep)`. The contract claims that compiling
/// depends on the pattern alone (named `regex_compiles`) and that the result
/// is a function of the pattern, the text and the replacement (named
/// `regex_replace_all_of`).
#[verifier::external_body]
fn regex_replace_all(pattern: &str, text: &str, rep: &str) -> (r: Option<String>)
    ensures
        r is None <==> !regex_compiles(pattern@),
        r matches Some(s) ==> s@ == regex_replace_all_of(pattern@, text@, rep@),
{
    let re = regex::Regex::new(pattern).ok()?;
    Some(re.replace_all(text, rep).into_owned())
}

/// The pattern of an enum declaration: its name, underlying type and body.
pub open spec fn spec_enum_pattern() -> Seq<char> {
    r"enum class (\w+) *: *(\w+)[\s\n]*\{(([\n\s]*\w+\s*(=\s*\w+)?,?)+)[\n\s]*\}"@
}

/// The pattern of a struct declaration: its name and body.
pub open spec fn spec_struct_pattern() -> Seq<char> {
    r"[\s\n]struct (\w+) *[\s\n]*\{(((\n|\s|//.*\n)*([\w\*]+\s*)+;)+)[\n\s]*\}"@
}

/// The pattern of a struct field: its type and name.
pub open spec fn spec_field_pattern() -> Seq<char> {
    r"[\s\n]*(([\w\*]+\s+)+)(\w+)\s*;"@
}

/// The pattern of a documented function prototype: its return type, an
/// optional calling convention, its name and its parameters.
pub open spec fn spec_function_pattern() -> Seq<char> {
    r"C\+\+\s*\n\s*\n\s*(?:typedef\s*)?(\w+|STDAPI_\(bool\))\s+(?:(\w+)\s+)?(\w+)\s*\((((\n|\s|//.*\n)*([\w\*]+\s*)+,?)*)?[\n\s]*\)\s*(noexcept\s*)?;?\n*\n\s*\n\s*(Parameters|Return value)"@
}

/// The pattern of a parameter: its type and name.
pub open spec fn spec_parameter_pattern() -> Seq<char> {
    r"[\s\n]*(([\w\*]+\s+)+)(\w+)\s*"@
}

/// The SAL annotations dropped from parameter types.
pub open spec fn spec_annotation_pattern() -> Seq<char> {
    r"_In_opt_z_|_Out_opt_|_Out_Opt_|_In_z_|_In_opt_|_In_|_Out_"@
}

/// The alternatives of a regex alternation `a|b|c`, split at each `|`.
pub open spec fn spec_alternatives(p: Seq<char>) -> Seq<Seq<char>>
    decreases p.len(),
{
    if p.len() == 0 {
        seq![Seq::<char>::empty()]
    } else {
        let rest = spec_alternatives(p.drop_first());
        if p[0] == '|' {
            seq![Seq::<char>::empty()] + rest
        } else {
            rest.update(0, seq![p[0]] + rest[0])
        }
    }
}

/// `a` is a proper prefix of `b`.
pub open spec fn spec_is_proper_prefix(a: Seq<char>, b: Seq<char>) -> bool {
    a.len() < b.len() && b.subrange(0, a.len() as int) == a
}

proof fn lemma_alternatives_word(a: Seq<char>)
    requires
        !a.contains('|'),
    ensures
        spec_alternatives(a) == seq![a],
    decreases a.len(),
{
    if a.len() > 0 {
        let a1 = a.drop_first();
        assert(!a1.contains('|')) by {
            if a1.contains('|') {
                let k = choose|k: int| 0 <= k < a1.len() && a1[k] == '|';
                assert(a[k + 1] == '|');
            }
        }
        assert(a[0] != '|');
        lemma_alternatives_word(a1);
        assert(seq![a[0]] + a1 =~= a);
        assert(seq![a1].update(0, seq![a[0]] + a1) =~= seq![a]);
    } else {
        assert(a =~= Seq::<char>::empty());
    }
}

proof fn lemma_alternatives_split(a: Seq<char>, b: Seq<char>)
    requires
        !a.contains('|'),
    ensures
        spec_alternatives(a + seq!['|'] + b) == seq![a] + spec_alternatives(b),
    decreases a.len(),
{
    let p = a + seq!['|'] + b;
    if a.len() == 0 {
        assert(p.drop_first() =~= b);
        assert(a =~= Seq::<char>::empty());
    } else {
        let a1 = a.drop_first();
        assert(!a1.contains('|')) by {
            if a1.contains('|') {
                let k = choose|k: int| 0 <= k < a1.len() && a1[k] == '|';
                assert(a[k + 1] == '|');
            }
        }
        assert(a[0] != '|');
        assert(p[0] == a[0]);
        assert(p.drop_first() =~= a1 + seq!['|'] + b);
        lemma_alternatives_split(a1, b);
        let rest = seq![a1] + spec_alternatives(b);
        assert(seq![a[0]] + a1 =~= a);
        assert(rest.update(0, seq![a[0]] + rest[0]) =~= seq![a] + spec_alternatives(b));
    }
}

/// The SAL annotations that the annotation pattern strips from a parameter
/// type are exactly `_In_`, `_In_opt_`, `_In_z_`, `_In_opt_z_`, `_Out_`,
/// `_Out_opt_` and `_Out_Opt_`: each is one alternative of the pattern,
/// every alternative is one of them, and no alternative comes before a
/// longer one that it begins, so that the first alternative to match (the
/// regex rule) takes a whole annotation and leaves none of it in the type.
pub proof fn law_annotation_pattern_strips_sal()
    ensures
        ({
            let alts = spec_alternatives(spec_annotation_pattern());
            &&& alts.contains("_In_"@)
            &&& alts.contains("_In_opt_"@)
            &&& alts.contains("_In_z_"@)
            &&& alts.contains("_In_opt_z_"@)
            &&& alts.contains("_Out_"@)
            &&& alts.contains("_Out_opt_"@)
            &&& alts.contains("_Out_Opt_"@)
            &&& forall|i: int| 0 <= i < alts.len() ==> {
                ||| alts[i] == "_In_"@
                ||| alts[i] == "_In_opt_"@
                ||| alts[i] == "_In_z_"@
                ||| alts[i] == "_In_opt_z_"@
                ||| alts[i] == "_Out_"@
                ||| alts[i] == "_Out_opt_"@
                ||| alts[i] == "_Out_Opt_"@
            }
            &&& forall|i: int, j: int| 0 <= i < j < alts.len() ==> !spec_is_proper_prefix(alts[i], alts[j])
        }),
{
    reveal_strlit("_In_opt_z_|_Out_opt_|_Out_Opt_|_In_z_|_In_opt_|_In_|_Out_");
    reveal_strlit("_In_opt_z_");
    reveal_strlit("_Out_opt_");
    reveal_strlit("_Out_Opt_");
    reveal_strlit("_In_z_");
    reveal_strlit("_In_opt_");
    reveal_strlit("_In_");
    reveal_strlit("_Out_");
    assert(!("_In_opt_z_"@).contains('|'));
    assert(!("_Out_opt_"@).contains('|'));
    assert(!("_Out_Opt_"@).contains('|'));
    assert(!("_In_z_"@).contains('|'));
    assert(!("_In_opt_"@).contains('|'));
    assert(!("_In_"@).contains('|'));
    assert(!("_Out_"@).contains('|'));
    let p = spec_annotation_pattern();
    let r6 = "_Out_"@;
    let r5 = "_In_"@ + seq!['|'] + r6;
    let r4 = "_In_opt_"@ + seq!['|'] + r5;
    let r3 = "_In_z_"@ + seq!['|'] + r4;
    let r2 = "_Out_Opt_"@ + seq!['|'] + r3;
    let r1 = "_Out_opt_"@ + seq!['|'] + r2;
    let r0 = "_In_opt_z_"@ + seq!['|'] + r1;
    assert(p =~= r0);
    lemma_alternatives_split("_In_opt_z_"@, r1);
    lemma_alternatives_split("_Out_opt_"@, r2);
    lemma_alternatives_split("_Out_Opt_"@, r3);
    lemma_alternatives_split("_In_z_"@, r4);
    lemma_alternatives_split("_In_opt_"@, r5);
    lemma_alternatives_split("_In_"@, r6);
    lemma_alternatives_word("_Out_"@);
    let alts = spec_alternatives(p);
    assert(alts =~= seq!["_In_opt_z_"@, "_Out_opt_"@, "_Out_Opt_"@, "_In_z_"@, "_In_opt_"@, "_In_"@, "_Out_"@]);
    assert(alts.contains("_In_opt_z_"@)) by { assert(alts[0] == "_In_opt_z_"@); }
    assert(alts.contains("_Out_opt_"@)) by { assert(alts[1] == "_Out_opt_"@); }
    assert(alts.contains("_Out_Opt_"@)) by { assert(alts[2] == "_Out_Opt_"@); }
    assert(alts.contains("_In_z_"@)) by { assert(alts[3] == "_In_z_"@); }
    assert(alts.contains("_In_opt_"@)) by { assert(alts[4] == "_In_opt_"@); }
    assert(alts.contains("_In_"@)) by { assert(alts[5] == "_In_"@); }
    assert(alts.contains("_Out_"@)) by { assert(alts[6] == "_Out_"@); }
    assert forall|i: int, j: int| 0 <= i < j < alts.len() implies !spec_is_proper_prefix(alts[i], alts[j]) by {
        if i == 3 && j == 4 {
            assert(alts[j].subrange(0, alts[i].len() as int)[4] != alts[i][4]);
        } else if i == 5 && j == 6 {
            assert(alts[j].subrange(0, alts[i].len() as int)[1] != alts[i][1]);
        }
    }
}

/// Group `i` of a match, if it took part.
pub open spec fn spec_group(c: Seq<Option<Seq<char>>>, i: int) -> Option<Seq<char>> {
    if 0 <= i < c.len() {
        c[i]
    } else {
        None
    }
}

/// The text of an optional string.
pub open spec fn opt_view(o: Option<String>) -> Option<Seq<char>> {
    match o {
        Some(s) => Some(s@),
        None => None,
    }
}

fn group(c: &Vec<Option<String>>, i: usize) -> (r: Option<String>)
    ensures
        opt_view(r) == spec_group(groups_view(c@), i as int),
{
    if i < c.len() {
        match &c[i] {
            Some(s) => Some(s.clone()),
            None => None,
        }
    } else {
        None
    }
}

fn contains_name(v: &Vec<String>, name: &str) -> (r: bool)
    ensures
        r == names_view(v@).contains(name@),
{
    let mut k: usize = 0;
    while k < v.len()
        invariant
            k <= v@.len(),
            forall|j: int| 0 <= j < k ==> v@[j]@ != name@,
        decreases v@.len() - k,
    {
        if str_eq(v[k].as_str(), name) {
            assert(names_view(v@)[k as int] == name@);
            return true;
        }
        k = k + 1;
    }
    proof {
        if names_view(v@).contains(name@) {
            let j = choose|j: int| 0 <= j < names_view(v@).len() && #[trigger] names_view(v@)[j] == name@;
            assert(v@[j]@ == name@);
        }
    }
    false
}

/// The declaration of an enum: its representation, name and body as
/// documented.
pub open spec fn spec_enum_declaration(name: Seq<char>, ty: Seq<char>, body: Seq<char>) -> Seq<char> {
    "#[repr("@ + spec_to_rust_type_ex(ty, false) + ")]\npub enum "@ + name + " {"@ + body + "\n}\n"@
}

/// The declarations of the enums matched, in order; a name already known
/// (or declared earlier) is skipped.
pub open spec fn spec_enum_declarations(caps: Seq<Seq<Option<Seq<char>>>>, known: Seq<Seq<char>>) -> Seq<char>
    decreases caps.len(),
{
    if caps.len() == 0 {
        Seq::<char>::empty()
    } else {
        let c = caps[0];
        let rest = caps.drop_first();
        match (spec_group(c, 1), spec_group(c, 2), spec_group(c, 3)) {
            (Some(n), Some(t), Some(b)) => if known.contains(n) {
                spec_enum_declarations(rest, known)
            } else {
                spec_enum_declaration(n, t, b) + spec_enum_declarations(rest, known.push(n))
            },
            _ => spec_enum_declarations(rest, known),
        }
    }
}

/// The enum names that are never declared: `HCTraceLevel`, which the
/// documentation defines through macros.
pub open spec fn spec_enum_known() -> Seq<Seq<char>> {
    seq!["HCTraceLevel"@]
}

/// The declarations of the matched enums (see `spec_enum_declarations`).
pub fn enum_declarations_from(caps: &Vec<Vec<Option<String>>>) -> (r: String)
    ensures
        r@ == spec_enum_declarations(all_groups_view(caps@), spec_enum_known()),
{
    let ghost all = all_groups_view(caps@);
    let mut known: Vec<String> = Vec::new();
    known.push(to_string("HCTraceLevel"));
    let mut out = String::new();
    let mut i: usize = 0;
    assert(names_view(known@) =~= spec_enum_known());
    assert(all.skip(0) =~= all);
    while i < caps.len()
        invariant
            all == all_groups_view(caps@),
            i <= caps@.len(),
            out@ + spec_enum_declarations(all.skip(i as int), names_view(known@))
                == spec_enum_declarations(all, spec_enum_known()),
        decreases caps@.len() - i,
    {
        let ghost kv = names_view(known@);
        let ghost rest = all.skip(i as int);
        assert(rest[0] == groups_view(caps@[i as int]@));
        assert(rest.drop_first() =~= all.skip(i as int + 1));
        let c = &caps[i];
        let name = group(c, 1);
        let ty = group(c, 2);
        let body = group(c, 3);
        match (name, ty, body) {
            (Some(n), Some(t), Some(b)) => {
                if !contains_name(&known, n.as_str()) {
                    let ghost before = out@;
                    out.append("#[repr(");
                    let rt = to_rust_type(t.as_str());
                    out.append(rt.as_str());
                    out.append(")]\npub enum ");
                    out.append(n.as_str());
                    out.append(" {");
                    out.append(b.as_str());
                    out.append("\n}\n");
                    assert(out@ =~= before + spec_enum_declaration(n@, t@, b@));
                    known.push(n);
                    assert(names_view(known@) =~= kv.push(known@.last()@));
                }
            },
            _ => {},
        }
        i = i + 1;
    }
    assert(all.skip(caps@.len() as int) =~= Seq::<Seq<Option<Seq<char>>>>::empty());
    out
}

/// The line of a struct field: its snake case name and Rust type.
pub open spec fn spec_field_line(field: Seq<char>, ty: Seq<char>) -> Seq<char> {
    "    pub "@ + spec_to_snake_case(field) + ": "@ + spec_to_rust_type_ex(spec_trim(ty), false) + ",\n"@
}

/// The lines of the fields matched in a struct's body, in order.
pub open spec fn spec_field_lines(caps: Seq<Seq<Option<Seq<char>>>>) -> Seq<char>
    decreases caps.len(),
{
    if caps.len() == 0 {
        Seq::<char>::empty()
    } else {
        let c = caps[0];
        let rest = spec_field_lines(caps.drop_first());
        match (spec_group(c, 3), spec_group(c, 1)) {
            (Some(f), Some(t)) => spec_field_line(f, t) + rest,
            _ => rest,
        }
    }
}

/// The declaration of a struct, given the lines of its fields.
pub open spec fn spec_struct_declaration(name: Seq<char>, fields: Seq<char>) -> Seq<char> {
    "#[repr(C)]\npub struct "@ + name + " {\n"@ + fields + "}\n"@
}

/// The declarations of the structs matched, in order, each with the fields
/// matched in its body; a name declared earlier is skipped.
pub open spec fn spec_struct_declarations(caps: Seq<Seq<Option<Seq<char>>>>, known: Seq<Seq<char>>) -> Seq<char>
    decreases caps.len(),
{
    if caps.len() == 0 {
        Seq::<char>::empty()
    } else {
        let c = caps[0];
        let rest = caps.drop_first();
        match (spec_group(c, 1), spec_group(c, 2)) {
            (Some(n), Some(b)) => if known.contains(n) {
                spec_struct_declarations(rest, known)
            } else {
                spec_struct_declaration(n, spec_field_lines(regex_all_captures_of(spec_field_pattern(), b)))
                    + spec_struct_declarations(rest, known.push(n))
            },
            _ => spec_struct_declarations(rest, known),
        }
    }
}

fn field_lines(fields: &Vec<Vec<Option<String>>>) -> (r: String)
    ensures
        r@ == spec_field_lines(all_groups_view(fields@)),
{
    let ghost all = all_groups_view(fields@);
    let mut out = String::new();
    let mut k: usize = 0;
    assert(all.skip(0) =~= all);
    while k < fields.len()
        invariant
            all == all_groups_view(fields@),
            k <= fields@.len(),
            out@ + spec_field_lines(all.skip(k as int)) == spec_field_lines(all),
        decreases fields@.len() - k,
    {
        let ghost rest = all.skip(k as int);
        assert(rest[0] == groups_view(fields@[k as int]@));
        assert(rest.drop_first() =~= all.skip(k as int + 1));
        let c = &fields[k];
        match (group(c, 3), group(c, 1)) {
            (Some(f), Some(t)) => {
                let ghost before = out@;
                out.append("    pub ");
                let sn = to_snake_case(f.as_str());
                out.append(sn.as_str());
                out.append(": ");
                let rt = to_rust_type(trim(t.as_str()));
                out.append(rt.as_str());
                out.append(",\n");
                assert(out@ =~= before + spec_field_line(f@, t@));
                assert(out@ + spec_field_lines(all.skip(k as int + 1)) =~= before + spec_field_lines(rest));
            },
            _ => {},
        }
        k = k + 1;
    }
    assert(all.skip(fields@.len() as int) =~= Seq::<Seq<Option<Seq<char>>>>::empty());
    out
}

/// The declarations of the matched structs (see
/// `spec_struct_declarations`), starting with no names known. The field
/// pattern must compile.
pub fn struct_declarations_from(caps: &Vec<Vec<Option<String>>>) -> (r: String)
    requires
        regex_compiles(spec_field_pattern()),
    ensures
        r@ == spec_struct_declarations(all_groups_view(caps@), Seq::<Seq<char>>::empty()),
{
    let ghost all = all_groups_view(caps@);
    let mut known: Vec<String> = Vec::new();
    let mut out = String::new();
    let mut i: usize = 0;
    assert(names_view(known@) =~= Seq::<Seq<char>>::empty());
    assert(all.skip(0) =~= all);
    while i < caps.len()
        invariant
            all == all_groups_view(caps@),
            regex_compiles(spec_field_pattern()),
            i <= caps@.len(),
            out@ + spec_struct_declarations(all.skip(i as int), names_view(known@))
                == spec_struct_declarations(all, Seq::<Seq<char>>::empty()),
        decreases caps@.len() - i,
    {
        let ghost kv = names_view(known@);
        let ghost rest = all.skip(i as int);
        assert(rest[0] == groups_view(caps@[i as int]@));
        assert(rest.drop_first() =~= all.skip(i as int + 1));
        let c = &caps[i];
        match (group(c, 1), group(c, 2)) {
            (Some(n), Some(b)) => {
                if !contains_name(&known, n.as_str()) {
                    let fields = match regex_all_captures(r"[\s\n]*(([\w\*]+\s+)+)(\w+)\s*;", b.as_str()) {
                        Some(f) => f,
                        None => {
                            assert(false);
                            Vec::new()
                        },
                    };
                    let ghost before = out@;
                    out.append("#[repr(C)]\npub struct ");
                    out.append(n.as_str());
                    out.append(" {\n");
                    let lines = field_lines(&fields);
                    out.append(lines.as_str());
                    out.append("}\n");
                    assert(out@ =~= before + spec_struct_declaration(n@, spec_field_lines(regex_all_captures_of(spec_field_pattern(), b@))));
                    known.push(n);
                    assert(names_view(known@) =~= kv.push(known@.last()@));
                }
            },
            _ => {},
        }
        i = i + 1;
    }
    assert(all.skip(caps@.len() as int) =~= Seq::<Seq<Option<Seq<char>>>>::empty());
    out
}

/// The text of a parameter: its snake case name, after `_`, and its Rust
/// type, read with its SAL annotations dropped.
pub open spec fn spec_parameter(c: Seq<Option<Seq<char>>>) -> Option<Seq<char>> {
    match (spec_group(c, 3), spec_group(c, 1)) {
        (Some(f), Some(t)) => Some(
            "_"@ + spec_to_snake_case(f) + ": "@ + spec_to_rust_type_ex(
                spec_trim(regex_replace_all_of(spec_annotation_pattern(), spec_trim(t), ""@)),
                false,
            ),
        ),
        _ => None,
    }
}

/// The parameter list of the matched parameters: each match but the very
/// first of the list is preceded by `, ` (whether or not it yields a
/// parameter), and each yields its parameter's text.
pub open spec fn spec_parameters(caps: Seq<Seq<Option<Seq<char>>>>, first: bool) -> Seq<char>
    decreases caps.len(),
{
    if caps.len() == 0 {
        Seq::<char>::empty()
    } else {
        (if first { Seq::<char>::empty() } else { ", "@ }) + (match spec_parameter(caps[0]) {
            Some(p) => p,
            None => Seq::<char>::empty(),
        }) + spec_parameters(caps.drop_first(), false)
    }
}

/// The declaration of a documented function: as a method of its interface
/// (after `self: &Self`), or as a function pointer type.
pub open spec fn spec_function_text(name: Seq<char>, ret: Seq<char>, body: Seq<char>, as_method: bool) -> Seq<char> {
    "// "@ + name + "\n"@ + (if as_method {
        "unsafe fn "@ + spec_to_snake_case(name) + "(self: &Self"@
    } else {
        "pub type "@ + name + " = unsafe extern \"system\" fn("@
    }) + spec_parameters(regex_all_captures_of(spec_parameter_pattern(), body), !as_method) + ") -> "@
        + spec_to_rust_type_ex(spec_trim(ret), false) + ";\n"@
}

fn parameters(caps: &Vec<Vec<Option<String>>>, first: bool) -> (r: String)
    requires
        regex_compiles(spec_annotation_pattern()),
    ensures
        r@ == spec_parameters(all_groups_view(caps@), first),
{
    let ghost all = all_groups_view(caps@);
    let mut out = String::new();
    let mut k: usize = 0;
    let mut at_start = first;
    assert(all.skip(0) =~= all);
    while k < caps.len()
        invariant
            all == all_groups_view(caps@),
            regex_compiles(spec_annotation_pattern()),
            k <= caps@.len(),
            k > 0 ==> !at_start,
            k == 0 ==> at_start == first,
            out@ + spec_parameters(all.skip(k as int), at_start) == spec_parameters(all, first),
        decreases caps@.len() - k,
    {
        let ghost rest = all.skip(k as int);
        assert(rest[0] == groups_view(caps@[k as int]@));
        assert(rest.drop_first() =~= all.skip(k as int + 1));
        let ghost before = out@;
        if !at_start {
            out.append(", ");
        }
        let c = &caps[k];
        match (group(c, 3), group(c, 1)) {
            (Some(f), Some(t)) => {
                let stripped = match regex_replace_all(r"_In_opt_z_|_Out_opt_|_Out_Opt_|_In_z_|_In_opt_|_In_|_Out_", trim(t.as_str()), "") {
                    Some(st) => st,
                    None => {
                        assert(false);
                        String::new()
                    },
                };
                out.append("_");
                let sn = to_snake_case(f.as_str());
                out.append(sn.as_str());
                out.append(": ");
                let rt = to_rust_type(trim(stripped.as_str()));
                out.append(rt.as_str());
            },
            _ => {},
        }
        assert(out@ =~= before + (if at_start { Seq::<char>::empty() } else { ", "@ }) + (match spec_parameter(rest[0]) {
            Some(p) => p,
            None => Seq::<char>::empty(),
        }));
        at_start = false;
        k = k + 1;
    }
    assert(all.skip(caps@.len() as int) =~= Seq::<Seq<Option<Seq<char>>>>::empty());
    out
}

/// The declaration of a documented function (see `spec_function_text`).
pub fn function_text(name: &str, ret: &str, body: &str, as_method: bool) -> (r: String)
    requires
        regex_compiles(spec_parameter_pattern()),
        regex_compiles(spec_annotation_pattern()),
    ensures
        r@ == spec_function_text(name@, ret@, body@, as_method),
{
    let params = match regex_all_captures(r"[\s\n]*(([\w\*]+\s+)+)(\w+)\s*", body) {
        Some(p) => p,
        None => {
            assert(false);
            Vec::new()
        },
    };
    let mut out = to_string("// ");
    out.append(name);
    out.append("\n");
    if as_method {
        out.append("unsafe fn ");
        let sn = to_snake_case(name);
        out.append(sn.as_str());
        out.append("(self: &Self");
    } else {
        out.append("pub type ");
        out.append(name);
        out.append(" = unsafe extern \"system\" fn(");
    }
    let ps = parameters(&params, !as_method);
    out.append(ps.as_str());
    out.append(") -> ");
    let rt = to_rust_type(trim(ret));
    out.append(rt.as_str());
    out.append(";\n");
    out
}

/// A declaration and the name it declares.
#[derive(Clone, Debug)]
pub struct NamedText {
    pub name: String,
    pub text: String,
}

/// Names and texts of declarations.
pub open spec fn named_view(v: Seq<NamedText>) -> Seq<(Seq<char>, Seq<char>)> {
    v.map_values(|n: NamedText| (n.name@, n.text@))
}

/// The declarations of the documented functions: their interface methods,
/// the function pointer types of the callbacks, and the function pointer
/// types of the other functions (which are callbacks when no interface
/// declares them), each in documentation order.
#[derive(Clone, Debug)]
pub struct FunctionDeclarations {
    pub prototypes: Vec<NamedText>,
    pub callbacks: Vec<NamedText>,
    pub maybe_callbacks: Vec<NamedText>,
}

/// The function declarations of the matched prototypes: a prototype
/// without parameters group, or whose name was seen before, is skipped; a
/// `CALLBACK` is declared as a function pointer type only; any other
/// function as an interface method and as a function pointer type.
pub open spec fn spec_function_declarations(caps: Seq<Seq<Option<Seq<char>>>>, known: Seq<Seq<char>>) -> (
    Seq<(Seq<char>, Seq<char>)>,
    Seq<(Seq<char>, Seq<char>)>,
    Seq<(Seq<char>, Seq<char>)>,
)
    decreases caps.len(),
{
    if caps.len() == 0 {
        (Seq::empty(), Seq::empty(), Seq::empty())
    } else {
        let c = caps[0];
        let rest = caps.drop_first();
        match (spec_group(c, 1), spec_group(c, 3), spec_group(c, 4)) {
            (Some(ret), Some(name), Some(body)) => if known.contains(name) {
                spec_function_declarations(rest, known)
            } else {
                let r = spec_function_declarations(rest, known.push(name));
                let pointer = (name, spec_function_text(name, ret, body, false));
                if spec_group(c, 2) == Some("CALLBACK"@) {
                    (r.0, seq![pointer] + r.1, r.2)
                } else {
                    (seq![(name, spec_function_text(name, ret, body, true))] + r.0, r.1, seq![pointer] + r.2)
                }
            },
            _ => spec_function_declarations(rest, known),
        }
    }
}

/// The function declarations of the matched prototypes (see
/// `spec_function_declarations`), starting with no names known. The
/// parameter and annotation patterns must compile.
pub fn function_declarations_from(caps: &Vec<Vec<Option<String>>>) -> (r: FunctionDeclarations)
    requires
        regex_compiles(spec_parameter_pattern()),
        regex_compiles(spec_annotation_pattern()),
    ensures
        (named_view(r.prototypes@), named_view(r.callbacks@), named_view(r.maybe_callbacks@))
            == spec_function_declarations(all_groups_view(caps@), Seq::<Seq<char>>::empty()),
{
    let ghost all = all_groups_view(caps@);
    let ghost total = spec_function_declarations(all, Seq::<Seq<char>>::empty());
    let mut known: Vec<String> = Vec::new();
    let mut prototypes: Vec<NamedText> = Vec::new();
    let mut callbacks: Vec<NamedText> = Vec::new();
    let mut maybe_callbacks: Vec<NamedText> = Vec::new();
    let mut i: usize = 0;
    assert(names_view(known@) =~= Seq::<Seq<char>>::empty());
    assert(all.skip(0) =~= all);
    assert(named_view(prototypes@) =~= Seq::<(Seq<char>, Seq<char>)>::empty());
    assert(named_view(callbacks@) =~= Seq::<(Seq<char>, Seq<char>)>::empty());
    assert(named_view(maybe_callbacks@) =~= Seq::<(Seq<char>, Seq<char>)>::empty());
    while i < caps.len()
        invariant
            all == all_groups_view(caps@),
            total == spec_function_declarations(all, Seq::<Seq<char>>::empty()),
            regex_compiles(spec_parameter_pattern()),
            regex_compiles(spec_annotation_pattern()),
            i <= caps@.len(),
            ({
                let r = spec_function_declarations(all.skip(i as int), names_view(known@));
                &&& named_view(prototypes@) + r.0 == total.0
                &&& named_view(callbacks@) + r.1 == total.1
                &&& named_view(maybe_callbacks@) + r.2 == total.2
            }),
        decreases caps@.len() - i,
    {
        let ghost kv = names_view(known@);
        let ghost rest = all.skip(i as int);
        let ghost p0 = named_view(prototypes@);
        let ghost c0 = named_view(callbacks@);
        let ghost m0 = named_view(maybe_callbacks@);
        assert(rest[0] == groups_view(caps@[i as int]@));
        assert(rest.drop_first() =~= all.skip(i as int + 1));
        let c = &caps[i];
        match (group(c, 1), group(c, 3), group(c, 4)) {
            (Some(ret), Some(name), Some(body)) => {
                if !contains_name(&known, name.as_str()) {
                    let pointer = function_text(name.as_str(), ret.as_str(), body.as_str(), false);
                    let is_callback = match group(c, 2) {
                        Some(extra) => str_eq(extra.as_str(), "CALLBACK"),
                        None => false,
                    };
                    if is_callback {
                        callbacks.push(NamedText { name: name.clone(), text: pointer });
                        assert(named_view(callbacks@) =~= c0 + seq![(name@, spec_function_text(name@, ret@, body@, false))]);
                    } else {
                        let method = function_text(name.as_str(), ret.as_str(), body.as_str(), true);
                        prototypes.push(NamedText { name: name.clone(), text: method });
                        maybe_callbacks.push(NamedText { name: name.clone(), text: pointer });
                        assert(named_view(prototypes@) =~= p0 + seq![(name@, spec_function_text(name@, ret@, body@, true))]);
                        assert(named_view(maybe_callbacks@) =~= m0 + seq![(name@, spec_function_text(name@, ret@, body@, false))]);
                    }
                    known.push(name);
                    assert(names_view(known@) =~= kv.push(known@.last()@));
                    proof {
                        let r = spec_function_declarations(all.skip(i as int + 1), names_view(known@));
                        assert(named_view(prototypes@) + r.0 =~= p0 + spec_function_declarations(rest, kv).0);
                        assert(named_view(callbacks@) + r.1 =~= c0 + spec_function_declarations(rest, kv).1);
                        assert(named_view(maybe_callbacks@) + r.2 =~= m0 + spec_function_declarations(rest, kv).2);
                    }
                }
            },
            _ => {},
        }
        i = i + 1;
    }
    assert(all.skip(caps@.len() as int) =~= Seq::<Seq<Option<Seq<char>>>>::empty());
    FunctionDeclarations { prototypes, callbacks, maybe_callbacks }
}

/// The declarations read from the GDK documentation.
#[derive(Clone, Debug)]
pub struct GdkDeclarations {
    pub enums: String,
    pub structs: String,
    pub functions: FunctionDeclarations,
}

/// All the patterns compile.
pub open spec fn spec_patterns_compile() -> bool {
    &&& regex_compiles(spec_enum_pattern())
    &&& regex_compiles(spec_struct_pattern())
    &&& regex_compiles(spec_field_pattern())
    &&& regex_compiles(spec_function_pattern())
    &&& regex_compiles(spec_parameter_pattern())
    &&& regex_compiles(spec_annotation_pattern())
}

/// Reads the enum, struct and function declarations of the GDK
/// documentation `doc` (see `spec_enum_declarations`,
/// `spec_struct_declarations` and `spec_function_declarations`). `None` when
/// a pattern does not compile.
pub fn gdk_declarations(doc: &str) -> (r: Option<GdkDeclarations>)
    ensures
        r is None <==> !spec_patterns_compile(),
        r matches Some(d) ==> {
            &&& d.enums@ == spec_enum_declarations(
                regex_all_captures_of(spec_enum_pattern(), doc@),
                spec_enum_known(),
            )
            &&& d.structs@ == spec_struct_declarations(
                regex_all_captures_of(spec_struct_pattern(), doc@),
                Seq::<Seq<char>>::empty(),
            )
            &&& (
                named_view(d.functions.prototypes@),
                named_view(d.functions.callbacks@),
                named_view(d.functions.maybe_callbacks@),
            ) == spec_function_declarations(
                regex_all_captures_of(spec_function_pattern(), doc@),
                Seq::<Seq<char>>::empty(),
            )
        },
{
    let enums = regex_all_captures(r"enum class (\w+) *: *(\w+)[\s\n]*\{(([\n\s]*\w+\s*(=\s*\w+)?,?)+)[\n\s]*\}", doc);
    let structs = regex_all_captures(r"[\s\n]struct (\w+) *[\s\n]*\{(((\n|\s|//.*\n)*([\w\*]+\s*)+;)+)[\n\s]*\}", doc);
    let fields = regex_all_captures(r"[\s\n]*(([\w\*]+\s+)+)(\w+)\s*;", "");
    let functions = regex_all_captures(
        r"C\+\+\s*\n\s*\n\s*(?:typedef\s*)?(\w+|STDAPI_\(bool\))\s+(?:(\w+)\s+)?(\w+)\s*\((((\n|\s|//.*\n)*([\w\*]+\s*)+,?)*)?[\n\s]*\)\s*(noexcept\s*)?;?\n*\n\s*\n\s*(Parameters|Return value)",
        doc,
    );
    let params = regex_all_captures(r"[\s\n]*(([\w\*]+\s+)+)(\w+)\s*", "");
    let annotations = regex_replace_all(r"_In_opt_z_|_Out_opt_|_Out_Opt_|_In_z_|_In_opt_|_In_|_Out_", "", "");
    match (enums, structs, fields, functions, params, annotations) {
        (Some(e), Some(s), Some(_), Some(f), Some(_), Some(_)) => Some(GdkDeclarations {
            enums: enum_declarations_from(&e),
            structs: struct_declarations_from(&s),
            functions: function_declarations_from(&f),
        }),
        _ => None,
    }
}

} // verus!
