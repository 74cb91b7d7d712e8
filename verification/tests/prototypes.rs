use xgameruntime::gdk_docs::gdk_declarations;
use xgameruntime::prototypes::{
    fill_vtables, to_ascii_lowercase, to_rust_type, to_rust_type_ex, to_snake_case, GDKMapping, GDKMappingEntry, VtableSlot,
};
use xgameruntime::text::{ends_with, is_whitespace, starts_with, str_eq, trim};

#[test]
fn scalar_types() {
    assert_eq!(to_rust_type("uint8_t"), "u8");
    assert_eq!(to_rust_type("BYTE"), "u8");
    assert_eq!(to_rust_type("DWORD"), "i32");
    assert_eq!(to_rust_type("ULONGLONG"), "u64");
    assert_eq!(to_rust_type("size_t"), "usize");
    assert_eq!(to_rust_type("wchar_t"), "u16");
    assert_eq!(to_rust_type("time_t"), "libc::time_t");
    assert_eq!(to_rust_type("bool"), "BOOL");
    assert_eq!(to_rust_type("STDAPI_(bool)"), "BOOL");
    assert_eq!(to_rust_type("void"), "()");
    assert_eq!(to_rust_type_ex("void", true), "c_void");
}

#[test]
fn pointer_types() {
    assert_eq!(to_rust_type("const char*"), "*const c_char");
    assert_eq!(to_rust_type("void*"), "*mut c_void");
    assert_eq!(to_rust_type("XAsyncBlock*"), "*mut XAsyncBlock");
    assert_eq!(to_rust_type("XTaskQueueCallback*"), "Option<XTaskQueueCallback>");
    assert_eq!(to_rust_type("const XUserLocalId*"), "*const XUserLocalId");
    assert_eq!(to_rust_type("uint8_t**"), "*mut *mut u8");
}

#[test]
fn named_types() {
    assert_eq!(to_rust_type("struct XUserLocalId"), "XUserLocalId");
    assert_eq!(to_rust_type("const XUserLocalId"), "XUserLocalId");
    assert_eq!(to_rust_type("XUserHandle"), "XUserHandle");
}

#[test]
fn snake_case_names() {
    assert_eq!(to_snake_case("XUserGetId"), "x_user_get_id");
    assert_eq!(to_snake_case("tokenCount"), "token_count");
    assert_eq!(to_snake_case("async"), "async_");
    assert_eq!(to_snake_case("Type"), "type_");
    assert_eq!(to_snake_case("self"), "self_");
    assert_eq!(to_snake_case(""), "");
    assert_eq!(to_ascii_lowercase('Q'), 'q');
    assert_eq!(to_ascii_lowercase('7'), '7');
}

#[test]
fn snake_case_of_ascii_names() {
    assert_eq!(to_snake_case("XStoreShowPurchaseUIAsync"), "x_store_show_purchase_u_i_async");
    assert_eq!(to_snake_case("titleId"), "title_id");
    assert_eq!(to_snake_case("caféId"), "café_id");
    let names = ["XStoreShowPurchaseUIAsync", "titleId", "caféId", "Type", "async", "fn", "Dyn", "SELF", "already_snake", ""];
    for name in names {
        let r = to_snake_case(name);
        assert!(!r.chars().any(|c| c.is_ascii_uppercase()));
        assert!(!["async", "fn", "dyn", "type", "self"].contains(&r.as_str()));
        assert_eq!(to_snake_case(&r), r);
        let uppers_after_start = name.chars().skip(1).filter(|c| c.is_ascii_uppercase()).count();
        let snake = to_snake_case(name);
        let keyword_suffix = if snake.ends_with('_') && !name.ends_with('_') { 1 } else { 0 };
        assert_eq!(r.len(), name.len() + uppers_after_start + keyword_suffix);
    }
}

#[test]
fn text_helpers() {
    assert!(starts_with("struct X", "struct "));
    assert!(!starts_with("st", "struct "));
    assert!(ends_with("XCallback", "Callback"));
    assert!(!ends_with("Call", "Callback"));
    assert_eq!(trim("  a b \t\n"), "a b");
    assert_eq!(trim("   "), "");
    assert!(is_whitespace('\u{3000}'));
    assert!(!is_whitespace('x'));
    assert!(str_eq("abc", "abc"));
    assert!(!str_eq("abc", "abd"));
}

#[test]
fn mapping_entries_hold_their_slots() {
    let m = GDKMapping {
        mappings: vec![GDKMappingEntry {
            function: "XUserGetId".to_string(),
            header: "XUser.h".to_string(),
            clsid: "_GUID_01acd177_91f9_4763_a38e_ccbb55ce32e0".to_string(),
            iid: "_GUID_01acd177_91f9_4763_a38e_ccbb55ce32e0".to_string(),
            vtable_offset: Some(80),
            vtable_index: Some(10),
        }],
    };
    assert_eq!(m.mappings[0].vtable_index, Some(10));
}

fn entry(function: &str, iid: &str, index: Option<i64>) -> GDKMappingEntry {
    GDKMappingEntry {
        function: function.to_string(),
        header: "X.h".to_string(),
        clsid: "C".to_string(),
        iid: iid.to_string(),
        vtable_offset: None,
        vtable_index: index,
    }
}

#[test]
fn vtables_are_filled_in_mapping_order() {
    let mapping = GDKMapping {
        mappings: vec![
            entry("XA", "I1", Some(5)),
            entry("XB", "I1", Some(3)),
            entry("QueryInterface", "I1", Some(0)),
            entry("XC", "I2", None),
            entry("XD", "I2", Some(4)),
            entry("XA", "I2", Some(3)),
            entry("XE", "I1", Some(3)),
        ],
    };
    let documented = vec!["XA".to_string(), "XD".to_string(), "XZ".to_string()];
    let (interfaces, unplaced) = fill_vtables(&mapping, documented);
    assert_eq!(interfaces.len(), 2);
    assert_eq!(interfaces[0].iid, "I1");
    assert_eq!(interfaces[0].slots.len(), 6);
    assert!(matches!(interfaces[0].slots[0], VtableSlot::Empty));
    assert!(matches!(&interfaces[0].slots[3], VtableSlot::Reserved(f) if f == "XB"));
    assert!(matches!(interfaces[0].slots[4], VtableSlot::Empty));
    assert!(matches!(&interfaces[0].slots[5], VtableSlot::Prototype(f) if f == "XA"));
    assert_eq!(interfaces[1].iid, "I2");
    assert_eq!(interfaces[1].slots.len(), 5);
    assert!(matches!(&interfaces[1].slots[4], VtableSlot::Prototype(f) if f == "XD"));
    assert!(matches!(&interfaces[1].slots[3], VtableSlot::Reserved(f) if f == "XA"));
    assert_eq!(unplaced, vec!["XZ".to_string()]);
}

#[test]
fn declarations_from_documentation() {
    let doc = "\nenum class XUserState : uint32_t\n{\n    SignedIn = 0,\n    SignedOut = 2\n}\n\
enum class HCTraceLevel : uint32_t { Off = 0 }\n\
typedef struct XUserLocalId\n{\n    uint64_t value;\n    XUserLocalId* next;\n} XUserLocalId;\n\
C++\n\nSTDAPI XUserGetId(\n    _In_ XUserHandle user,\n    _Out_ uint64_t* userId\n) noexcept;\n\n\n\nParameters\n\
C++\n\ntypedef void CALLBACK XTaskQueueCallback(\n    _In_opt_ void* context,\n    _In_ bool canceled\n);\n\n\n\nParameters\n";
    let d = gdk_declarations(doc).unwrap();
    assert_eq!(d.enums, "#[repr(u32)]\npub enum XUserState {\n    SignedIn = 0,\n    SignedOut = 2\n}\n");
    assert_eq!(
        d.structs,
        "#[repr(C)]\npub struct XUserLocalId {\n    pub value: u64,\n    pub next: *mut XUserLocalId,\n}\n"
    );
    assert_eq!(d.functions.prototypes.len(), 1);
    assert_eq!(d.functions.prototypes[0].name, "XUserGetId");
    assert_eq!(
        d.functions.prototypes[0].text,
        "// XUserGetId\nunsafe fn x_user_get_id(self: &Self, _user: XUserHandle, _user_id: *mut u64) -> ();\n"
    );
    assert_eq!(
        d.functions.maybe_callbacks[0].text,
        "// XUserGetId\npub type XUserGetId = unsafe extern \"system\" fn(_user: XUserHandle, _user_id: *mut u64) -> ();\n"
    );
    assert_eq!(d.functions.callbacks.len(), 1);
    assert_eq!(
        d.functions.callbacks[0].text,
        "// XTaskQueueCallback\npub type XTaskQueueCallback = unsafe extern \"system\" fn(_context: *mut c_void, _canceled: BOOL) -> ();\n"
    );
}
