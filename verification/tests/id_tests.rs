use hhbc_id::Id;
use hhbc_id::{class, constant, function, method, prop, record};

#[test]
fn test_from_to_raw_string() {
    let alloc = bumpalo::Bump::new();
    assert_eq!("Foo", class::from_raw_string(&alloc, "Foo").to_raw_string());
}

#[test]
fn test_add_suffix() {
    let alloc = bumpalo::Bump::new();
    let mut id = prop::from_raw_string(&alloc, "Some");
    id.add_suffix(&alloc, "Property");
    assert_eq!("SomeProperty", id.to_raw_string());
}

#[test]
fn test_from_ast_name() {
    let alloc = bumpalo::Bump::new();
    let id = method::Type::from_ast_name(&alloc, "meth");
    assert_eq!("meth", id.to_raw_string());
}

#[test]
fn test_raw_access_idempotent() {
    let alloc = bumpalo::Bump::new();
    let id = function::Type::from_ast_name(&alloc, "\\f");
    assert_eq!(id.to_raw_string(), id.to_raw_string());
}

#[test]
fn test_kind_isolation() {
    // A property and a method built from the same name have byte-identical
    // raw forms, yet stay distinct values of distinct types: no comparison
    // between the two kinds exists anywhere in the interface.
    let alloc = bumpalo::Bump::new();
    let p = prop::Type::from_ast_name(&alloc, "x");
    let m = method::Type::from_ast_name(&alloc, "x");
    assert_eq!(p.to_raw_string(), m.to_raw_string());
}

#[test]
fn test_suffix_non_aliasing() {
    let alloc = bumpalo::Bump::new();
    let mut a = function::from_raw_string(&alloc, "foo");
    let b = function::from_raw_string(&alloc, "foo");
    a.add_suffix(&alloc, "Bar");
    assert_eq!("fooBar", a.to_raw_string());
    assert_eq!("foo", b.to_raw_string());
}

#[test]
fn test_namespace_stripping() {
    let alloc = bumpalo::Bump::new();
    assert_eq!("Foo\\Bar", class::Type::from_ast_name(&alloc, "\\Foo\\Bar").to_raw_string());
    assert_eq!("Foo\\Bar", prop::Type::from_ast_name(&alloc, "\\Foo\\Bar").to_raw_string());
    assert_eq!("Foo\\Bar", method::Type::from_ast_name(&alloc, "\\Foo\\Bar").to_raw_string());
    assert_eq!("Foo\\Bar", function::Type::from_ast_name(&alloc, "\\Foo\\Bar").to_raw_string());
    assert_eq!("Foo\\Bar", constant::Type::from_ast_name(&alloc, "\\Foo\\Bar").to_raw_string());
    assert_eq!("Foo\\Bar", record::Type::from_ast_name(&alloc, "\\Foo\\Bar").to_raw_string());
}

#[test]
fn test_class_from_qualified_name() {
    let alloc = bumpalo::Bump::new();
    let id = class::Type::from_ast_name(&alloc, "\\A\\B");
    assert_eq!("A\\B", id.to_raw_string());
    assert_eq!("A\\B", id.to_unmangled_str());
}

#[test]
fn test_class_mangles_xhp_name() {
    let alloc = bumpalo::Bump::new();
    let id = class::Type::from_ast_name(&alloc, ":foo:bar");
    assert_eq!("xhp_foo_bar", id.to_raw_string());
    assert_eq!(":foo:bar", id.to_unmangled_str());
}

#[test]
fn test_class_display_round_trip_swaps_back() {
    let alloc = bumpalo::Bump::new();
    let id = class::Type::from_ast_name(&alloc, ":a_b");
    assert_eq!("xhp_a:b", id.to_raw_string());
    assert_eq!(":a_b", id.to_unmangled_str());
}

#[test]
fn test_class_owned_name_constructor() {
    let alloc = bumpalo::Bump::new();
    let name = String::from("\\Outer\\Inner");
    let id = class::Type::from_ast_name_and_mangle(&alloc, name);
    assert_eq!("Outer\\Inner", id.to_raw_string());
}

#[test]
fn test_unmangled_kinds_display_raw_form() {
    let alloc = bumpalo::Bump::new();
    let id = prop::Type::from_ast_name(&alloc, "Some");
    assert_eq!("Some", id.to_unmangled_str());
    assert_eq!("Some", id.to_raw_string());
}

#[test]
fn test_strip_global_ns_repeated_separators() {
    assert_eq!("x", hhbc_id::mangle::strip_global_ns("\\\\x"));
    assert_eq!("", hhbc_id::mangle::strip_global_ns("\\"));
    assert_eq!("plain", hhbc_id::mangle::strip_global_ns("plain"));
}

#[test]
fn test_mangle_exact_forms() {
    assert_eq!("xhp_foo_bar", hhbc_id::mangle::mangle(":foo:bar"));
    assert_eq!("plain", hhbc_id::mangle::mangle("plain"));
    assert_eq!("", hhbc_id::mangle::mangle(""));
}

#[test]
fn test_unmangle_fallback_on_unrecognized_input() {
    assert_eq!("NotMangled", hhbc_id::mangle::unmangle("NotMangled"));
    assert_eq!("xhp", hhbc_id::mangle::unmangle("xhp"));
    assert_eq!(":foo:bar", hhbc_id::mangle::unmangle("xhp_foo_bar"));
}
