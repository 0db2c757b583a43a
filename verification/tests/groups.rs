use ts_consts::{ConstDecl, ConstGroup, ConstValue};

fn decl(name: &str, value: ConstValue) -> ConstDecl {
    ConstDecl { name: name.to_string(), value }
}

fn limits() -> ConstGroup {
    ConstGroup::new(
        "Limits".to_string(),
        None,
        vec![decl("MAX", ConstValue::I32(10)), decl("MIN", ConstValue::I32(0))],
    )
}

/// Splits an object literal into its keys and the texts of its values.
fn read_back(text: &str) -> Vec<(String, String)> {
    let mut rest = text.strip_prefix("{ ").expect("opening bracket");
    let mut entries = Vec::new();
    while rest != "}" {
        let (key, after_key) = rest.split_once(": ").expect("colon after a key");
        let (value, after_value) = after_key.split_once(", ").expect("comma after a value");
        entries.push((key.to_string(), value.to_string()));
        rest = after_value;
    }
    entries
}

#[test]
fn limits_declaration_text() {
    assert_eq!(limits().decl(), "const Limits = { MAX: 10, MIN: 0, };");
}

#[test]
fn limits_concrete_declaration_is_the_declaration() {
    let group = limits();
    assert_eq!(group.decl_concrete(), "const Limits = { MAX: 10, MIN: 0, };");
    assert_eq!(group.decl_concrete(), group.decl());
}

#[test]
fn limits_inline_text() {
    assert_eq!(limits().inline(), "{ MAX: 10, MIN: 0, }");
}

#[test]
fn limits_inline_flattened_text() {
    assert_eq!(limits().inline_flattened(), "({ MAX: 10, MIN: 0, })");
}

#[test]
fn limits_name() {
    assert_eq!(limits().name(), "Limits");
}

#[test]
fn group_without_constants() {
    let group = ConstGroup::new("Nothing".to_string(), None, Vec::new());
    assert_eq!(group.inline(), "{ }");
    assert_eq!(group.inline_flattened(), "({ })");
    assert_eq!(group.decl(), "const Nothing = { };");
    assert!(group.consts().is_empty());
}

#[test]
fn group_with_one_constant() {
    let group = ConstGroup::new("One".to_string(), None, vec![decl("ONLY", ConstValue::U8(7))]);
    assert_eq!(group.inline(), "{ ONLY: 7, }");
    assert_eq!(group.decl(), "const One = { ONLY: 7, };");
}

#[test]
fn entries_follow_declaration_order() {
    let group = ConstGroup::new(
        "Order".to_string(),
        None,
        vec![
            decl("Z", ConstValue::U8(1)),
            decl("A", ConstValue::U8(2)),
            decl("M", ConstValue::U8(3)),
        ],
    );
    assert_eq!(group.inline(), "{ Z: 1, A: 2, M: 3, }");
}

#[test]
fn group_keeps_its_constants() {
    let consts = vec![decl("MAX", ConstValue::I32(10)), decl("MIN", ConstValue::I32(0))];
    let group = ConstGroup::new("Limits".to_string(), None, consts.clone());
    assert_eq!(group.consts(), &consts);
    assert_eq!(group.consts()[0].name, "MAX");
    assert_eq!(group.consts()[1].value, ConstValue::I32(0));
}

#[test]
fn cloned_group_describes_itself_alike() {
    let group = limits();
    let copy = group.clone();
    assert_eq!(copy, group);
    assert_eq!(copy.decl(), group.decl());
}

#[test]
fn every_kind_of_value_in_one_group() {
    let group = ConstGroup::new(
        "Mixed".to_string(),
        None,
        vec![
            decl("A", ConstValue::I8(-128)),
            decl("B", ConstValue::I16(-32768)),
            decl("C", ConstValue::I32(-2147483648)),
            decl("D", ConstValue::I64(i64::MIN)),
            decl("E", ConstValue::I128(i128::MIN)),
            decl("F", ConstValue::Isize(-1)),
            decl("G", ConstValue::U8(255)),
            decl("H", ConstValue::U16(65535)),
            decl("I", ConstValue::U32(4294967295)),
            decl("J", ConstValue::U64(u64::MAX)),
            decl("K", ConstValue::U128(u128::MAX)),
            decl("L", ConstValue::Usize(42)),
            decl("M", ConstValue::Bool(true)),
            decl("N", ConstValue::Bool(false)),
            decl("O", ConstValue::Char('x')),
            decl("P", ConstValue::Text("1.5".to_string())),
        ],
    );
    assert_eq!(
        group.inline(),
        "{ A: -128, B: -32768, C: -2147483648, D: -9223372036854775808, \
         E: -170141183460469231731687303715884105728, F: -1, G: 255, H: 65535, \
         I: 4294967295, J: 18446744073709551615, \
         K: 340282366920938463463374607431768211455, L: 42, M: true, N: false, \
         O: x, P: 1.5, }"
    );
}

#[test]
fn inline_text_reads_back_as_declared() {
    let group = ConstGroup::new(
        "Video".to_string(),
        None,
        vec![
            decl("WIDTH", ConstValue::U32(1920)),
            decl("HEIGHT", ConstValue::U32(1080)),
            decl("OFFSET", ConstValue::I16(-3)),
            decl("HDR", ConstValue::Bool(false)),
        ],
    );
    let expected = vec![
        ("WIDTH".to_string(), "1920".to_string()),
        ("HEIGHT".to_string(), "1080".to_string()),
        ("OFFSET".to_string(), "-3".to_string()),
        ("HDR".to_string(), "false".to_string()),
    ];
    assert_eq!(read_back(&group.inline()), expected);
    let declared: Vec<(String, String)> =
        group.consts().iter().map(|c| (c.name.clone(), c.value.text())).collect();
    assert_eq!(read_back(&group.inline()), declared);
}

#[test]
fn comma_in_a_value_is_written_as_it_is() {
    let group = ConstGroup::new(
        "Odd".to_string(),
        None,
        vec![decl("SEP", ConstValue::Char(',')), decl("PAIR", ConstValue::Text("a, b".to_string()))],
    );
    assert_eq!(group.inline(), "{ SEP: ,, PAIR: a, b, }");
}

#[test]
fn names_are_written_as_they_are() {
    let group = ConstGroup::new(
        "größe".to_string(),
        None,
        vec![decl("länge_1", ConstValue::U8(1))],
    );
    assert_eq!(group.name(), "größe");
    assert_eq!(group.decl(), "const größe = { länge_1: 1, };");
}
