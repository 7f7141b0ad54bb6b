use input_bridge::{
    button_name, decimal_string, key_name, resolve_button, resolve_key, NativeButton, NativeKey,
};

#[test]
fn decimal_text_of_edge_values() {
    assert_eq!(decimal_string(0), "0");
    assert_eq!(decimal_string(9), "9");
    assert_eq!(decimal_string(10), "10");
    assert_eq!(decimal_string(1_000_007), "1000007");
    assert_eq!(decimal_string(u32::MAX), "4294967295");
}

#[test]
fn resolver_is_total() {
    let known = NativeKey { name: "KeyS".to_string(), scan_code: Some(31) };
    assert_eq!(resolve_key(&known), "31");
    assert_eq!(key_name(&known), "KeyS");
    let unmapped = NativeKey { name: "Unknown(300)".to_string(), scan_code: None };
    assert_eq!(resolve_key(&unmapped), "unknown");
    assert_eq!(resolve_button(NativeButton::Unknown(255)), "255");
    assert_eq!(resolve_button(NativeButton::Unknown(0)), "0");
    assert_eq!(button_name(NativeButton::Unknown(255)), "Unknown(255)");
    assert_eq!(button_name(NativeButton::Middle), "Middle");
}
