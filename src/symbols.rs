use vstd::prelude::*;

verus! {

/// The decimal digit character for `d` (below ten).
pub open spec fn digit_char(d: nat) -> char {
    if d == 0 {
        '0'
    } else if d == 1 {
        '1'
    } else if d == 2 {
        '2'
    } else if d == 3 {
        '3'
    } else if d == 4 {
        '4'
    } else if d == 5 {
        '5'
    } else if d == 6 {
        '6'
    } else if d == 7 {
        '7'
    } else if d == 8 {
        '8'
    } else {
        '9'
    }
}

/// The decimal rendering of `n`, most significant digit first, no leading zeros.
pub open spec fn decimal(n: nat) -> Seq<char>
    decreases n,
{
    if n < 10 {
        seq![digit_char(n)]
    } else {
        decimal(n / 10).push(digit_char(n % 10))
    }
}

fn digit_str(d: u32) -> (r: &'static str)
    requires
        d < 10,
    ensures
        r@ == seq![digit_char(d as nat)],
{
    proof {
        reveal_strlit("0");
        reveal_strlit("1");
        reveal_strlit("2");
        reveal_strlit("3");
        reveal_strlit("4");
        reveal_strlit("5");
        reveal_strlit("6");
        reveal_strlit("7");
        reveal_strlit("8");
        reveal_strlit("9");
    }
    let r = if d == 0 {
        "0"
    } else if d == 1 {
        "1"
    } else if d == 2 {
        "2"
    } else if d == 3 {
        "3"
    } else if d == 4 {
        "4"
    } else if d == 5 {
        "5"
    } else if d == 6 {
        "6"
    } else if d == 7 {
        "7"
    } else if d == 8 {
        "8"
    } else {
        "9"
    };
    assert(r@ =~= seq![digit_char(d as nat)]);
    r
}

fn append_decimal(s: &mut String, n: u32)
    ensures
        final(s)@ == old(s)@ + decimal(n as nat),
    decreases n,
{
    if n >= 10 {
        append_decimal(s, n / 10);
    }
    s.append(digit_str(n % 10));
    assert(final(s)@ =~= old(s)@ + decimal(n as nat));
}

/// The decimal text of `n`.
pub fn decimal_string(n: u32) -> (r: String)
    ensures
        r@ == decimal(n as nat),
{
    let mut s = String::new();
    append_decimal(&mut s, n);
    assert(s@ =~= decimal(n as nat));
    s
}

/// A native key identifier, held as plain values: the key's canonical name on
/// the platform (`"KeyS"`, `"ShiftLeft"`, `"Unknown(94)"`) and its platform
/// scan code, where the platform's table has one.
pub struct NativeKey {
    pub name: String,
    pub scan_code: Option<u32>,
}

/// A native mouse button identifier.
#[derive(PartialEq, Eq, Structural, Clone, Copy, Debug)]
pub enum NativeButton {
    Left,
    Right,
    Middle,
    Unknown(u8),
}

/// The stable code of a key with no scan code.
pub open spec fn unknown_code() -> Seq<char> {
    "unknown"@
}

/// The stable code of a key: its scan code in decimal, or the generic
/// unknown code.
pub open spec fn key_code_spec(scan_code: Option<u32>) -> Seq<char> {
    match scan_code {
        Some(c) => decimal(c as nat),
        None => unknown_code(),
    }
}

/// The ordinal index of a button: the platform's button number, with the
/// primary, middle and secondary buttons numbered 1, 2 and 3.
pub open spec fn button_index(b: NativeButton) -> nat {
    match b {
        NativeButton::Left => 1,
        NativeButton::Middle => 2,
        NativeButton::Right => 3,
        NativeButton::Unknown(n) => n as nat,
    }
}

/// The stable code of a button: its ordinal index in decimal.
pub open spec fn button_code_spec(b: NativeButton) -> Seq<char> {
    decimal(button_index(b))
}

/// The canonical name of a button, as its identifier is written.
pub open spec fn button_name_spec(b: NativeButton) -> Seq<char> {
    match b {
        NativeButton::Left => "Left"@,
        NativeButton::Right => "Right"@,
        NativeButton::Middle => "Middle"@,
        NativeButton::Unknown(n) => "Unknown("@ + decimal(n as nat) + ")"@,
    }
}

/// Resolves a key to its stable code; total, with a generic fallback.
pub fn resolve_key(k: &NativeKey) -> (r: String)
    ensures
        r@ == key_code_spec(k.scan_code),
{
    match k.scan_code {
        Some(c) => decimal_string(c),
        None => String::from_str("unknown"),
    }
}

/// The canonical name of a key.
pub fn key_name(k: &NativeKey) -> (r: String)
    ensures
        r@ == k.name@,
{
    k.name.clone()
}

/// Resolves a button to its stable code.
pub fn resolve_button(b: NativeButton) -> (r: String)
    ensures
        r@ == button_code_spec(b),
{
    match b {
        NativeButton::Left => decimal_string(1),
        NativeButton::Middle => decimal_string(2),
        NativeButton::Right => decimal_string(3),
        NativeButton::Unknown(n) => decimal_string(n as u32),
    }
}

/// The canonical name of a button (`"Left"`, `"Unknown(8)"`).
pub fn button_name(b: NativeButton) -> (r: String)
    ensures
        r@ == button_name_spec(b),
{
    match b {
        NativeButton::Left => String::from_str("Left"),
        NativeButton::Right => String::from_str("Right"),
        NativeButton::Middle => String::from_str("Middle"),
        NativeButton::Unknown(n) => {
            let mut s = String::from_str("Unknown(");
            append_decimal(&mut s, n as u32);
            s.append(")");
            s
        },
    }
}

} // verus!
