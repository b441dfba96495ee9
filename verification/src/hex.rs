//! Short hexadecimal previews of key material.
use vstd::prelude::*;

verus! {

broadcast use vstd::string::group_string_axioms;

/// The lower-case hexadecimal digit of a nibble.
pub open spec fn hex_digit(n: u8) -> char
    recommends
        n < 16,
{
    if n < 10 {
        (n + 48) as char
    } else {
        (n + 87) as char
    }
}

/// The two lower-case hexadecimal digits of a byte.
pub open spec fn hex_byte(b: u8) -> Seq<char> {
    seq![hex_digit(b / 16), hex_digit(b % 16)]
}

/// The preview of a byte string: its first four bytes in hexadecimal, then `...`.
pub open spec fn hex_preview(bytes: Seq<u8>) -> Seq<char> {
    hex_byte(bytes[0]) + hex_byte(bytes[1]) + hex_byte(bytes[2]) + hex_byte(bytes[3]) + "..."@
}

fn hex_digit_str(n: u8) -> (s: &'static str)
    requires
        n < 16,
    ensures
        s@ == seq![hex_digit(n)],
{
    proof {
        reveal_strlit("0");
        reveal_strlit("1");
        reveal_strlit("2");
        reveal_strlit("3");
        reveal_strlit("4");
        reveal_strlit("5");
        reveal_strlit("6");
        reveal_strlit("7");
        reveal_strlit("8");
        reveal_strlit("9");
        reveal_strlit("a");
        reveal_strlit("b");
        reveal_strlit("c");
        reveal_strlit("d");
        reveal_strlit("e");
        reveal_strlit("f");
    }
    match n {
        0 => "0",
        1 => "1",
        2 => "2",
        3 => "3",
        4 => "4",
        5 => "5",
        6 => "6",
        7 => "7",
        8 => "8",
        9 => "9",
        10 => "a",
        11 => "b",
        12 => "c",
        13 => "d",
        14 => "e",
        _ => "f",
    }
}

fn push_hex_byte(s: &mut String, b: u8)
    ensures
        final(s)@ == old(s)@ + hex_byte(b),
{
    s.append(hex_digit_str(b / 16));
    s.append(hex_digit_str(b % 16));
    assert(s@ =~= old(s)@ + hex_byte(b));
}

/// The first four bytes of `bytes` in lower-case hexadecimal followed by `...`, as a
/// short preview of key material.
pub fn hex_str(bytes: &[u8]) -> (s: String)
    requires
        bytes@.len() >= 4,
    ensures
        s@ == hex_preview(bytes@),
{
    let mut s = String::new();
    push_hex_byte(&mut s, bytes[0]);
    push_hex_byte(&mut s, bytes[1]);
    push_hex_byte(&mut s, bytes[2]);
    push_hex_byte(&mut s, bytes[3]);
    proof {
        reveal_strlit("...");
    }
    s.append("...");
    assert(s@ =~= hex_preview(bytes@));
    s
}

} // verus!
