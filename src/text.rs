//! Human-readable renderings of numbers and addresses.
use vstd::prelude::*;

verus! {

/// The decimal digit or lower-case hexadecimal digit for `d` (below 16).
pub open spec fn hex_digit(d: nat) -> char {
    if d == 0 { '0' }
    else if d == 1 { '1' }
    else if d == 2 { '2' }
    else if d == 3 { '3' }
    else if d == 4 { '4' }
    else if d == 5 { '5' }
    else if d == 6 { '6' }
    else if d == 7 { '7' }
    else if d == 8 { '8' }
    else if d == 9 { '9' }
    else if d == 10 { 'a' }
    else if d == 11 { 'b' }
    else if d == 12 { 'c' }
    else if d == 13 { 'd' }
    else if d == 14 { 'e' }
    else { 'f' }
}

/// `n` written in decimal, without leading zeros.
pub open spec fn dec(n: nat) -> Seq<char>
    decreases n,
{
    if n < 10 {
        seq![hex_digit(n)]
    } else {
        dec(n / 10).push(hex_digit(n % 10))
    }
}

/// A byte as exactly two lower-case hexadecimal digits.
pub open spec fn hex2(b: u8) -> Seq<char> {
    seq![hex_digit((b / 16) as nat), hex_digit((b % 16) as nat)]
}

/// Dotted-quad text of the first four bytes of `b`.
pub open spec fn ip_text(b: Seq<u8>) -> Seq<char> {
    dec(b[0] as nat) + seq!['.'] + dec(b[1] as nat) + seq!['.'] + dec(b[2] as nat) + seq!['.']
        + dec(b[3] as nat)
}

/// Colon-separated hexadecimal text of the first six bytes of `b`.
pub open spec fn hw_text(b: Seq<u8>) -> Seq<char> {
    hex2(b[0]) + seq![':'] + hex2(b[1]) + seq![':'] + hex2(b[2]) + seq![':'] + hex2(b[3])
        + seq![':'] + hex2(b[4]) + seq![':'] + hex2(b[5])
}

fn digit_str(d: u32) -> (r: &'static str)
    requires
        d < 16,
    ensures
        r@ == seq![hex_digit(d as nat)],
{
    proof {
        reveal_strlit("0");
        reveal_strlit("1");
        reveal_strlit("2");
        reveal_strlit("3");
        reveal_strlit("4");
        reveal_strlit("5");
        reveal_strlit("6");
        reveal_strlit("7");
        reveal_strlit("8");
        reveal_strlit("9");
        reveal_strlit("a");
        reveal_strlit("b");
        reveal_strlit("c");
        reveal_strlit("d");
        reveal_strlit("e");
        reveal_strlit("f");
    }
    match d {
        0 => "0",
        1 => "1",
        2 => "2",
        3 => "3",
        4 => "4",
        5 => "5",
        6 => "6",
        7 => "7",
        8 => "8",
        9 => "9",
        10 => "a",
        11 => "b",
        12 => "c",
        13 => "d",
        14 => "e",
        _ => "f",
    }
}

/// `n` in decimal.
pub fn dec_string(n: u32) -> (r: String)
    ensures
        r@ == dec(n as nat),
    decreases n,
{
    if n < 10 {
        String::from_str(digit_str(n))
    } else {
        let mut s = dec_string(n / 10);
        s.append(digit_str(n % 10));
        s
    }
}

fn hex_byte(b: u8) -> (r: String)
    ensures
        r@ == hex2(b),
{
    let mut s = String::from_str(digit_str((b / 16) as u32));
    s.append(digit_str((b % 16) as u32));
    s
}

/// The dotted-quad form of an IPv4 address held in the first four bytes.
pub fn ipaddr_str(bytes: &[u8]) -> (r: String)
    requires
        bytes@.len() >= 4,
    ensures
        r@ == ip_text(bytes@),
{
    proof {
        reveal_strlit(".");
    }
    let mut s = dec_string(bytes[0] as u32);
    s.append(".");
    s.append(dec_string(bytes[1] as u32).as_str());
    s.append(".");
    s.append(dec_string(bytes[2] as u32).as_str());
    s.append(".");
    s.append(dec_string(bytes[3] as u32).as_str());
    s
}

/// The `aa:bb:cc:dd:ee:ff` form of a hardware address held in the first six bytes.
pub fn hwaddr_str(bytes: &[u8]) -> (r: String)
    requires
        bytes@.len() >= 6,
    ensures
        r@ == hw_text(bytes@),
{
    proof {
        reveal_strlit(":");
    }
    let mut s = hex_byte(bytes[0]);
    s.append(":");
    s.append(hex_byte(bytes[1]).as_str());
    s.append(":");
    s.append(hex_byte(bytes[2]).as_str());
    s.append(":");
    s.append(hex_byte(bytes[3]).as_str());
    s.append(":");
    s.append(hex_byte(bytes[4]).as_str());
    s.append(":");
    s.append(hex_byte(bytes[5]).as_str());
    s
}

} // verus!
