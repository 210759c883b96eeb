use vstd::prelude::*;

verus! {

/// Whether `c` is an ASCII hexadecimal digit, in either letter case.
pub open spec fn is_hex_digit(c: char) -> bool {
    ||| 48 <= c as int && c as int <= 57
    ||| 97 <= c as int && c as int <= 102
    ||| 65 <= c as int && c as int <= 70
}

/// Every character of `s` is a hexadecimal digit.
pub open spec fn all_hex_digits(s: Seq<char>) -> bool {
    forall|i: int| 0 <= i < s.len() ==> is_hex_digit(#[trigger] s[i])
}

/// The key material with the optional "0X" prefix dropped, exactly as the
/// wallet parser drops it before handing the rest to the hex decoder (it
/// strips that prefix in upper case only).
pub open spec fn without_upper_0x(s: Seq<char>) -> Seq<char> {
    if s.len() >= 2 && s[0] == '0' && s[1] == 'X' {
        s.subrange(2, s.len() as int)
    } else {
        s
    }
}

/// What the hex decoder itself drops: one optional "0x" or "0X" prefix.
pub open spec fn without_any_0x(s: Seq<char>) -> Seq<char> {
    if s.len() >= 2 && s[0] == '0' && (s[1] == 'x' || s[1] == 'X') {
        s.subrange(2, s.len() as int)
    } else {
        s
    }
}

/// Whether `s` has the shape of a hex-encoded 32-byte signing key, as the
/// wallet parser accepts it: after its own optional "0X" prefix the length
/// is even (the decoder checks that before anything else), and after the
/// decoder's own optional "0x"/"0X" prefix there stand exactly 64
/// hexadecimal digits and nothing else. A secret without this shape can
/// never decode into a signing key.
pub open spec fn key_hex_syntax(s: Seq<char>) -> bool {
    let t = without_upper_0x(s);
    let u = without_any_0x(t);
    &&& t.len() % 2 == 0
    &&& u.len() == 64
    &&& all_hex_digits(u)
}

} // verus!
