use vstd::prelude::*;

verus! {

/// Whether `c` is an ASCII decimal digit.
pub open spec fn is_dec_digit(c: char) -> bool {
    48 <= c as int && c as int <= 57
}

/// The numeric value of an ASCII decimal digit.
pub open spec fn digit_val(c: char) -> nat {
    (c as int - 48) as nat
}

/// Every character of `s` is an ASCII decimal digit.
pub open spec fn all_dec_digits(s: Seq<char>) -> bool {
    forall|i: int| 0 <= i < s.len() ==> is_dec_digit(#[trigger] s[i])
}

/// The value of `s` read as a base-ten numeral.
pub open spec fn dec_val(s: Seq<char>) -> nat
    decreases s.len(),
{
    if s.len() == 0 {
        0
    } else {
        dec_val(s.drop_last()) * 10 + digit_val(s.last())
    }
}

/// The digit part of a numeral: std's unsigned parsing accepts one optional
/// leading '+' sign in front of the digits.
pub open spec fn digits_of(s: Seq<char>) -> Seq<char> {
    if s.len() > 0 && s[0] == '+' {
        s.subrange(1, s.len() as int)
    } else {
        s
    }
}

/// Whether `s` is a numeral that std's unsigned parsing accepts, with a value
/// of at most `max`: an optional '+', then at least one decimal digit and
/// nothing else, denoting a value that fits the target type.
pub open spec fn is_numeral_within(s: Seq<char>, max: nat) -> bool {
    &&& digits_of(s).len() > 0
    &&& all_dec_digits(digits_of(s))
    &&& dec_val(digits_of(s)) <= max
}

/// The value that the numeral `s` denotes.
pub open spec fn numeral_val(s: Seq<char>) -> nat {
    dec_val(digits_of(s))
}

/// The value of a digit string is never below the value of any of its
/// prefixes: appending digits only grows a numeral.
proof fn lemma_dec_val_prefix(s: Seq<char>, k: int)
    requires
        0 <= k <= s.len(),
    ensures
        dec_val(s.subrange(0, k)) <= dec_val(s),
    decreases s.len() - k,
{
    if k == s.len() {
        assert(s.subrange(0, k) =~= s);
    } else {
        let p = s.subrange(0, k);
        let q = s.subrange(0, k + 1);
        assert(q.drop_last() =~= p);
        assert(dec_val(p) <= dec_val(p) * 10 + digit_val(q.last())) by (nonlinear_arith);
        lemma_dec_val_prefix(s, k + 1);
    }
}

/// Parse `s` as a base-ten `u64`, accepting exactly what std's `u64` parsing
/// accepts: an optional leading '+', then at least one decimal digit and
/// nothing else, with a value that fits in a `u64`.
pub fn parse_u64(s: &str) -> (r: Option<u64>)
    ensures
        r is Some <==> is_numeral_within(s@, u64::MAX as nat),
        r matches Some(v) ==> v as nat == numeral_val(s@),
{
    let n = s.unicode_len();
    let start: usize = if n > 0 && s.get_char(0) == '+' {
        1
    } else {
        0
    };
    if n == start {
        assert(digits_of(s@).len() == 0);
        return None;
    }
    let ghost d = s@.subrange(start as int, n as int);
    proof {
        assert(digits_of(s@) =~= d);
    }
    let mut i: usize = start;
    let mut val: u64 = 0;
    while i < n
        invariant
            start <= i <= n,
            n == s@.len(),
            start < n,
            d == s@.subrange(start as int, n as int),
            digits_of(s@) == d,
            all_dec_digits(d.subrange(0, i - start)),
            val as nat == dec_val(d.subrange(0, i - start)),
        decreases n - i,
    {
        let c = s.get_char(i);
        let u = c as u32;
        proof {
            assert(d[i - start] == s@[i as int]);
        }
        if u < 48 || u > 57 {
            proof {
                assert(!is_dec_digit(d[i - start]));
            }
            return None;
        }
        let dv: u64 = (u - 48) as u64;
        let ghost prefix = d.subrange(0, i - start);
        let ghost prefix1 = d.subrange(0, i + 1 - start);
        proof {
            assert(prefix1.drop_last() =~= prefix);
            assert(prefix1.last() == s@[i as int]);
            assert(dec_val(prefix1) == val * 10 + dv);
        }
        let step = match val.checked_mul(10) {
            Some(p) => p.checked_add(dv),
            None => None,
        };
        match step {
            Some(nv) => {
                val = nv;
                i = i + 1;
            },
            None => {
                proof {
                    assert(dec_val(prefix1) > u64::MAX as nat);
                    lemma_dec_val_prefix(d, i + 1 - start);
                }
                return None;
            },
        }
    }
    proof {
        assert(d.subrange(0, n - start) =~= d);
    }
    Some(val)
}

/// Parse `s` as a base-ten `u16`, accepting exactly what std's `u16` parsing
/// accepts.
pub fn parse_u16(s: &str) -> (r: Option<u16>)
    ensures
        r is Some <==> is_numeral_within(s@, u16::MAX as nat),
        r matches Some(v) ==> v as nat == numeral_val(s@),
{
    match parse_u64(s) {
        Some(v) => {
            if v <= 65535 {
                Some(v as u16)
            } else {
                None
            }
        },
        None => None,
    }
}

} // verus!
