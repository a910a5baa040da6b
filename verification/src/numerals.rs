//! Decimal numerals: parsing a port number from configuration text and
//! printing one into a URL.

use vstd::prelude::*;

verus! {

/// `c` is an ASCII decimal digit.
pub open spec fn is_digit(c: char) -> bool {
    48 <= c as u32 <= 57
}

/// The numeric value of the digit `c`.
pub open spec fn digit_of(c: char) -> int {
    c as u32 - 48
}

/// All characters of `s` are decimal digits.
pub open spec fn all_digits(s: Seq<char>) -> bool {
    forall|i: int| 0 <= i < s.len() ==> is_digit(#[trigger] s[i])
}

/// The value of the digit string `s` read in base ten.
pub open spec fn digits_val(s: Seq<char>) -> int
    decreases s.len(),
{
    if s.len() == 0 {
        0
    } else {
        digits_val(s.drop_last()) * 10 + digit_of(s.last())
    }
}

proof fn lemma_digits_val_nonneg(s: Seq<char>)
    requires
        all_digits(s),
    ensures
        digits_val(s) >= 0,
    decreases s.len(),
{
    if s.len() > 0 {
        assert(all_digits(s.drop_last()));
        lemma_digits_val_nonneg(s.drop_last());
    }
}

proof fn lemma_digits_val_prefix(s: Seq<char>, k: int)
    requires
        all_digits(s),
        0 <= k <= s.len(),
    ensures
        digits_val(s.take(k)) <= digits_val(s),
    decreases s.len() - k,
{
    if k < s.len() {
        lemma_digits_val_prefix(s, k + 1);
        assert(s.take(k + 1).drop_last() =~= s.take(k));
        assert(all_digits(s.take(k)));
        lemma_digits_val_nonneg(s.take(k));
        assert(digits_val(s.take(k + 1)) == digits_val(s.take(k)) * 10 + digit_of(s[k]));
    } else {
        assert(s.take(k) =~= s);
    }
}

/// The value of `s` read as a decimal `u16`, accepting one optional leading
/// `+` as the standard library's integer parser does; `None` when the digit
/// string is empty, holds a non-digit, or exceeds the `u16` range.
pub open spec fn parse_u16_spec(s: Seq<char>) -> Option<u16> {
    let t = if s.len() > 0 && s[0] == '+' {
        s.drop_first()
    } else {
        s
    };
    if t.len() == 0 || !all_digits(t) || digits_val(t) > 65535 {
        None
    } else {
        Some(digits_val(t) as u16)
    }
}

/// Parses `s` as a decimal `u16`.
pub fn parse_u16(s: &str) -> (r: Option<u16>)
    ensures
        r == parse_u16_spec(s@),
{
    let n = s.unicode_len();
    let start: usize = if n > 0 && s.get_char(0) == '+' {
        1
    } else {
        0
    };
    let ghost t: Seq<char> = if start == 1 {
        s@.drop_first()
    } else {
        s@
    };
    if n == start {
        return None;
    }
    let mut acc: u32 = 0;
    let mut k: usize = start;
    while k < n
        invariant
            start <= k <= n,
            start <= 1,
            n == s@.len(),
            n > start,
            (start == 1) <==> (s@.len() > 0 && s@[0] == '+'),
            t == (if start == 1 {
                s@.drop_first()
            } else {
                s@
            }),
            t.len() == n - start,
            forall|j: int| 0 <= j < t.len() ==> t[j] == s@[j + start],
            all_digits(t.take(k - start)),
            acc == digits_val(t.take(k - start)),
            acc <= 65535,
        decreases n - k,
    {
        let c = s.get_char(k);
        let cu = c as u32;
        if cu < 48 || cu > 57 {
            proof {
                assert(!is_digit(t[k - start]));
            }
            return None;
        }
        let d = cu - 48;
        let next = acc * 10 + d;
        proof {
            assert(t.take(k - start + 1).drop_last() =~= t.take(k - start));
            assert(digits_val(t.take(k - start + 1)) == acc * 10 + d);
        }
        if next > 65535 {
            proof {
                if all_digits(t) {
                    lemma_digits_val_prefix(t, k - start + 1);
                }
            }
            return None;
        }
        acc = next;
        k += 1;
    }
    proof {
        assert(t.take(n - start) =~= t);
    }
    Some(acc as u16)
}

/// The character for the digit value `d`.
pub open spec fn digit_char(d: int) -> char {
    if d == 0 {
        '0'
    } else if d == 1 {
        '1'
    } else if d == 2 {
        '2'
    } else if d == 3 {
        '3'
    } else if d == 4 {
        '4'
    } else if d == 5 {
        '5'
    } else if d == 6 {
        '6'
    } else if d == 7 {
        '7'
    } else if d == 8 {
        '8'
    } else {
        '9'
    }
}

/// The decimal digits of `n` without leading zeros; empty for zero.
pub open spec fn dec_digits(n: int) -> Seq<char>
    decreases n,
{
    if n <= 0 {
        Seq::empty()
    } else {
        dec_digits(n / 10).push(digit_char(n % 10))
    }
}

/// The decimal numeral of `n`: its digits, with a single zero for zero.
pub open spec fn u16_dec(n: u16) -> Seq<char> {
    if n == 0 {
        seq!['0']
    } else {
        dec_digits(n as int)
    }
}

fn digit_str(d: u16) -> (r: &'static str)
    requires
        d < 10,
    ensures
        r@ == seq![digit_char(d as int)],
{
    proof {
        reveal_strlit("0");
        reveal_strlit("1");
        reveal_strlit("2");
        reveal_strlit("3");
        reveal_strlit("4");
        reveal_strlit("5");
        reveal_strlit("6");
        reveal_strlit("7");
        reveal_strlit("8");
        reveal_strlit("9");
    }
    let r = match d {
        0 => "0",
        1 => "1",
        2 => "2",
        3 => "3",
        4 => "4",
        5 => "5",
        6 => "6",
        7 => "7",
        8 => "8",
        _ => "9",
    };
    proof {
        assert(r@ =~= seq![digit_char(d as int)]);
    }
    r
}

fn push_dec_digits(n: u16, out: &mut String)
    ensures
        final (out)@ == old(out)@ + dec_digits(n as int),
    decreases n,
{
    if n == 0 {
        proof {
            assert(old(out)@ + dec_digits(0) =~= old(out)@);
        }
        return ;
    }
    push_dec_digits(n / 10, out);
    let d = n % 10;
    let ds = digit_str(d);
    out.append(ds);
    proof {
        assert(old(out)@ + dec_digits(n as int) =~= old(out)@ + dec_digits(n as int / 10) + seq![
            digit_char(n as int % 10),
        ]);
    }
}

proof fn lemma_dec_digits_are_digits(n: int)
    requires
        n >= 0,
    ensures
        all_digits(dec_digits(n)),
    decreases n,
{
    if n > 0 {
        lemma_dec_digits_are_digits(n / 10);
        let ds = dec_digits(n);
        assert(is_digit(digit_char(n % 10)));
        assert forall|i: int| 0 <= i < ds.len() implies is_digit(#[trigger] ds[i]) by {
            if i < ds.len() - 1 {
                assert(ds[i] == dec_digits(n / 10)[i]);
            }
        }
    }
}

proof fn lemma_digits_val_dec_digits(n: int)
    requires
        n >= 0,
    ensures
        digits_val(dec_digits(n)) == n,
    decreases n,
{
    if n > 0 {
        lemma_digits_val_dec_digits(n / 10);
        assert(dec_digits(n).drop_last() =~= dec_digits(n / 10));
        assert(digit_of(digit_char(n % 10)) == n % 10);
        assert(n / 10 * 10 + n % 10 == n);
    }
}

/// Law: a port printed as a decimal numeral parses back to the same port.
pub proof fn lemma_port_round_trip(n: u16)
    ensures
        parse_u16_spec(u16_dec(n)) == Some(n),
{
    let s = u16_dec(n);
    if n == 0 {
        assert(s == seq!['0']);
        assert(s[0] != '+');
        assert(is_digit('0'));
        assert(s.drop_last() =~= Seq::<char>::empty());
        assert(digits_val(Seq::<char>::empty()) == 0);
        assert(s.last() == '0');
        assert(digit_of('0') == 0);
        assert(digits_val(s) == 0);
    } else {
        lemma_dec_digits_are_digits(n as int);
        lemma_digits_val_dec_digits(n as int);
        assert(s.len() > 0);
        assert(is_digit(s[0]));
        assert(s[0] != '+');
    }
}

/// Prints `n` as a decimal numeral.
pub fn u16_to_string(n: u16) -> (r: String)
    ensures
        r@ == u16_dec(n),
{
    if n == 0 {
        let r = String::from_str("0");
        proof {
            reveal_strlit("0");
            assert(r@ =~= seq!['0']);
        }
        r
    } else {
        let mut s = String::new();
        push_dec_digits(n, &mut s);
        proof {
            assert(Seq::<char>::empty() + dec_digits(n as int) =~= dec_digits(n as int));
        }
        s
    }
}

} // verus!
