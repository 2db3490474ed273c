//! Decimal text for the values the exposition format carries.
//!
//! Metric values are held as fixed-point thousandths; this module renders
//! them the way a scraping agent expects to read them back: minimal decimal
//! notation, fractional digits only when they are non-zero.

use vstd::prelude::*;

verus! {

/// The decimal digit character for `d` (meaningful for `d < 10`).
pub open spec fn digit_char(d: nat) -> char {
    if d == 0 {
        '0'
    } else if d == 1 {
        '1'
    } else if d == 2 {
        '2'
    } else if d == 3 {
        '3'
    } else if d == 4 {
        '4'
    } else if d == 5 {
        '5'
    } else if d == 6 {
        '6'
    } else if d == 7 {
        '7'
    } else if d == 8 {
        '8'
    } else {
        '9'
    }
}

/// Decimal representation of `n`, most significant digit first, with no
/// leading zeros (a single `0` for zero).
pub open spec fn dec_rep(n: nat) -> Seq<char>
    decreases n,
{
    if n < 10 {
        seq![digit_char(n)]
    } else {
        dec_rep(n / 10) + seq![digit_char(n % 10)]
    }
}

fn digit_str(d: u64) -> (s: &'static str)
    requires
        d < 10,
    ensures
        s@ == seq![digit_char(d as nat)],
{
    if d == 0 {
        proof {
            reveal_strlit("0");
            assert("0"@ =~= seq![digit_char(0)]);
        }
        "0"
    } else if d == 1 {
        proof {
            reveal_strlit("1");
            assert("1"@ =~= seq![digit_char(1)]);
        }
        "1"
    } else if d == 2 {
        proof {
            reveal_strlit("2");
            assert("2"@ =~= seq![digit_char(2)]);
        }
        "2"
    } else if d == 3 {
        proof {
            reveal_strlit("3");
            assert("3"@ =~= seq![digit_char(3)]);
        }
        "3"
    } else if d == 4 {
        proof {
            reveal_strlit("4");
            assert("4"@ =~= seq![digit_char(4)]);
        }
        "4"
    } else if d == 5 {
        proof {
            reveal_strlit("5");
            assert("5"@ =~= seq![digit_char(5)]);
        }
        "5"
    } else if d == 6 {
        proof {
            reveal_strlit("6");
            assert("6"@ =~= seq![digit_char(6)]);
        }
        "6"
    } else if d == 7 {
        proof {
            reveal_strlit("7");
            assert("7"@ =~= seq![digit_char(7)]);
        }
        "7"
    } else if d == 8 {
        proof {
            reveal_strlit("8");
            assert("8"@ =~= seq![digit_char(8)]);
        }
        "8"
    } else {
        proof {
            reveal_strlit("9");
            assert("9"@ =~= seq![digit_char(9)]);
        }
        "9"
    }
}

/// Magnitude of `m`, still counted in thousandths.
pub open spec fn milli_abs(m: int) -> nat {
    if m < 0 {
        (-m) as nat
    } else {
        m as nat
    }
}

/// Decimal text of a non-negative fixed-point value of `a` thousandths:
/// the whole part, then a point and the fractional digits with trailing
/// zeros dropped; no point at all when the fraction is zero.
pub open spec fn milli_rep_abs(a: nat) -> Seq<char> {
    let whole = a / 1000;
    let frac = a % 1000;
    if frac == 0 {
        dec_rep(whole)
    } else if frac % 100 == 0 {
        dec_rep(whole) + seq!['.', digit_char(frac / 100)]
    } else if frac % 10 == 0 {
        dec_rep(whole) + seq!['.', digit_char(frac / 100), digit_char((frac / 10) % 10)]
    } else {
        dec_rep(whole)
            + seq!['.', digit_char(frac / 100), digit_char((frac / 10) % 10), digit_char(frac % 10)]
    }
}

/// Decimal text of a fixed-point value of `m` thousandths, with a leading
/// minus sign when `m` is negative.
pub open spec fn milli_rep(m: int) -> Seq<char> {
    if m < 0 {
        seq!['-'] + milli_rep_abs(milli_abs(m))
    } else {
        milli_rep_abs(milli_abs(m))
    }
}

/// Decimal text of a signed fixed-point value held in thousandths.
pub fn milli_to_string(m: i64) -> (r: String)
    ensures
        r@ == milli_rep(m as int),
{
    let a: u64 = if m >= 0 {
        m as u64
    } else {
        (-(m + 1)) as u64 + 1
    };
    proof {
        assert(a as nat == milli_abs(m as int));
    }
    let whole: u64 = a / 1000;
    let frac: u64 = a % 1000;
    let mut r = if m < 0 {
        proof {
            reveal_strlit("-");
            assert("-"@ =~= seq!['-']);
        }
        "-".to_owned()
    } else {
        String::new()
    };
    r.append(u64_to_string(whole).as_str());
    proof {
        assert(whole as nat == (a as nat) / 1000);
        assert(frac as nat == (a as nat) % 1000);
    }
    if frac != 0 {
        proof {
            reveal_strlit(".");
            assert("."@ =~= seq!['.']);
        }
        r.append(".");
        r.append(digit_str(frac / 100));
        if frac % 100 != 0 {
            r.append(digit_str((frac / 10) % 10));
            if frac % 10 != 0 {
                r.append(digit_str(frac % 10));
            }
        }
    }
    proof {
        assert(r@ =~= milli_rep(m as int));
    }
    r
}

/// Decimal text of an unsigned integer.
pub fn u64_to_string(n: u64) -> (r: String)
    ensures
        r@ == dec_rep(n as nat),
    decreases n,
{
    if n < 10 {
        digit_str(n).to_owned()
    } else {
        let mut r = u64_to_string(n / 10);
        r.append(digit_str(n % 10));
        proof {
            assert((n / 10) as nat == (n as nat) / 10);
            assert((n % 10) as nat == (n as nat) % 10);
        }
        r
    }
}

/// Relies on alloc::string::String::push: appends exactly the one given
/// character to the string.
pub assume_specification[ String::push ](s: &mut String, c: char)
    ensures
        final(s)@ == old(s)@ + seq![c],
;

/// How one character of a label value is written in exposition text:
/// backslashes, double quotes and line feeds are escaped, everything
/// else stands as it is.
pub open spec fn escape_char(c: char) -> Seq<char> {
    if c == '\\' {
        seq!['\\', '\\']
    } else if c == '"' {
        seq!['\\', '"']
    } else if c == '\n' {
        seq!['\\', 'n']
    } else {
        seq![c]
    }
}

/// A label value as it is written between the quotes of a sample line.
pub open spec fn escape_label(s: Seq<char>) -> Seq<char>
    decreases s.len(),
{
    if s.len() == 0 {
        Seq::empty()
    } else {
        escape_char(s[0]) + escape_label(s.drop_first())
    }
}

proof fn lemma_escape_label_snoc(s: Seq<char>)
    requires
        s.len() > 0,
    ensures
        escape_label(s) == escape_label(s.drop_last()) + escape_char(s.last()),
    decreases s.len(),
{
    if s.len() == 1 {
        assert(s.drop_last() =~= Seq::<char>::empty());
        assert(escape_label(s.drop_first()) =~= Seq::<char>::empty());
        assert(escape_label(s) =~= escape_label(s.drop_last()) + escape_char(s.last()));
    } else {
        lemma_escape_label_snoc(s.drop_first());
        assert(s.drop_first().drop_last() =~= s.drop_last().drop_first());
        assert(s.drop_first().last() == s.last());
        assert(s.drop_last()[0] == s[0]);
        assert(escape_label(s) =~= escape_label(s.drop_last()) + escape_char(s.last()));
    }
}

/// Escapes a label value for a sample line.
pub fn escape_label_string(s: &str) -> (r: String)
    ensures
        r@ == escape_label(s@),
{
    let n = s.unicode_len();
    let mut r = String::new();
    let mut i: usize = 0;
    while i < n
        invariant
            n == s@.len(),
            i <= n,
            r@ == escape_label(s@.subrange(0, i as int)),
        decreases n - i,
    {
        let c = s.get_char(i);
        if c == '\\' {
            proof {
                reveal_strlit("\\\\");
                assert("\\\\"@ =~= seq!['\\', '\\']);
            }
            r.append("\\\\");
        } else if c == '"' {
            proof {
                reveal_strlit("\\\"");
                assert("\\\""@ =~= seq!['\\', '"']);
            }
            r.append("\\\"");
        } else if c == '\n' {
            proof {
                reveal_strlit("\\n");
                assert("\\n"@ =~= seq!['\\', 'n']);
            }
            r.append("\\n");
        } else {
            r.push(c);
        }
        proof {
            let pre = s@.subrange(0, i + 1);
            lemma_escape_label_snoc(pre);
            assert(pre.drop_last() =~= s@.subrange(0, i as int));
            assert(pre.last() == s@[i as int]);
        }
        i = i + 1;
    }
    proof {
        assert(s@.subrange(0, n as int) =~= s@);
    }
    r
}

} // verus!
