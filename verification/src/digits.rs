//! Decimal-number parsing and printing for numeric arguments.

use vstd::prelude::*;
use vstd::string::StringExecFns;

verus! {

/// `c` is a decimal digit (`'0'` through `'9'`).
pub open spec fn is_digit_char(c: char) -> bool {
    48 <= c as int <= 57
}

/// The numeric value of the digit `c`.
pub open spec fn digit_val(c: char) -> int {
    c as int - 48
}

/// Every character of `s` is a decimal digit.
pub open spec fn all_digits(s: Seq<char>) -> bool {
    forall|i: int| 0 <= i < s.len() ==> is_digit_char(#[trigger] s[i])
}

/// The value of the digit string `s` read in base ten.
pub open spec fn dec_val(s: Seq<char>) -> int
    decreases s.len(),
{
    if s.len() == 0 {
        0
    } else {
        dec_val(s.drop_last()) * 10 + digit_val(s.last())
    }
}

proof fn lemma_all_digits_take(s: Seq<char>, i: int)
    requires
        all_digits(s),
        0 <= i <= s.len(),
    ensures
        all_digits(s.take(i)),
{
    assert forall|j: int| 0 <= j < s.take(i).len() implies is_digit_char(#[trigger] s.take(i)[j]) by {
        assert(s.take(i)[j] == s[j]);
    }
}

proof fn lemma_dec_val_nonneg(s: Seq<char>)
    requires
        all_digits(s),
    ensures
        dec_val(s) >= 0,
    decreases s.len(),
{
    if s.len() > 0 {
        assert forall|j: int| 0 <= j < s.drop_last().len() implies is_digit_char(
            #[trigger] s.drop_last()[j],
        ) by {
            assert(s.drop_last()[j] == s[j]);
        }
        lemma_dec_val_nonneg(s.drop_last());
    }
}

proof fn lemma_dec_val_take_step(s: Seq<char>, i: int)
    requires
        0 <= i < s.len(),
    ensures
        dec_val(s.take(i + 1)) == dec_val(s.take(i)) * 10 + digit_val(s[i]),
{
    assert(s.take(i + 1).drop_last() =~= s.take(i));
    assert(s.take(i + 1).last() == s[i]);
}

/// Reading further digits never decreases the value.
proof fn lemma_dec_val_grows(s: Seq<char>, i: int)
    requires
        all_digits(s),
        0 <= i <= s.len(),
    ensures
        dec_val(s.take(i)) <= dec_val(s),
    decreases s.len() - i,
{
    if i == s.len() {
        assert(s.take(i) =~= s);
    } else {
        lemma_dec_val_take_step(s, i);
        lemma_all_digits_take(s, i);
        lemma_dec_val_nonneg(s.take(i));
        lemma_dec_val_grows(s, i + 1);
    }
}

/// Parses a decimal string as a 32-bit unsigned integer.
///
/// Succeeds exactly on non-empty all-digit strings whose value fits in
/// a `u32`; in particular a value past `u32::MAX` is rejected.
pub fn parse_u32(s: &str) -> (r: Option<u32>)
    ensures
        r is Some <==> s@.len() > 0 && all_digits(s@) && dec_val(s@) <= u32::MAX,
        r is Some ==> r->0 == dec_val(s@),
{
    let n = s.unicode_len();
    if n == 0 {
        return None;
    }
    let mut val: u64 = 0;
    let mut i: usize = 0;
    while i < n
        invariant
            0 <= i <= n,
            n == s@.len(),
            all_digits(s@.take(i as int)),
            val == dec_val(s@.take(i as int)),
            val <= u32::MAX,
        decreases n - i,
    {
        let c = s.get_char(i);
        let d: u32 = c as u32;
        if d < 48 || d > 57 {
            assert(!is_digit_char(s@[i as int]));
            return None;
        }
        proof {
            lemma_dec_val_take_step(s@, i as int);
        }
        let next: u64 = val * 10 + ((d - 48) as u64);
        if next > u32::MAX as u64 {
            proof {
                assert(all_digits(s@.take(i as int + 1))) by {
                    assert forall|j: int| 0 <= j < s@.take(i as int + 1).len() implies is_digit_char(
                        #[trigger] s@.take(i as int + 1)[j],
                    ) by {
                        assert(s@.take(i as int + 1)[j] == s@[j]);
                    }
                }
                if all_digits(s@) {
                    lemma_dec_val_grows(s@, i as int + 1);
                }
            }
            return None;
        }
        val = next;
        i = i + 1;
        proof {
            assert forall|j: int| 0 <= j < s@.take(i as int).len() implies is_digit_char(
                #[trigger] s@.take(i as int)[j],
            ) by {
                assert(s@.take(i as int)[j] == s@[j]);
            }
        }
    }
    proof {
        assert(s@.take(n as int) =~= s@);
    }
    Some(val as u32)
}

/// Parses a decimal string as a strictly positive 32-bit signed integer.
///
/// Succeeds exactly on non-empty all-digit strings whose value is at
/// least one and fits in an `i32`.
pub fn parse_positive_i32(s: &str) -> (r: Option<i32>)
    ensures
        r is Some <==> s@.len() > 0 && all_digits(s@) && 1 <= dec_val(s@) <= i32::MAX,
        r is Some ==> r->0 == dec_val(s@),
{
    let n = s.unicode_len();
    if n == 0 {
        return None;
    }
    let mut val: u64 = 0;
    let mut i: usize = 0;
    while i < n
        invariant
            0 <= i <= n,
            n == s@.len(),
            all_digits(s@.take(i as int)),
            val == dec_val(s@.take(i as int)),
            val <= i32::MAX,
        decreases n - i,
    {
        let c = s.get_char(i);
        let d: u32 = c as u32;
        if d < 48 || d > 57 {
            assert(!is_digit_char(s@[i as int]));
            return None;
        }
        proof {
            lemma_dec_val_take_step(s@, i as int);
        }
        let next: u64 = val * 10 + ((d - 48) as u64);
        if next > i32::MAX as u64 {
            proof {
                assert(all_digits(s@.take(i as int + 1))) by {
                    assert forall|j: int| 0 <= j < s@.take(i as int + 1).len() implies is_digit_char(
                        #[trigger] s@.take(i as int + 1)[j],
                    ) by {
                        assert(s@.take(i as int + 1)[j] == s@[j]);
                    }
                }
                if all_digits(s@) {
                    lemma_dec_val_grows(s@, i as int + 1);
                }
            }
            return None;
        }
        val = next;
        i = i + 1;
        proof {
            assert forall|j: int| 0 <= j < s@.take(i as int).len() implies is_digit_char(
                #[trigger] s@.take(i as int)[j],
            ) by {
                assert(s@.take(i as int)[j] == s@[j]);
            }
        }
    }
    if val == 0 {
        proof {
            assert(s@.take(n as int) =~= s@);
        }
        return None;
    }
    proof {
        assert(s@.take(n as int) =~= s@);
    }
    Some(val as i32)
}

/// The digit character for the value `d`.
pub open spec fn digit_char(d: int) -> char {
    if d == 0 {
        '0'
    } else if d == 1 {
        '1'
    } else if d == 2 {
        '2'
    } else if d == 3 {
        '3'
    } else if d == 4 {
        '4'
    } else if d == 5 {
        '5'
    } else if d == 6 {
        '6'
    } else if d == 7 {
        '7'
    } else if d == 8 {
        '8'
    } else {
        '9'
    }
}

/// The decimal text of `n`, most significant digit first.
pub open spec fn dec_str(n: nat) -> Seq<char>
    decreases n,
{
    if n < 10 {
        seq![digit_char(n as int)]
    } else {
        dec_str(n / 10) + seq![digit_char((n % 10) as int)]
    }
}

/// Law: printing a number and reading it back gives the number.
pub proof fn lemma_dec_str_round_trip(n: nat)
    ensures
        all_digits(dec_str(n)),
        dec_val(dec_str(n)) == n,
    decreases n,
{
    if n < 10 {
        let s = dec_str(n);
        assert(s.len() == 1);
        assert(s.drop_last() =~= Seq::<char>::empty());
        assert(dec_val(Seq::<char>::empty()) == 0);
        assert(dec_val(s) == digit_val(s[0]));
        assert(is_digit_char(s[0]));
    } else {
        lemma_dec_str_round_trip(n / 10);
        let s = dec_str(n);
        let p = dec_str(n / 10);
        assert(s =~= p + seq![digit_char((n % 10) as int)]);
        assert(s.drop_last() =~= p);
        assert(s.last() == digit_char((n % 10) as int));
        assert forall|j: int| 0 <= j < s.len() implies is_digit_char(#[trigger] s[j]) by {
            if j < p.len() {
                assert(s[j] == p[j]);
            } else {
                assert(s[j] == s.last());
            }
        }
        assert(dec_val(s) == dec_val(p) * 10 + (n % 10));
    }
}

fn digit_text(d: u32) -> (r: &'static str)
    requires
        d < 10,
    ensures
        r@ == seq![digit_char(d as int)],
{
    proof {
        reveal_strlit("0");
        reveal_strlit("1");
        reveal_strlit("2");
        reveal_strlit("3");
        reveal_strlit("4");
        reveal_strlit("5");
        reveal_strlit("6");
        reveal_strlit("7");
        reveal_strlit("8");
        reveal_strlit("9");
    }
    let r = if d == 0 {
        "0"
    } else if d == 1 {
        "1"
    } else if d == 2 {
        "2"
    } else if d == 3 {
        "3"
    } else if d == 4 {
        "4"
    } else if d == 5 {
        "5"
    } else if d == 6 {
        "6"
    } else if d == 7 {
        "7"
    } else if d == 8 {
        "8"
    } else {
        "9"
    };
    proof {
        assert(r@ =~= seq![digit_char(d as int)]);
    }
    r
}

/// The decimal text of `n`.
pub fn u32_to_string(n: u32) -> (r: String)
    ensures
        r@ == dec_str(n as nat),
    decreases n,
{
    if n < 10 {
        digit_text(n).to_owned()
    } else {
        let mut s = u32_to_string(n / 10);
        s.append(digit_text(n % 10));
        proof {
            assert(s@ =~= dec_str(n as nat));
        }
        s
    }
}

} // verus!
