use vstd::prelude::*;
use vstd::string::StrSliceExecFns;
use vstd::string::StringExecFns;

verus! {

/// The character is a decimal digit.
pub open spec fn is_digit_char(c: char) -> bool {
    48 <= c as int <= 57
}

/// Numeric value of one decimal digit character.
pub open spec fn digit_value(c: char) -> int {
    c as int - 48
}

/// Every character of the sequence is a decimal digit.
pub open spec fn all_digits(s: Seq<char>) -> bool {
    forall|i: int| 0 <= i < s.len() ==> is_digit_char(#[trigger] s[i])
}

/// Value of a non-empty digit string read in base ten, most significant first.
pub open spec fn digits_value(s: Seq<char>) -> int
    decreases s.len(),
{
    if s.len() == 0 {
        0
    } else {
        digits_value(s.drop_last()) * 10 + digit_value(s.last())
    }
}

/// A decimal rendering of a digit string is never negative.
pub proof fn lemma_digits_value_nonneg(s: Seq<char>)
    requires
        all_digits(s),
    ensures
        digits_value(s) >= 0,
    decreases s.len(),
{
    if s.len() > 0 {
        assert(all_digits(s.drop_last()));
        lemma_digits_value_nonneg(s.drop_last());
    }
}

/// Reading more digits never makes the value smaller.
pub proof fn lemma_digits_value_prefix(s: Seq<char>, i: int)
    requires
        all_digits(s),
        0 <= i <= s.len(),
    ensures
        digits_value(s.take(i)) <= digits_value(s),
    decreases s.len() - i,
{
    if i < s.len() {
        let t = s.take(i + 1);
        assert(t.drop_last() =~= s.take(i));
        assert(all_digits(t.drop_last()));
        lemma_digits_value_nonneg(s.take(i));
        assert(digits_value(t) == digits_value(s.take(i)) * 10 + digit_value(t.last()));
        assert(digits_value(s.take(i)) <= digits_value(t));
        lemma_digits_value_prefix(s, i + 1);
        assert(s.take(i + 1) == t);
    } else {
        assert(s.take(i) =~= s);
    }
}

/// Result of reading the string as a signed 32-bit decimal number: an
/// optional leading sign, then one or more digits, rejecting anything
/// else and any value outside the type's range.
pub open spec fn spec_parse_i32(s: Seq<char>) -> Option<i32> {
    let neg = s.len() > 0 && s[0] == '-';
    let signed = s.len() > 0 && (s[0] == '-' || s[0] == '+');
    let ds = if signed {
        s.drop_first()
    } else {
        s
    };
    if ds.len() == 0 || !all_digits(ds) {
        None
    } else {
        let v = if neg {
            -digits_value(ds)
        } else {
            digits_value(ds)
        };
        if i32::MIN <= v <= i32::MAX {
            Some(v as i32)
        } else {
            None
        }
    }
}

/// Reads the string as a signed 32-bit decimal number, as
/// `spec_parse_i32` describes.
pub fn parse_i32(s: &str) -> (r: Option<i32>)
    ensures
        r == spec_parse_i32(s@),
{
    let n = s.unicode_len();
    let mut start: usize = 0;
    let mut neg = false;
    if n > 0 {
        let c0 = s.get_char(0);
        if c0 == '-' {
            neg = true;
            start = 1;
        } else if c0 == '+' {
            start = 1;
        }
    }
    let ghost ds = if start == 1 {
        s@.drop_first()
    } else {
        s@
    };
    assert(ds.len() == n - start);
    assert(forall|k: int| 0 <= k < ds.len() ==> ds[k] == s@[k + start]);
    if start >= n {
        assert(ds.len() == 0);
        return None;
    }
    let mut i: usize = start;
    let mut acc: u64 = 0;
    let mut overflow = false;
    while i < n
        invariant
            start <= i <= n,
            n == s@.len(),
            start <= 1,
            start < n,
            neg <==> (s@.len() > 0 && s@[0] == '-'),
            start == 1 <==> (s@.len() > 0 && (s@[0] == '-' || s@[0] == '+')),
            ds == (if start == 1 {
                s@.drop_first()
            } else {
                s@
            }),
            ds.len() == n - start,
            forall|k: int| 0 <= k < ds.len() ==> ds[k] == s@[k + start],
            all_digits(ds.take(i - start)),
            !overflow ==> acc == digits_value(ds.take(i - start)) && acc <= 2147483648,
            overflow ==> digits_value(ds.take(i - start)) > 2147483648,
        decreases n - i,
    {
        let c = s.get_char(i);
        let u = c as u32;
        if u < 48 || u > 57 {
            assert(!is_digit_char(ds[i - start]));
            return None;
        }
        let ghost prev = ds.take(i - start);
        assert(ds.take(i - start + 1).drop_last() =~= prev);
        assert(ds.take(i - start + 1).last() == ds[i - start]);
        if overflow {
            proof {
                lemma_digits_value_nonneg(prev);
            }
            assert(digits_value(ds.take(i - start + 1)) > 2147483648);
        } else {
            let d = (u - 48) as u64;
            acc = acc * 10 + d;
            if acc > 2147483648 {
                overflow = true;
            }
        }
        i = i + 1;
    }
    assert(ds.take(i - start) =~= ds);
    if overflow {
        proof {
            lemma_digits_value_prefix(ds, ds.len() as int);
        }
        assert(digits_value(ds) > 2147483648);
        return None;
    }
    if neg {
        if acc > 2147483648 {
            return None;
        }
        let v: i32 = (-(acc as i64)) as i32;
        assert(v as int == -digits_value(ds));
        Some(v)
    } else {
        if acc > 2147483647 {
            return None;
        }
        Some(acc as i32)
    }
}

/// The decimal digit character for a value between zero and nine.
pub open spec fn digit_char(d: int) -> char {
    if d == 0 {
        '0'
    } else if d == 1 {
        '1'
    } else if d == 2 {
        '2'
    } else if d == 3 {
        '3'
    } else if d == 4 {
        '4'
    } else if d == 5 {
        '5'
    } else if d == 6 {
        '6'
    } else if d == 7 {
        '7'
    } else if d == 8 {
        '8'
    } else {
        '9'
    }
}

/// Decimal rendering of a non-negative number, without sign or leading
/// zeros (a lone zero for zero itself).
pub open spec fn spec_u32_digits(n: int) -> Seq<char>
    decreases n,
{
    if n < 10 {
        seq![digit_char(n)]
    } else {
        spec_u32_digits(n / 10).push(digit_char(n % 10))
    }
}

/// Decimal rendering of a signed number: a minus sign before the digits
/// of its magnitude when negative.
pub open spec fn spec_i32_digits(n: int) -> Seq<char> {
    if n < 0 {
        seq!['-'] + spec_u32_digits(-n)
    } else {
        spec_u32_digits(n)
    }
}

fn digit_str(d: u32) -> (r: &'static str)
    requires
        d < 10,
    ensures
        r@ =~= seq![digit_char(d as int)],
{
    proof {
        reveal_strlit("0");
        reveal_strlit("1");
        reveal_strlit("2");
        reveal_strlit("3");
        reveal_strlit("4");
        reveal_strlit("5");
        reveal_strlit("6");
        reveal_strlit("7");
        reveal_strlit("8");
        reveal_strlit("9");
    }
    match d {
        0 => "0",
        1 => "1",
        2 => "2",
        3 => "3",
        4 => "4",
        5 => "5",
        6 => "6",
        7 => "7",
        8 => "8",
        _ => "9",
    }
}

fn append_u32_digits(n: u32, out: &mut String)
    ensures
        final(out)@ == old(out)@ + spec_u32_digits(n as int),
    decreases n,
{
    if n >= 10 {
        append_u32_digits(n / 10, out);
    }
    out.append(digit_str(n % 10));
    assert(out@ =~= old(out)@ + spec_u32_digits(n as int));
}

/// Renders a signed 32-bit number in decimal, as `spec_i32_digits`
/// describes.
pub fn i32_to_string(n: i32) -> (r: String)
    ensures
        r@ == spec_i32_digits(n as int),
{
    let mut out = String::new();
    if n < 0 {
        proof {
            reveal_strlit("-");
        }
        out.append("-");
        assert(out@ =~= seq!['-']);
        let mag: u32 = (-(n as i64)) as u32;
        append_u32_digits(mag, &mut out);
        assert(out@ =~= spec_i32_digits(n as int));
    } else {
        append_u32_digits(n as u32, &mut out);
        assert(out@ =~= spec_i32_digits(n as int));
    }
    out
}

} // verus!
