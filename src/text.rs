//! Decimal rendering of numbers and JSON string quoting.
use vstd::prelude::*;
use vstd::string::*;

verus! {

pub open spec fn digit_chars() -> Seq<char> {
    seq!['0', '1', '2', '3', '4', '5', '6', '7', '8', '9', 'a', 'b', 'c', 'd', 'e', 'f']
}

/// Decimal digits of `n`, without leading zeros.
pub open spec fn spec_decimal(n: nat) -> Seq<char>
    decreases n,
{
    if n < 10 {
        seq![digit_chars()[n as int]]
    } else {
        spec_decimal(n / 10) + seq![digit_chars()[(n % 10) as int]]
    }
}

/// A percentage held in hundredths, with exactly two decimals
/// (`4000` is `40.00`, `952` is `9.52`).
pub open spec fn spec_hundredths(h: nat) -> Seq<char> {
    spec_decimal(h / 100) + seq!['.', digit_chars()[((h % 100) / 10) as int], digit_chars()[(h % 10) as int]]
}

pub open spec fn is_decimal_digit(c: char) -> bool {
    '0' <= c && c <= '9'
}

/// Decimal text is a non-empty run of digits.
pub proof fn lemma_decimal_digits(n: nat)
    ensures
        spec_decimal(n).len() >= 1,
        forall|i: int| 0 <= i < spec_decimal(n).len() ==> is_decimal_digit(#[trigger] spec_decimal(n)[i]),
    decreases n,
{
    if n >= 10 {
        lemma_decimal_digits(n / 10);
        let head = spec_decimal(n / 10);
        let tail = seq![digit_chars()[(n % 10) as int]];
        assert forall|i: int| 0 <= i < spec_decimal(n).len() implies is_decimal_digit(#[trigger] spec_decimal(n)[i]) by {
            if i < head.len() {
                assert(spec_decimal(n)[i] == head[i]);
            } else {
                assert(spec_decimal(n)[i] == tail[i - head.len()]);
            }
        }
    }
}

/// A percentage in hundredths is written as digits, one `.`, and exactly
/// two more digits.
pub proof fn lemma_two_decimals(h: nat)
    ensures
        spec_hundredths(h).len() >= 4,
        spec_hundredths(h)[spec_hundredths(h).len() - 3] == '.',
        is_decimal_digit(spec_hundredths(h)[spec_hundredths(h).len() - 2]),
        is_decimal_digit(spec_hundredths(h)[spec_hundredths(h).len() - 1]),
        forall|i: int| 0 <= i < spec_hundredths(h).len() - 3 ==> is_decimal_digit(#[trigger] spec_hundredths(h)[i]),
{
    lemma_decimal_digits(h / 100);
    let head = spec_decimal(h / 100);
    assert forall|i: int| 0 <= i < spec_hundredths(h).len() - 3 implies is_decimal_digit(#[trigger] spec_hundredths(h)[i]) by {
        assert(spec_hundredths(h)[i] == head[i]);
    }
}

/// JSON escape of one character.
pub open spec fn escape_char(c: char) -> Seq<char> {
    if c == '"' {
        seq!['\\', '"']
    } else if c == '\\' {
        seq!['\\', '\\']
    } else if (c as u32) < 0x20 {
        seq!['\\', 'u', '0', '0', digit_chars()[((c as u32) / 16) as int], digit_chars()[((c as u32) % 16) as int]]
    } else {
        seq![c]
    }
}

pub open spec fn escape_text(s: Seq<char>) -> Seq<char>
    decreases s.len(),
{
    if s.len() == 0 {
        Seq::empty()
    } else {
        escape_text(s.drop_last()) + escape_char(s.last())
    }
}

/// `s` as a JSON string literal.
pub open spec fn spec_quoted(s: Seq<char>) -> Seq<char> {
    seq!['"'] + escape_text(s) + seq!['"']
}

/// The one-character text of the digit `d` (hexadecimal above nine).
fn digit_text(d: usize) -> (r: &'static str)
    requires
        d < 16,
    ensures
        r@ == seq![digit_chars()[d as int]],
{
    let digits: &'static str = "0123456789abcdef";
    proof {
        reveal_strlit("0123456789abcdef");
    }
    let r: &str = digits.substring_char(d, d + 1);
    assert(r@ =~= seq![digit_chars()[d as int]]);
    r
}

/// Decimal text of an unsigned integer.
pub fn decimal_text(n: u64) -> (r: String)
    ensures
        r@ == spec_decimal(n as nat),
    decreases n,
{
    if n < 10 {
        String::from_str(digit_text(n as usize))
    } else {
        let mut s: String = decimal_text(n / 10);
        s.append(digit_text((n % 10) as usize));
        s
    }
}

/// A percentage held in hundredths, with exactly two decimals.
pub fn hundredths_text(h: u64) -> (r: String)
    ensures
        r@ == spec_hundredths(h as nat),
{
    let mut s: String = decimal_text(h / 100);
    let dot: &str = ".";
    proof {
        reveal_strlit(".");
    }
    s.append(dot);
    s.append(digit_text(((h % 100) / 10) as usize));
    s.append(digit_text((h % 10) as usize));
    assert(s@ =~= spec_hundredths(h as nat));
    s
}

fn escape_piece(c: char, s: &str, i: usize) -> (r: String)
    requires
        i < s@.len() <= usize::MAX,
        s@[i as int] == c,
    ensures
        r@ == escape_char(c),
{
    if c == '"' {
        proof {
            reveal_strlit("\\\"");
        }
        String::from_str("\\\"")
    } else if c == '\\' {
        proof {
            reveal_strlit("\\\\");
        }
        String::from_str("\\\\")
    } else if (c as u32) < 0x20 {
        proof {
            reveal_strlit("\\u00");
        }
        let mut r: String = String::from_str("\\u00");
        r.append(digit_text(((c as u32) / 16) as usize));
        r.append(digit_text(((c as u32) % 16) as usize));
        assert(r@ =~= escape_char(c));
        r
    } else {
        let one: &str = s.substring_char(i, i + 1);
        assert(one@ =~= seq![c]);
        String::from_str(one)
    }
}

/// `s` as a JSON string literal, quotes included.
pub fn quoted_text(s: &str) -> (r: String)
    ensures
        r@ == spec_quoted(s@),
{
    let n: usize = s.unicode_len();
    proof {
        reveal_strlit("\"");
    }
    let mut out: String = String::from_str("\"");
    let mut i: usize = 0;
    while i < n
        invariant
            n == s@.len(),
            i <= n,
            out@ == seq!['"'] + escape_text(s@.take(i as int)),
        decreases n - i,
    {
        let c: char = s.get_char(i);
        let piece: String = escape_piece(c, s, i);
        out.append(piece.as_str());
        proof {
            assert(s@.take(i as int + 1).drop_last() =~= s@.take(i as int));
            assert(s@.take(i as int + 1).last() == c);
        }
        i = i + 1;
        assert(out@ =~= seq!['"'] + escape_text(s@.take(i as int)));
    }
    out.append("\"");
    assert(s@.take(n as int) =~= s@);
    assert(out@ =~= spec_quoted(s@));
    out
}

} // verus!
