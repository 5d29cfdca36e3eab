//! A JSON document as the search engine returns it, and lookups on it.
//!
//! Numbers are kept as their decimal text, so that counts are read exactly.
use vstd::prelude::*;
use vstd::string::*;

verus! {

/// A JSON value.
#[derive(Debug)]
pub enum Json {
    Null,
    Bool(bool),
    /// A number, as its decimal text (`150`, `150.0`, `-3`).
    Number(String),
    Str(String),
    Array(Vec<Json>),
    /// Members in document order.
    Object(Vec<(String, Json)>),
}

/// `k` is the first member of `pairs` named `key`.
pub open spec fn is_first_key(pairs: Seq<(String, Json)>, key: Seq<char>, k: int) -> bool {
    &&& 0 <= k < pairs.len()
    &&& pairs[k].0@ == key
    &&& forall|j: int| 0 <= j < k ==> pairs[j].0@ != key
}

/// The member named `key` of an object: the first one of that name.
pub open spec fn spec_get(v: Json, key: Seq<char>) -> Option<Json> {
    match v {
        Json::Object(pairs) => if exists|k: int| is_first_key(pairs@, key, k) {
            Some(pairs@[choose|k: int| is_first_key(pairs@, key, k)].1)
        } else {
            None
        },
        _ => None,
    }
}

/// `spec_get` on an optional value.
pub open spec fn spec_field(v: Option<Json>, key: Seq<char>) -> Option<Json> {
    match v {
        Some(j) => spec_get(j, key),
        None => None,
    }
}

pub open spec fn spec_as_str(v: Option<Json>) -> Option<String> {
    match v {
        Some(Json::Str(s)) => Some(s),
        _ => None,
    }
}

pub open spec fn spec_as_array(v: Option<Json>) -> Option<Seq<Json>> {
    match v {
        Some(Json::Array(a)) => Some(a@),
        _ => None,
    }
}

pub open spec fn is_digit(c: char) -> bool {
    '0' <= c && c <= '9'
}

pub open spec fn all_digits(s: Seq<char>) -> bool {
    forall|i: int| 0 <= i < s.len() ==> is_digit(s[i])
}

/// The value of a string of decimal digits.
pub open spec fn digits_value(s: Seq<char>) -> nat
    decreases s.len(),
{
    if s.len() == 0 {
        0
    } else {
        digits_value(s.drop_last()) * 10 + (s.last() as nat - '0' as nat) as nat
    }
}

/// An unsigned integer written as plain decimal digits.
pub open spec fn spec_parse_u64(s: Seq<char>) -> Option<u64> {
    if s.len() > 0 && all_digits(s) && digits_value(s) <= u64::MAX {
        Some(digits_value(s) as u64)
    } else {
        None
    }
}

/// `s` is a run of digits followed by `.` and one or more zeros, the dot
/// at position `k`.
pub open spec fn is_zero_fraction_at(s: Seq<char>, k: int) -> bool {
    &&& 0 < k < s.len() - 1
    &&& all_digits(s.take(k))
    &&& s[k] == '.'
    &&& forall|j: int| k < j < s.len() ==> s[j] == '0'
}

/// A whole number written either as plain digits or with a zero fraction
/// (`150` or `150.0`).
pub open spec fn spec_parse_whole(s: Seq<char>) -> Option<u64> {
    if exists|k: int| is_zero_fraction_at(s, k) {
        spec_parse_u64(s.take(choose|k: int| is_zero_fraction_at(s, k)))
    } else {
        spec_parse_u64(s)
    }
}

pub open spec fn spec_as_u64(v: Option<Json>) -> Option<u64> {
    match v {
        Some(Json::Number(t)) => spec_parse_u64(t@),
        _ => None,
    }
}

pub open spec fn spec_as_whole(v: Option<Json>) -> Option<u64> {
    match v {
        Some(Json::Number(t)) => spec_parse_whole(t@),
        _ => None,
    }
}

/// Whether two strings hold the same characters.
pub fn text_eq(a: &str, b: &str) -> (r: bool)
    ensures
        r == (a@ == b@),
{
    let n: usize = a.unicode_len();
    if n != b.unicode_len() {
        return false;
    }
    let mut i: usize = 0;
    while i < n
        invariant
            n == a@.len(),
            n == b@.len(),
            i <= n,
            forall|j: int| 0 <= j < i ==> a@[j] == b@[j],
        decreases n - i,
    {
        if a.get_char(i) != b.get_char(i) {
            return false;
        }
        i = i + 1;
    }
    assert(a@ =~= b@);
    true
}

proof fn lemma_digits_step(s: Seq<char>, i: int)
    requires
        0 <= i < s.len(),
    ensures
        digits_value(s.take(i + 1)) == digits_value(s.take(i)) * 10 + (s[i] as nat - '0' as nat) as nat,
{
    assert(s.take(i + 1).drop_last() =~= s.take(i));
}

proof fn lemma_digits_monotone(s: Seq<char>, i: int, j: int)
    requires
        0 <= i <= j <= s.len(),
        all_digits(s),
    ensures
        digits_value(s.take(i)) <= digits_value(s.take(j)),
    decreases j - i,
{
    if i < j {
        lemma_digits_monotone(s, i, j - 1);
        lemma_digits_step(s, j - 1);
    }
}

/// Reads plain decimal digits as an unsigned integer.
pub fn parse_u64(s: &str) -> (r: Option<u64>)
    ensures
        r == spec_parse_u64(s@),
{
    let n: usize = s.unicode_len();
    if n == 0 {
        return None;
    }
    let mut acc: u64 = 0;
    let mut i: usize = 0;
    while i < n
        invariant
            n == s@.len(),
            i <= n,
            all_digits(s@.take(i as int)),
            acc as nat == digits_value(s@.take(i as int)),
        decreases n - i,
    {
        let c: char = s.get_char(i);
        if c < '0' || c > '9' {
            assert(!all_digits(s@));
            return None;
        }
        let d: u64 = (c as u32 - '0' as u32) as u64;
        proof {
            lemma_digits_step(s@, i as int);
        }
        if acc > (u64::MAX - d) / 10 {
            proof {
                if all_digits(s@) {
                    lemma_digits_monotone(s@, i as int + 1, n as int);
                    assert(s@.take(n as int) =~= s@);
                }
            }
            return None;
        }
        acc = acc * 10 + d;
        i = i + 1;
        assert(all_digits(s@.take(i as int)));
    }
    assert(s@.take(n as int) =~= s@);
    Some(acc)
}

/// Length of the run of digits that starts `s`.
fn digit_prefix_len(s: &str) -> (k: usize)
    ensures
        k <= s@.len(),
        all_digits(s@.take(k as int)),
        k < s@.len() ==> !is_digit(s@[k as int]),
{
    let n: usize = s.unicode_len();
    let mut k: usize = 0;
    while k < n
        invariant
            n == s@.len(),
            k <= n,
            all_digits(s@.take(k as int)),
        decreases n - k,
    {
        if !is_digit_char(s.get_char(k)) {
            return k;
        }
        k = k + 1;
        assert(all_digits(s@.take(k as int)));
    }
    k
}

/// Reads a whole number written as digits or with a zero fraction.
pub fn parse_whole(s: &str) -> (r: Option<u64>)
    ensures
        r == spec_parse_whole(s@),
{
    let n: usize = s.unicode_len();
    let k: usize = digit_prefix_len(s);
    proof {
        // the dot of a zero fraction can only stand where the digits end
        assert forall|m: int| is_zero_fraction_at(s@, m) implies m == k by {
            if m < k {
                assert(s@.take(k as int)[m] == s@[m]);
            } else if m > k {
                assert(s@.take(m)[k as int] == s@[k as int]);
            }
        }
    }
    if k == n || k == 0 || k + 1 == n || s.get_char(k) != '.' {
        assert(!is_zero_fraction_at(s@, k as int));
        assert(!exists|m: int| is_zero_fraction_at(s@, m));
        return parse_u64(s);
    }
    let mut j: usize = k + 1;
    while j < n
        invariant
            n == s@.len(),
            k < j <= n,
            s@[k as int] == '.',
            forall|m: int| is_zero_fraction_at(s@, m) ==> m == k,
            forall|t: int| k < t < j ==> s@[t] == '0',
        decreases n - j,
    {
        if s.get_char(j) != '0' {
            assert(!is_zero_fraction_at(s@, k as int)) by {
                assert(s@[j as int] != '0');
            }
            assert(!all_digits(s@)) by {
                assert(!is_digit(s@[k as int]));
            }
            return parse_u64(s);
        }
        j = j + 1;
    }
    assert(is_zero_fraction_at(s@, k as int));
    let head: &str = s.substring_char(0, k);
    assert(head@ =~= s@.take(k as int));
    parse_u64(head)
}

fn is_digit_char(c: char) -> (r: bool)
    ensures
        r == is_digit(c),
{
    '0' <= c && c <= '9'
}

proof fn lemma_first_key(pairs: Seq<(String, Json)>, key: Seq<char>, i: int)
    requires
        is_first_key(pairs, key, i),
    ensures
        exists|k: int| is_first_key(pairs, key, k),
        (choose|k: int| is_first_key(pairs, key, k)) == i,
{
    let c = choose|k: int| is_first_key(pairs, key, k);
    assert(is_first_key(pairs, key, c));
    if c < i {
        assert(pairs[c].0@ == key);
    } else if c > i {
        assert(pairs[i].0@ == key);
    }
}

impl Json {
    /// The member named `key`, when `self` is an object that has one.
    pub fn get(&self, key: &str) -> (r: Option<&Json>)
        ensures
            match r {
                Some(v) => spec_get(*self, key@) == Some(*v),
                None => spec_get(*self, key@).is_none(),
            },
    {
        match self {
            Json::Object(pairs) => {
                let mut i: usize = 0;
                while i < pairs.len()
                    invariant
                        *self == Json::Object(*pairs),
                        i <= pairs@.len(),
                        forall|j: int| 0 <= j < i ==> pairs@[j].0@ != key@,
                    decreases pairs@.len() - i,
                {
                    if text_eq(pairs[i].0.as_str(), key) {
                        proof {
                            lemma_first_key(pairs@, key@, i as int);
                            assert(self->Object_0 == *pairs);
                            assert(exists|k: int| is_first_key(pairs@, key@, k));
                            assert(spec_get(*self, key@) == Some(pairs@[i as int].1));
                        }
                        return Some(&pairs[i].1);
                    }
                    i = i + 1;
                }
                None
            },
            _ => None,
        }
    }

    pub fn as_str(&self) -> (r: Option<&String>)
        ensures
            match r {
                Some(s) => spec_as_str(Some(*self)) == Some(*s),
                None => spec_as_str(Some(*self)).is_none(),
            },
    {
        match self {
            Json::Str(s) => Some(s),
            _ => None,
        }
    }

    pub fn as_array(&self) -> (r: Option<&Vec<Json>>)
        ensures
            match r {
                Some(a) => spec_as_array(Some(*self)) == Some(a@),
                None => spec_as_array(Some(*self)).is_none(),
            },
    {
        match self {
            Json::Array(a) => Some(a),
            _ => None,
        }
    }

    /// The value of a number written as plain digits.
    pub fn as_u64(&self) -> (r: Option<u64>)
        ensures
            r == spec_as_u64(Some(*self)),
    {
        match self {
            Json::Number(t) => parse_u64(t.as_str()),
            _ => None,
        }
    }

    /// The value of a whole number, with or without a zero fraction.
    pub fn as_whole(&self) -> (r: Option<u64>)
        ensures
            r == spec_as_whole(Some(*self)),
    {
        match self {
            Json::Number(t) => parse_whole(t.as_str()),
            _ => None,
        }
    }
}

} // verus!
