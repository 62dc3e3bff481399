//! Decoding of the catalog's video durations, written in the ISO-8601 subset
//! `PT[<h>H][<m>M][<s>S]`. Each unit is located by its first occurrence and the
//! text before it must be a decimal number as Rust's `u64` parser reads it (an
//! optional `+`, then at least one digit); whatever follows the seconds is
//! ignored. Longer designators (days, weeks) are not supported.
use vstd::prelude::*;

verus! {

/// Why a duration could not be decoded.
#[derive(Clone, Copy, Debug, PartialEq, Eq, Structural)]
pub enum DurationError {
    /// The text does not start with `PT`.
    MissingPrefix,
    /// The text before a unit designator is not a decimal number.
    InvalidNumber,
    /// The total number of seconds does not fit in a `u64`.
    Overflow,
}

pub open spec fn is_digit(c: char) -> bool {
    '0' <= c <= '9'
}

pub open spec fn digit_value(c: char) -> nat {
    (c as nat - '0' as nat) as nat
}

/// Value of a string of decimal digits.
pub open spec fn digits_value(s: Seq<char>) -> nat
    decreases s.len(),
{
    if s.len() == 0 {
        0
    } else {
        digits_value(s.drop_last()) * 10 + digit_value(s.last())
    }
}

/// The digits of a number: the text without its optional leading `+`.
pub open spec fn unsigned_digits(s: Seq<char>) -> Seq<char> {
    if s.len() > 0 && s[0] == '+' {
        s.drop_first()
    } else {
        s
    }
}

/// What Rust's `u64` parser makes of `s`.
pub open spec fn parse_u64_spec(s: Seq<char>) -> Option<u64> {
    let d = unsigned_digits(s);
    if d.len() > 0 && (forall|i: int| 0 <= i < d.len() ==> is_digit(#[trigger] d[i]))
        && digits_value(d) <= u64::MAX {
        Some(digits_value(d) as u64)
    } else {
        None
    }
}

/// `k` is the position of the first `c` in `s`.
pub open spec fn first_at(s: Seq<char>, c: char, k: int) -> bool {
    &&& 0 <= k < s.len()
    &&& s[k] == c
    &&& forall|j: int| 0 <= j < k ==> s[j] != c
}

/// The seconds contributed by the component with designator `unit` (worth
/// `scale` seconds) at the front of `s`, and the text after it; no seconds and
/// `s` itself when `unit` does not occur.
pub open spec fn component_spec(s: Seq<char>, unit: char, scale: nat) -> Result<(nat, Seq<char>), DurationError> {
    if exists|k: int| first_at(s, unit, k) {
        let k = choose|k: int| first_at(s, unit, k);
        match parse_u64_spec(s.take(k)) {
            Some(n) => Ok(((n * scale) as nat, s.skip(k + 1))),
            None => Err(DurationError::InvalidNumber),
        }
    } else {
        Ok((0, s))
    }
}

/// The number of seconds that `s` denotes.
pub open spec fn duration_spec(s: Seq<char>) -> Result<u64, DurationError> {
    if !(s.len() >= 2 && s[0] == 'P' && s[1] == 'T') {
        Err(DurationError::MissingPrefix)
    } else {
        match component_spec(s.skip(2), 'H', 3600) {
            Err(e) => Err(e),
            Ok((h, r1)) => match component_spec(r1, 'M', 60) {
                Err(e) => Err(e),
                Ok((m, r2)) => match component_spec(r2, 'S', 1) {
                    Err(e) => Err(e),
                    Ok((sec, _r3)) => if h + m + sec <= u64::MAX {
                        Ok((h + m + sec) as u64)
                    } else {
                        Err(DurationError::Overflow)
                    },
                },
            },
        }
    }
}

proof fn lemma_digits_prefix(s: Seq<char>, i: int)
    requires
        0 <= i <= s.len(),
    ensures
        digits_value(s.take(i)) <= digits_value(s),
    decreases s.len(),
{
    if i < s.len() {
        assert(s.drop_last().take(i) =~= s.take(i));
        lemma_digits_prefix(s.drop_last(), i);
    } else {
        assert(s.take(i) =~= s);
    }
}

fn chars_of(s: &str) -> (r: Vec<char>)
    ensures
        r@ == s@,
{
    let n = s.unicode_len();
    let mut r: Vec<char> = Vec::new();
    let mut i: usize = 0;
    while i < n
        invariant
            n == s@.len(),
            i <= n,
            r@ == s@.take(i as int),
        decreases n - i,
    {
        r.push(s.get_char(i));
        i = i + 1;
        assert(r@ =~= s@.take(i as int));
    }
    assert(s@.take(n as int) =~= s@);
    r
}

/// The first `c` at or after `lo`.
fn find_from(v: &Vec<char>, lo: usize, c: char) -> (r: Option<usize>)
    requires
        lo <= v@.len(),
    ensures
        match r {
            Some(k) => lo <= k < v@.len() && first_at(v@.subrange(lo as int, v@.len() as int), c, k - lo),
            None => !exists|k: int| first_at(v@.subrange(lo as int, v@.len() as int), c, k),
        },
{
    let ghost s = v@.subrange(lo as int, v@.len() as int);
    let mut i: usize = lo;
    while i < v.len()
        invariant
            lo <= i <= v@.len(),
            s == v@.subrange(lo as int, v@.len() as int),
            forall|j: int| 0 <= j < i - lo ==> s[j] != c,
        decreases v@.len() - i,
    {
        if v[i] == c {
            assert(first_at(s, c, i - lo));
            return Some(i);
        }
        i = i + 1;
    }
    assert forall|k: int| !first_at(s, c, k) by {
        if 0 <= k < s.len() {
            assert(s[k] != c);
        }
    }
    None
}

/// Reads `v[lo..hi]` as Rust's `u64` parser does.
fn parse_u64_range(v: &Vec<char>, lo: usize, hi: usize) -> (r: Option<u64>)
    requires
        lo <= hi <= v@.len(),
    ensures
        r == parse_u64_spec(v@.subrange(lo as int, hi as int)),
{
    let ghost s = v@.subrange(lo as int, hi as int);
    let start: usize = if lo < hi && v[lo] == '+' { lo + 1 } else { lo };
    let ghost d = v@.subrange(start as int, hi as int);
    assert(d =~= unsigned_digits(s));
    if start == hi {
        return None;
    }
    let mut val: u128 = 0;
    let mut i: usize = start;
    while i < hi
        invariant
            start <= i <= hi <= v@.len(),
            d == v@.subrange(start as int, hi as int),
            s == v@.subrange(lo as int, hi as int),
            d == unsigned_digits(s),
            forall|j: int| 0 <= j < i - start ==> is_digit(#[trigger] d[j]),
            val == digits_value(d.take(i - start)),
            val <= u64::MAX,
        decreases hi - i,
    {
        let c = v[i];
        assert(d[i - start] == c);
        if !('0' <= c && c <= '9') {
            assert(!is_digit(d[i - start]));
            return None;
        }
        let dv = (c as u32 - '0' as u32) as u128;
        let ghost prev = d.take(i - start);
        let ghost next = d.take(i - start + 1);
        assert(next.drop_last() =~= prev);
        assert(next.last() == c);
        assert(digits_value(next) == digits_value(prev) * 10 + digit_value(c));
        val = val * 10 + dv;
        i = i + 1;
        assert(val == digits_value(d.take(i - start)));
        if val > u64::MAX as u128 {
            proof {
                if forall|j: int| 0 <= j < d.len() ==> is_digit(#[trigger] d[j]) {
                    lemma_digits_prefix(d, i - start);
                }
            }
            return None;
        }
    }
    assert(d.take(hi - start) =~= d);
    Some(val as u64)
}

/// The component with designator `unit` at the front of `v[lo..]`: its value
/// in seconds and the position after it.
fn component(v: &Vec<char>, lo: usize, unit: char, scale: u128) -> (r: Result<(u128, usize), DurationError>)
    requires
        lo <= v@.len(),
        scale <= 3600,
    ensures
        match r {
            Ok((secs, next)) => {
                &&& lo <= next <= v@.len()
                &&& secs <= u64::MAX * 3600
                &&& component_spec(v@.subrange(lo as int, v@.len() as int), unit, scale as nat)
                    == Ok::<(nat, Seq<char>), DurationError>((secs as nat, v@.subrange(next as int, v@.len() as int)))
            },
            Err(e) => component_spec(v@.subrange(lo as int, v@.len() as int), unit, scale as nat)
                == Err::<(nat, Seq<char>), DurationError>(e),
        },
{
    let ghost s = v@.subrange(lo as int, v@.len() as int);
    // a vector's length fits in a usize
    let _len = v.len();
    match find_from(v, lo, unit) {
        None => {
            Ok((0, lo))
        },
        Some(k) => {
            proof {
                let kk = choose|kk: int| first_at(s, unit, kk);
                assert(kk == k - lo) by {
                    if kk < k - lo {
                        assert(s[kk] != unit);
                    } else if kk > k - lo {
                        assert(s[k - lo] != unit);
                    }
                }
                assert(s.take(k - lo) =~= v@.subrange(lo as int, k as int));
                assert(s.skip(k - lo + 1) =~= v@.subrange(k + 1, v@.len() as int));
            }
            match parse_u64_range(v, lo, k) {
                None => Err(DurationError::InvalidNumber),
                Some(n) => {
                    assert((n as u128) * scale <= u64::MAX * 3600) by (nonlinear_arith)
                        requires
                            n <= u64::MAX,
                            scale <= 3600,
                    ;
                    Ok(((n as u128) * scale, k + 1))
                },
            }
        },
    }
}

/// The number of seconds denoted by a duration of the form
/// `PT[<h>H][<m>M][<s>S]`.
pub fn parse_content_details_duration(text: &str) -> (r: Result<u64, DurationError>)
    ensures
        r == duration_spec(text@),
{
    let v = chars_of(text);
    let n = v.len();
    if !(n >= 2 && v[0] == 'P' && v[1] == 'T') {
        return Err(DurationError::MissingPrefix);
    }
    assert(text@.skip(2) =~= v@.subrange(2, n as int));
    let (h, lo) = match component(&v, 2, 'H', 3600) {
        Ok(x) => x,
        Err(e) => return Err(e),
    };
    let (m, lo) = match component(&v, lo, 'M', 60) {
        Ok(x) => x,
        Err(e) => return Err(e),
    };
    let (sec, _lo) = match component(&v, lo, 'S', 1) {
        Ok(x) => x,
        Err(e) => return Err(e),
    };
    let total = h + m + sec;
    if total <= u64::MAX as u128 {
        Ok(total as u64)
    } else {
        Err(DurationError::Overflow)
    }
}

} // verus!
