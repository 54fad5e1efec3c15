//! Character-level text building.
//!
//! Every display line in this crate is assembled as a `Vec<char>` so that its
//! exact contents can be stated and proved, and is turned into a `String` only
//! at the very end.  This module holds the building blocks: appending string
//! slices, repeated characters and decimal numbers, together with the spec
//! functions that describe the results.

use vstd::prelude::*;
use vstd::string::StrSliceExecFns;

verus! {

/// The decimal digit `d` (`0 <= d <= 9`) as a character.
pub open spec fn digit_char(d: int) -> char {
    ((d + 48) as u8) as char
}

/// The decimal representation of a non-negative integer, most significant
/// digit first, with no leading zeros (a lone `0` for zero).
pub open spec fn dec_str(n: int) -> Seq<char>
    decreases n,
{
    if n < 10 {
        seq![digit_char(n)]
    } else {
        dec_str(n / 10).push(digit_char(n % 10))
    }
}

/// `n` copies of the character `c`.
pub open spec fn char_repeat(c: char, n: int) -> Seq<char> {
    Seq::new(n as nat, |i: int| c)
}

/// How many positions of `s` hold the character `c`.
pub open spec fn count_char(s: Seq<char>, c: char) -> int
    decreases s.len(),
{
    if s.len() == 0 {
        0
    } else {
        count_char(s.drop_last(), c) + if s.last() == c {
            1int
        } else {
            0int
        }
    }
}

pub proof fn lemma_count_char_app(a: Seq<char>, b: Seq<char>, c: char)
    ensures
        count_char(a + b, c) == count_char(a, c) + count_char(b, c),
    decreases b.len(),
{
    if b.len() == 0 {
        assert(a + b =~= a);
    } else {
        lemma_count_char_app(a, b.drop_last(), c);
        assert((a + b).drop_last() =~= a + b.drop_last());
        assert((a + b).last() == b.last());
    }
}

pub proof fn lemma_count_char_repeat(c: char, n: int, d: char)
    requires
        0 <= n,
    ensures
        count_char(char_repeat(c, n), d) == if c == d {
            n
        } else {
            0
        },
    decreases n,
{
    if n == 0 {
    } else {
        lemma_count_char_repeat(c, n - 1, d);
        assert(char_repeat(c, n).drop_last() =~= char_repeat(c, n - 1));
    }
}

/// Replacing a position that does not hold `c` by another character that is
/// not `c` leaves the count of `c` unchanged.
pub proof fn lemma_count_char_update(s: Seq<char>, i: int, x: char, c: char)
    requires
        0 <= i < s.len(),
        s[i] != c,
        x != c,
    ensures
        count_char(s.update(i, x), c) == count_char(s, c),
    decreases s.len(),
{
    if i == s.len() - 1 {
        assert(s.update(i, x).drop_last() =~= s.drop_last());
    } else {
        lemma_count_char_update(s.drop_last(), i, x, c);
        assert(s.update(i, x).drop_last() =~= s.drop_last().update(i, x));
        assert(s.update(i, x).last() == s.last());
    }
}

/// In a sequence whose positions hold `cin` exactly on the interval
/// `[lo, hi)` and `cout` elsewhere, the count of `cin` is the interval's
/// length (and of `cout` the rest).
pub proof fn lemma_count_char_interval(s: Seq<char>, cin: char, cout: char, lo: int, hi: int)
    requires
        cin != cout,
        0 <= lo,
        lo <= hi,
        hi <= s.len(),
        forall|j: int| 0 <= j < s.len() ==> s[j] == if lo <= j < hi {
            cin
        } else {
            cout
        },
    ensures
        count_char(s, cin) == hi - lo,
        count_char(s, cout) == s.len() - (hi - lo),
    decreases s.len(),
{
    if s.len() == 0 {
    } else {
        let n = s.len() - 1;
        if hi <= n {
            lemma_count_char_interval(s.drop_last(), cin, cout, lo, hi);
        } else if lo <= n {
            // the last position is inside the interval
            lemma_count_char_interval(s.drop_last(), cin, cout, lo, n);
        } else {
            // lo == hi == s.len(): empty interval at the very end
            lemma_count_char_interval(s.drop_last(), cin, cout, n, n);
        }
    }
}

/// Appends every character of `s` to `buf`.
pub fn append_str(buf: &mut Vec<char>, s: &str)
    ensures
        final(buf)@ == old(buf)@ + s@,
{
    let n = s.unicode_len();
    let mut i: usize = 0;
    while i < n
        invariant
            n == s@.len(),
            i <= n,
            buf@ == old(buf)@ + s@.subrange(0, i as int),
        decreases n - i,
    {
        buf.push(s.get_char(i));
        proof {
            assert(old(buf)@ + s@.subrange(0, i as int) + seq![s@[i as int]] =~= old(buf)@
                + s@.subrange(0, i + 1));
        }
        i += 1;
    }
    proof {
        assert(s@.subrange(0, n as int) =~= s@);
    }
}

/// Appends every character of `s` to `buf`.
pub fn append_chars(buf: &mut Vec<char>, s: &Vec<char>)
    ensures
        final(buf)@ == old(buf)@ + s@,
{
    let n = s.len();
    let mut i: usize = 0;
    while i < n
        invariant
            n == s@.len(),
            i <= n,
            buf@ == old(buf)@ + s@.subrange(0, i as int),
        decreases n - i,
    {
        buf.push(s[i]);
        proof {
            assert(old(buf)@ + s@.subrange(0, i as int) + seq![s@[i as int]] =~= old(buf)@
                + s@.subrange(0, i + 1));
        }
        i += 1;
    }
    proof {
        assert(s@.subrange(0, n as int) =~= s@);
    }
}

/// Appends `n` copies of `c` to `buf`.
pub fn append_repeat(buf: &mut Vec<char>, c: char, n: usize)
    ensures
        final(buf)@ == old(buf)@ + char_repeat(c, n as int),
{
    let mut i: usize = 0;
    while i < n
        invariant
            i <= n,
            buf@ == old(buf)@ + char_repeat(c, i as int),
        decreases n - i,
    {
        buf.push(c);
        proof {
            assert(old(buf)@ + char_repeat(c, i as int) + seq![c] =~= old(buf)@ + char_repeat(
                c,
                i + 1,
            ));
        }
        i += 1;
    }
}

/// Appends the decimal digits of `n` to `buf`.
pub fn append_u64(buf: &mut Vec<char>, n: u64)
    ensures
        final(buf)@ == old(buf)@ + dec_str(n as int),
    decreases n,
{
    if n >= 10 {
        append_u64(buf, n / 10);
    }
    let d: u8 = (n % 10) as u8;
    buf.push((d + 48) as char);
    proof {
        if n < 10 {
            assert(old(buf)@ + seq![digit_char(n as int)] =~= old(buf)@.push(
                digit_char(n as int),
            ));
        }
    }
}

/// `a + b`, stopping at the machine's largest index.
pub open spec fn sat_add(a: int, b: int) -> int {
    if a + b > usize::MAX as int {
        usize::MAX as int
    } else {
        a + b
    }
}

/// `a - b`, stopping at zero.
pub open spec fn sat_sub(a: int, b: int) -> int {
    if a >= b {
        a - b
    } else {
        0
    }
}

/// Saturating addition on machine indices.
pub fn usize_sat_add(a: usize, b: usize) -> (r: usize)
    ensures
        r as int == sat_add(a as int, b as int),
{
    if a <= usize::MAX - b {
        a + b
    } else {
        usize::MAX
    }
}

/// Saturating subtraction on machine indices.
pub fn usize_sat_sub(a: usize, b: usize) -> (r: usize)
    ensures
        r as int == sat_sub(a as int, b as int),
{
    if a >= b {
        a - b
    } else {
        0
    }
}

/// The views of a sequence of strings.
pub open spec fn strs_model(s: Seq<String>) -> Seq<Seq<char>> {
    s.map_values(|x: String| x@)
}

/// The index of the first occurrence of `c` in `s`, or `-1` when `c` does not
/// occur.
pub open spec fn first_index(s: Seq<char>, c: char) -> int
    decreases s.len(),
{
    if s.len() == 0 {
        -1
    } else if s[0] == c {
        0
    } else {
        let t = first_index(s.drop_first(), c);
        if t < 0 {
            -1
        } else {
            t + 1
        }
    }
}

/// The index of the first occurrence of `c` in `s`, or `0` when `c` does not
/// occur.
pub open spec fn find_or_zero(s: Seq<char>, c: char) -> int {
    let t = first_index(s, c);
    if t < 0 {
        0
    } else {
        t
    }
}

proof fn lemma_first_index_is(s: Seq<char>, c: char, i: int)
    requires
        0 <= i < s.len(),
        s[i] == c,
        forall|j: int| 0 <= j < i ==> s[j] != c,
    ensures
        first_index(s, c) == i,
    decreases i,
{
    if i > 0 {
        lemma_first_index_is(s.drop_first(), c, i - 1);
    }
}

proof fn lemma_first_index_absent(s: Seq<char>, c: char)
    requires
        forall|j: int| 0 <= j < s.len() ==> s[j] != c,
    ensures
        first_index(s, c) == -1,
    decreases s.len(),
{
    if s.len() > 0 {
        lemma_first_index_absent(s.drop_first(), c);
    }
}

/// The index of the first occurrence of `c` in `v`, or `0` when `c` does not
/// occur.
pub fn find_char_or_zero(v: &Vec<char>, c: char) -> (r: usize)
    ensures
        r as int == find_or_zero(v@, c),
{
    let n = v.len();
    let mut i: usize = 0;
    while i < n
        invariant
            n == v@.len(),
            i <= n,
            forall|j: int| 0 <= j < i ==> v@[j] != c,
        decreases n - i,
    {
        if v[i] == c {
            proof {
                lemma_first_index_is(v@, c, i as int);
            }
            return i;
        }
        i += 1;
    }
    proof {
        lemma_first_index_absent(v@, c);
    }
    0
}

/// The view of an optional string.
pub open spec fn opt_view(o: Option<String>) -> Option<Seq<char>> {
    match o {
        Some(s) => Some(s@),
        None => None,
    }
}

/// The character `c` with an ASCII capital letter mapped to its small form;
/// every other character is kept.
pub open spec fn ascii_lower_char(c: char) -> char {
    if 'A' <= c <= 'Z' {
        ((c as u8) + 32) as char
    } else {
        c
    }
}

/// The text of `s` with ASCII capital letters mapped to their small forms.
pub open spec fn ascii_lower(s: Seq<char>) -> Seq<char> {
    s.map_values(|c: char| ascii_lower_char(c))
}

/// Folding a second time changes nothing: a fold's result holds no ASCII
/// capitals.
pub proof fn lemma_ascii_lower_idempotent(s: Seq<char>)
    ensures
        ascii_lower(ascii_lower(s)) == ascii_lower(s),
{
    assert(ascii_lower(ascii_lower(s)) =~= ascii_lower(s));
}

/// The characters of `s` with ASCII capital letters mapped to their small
/// forms.
pub fn ascii_lowercase(s: &str) -> (r: Vec<char>)
    ensures
        r@ == ascii_lower(s@),
{
    let n = s.unicode_len();
    let mut r: Vec<char> = Vec::new();
    let mut i: usize = 0;
    while i < n
        invariant
            n == s@.len(),
            i <= n,
            r@ == s@.subrange(0, i as int).map_values(|c: char| ascii_lower_char(c)),
        decreases n - i,
    {
        let c = s.get_char(i);
        if 'A' <= c && c <= 'Z' {
            r.push((c as u8 + 32) as char);
        } else {
            r.push(c);
        }
        proof {
            assert(s@.subrange(0, i + 1).map_values(|c: char| ascii_lower_char(c)) =~= s@.subrange(
                0,
                i as int,
            ).map_values(|c: char| ascii_lower_char(c)).push(ascii_lower_char(s@[i as int])));
        }
        i += 1;
    }
    proof {
        assert(s@.subrange(0, n as int) =~= s@);
    }
    r
}

/// Whether the characters of `v` are exactly those of `s`.
pub fn eq_chars_str(v: &Vec<char>, s: &str) -> (r: bool)
    ensures
        r == (v@ == s@),
{
    let n = s.unicode_len();
    if v.len() != n {
        proof {
            assert(v@ != s@);
        }
        return false;
    }
    let mut i: usize = 0;
    while i < n
        invariant
            n == s@.len(),
            v@.len() == n,
            i <= n,
            forall|j: int| 0 <= j < i ==> v@[j] == s@[j],
        decreases n - i,
    {
        if v[i] != s.get_char(i) {
            return false;
        }
        i += 1;
    }
    proof {
        assert(v@ =~= s@);
    }
    true
}

/// Whether two string slices hold the same characters.
pub fn str_eq(a: &str, b: &str) -> (r: bool)
    ensures
        r == (a@ == b@),
{
    let n = a.unicode_len();
    if b.unicode_len() != n {
        proof {
            assert(a@ != b@);
        }
        return false;
    }
    let mut i: usize = 0;
    while i < n
        invariant
            n == a@.len(),
            b@.len() == n,
            i <= n,
            forall|j: int| 0 <= j < i ==> a@[j] == b@[j],
        decreases n - i,
    {
        if a.get_char(i) != b.get_char(i) {
            return false;
        }
        i += 1;
    }
    proof {
        assert(a@ =~= b@);
    }
    true
}

/// The decimal representation of an integer, with a leading `-` when it is
/// negative.
pub open spec fn dec_str_i64(n: int) -> Seq<char> {
    if n >= 0 {
        dec_str(n)
    } else {
        seq!['-'] + dec_str(-n)
    }
}

/// Appends the decimal digits of `n`, sign included, to `buf`.
pub fn append_i64(buf: &mut Vec<char>, n: i64)
    ensures
        final(buf)@ == old(buf)@ + dec_str_i64(n as int),
{
    if n >= 0 {
        append_u64(buf, n as u64);
    } else {
        buf.push('-');
        // `-(n + 1)` is in range even for the smallest `i64`
        let m: u64 = (-(n + 1)) as u64 + 1;
        append_u64(buf, m);
        proof {
            assert(old(buf)@ + seq!['-'] + dec_str(m as int) =~= old(buf)@ + dec_str_i64(
                n as int,
            ));
        }
    }
}

/// Relies on `String`'s `FromIterator` implementation: collecting characters
/// yields the string of exactly those characters, in order.
#[verifier::external_body]
pub fn string_of(buf: Vec<char>) -> (r: String)
    ensures
        r@ == buf@,
{
    buf.into_iter().collect()
}

/// What `str::to_uppercase` returns; the result is a function of the
/// characters alone.
pub uninterp spec fn upper_of(s: Seq<char>) -> Seq<char>;

/// Relies on `str::to_uppercase`: the uppercased text depends only on the
/// characters of the input.
#[verifier::external_body]
pub fn uppercase(s: &str) -> (r: String)
    ensures
        r@ == upper_of(s@),
{
    s.to_uppercase()
}

} // verus!
