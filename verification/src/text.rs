//! Verified text utilities shared by the provisioning pipeline:
//! whitespace trimming, substring search, and related predicates.

use vstd::prelude::*;
use vstd::string::*;

verus! {

/// The whitespace characters recognized by the trimming routines.
pub open spec fn is_space_char(c: char) -> bool {
    c == ' ' || c == '\n' || c == '\t' || c == '\r'
}

/// A sequence with leading and trailing whitespace removed.
pub open spec fn spec_trim(s: Seq<char>) -> Seq<char>
    decreases s.len(),
{
    if s.len() == 0 {
        s
    } else if is_space_char(s[0]) {
        spec_trim(s.drop_first())
    } else if is_space_char(s.last()) {
        spec_trim(s.drop_last())
    } else {
        s
    }
}

/// Removes leading and trailing whitespace from a string slice.
pub fn trim_str(s: &str) -> (r: &str)
    ensures
        r@ == spec_trim(s@),
    decreases s@.len(),
{
    let n = s.unicode_len();
    if n == 0 {
        s
    } else {
        let first = s.get_char(0);
        if first == ' ' || first == '\n' || first == '\t' || first == '\r' {
            let rest = s.substring_char(1, n);
            assert(rest@ =~= s@.drop_first());
            trim_str(rest)
        } else {
            let last = s.get_char(n - 1);
            if last == ' ' || last == '\n' || last == '\t' || last == '\r' {
                let rest = s.substring_char(0, n - 1);
                assert(rest@ =~= s@.drop_last());
                trim_str(rest)
            } else {
                s
            }
        }
    }
}

/// `sub` occurs in `s` starting at position `i`.
pub open spec fn is_substring_at(s: Seq<char>, sub: Seq<char>, i: int) -> bool {
    &&& 0 <= i
    &&& i + sub.len() <= s.len()
    &&& s.subrange(i, i + sub.len() as int) == sub
}

/// `sub` occurs somewhere in `s`.
pub open spec fn contains_seq(s: Seq<char>, sub: Seq<char>) -> bool {
    exists|i: int| is_substring_at(s, sub, i)
}

fn matches_at(s: &str, sub: &str, i: usize) -> (r: bool)
    requires
        i + sub@.len() <= s@.len(),
    ensures
        r == is_substring_at(s@, sub@, i as int),
{
    let n = s.unicode_len();
    let m = sub.unicode_len();
    let mut j: usize = 0;
    while j < m
        invariant
            n == s@.len(),
            m == sub@.len(),
            i + m <= n,
            j <= m,
            forall|k: int| 0 <= k < j ==> s@[i + k] == sub@[k],
        decreases m - j,
    {
        if s.get_char(i + j) != sub.get_char(j) {
            assert(!is_substring_at(s@, sub@, i as int)) by {
                if is_substring_at(s@, sub@, i as int) {
                    assert(s@.subrange(i as int, i + m as int)[j as int] == sub@[j as int]);
                }
            }
            return false;
        }
        j += 1;
    }
    assert(s@.subrange(i as int, i + m as int) =~= sub@);
    true
}

/// Whether `sub` occurs as a contiguous substring of `s`.
pub fn str_contains(s: &str, sub: &str) -> (r: bool)
    ensures
        r == contains_seq(s@, sub@),
{
    let n = s.unicode_len();
    let m = sub.unicode_len();
    if m > n {
        return false;
    }
    if m == 0 {
        assert(is_substring_at(s@, sub@, 0)) by {
            assert(s@.subrange(0, 0) =~= sub@);
        }
        return true;
    }
    let mut i: usize = 0;
    while i <= n - m
        invariant
            n == s@.len(),
            m == sub@.len(),
            1 <= m <= n,
            i <= n - m + 1,
            forall|k: int| 0 <= k < i ==> !is_substring_at(s@, sub@, k),
        decreases n - m - i + 1,
    {
        if matches_at(s, sub, i) {
            return true;
        }
        i += 1;
    }
    assert(forall|k: int| is_substring_at(s@, sub@, k) ==> 0 <= k && k + m <= n && k < i);
    false
}

/// Whether two string slices hold the same characters.
pub fn str_eq(a: &str, b: &str) -> (r: bool)
    ensures
        r == (a@ == b@),
{
    let n = a.unicode_len();
    let m = b.unicode_len();
    if n != m {
        return false;
    }
    let mut i: usize = 0;
    while i < n
        invariant
            n == a@.len(),
            n == b@.len(),
            i <= n,
            forall|k: int| 0 <= k < i ==> a@[k] == b@[k],
        decreases n - i,
    {
        if a.get_char(i) != b.get_char(i) {
            return false;
        }
        i += 1;
    }
    assert(a@ =~= b@);
    true
}

/// `s` ends with `suffix`.
pub open spec fn ends_with_seq(s: Seq<char>, suffix: Seq<char>) -> bool {
    suffix.len() <= s.len() && s.subrange(s.len() - suffix.len(), s.len() as int) == suffix
}

/// Whether `s` ends with `suffix`.
pub fn str_ends_with(s: &str, suffix: &str) -> (r: bool)
    ensures
        r == ends_with_seq(s@, suffix@),
{
    let n = s.unicode_len();
    let m = suffix.unicode_len();
    if m > n {
        return false;
    }
    matches_at(s, suffix, n - m)
}

/// The first maximal run of non-whitespace characters, after skipping
/// leading whitespace; empty when `s` holds only whitespace.
pub open spec fn first_word_spec(s: Seq<char>) -> Seq<char>
    decreases s.len(),
{
    if s.len() == 0 {
        s
    } else if is_space_char(s[0]) {
        first_word_spec(s.drop_first())
    } else {
        word_prefix(s)
    }
}

/// The prefix of `s` up to (excluding) the first whitespace character.
pub open spec fn word_prefix(s: Seq<char>) -> Seq<char>
    decreases s.len(),
{
    if s.len() == 0 {
        s
    } else if is_space_char(s[0]) {
        Seq::empty()
    } else {
        seq![s[0]] + word_prefix(s.drop_first())
    }
}

fn word_prefix_exec(s: &str) -> (r: &str)
    ensures
        r@ == word_prefix(s@),
{
    let n = s.unicode_len();
    let mut i: usize = 0;
    while i < n && !is_space_exec(s.get_char(i))
        invariant
            n == s@.len(),
            i <= n,
            forall|k: int| 0 <= k < i ==> !is_space_char(s@[k]),
        decreases n - i,
    {
        i += 1;
    }
    let r = s.substring_char(0, i);
    proof {
        lemma_word_prefix_cut(s@, i as int);
    }
    r
}

proof fn lemma_word_prefix_cut(s: Seq<char>, i: int)
    requires
        0 <= i <= s.len(),
        forall|k: int| 0 <= k < i ==> !is_space_char(s[k]),
        i < s.len() ==> is_space_char(s[i]),
    ensures
        word_prefix(s) == s.subrange(0, i),
    decreases s.len(),
{
    if s.len() == 0 {
        assert(word_prefix(s) =~= s.subrange(0, i));
    } else if i == 0 {
        assert(s.subrange(0, 0) =~= Seq::<char>::empty());
    } else {
        lemma_word_prefix_cut(s.drop_first(), i - 1);
        assert(s.drop_first().subrange(0, i - 1) =~= s.subrange(1, i));
        assert(word_prefix(s) == seq![s[0]] + s.subrange(1, i));
        assert(seq![s[0]] + s.subrange(1, i) =~= s.subrange(0, i));
    }
}

fn is_space_exec(c: char) -> (r: bool)
    ensures
        r == is_space_char(c),
{
    c == ' ' || c == '\n' || c == '\t' || c == '\r'
}

/// The first whitespace-delimited word of `s`, or `None` when `s`
/// holds no non-whitespace character.
pub fn first_word(s: &str) -> (r: Option<&str>)
    ensures
        match r {
            Some(w) => w@ == first_word_spec(s@) && w@.len() > 0,
            None => first_word_spec(s@).len() == 0,
        },
    decreases s@.len(),
{
    let n = s.unicode_len();
    if n == 0 {
        return None;
    }
    let c = s.get_char(0);
    if is_space_exec(c) {
        let rest = s.substring_char(1, n);
        assert(rest@ =~= s@.drop_first());
        first_word(rest)
    } else {
        let w = word_prefix_exec(s);
        assert(w@.len() > 0) by {
            assert(word_prefix(s@) == seq![s@[0]] + word_prefix(s@.drop_first()));
        }
        Some(w)
    }
}

/// Index of the first occurrence of `c` in `s`, or `-1` when absent.
pub open spec fn first_index(s: Seq<char>, c: char) -> int
    decreases s.len(),
{
    if s.len() == 0 {
        -1
    } else if s[0] == c {
        0
    } else {
        let r = first_index(s.drop_first(), c);
        if r < 0 {
            -1
        } else {
            r + 1
        }
    }
}

pub proof fn lemma_first_index(s: Seq<char>, c: char)
    ensures
        first_index(s, c) == -1 ==> forall|k: int| 0 <= k < s.len() ==> s[k] != c,
        first_index(s, c) >= 0 ==> {
            &&& first_index(s, c) < s.len()
            &&& s[first_index(s, c)] == c
            &&& forall|k: int| 0 <= k < first_index(s, c) ==> s[k] != c
        },
    decreases s.len(),
{
    if s.len() == 0 {
    } else if s[0] == c {
    } else {
        lemma_first_index(s.drop_first(), c);
        let r = first_index(s.drop_first(), c);
        if r < 0 {
            assert forall|k: int| 0 <= k < s.len() implies s[k] != c by {
                if k > 0 {
                    assert(s.drop_first()[k - 1] != c);
                }
            }
        } else {
            assert(s[first_index(s, c)] == s.drop_first()[r]);
            assert forall|k: int| 0 <= k < first_index(s, c) implies s[k] != c by {
                if k > 0 {
                    assert(s.drop_first()[k - 1] != c);
                }
            }
        }
    }
}

/// Position of the first occurrence of `c` in `s`.
pub fn find_char(s: &str, c: char) -> (r: Option<usize>)
    ensures
        match r {
            Some(i) => first_index(s@, c) == i as int,
            None => first_index(s@, c) == -1,
        },
    decreases s@.len(),
{
    let n = s.unicode_len();
    if n == 0 {
        return None;
    }
    if s.get_char(0) == c {
        return Some(0);
    }
    let rest = s.substring_char(1, n);
    assert(rest@ =~= s@.drop_first());
    match find_char(rest, c) {
        Some(i) => {
            proof {
                lemma_first_index(rest@, c);
            }
            Some(i + 1)
        },
        None => None,
    }
}

/// The segments of `s` separated by `sep`; always at least one segment.
pub open spec fn spec_split(s: Seq<char>, sep: char) -> Seq<Seq<char>>
    decreases s.len(),
{
    let i = first_index(s, sep);
    if 0 <= i < s.len() {
        seq![s.subrange(0, i)] + spec_split(s.subrange(i + 1, s.len() as int), sep)
    } else {
        seq![s]
    }
}

/// What `str::to_lowercase` returns; a function of the characters alone.
pub uninterp spec fn lower_of(s: Seq<char>) -> Seq<char>;

/// Every character is in the ASCII range.
pub open spec fn is_ascii_seq(s: Seq<char>) -> bool {
    forall|i: int| 0 <= i < s.len() ==> (s[i] as u32) < 128
}

/// ASCII lowercase of one character.
pub open spec fn lower_char(c: char) -> char {
    if 'A' <= c && c <= 'Z' {
        (((c as u32) + 32) as char)
    } else {
        c
    }
}

/// ASCII lowercase of a character sequence.
pub open spec fn ascii_lower(s: Seq<char>) -> Seq<char> {
    s.map_values(|c: char| lower_char(c))
}

/// ASCII uppercase of one character.
pub open spec fn upper_char(c: char) -> char {
    if 'a' <= c && c <= 'z' {
        (((c as u32) - 32) as char)
    } else {
        c
    }
}

/// Relies on `str::to_lowercase`: the result is a function of the input
/// characters alone; on ASCII input it maps the letters 'A'..='Z' to
/// 'a'..='z' and leaves every other character unchanged.
#[verifier::external_body]
pub fn lowercase(s: &str) -> (r: String)
    ensures
        r@ == lower_of(s@),
        is_ascii_seq(s@) ==> r@ == ascii_lower(s@),
{
    s.to_lowercase()
}

/// Uppercases an ASCII letter; other characters pass through.
pub fn upper_char_exec(c: char) -> (r: char)
    ensures
        r == upper_char(c),
{
    if c >= 'a' && c <= 'z' {
        let i = ((c as u32) - 97) as usize;
        proof {
            reveal_strlit("ABCDEFGHIJKLMNOPQRSTUVWXYZ");
        }
        "ABCDEFGHIJKLMNOPQRSTUVWXYZ".get_char(i)
    } else {
        c
    }
}

/// The decimal digit with value `d`.
pub open spec fn digit_char(d: int) -> char {
    ((48 + d) as u32) as char
}

/// The decimal notation of `n`, most significant digit first.
pub open spec fn spec_dec(n: nat) -> Seq<char>
    decreases n,
{
    if n < 10 {
        seq![digit_char(n as int)]
    } else {
        spec_dec(n / 10) + seq![digit_char((n % 10) as int)]
    }
}

fn dec_digit(d: u64) -> (r: &'static str)
    requires
        d < 10,
    ensures
        r@ == seq![digit_char(d as int)],
{
    proof {
        reveal_strlit("0");
        reveal_strlit("1");
        reveal_strlit("2");
        reveal_strlit("3");
        reveal_strlit("4");
        reveal_strlit("5");
        reveal_strlit("6");
        reveal_strlit("7");
        reveal_strlit("8");
        reveal_strlit("9");
    }
    let r = if d == 0 {
        "0"
    } else if d == 1 {
        "1"
    } else if d == 2 {
        "2"
    } else if d == 3 {
        "3"
    } else if d == 4 {
        "4"
    } else if d == 5 {
        "5"
    } else if d == 6 {
        "6"
    } else if d == 7 {
        "7"
    } else if d == 8 {
        "8"
    } else {
        "9"
    };
    assert(r@ =~= seq![digit_char(d as int)]);
    r
}

/// Formats `n` in decimal.
pub fn u64_to_dec(n: u64) -> (r: String)
    ensures
        r@ == spec_dec(n as nat),
    decreases n,
{
    if n < 10 {
        String::from_str(dec_digit(n))
    } else {
        let pre = u64_to_dec(n / 10);
        pre.concat(dec_digit(n % 10))
    }
}

/// `c` is a decimal digit.
pub open spec fn is_digit_char(c: char) -> bool {
    '0' <= c && c <= '9'
}

/// Numeric value of a digit character.
pub open spec fn digit_val(c: char) -> int {
    (c as u32) - 48
}

/// Non-empty and made of decimal digits only.
pub open spec fn all_digits(s: Seq<char>) -> bool {
    s.len() > 0 && forall|i: int| 0 <= i < s.len() ==> is_digit_char(s[i])
}

/// The value of a digit string, most significant digit first.
pub open spec fn dec_value(s: Seq<char>) -> int
    decreases s.len(),
{
    if s.len() == 0 {
        0
    } else {
        dec_value(s.drop_last()) * 10 + digit_val(s.last())
    }
}

/// How `str::parse` reads an unsigned integer: an optional leading `+`,
/// then decimal digits; `None` when malformed or above `max`.
pub open spec fn spec_parse_dec(s: Seq<char>, max: int) -> Option<int> {
    let body = if s.len() > 0 && s[0] == '+' {
        s.drop_first()
    } else {
        s
    };
    if all_digits(body) && dec_value(body) <= max {
        Some(dec_value(body))
    } else {
        None
    }
}

proof fn lemma_dec_value_nonneg(s: Seq<char>)
    requires
        forall|i: int| 0 <= i < s.len() ==> is_digit_char(s[i]),
    ensures
        dec_value(s) >= 0,
    decreases s.len(),
{
    if s.len() > 0 {
        lemma_dec_value_nonneg(s.drop_last());
    }
}

proof fn lemma_dec_value_monotone(s: Seq<char>, i: int)
    requires
        forall|k: int| 0 <= k < s.len() ==> is_digit_char(s[k]),
        0 <= i <= s.len(),
    ensures
        dec_value(s) >= dec_value(s.take(i)),
    decreases s.len(),
{
    if i < s.len() && s.len() > 0 {
        assert(s.drop_last().take(i) =~= s.take(i));
        lemma_dec_value_monotone(s.drop_last(), i);
        lemma_dec_value_nonneg(s.drop_last());
    } else {
        assert(s.take(i) =~= s);
    }
}

/// Parses a decimal integer no greater than `max`, accepting an
/// optional leading `+` as `str::parse` does.
pub fn parse_dec(s: &str, max: u64) -> (r: Option<u64>)
    ensures
        match r {
            Some(v) => spec_parse_dec(s@, max as int) == Some(v as int),
            None => spec_parse_dec(s@, max as int) is None,
        },
{
    let n = s.unicode_len();
    let start: usize = if n > 0 && s.get_char(0) == '+' {
        1
    } else {
        0
    };
    let ghost body = if s@.len() > 0 && s@[0] == '+' {
        s@.drop_first()
    } else {
        s@
    };
    assert(body =~= s@.subrange(start as int, n as int));
    if start == n {
        return None;
    }
    let mut acc: u64 = 0;
    let mut i: usize = start;
    while i < n
        invariant
            n == s@.len(),
            start <= i <= n,
            start < n,
            max <= u64::MAX,
            start == if s@.len() > 0 && s@[0] == '+' {
                1int
            } else {
                0int
            },
            body == if s@.len() > 0 && s@[0] == '+' {
                s@.drop_first()
            } else {
                s@
            },
            body == s@.subrange(start as int, n as int),
            forall|k: int| start <= k < i ==> is_digit_char(s@[k]),
            acc <= max,
            acc as int == dec_value(body.take(i - start)),
        decreases n - i,
    {
        let c = s.get_char(i);
        if !(c >= '0' && c <= '9') {
            assert(!all_digits(body)) by {
                assert(body[i - start] == s@[i as int]);
            }
            return None;
        }
        let d = (c as u32 - 48) as u64;
        proof {
            assert(body.take(i + 1 - start).drop_last() =~= body.take(i - start));
            assert(body.take(i + 1 - start).last() == s@[i as int]);
        }
        if acc > max / 10 || (acc == max / 10 && d > max % 10) {
            // the value read so far already exceeds max
            assert(acc * 10 + d > max) by (nonlinear_arith)
                requires
                    acc <= max,
                    d < 10,
                    acc > max / 10 || (acc == max / 10 && d > max % 10),
            ;
            proof {
                if all_digits(body) {
                    lemma_dec_value_monotone(body, i + 1 - start);
                    assert(dec_value(body) > max);
                }
            }
            return None;
        }
        assert(acc * 10 + d <= max) by (nonlinear_arith)
            requires
                d < 10,
                acc <= max / 10,
                acc < max / 10 || d <= max % 10,
        ;
        acc = acc * 10 + d;
        i += 1;
    }
    assert(body.take(n - start) =~= body);
    assert(all_digits(body));
    Some(acc)
}

/// Splits `s` at every occurrence of `sep`.
pub fn split_char(s: &str, sep: char) -> (r: Vec<String>)
    ensures
        r.deep_view() == spec_split(s@, sep),
        r.len() >= 1,
    decreases s@.len(),
{
    let n = s.unicode_len();
    match find_char(s, sep) {
        None => {
            let mut out: Vec<String> = Vec::new();
            out.push(String::from_str(s));
            proof {
                assert(out.deep_view() =~= seq![s@]);
            }
            out
        },
        Some(i) => {
            proof {
                lemma_first_index(s@, sep);
            }
            let head = s.substring_char(0, i);
            let tail = s.substring_char(i + 1, n);
            let mut out = split_char(tail, sep);
            out.insert(0, String::from_str(head));
            proof {
                assert(out.deep_view() =~= seq![s@.subrange(0, i as int)] + spec_split(
                    s@.subrange(i + 1, s@.len() as int),
                    sep,
                ));
            }
            out
        },
    }
}

} // verus!
