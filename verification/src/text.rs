//! Character-level text primitives: finding characters forwards and
//! backwards, locating non-whitespace, trimming, and comparing strings.
//! The spec functions model text as `Seq<char>`; each executable helper
//! is proved equal to its model.

use vstd::prelude::*;

verus! {

/// The whitespace characters that trimming removes.
pub open spec fn is_space(c: char) -> bool {
    c == ' ' || c == '\t' || c == '\n' || c == '\r'
}

/// Index of the first occurrence of `c` at or after `from`, or `s.len()`
/// if there is none.
pub open spec fn find_at(s: Seq<char>, from: int, c: char) -> int
    recommends
        0 <= from <= s.len(),
    decreases s.len() - from,
{
    if from < 0 || from >= s.len() {
        s.len() as int
    } else if s[from] == c {
        from
    } else {
        find_at(s, from + 1, c)
    }
}

/// Index of the last occurrence of `c` at or before `from`, or `-1`
/// if there is none.
pub open spec fn find_before(s: Seq<char>, from: int, c: char) -> int
    recommends
        from < s.len(),
    decreases from + 1,
{
    if from < 0 || from >= s.len() {
        -1
    } else if s[from] == c {
        from
    } else {
        find_before(s, from - 1, c)
    }
}

/// Index of the first non-whitespace character at or after `from`, or
/// `s.len()` if the rest is all whitespace.
pub open spec fn non_space_at(s: Seq<char>, from: int) -> int
    recommends
        0 <= from <= s.len(),
    decreases s.len() - from,
{
    if from < 0 || from >= s.len() {
        s.len() as int
    } else if !is_space(s[from]) {
        from
    } else {
        non_space_at(s, from + 1)
    }
}

/// Index of the last non-whitespace character at or before `from`, or
/// `-1` if there is none.
pub open spec fn non_space_before(s: Seq<char>, from: int) -> int
    recommends
        from < s.len(),
    decreases from + 1,
{
    if from < 0 || from >= s.len() {
        -1
    } else if !is_space(s[from]) {
        from
    } else {
        non_space_before(s, from - 1)
    }
}

/// The text with leading and trailing whitespace removed.
pub open spec fn trim_spec(s: Seq<char>) -> Seq<char> {
    let a = non_space_at(s, 0);
    let b = non_space_before(s, s.len() - 1) + 1;
    if a < b {
        s.subrange(a, b)
    } else {
        Seq::empty()
    }
}

/// A decimal digit.
pub open spec fn is_digit(c: char) -> bool {
    48 <= c as u32 <= 57
}

/// The numeric value of a digit character.
pub open spec fn digit_val(c: char) -> int {
    c as u32 - 48
}

/// The value of a string of decimal digits, most significant first.
pub open spec fn digits_val(s: Seq<char>) -> int
    decreases s.len(),
{
    if s.len() == 0 {
        0
    } else {
        digits_val(s.drop_last()) * 10 + digit_val(s.last())
    }
}

/// Every character of the text is a decimal digit.
pub open spec fn all_digits(s: Seq<char>) -> bool {
    forall|i: int| 0 <= i < s.len() ==> is_digit(s[i])
}

/// The number a text denotes: defined exactly when the text is a
/// non-empty run of digits whose value fits in a `u32`.
pub open spec fn parse_u32_spec(s: Seq<char>) -> Option<u32> {
    if s.len() > 0 && all_digits(s) && digits_val(s) <= u32::MAX {
        Some(digits_val(s) as u32)
    } else {
        None
    }
}

/// Index of the first occurrence of `c` in `s` at or after `from`, or
/// the character count of `s` if there is none.
pub fn find_char(s: &str, from: usize, c: char) -> (r: usize)
    requires
        from <= s@.len(),
    ensures
        r == find_at(s@, from as int, c),
        from <= r <= s@.len(),
{
    let n = s.unicode_len();
    let mut i = from;
    while i < n
        invariant
            from <= i <= n,
            n == s@.len(),
            find_at(s@, from as int, c) == find_at(s@, i as int, c),
        decreases n - i,
    {
        if s.get_char(i) == c {
            return i;
        }
        i += 1;
    }
    n
}

/// Index of the last occurrence of `c` in `s` strictly before `end`,
/// or `None` if there is none.
pub fn rfind_char(s: &str, end: usize, c: char) -> (r: Option<usize>)
    requires
        end <= s@.len(),
    ensures
        match r {
            Some(j) => j == find_before(s@, end as int - 1, c) && j < end,
            None => find_before(s@, end as int - 1, c) == -1,
        },
{
    let mut i = end;
    while i > 0
        invariant
            i <= end <= s@.len(),
            find_before(s@, end as int - 1, c) == find_before(s@, i as int - 1, c),
        decreases i,
    {
        i -= 1;
        if s.get_char(i) == c {
            return Some(i);
        }
    }
    None
}

/// The index of the first non-whitespace character at or after `from`.
fn skip_spaces(s: &str, from: usize) -> (r: usize)
    requires
        from <= s@.len(),
    ensures
        r == non_space_at(s@, from as int),
        from <= r <= s@.len(),
{
    let n = s.unicode_len();
    let mut i = from;
    while i < n
        invariant
            from <= i <= n,
            n == s@.len(),
            non_space_at(s@, from as int) == non_space_at(s@, i as int),
        decreases n - i,
    {
        let c = s.get_char(i);
        if !(c == ' ' || c == '\t' || c == '\n' || c == '\r') {
            return i;
        }
        i += 1;
    }
    n
}

/// The index just past the last non-whitespace character strictly
/// before `end`, or `None` if there is none.
fn rskip_spaces(s: &str, end: usize) -> (r: Option<usize>)
    requires
        end <= s@.len(),
    ensures
        match r {
            Some(j) => j == non_space_before(s@, end as int - 1) && j < end && !is_space(
                s@[j as int],
            ),
            None => non_space_before(s@, end as int - 1) == -1,
        },
{
    let mut i = end;
    while i > 0
        invariant
            i <= end <= s@.len(),
            non_space_before(s@, end as int - 1) == non_space_before(s@, i as int - 1),
        decreases i,
    {
        i -= 1;
        let c = s.get_char(i);
        if !(c == ' ' || c == '\t' || c == '\n' || c == '\r') {
            return Some(i);
        }
    }
    None
}

/// If some character at or after `from` and before `s.len()` is not
/// whitespace, the first non-whitespace index is no later than it.
pub proof fn lemma_non_space_at_le(s: Seq<char>, from: int, k: int)
    requires
        0 <= from <= k < s.len(),
        !is_space(s[k]),
    ensures
        non_space_at(s, from) <= k,
    decreases k - from,
{
    if from < k && is_space(s[from]) {
        lemma_non_space_at_le(s, from + 1, k);
    }
}

/// The text with leading and trailing whitespace removed.
pub fn trim_str(s: &str) -> (r: &str)
    ensures
        r@ == trim_spec(s@),
{
    let n = s.unicode_len();
    let a = skip_spaces(s, 0);
    match rskip_spaces(s, n) {
        Some(j) => {
            proof {
                lemma_non_space_at_le(s@, 0, j as int);
            }
            s.substring_char(a, j + 1)
        },
        None => {
            let r = "";
            proof {
                reveal_strlit("");
                assert(r@ =~= trim_spec(s@));
            }
            r
        },
    }
}

/// Whether two strings hold the same characters.
pub fn str_eq(a: &str, b: &str) -> (r: bool)
    ensures
        r == (a@ == b@),
{
    let n = a.unicode_len();
    let m = b.unicode_len();
    if n != m {
        return false;
    }
    let mut i: usize = 0;
    while i < n
        invariant
            i <= n,
            n == a@.len(),
            n == b@.len(),
            forall|j: int| 0 <= j < i ==> a@[j] == b@[j],
        decreases n - i,
    {
        if a.get_char(i) != b.get_char(i) {
            return false;
        }
        i += 1;
    }
    proof {
        assert(a@ =~= b@);
    }
    true
}

/// The number denoted by a non-empty run of decimal digits, if it
/// fits in a `u32`.
pub fn parse_u32(s: &str) -> (r: Option<u32>)
    ensures
        r == parse_u32_spec(s@),
{
    let n = s.unicode_len();
    if n == 0 {
        return None;
    }
    let mut acc: u64 = 0;
    let mut i: usize = 0;
    while i < n
        invariant
            i <= n,
            n == s@.len(),
            all_digits(s@.subrange(0, i as int)),
            acc == digits_val(s@.subrange(0, i as int)),
            acc <= u32::MAX,
        decreases n - i,
    {
        let cv = s.get_char(i) as u32;
        if cv < 48 || cv > 57 {
            assert(!is_digit(s@[i as int]));
            return None;
        }
        let ghost pre = s@.subrange(0, i as int);
        acc = acc * 10 + ((cv - 48) as u64);
        i += 1;
        proof {
            assert(s@.subrange(0, i as int).drop_last() =~= pre);
        }
        if acc > 0xFFFF_FFFFu64 {
            proof {
                if all_digits(s@) {
                    assert(all_digits(s@.subrange(i as int, s@.len() as int)));
                    lemma_digits_val_extends(s@, i as int);
                }
            }
            return None;
        }
    }
    proof {
        assert(s@.subrange(0, n as int) =~= s@);
    }
    Some(acc as u32)
}

/// A run of digits is worth no less than any of its prefixes.
proof fn lemma_digits_val_extends(s: Seq<char>, i: int)
    requires
        0 <= i <= s.len(),
        all_digits(s.subrange(i, s.len() as int)),
        digits_val(s.subrange(0, i)) >= 0,
    ensures
        digits_val(s) >= digits_val(s.subrange(0, i)),
    decreases s.len() - i,
{
    if i == s.len() {
        assert(s.subrange(0, i) =~= s);
    } else {
        assert(s.subrange(0, i + 1).drop_last() =~= s.subrange(0, i));
        assert(is_digit(s.subrange(i, s.len() as int)[0]));
        assert(digits_val(s.subrange(0, i + 1)) >= digits_val(s.subrange(0, i)));
        assert(s.subrange(i + 1, s.len() as int) =~= s.subrange(i, s.len() as int).drop_first());
        assert(all_digits(s.subrange(i + 1, s.len() as int)));
        lemma_digits_val_extends(s, i + 1);
    }
}

} // verus!
