//! Issue keys: a project prefix, a dash and one to six decimal digits
//! (`TTM-123`), located as the first such substring of a text.
use vstd::prelude::*;

use crate::error::AppError;

verus! {

/// The most digits that an issue key carries.
pub const MAX_KEY_DIGITS: usize = 6;

/// The project prefix of the issue keys this tool works with.
pub const ISSUE_KEY_PREFIX: &'static str = "TTM";

pub open spec fn is_key_digit(c: char) -> bool {
    '0' <= c && c <= '9'
}

/// A key begins at `i`: the prefix, a dash and at least one digit.
pub open spec fn key_starts_at(p: Seq<char>, s: Seq<char>, i: int) -> bool {
    &&& 0 <= i
    &&& i + p.len() + 2 <= s.len()
    &&& s.subrange(i, i + p.len()) == p
    &&& s[i + p.len()] == '-'
    &&& is_key_digit(s[i + p.len() + 1])
}

/// Where the digits of a key that begins at `i` start.
pub open spec fn digits_start(p: Seq<char>, i: int) -> int {
    i + p.len() + 1
}

/// The end of the run of digits that starts at `j`, taking at most `limit - j` of them.
pub open spec fn digit_run_end(s: Seq<char>, j: int, limit: int) -> int
    decreases limit - j,
{
    if j < limit && 0 <= j < s.len() && is_key_digit(s[j]) {
        digit_run_end(s, j + 1, limit)
    } else {
        j
    }
}

/// The end of the key that begins at `i`: its digits, at most six of them, taken greedily.
pub open spec fn key_end(p: Seq<char>, s: Seq<char>, i: int) -> int {
    digit_run_end(s, digits_start(p, i), digits_start(p, i) + MAX_KEY_DIGITS as int)
}

/// The bounds of the first key found at or after `i`.
pub open spec fn first_key_from(p: Seq<char>, s: Seq<char>, i: int) -> Option<(int, int)>
    decreases s.len() - i,
{
    if i < 0 || i >= s.len() {
        None
    } else if key_starts_at(p, s, i) {
        Some((i, key_end(p, s, i)))
    } else {
        first_key_from(p, s, i + 1)
    }
}

/// The first issue key in `s`, if any.
pub open spec fn first_issue_key(p: Seq<char>, s: Seq<char>) -> Option<Seq<char>> {
    match first_key_from(p, s, 0) {
        Some((a, b)) => Some(s.subrange(a, b)),
        None => None,
    }
}

/// `e` ends the key that begins at `i`: from its first digit on, one to six
/// digits, after which comes the end of the text, a non-digit, or a seventh digit.
pub open spec fn is_key_end(p: Seq<char>, s: Seq<char>, i: int, e: int) -> bool {
    let d = digits_start(p, i);
    &&& d < e <= d + MAX_KEY_DIGITS as int
    &&& e <= s.len()
    &&& forall|k: int| d <= k < e ==> is_key_digit(#[trigger] s[k])
    &&& (e == d + MAX_KEY_DIGITS as int || e == s.len() || !is_key_digit(s[e]))
}

proof fn lemma_digit_run_end(s: Seq<char>, j: int, limit: int)
    requires
        0 <= j <= limit,
    ensures
        j <= digit_run_end(s, j, limit) <= limit,
        digit_run_end(s, j, limit) <= s.len() || digit_run_end(s, j, limit) == j,
        forall|k: int| j <= k < digit_run_end(s, j, limit) ==> is_key_digit(#[trigger] s[k]),
        digit_run_end(s, j, limit) == limit || digit_run_end(s, j, limit) >= s.len()
            || !is_key_digit(s[digit_run_end(s, j, limit)]),
    decreases limit - j,
{
    if j < limit && 0 <= j < s.len() && is_key_digit(s[j]) {
        lemma_digit_run_end(s, j + 1, limit);
    }
}

proof fn lemma_key_end(p: Seq<char>, s: Seq<char>, i: int)
    requires
        key_starts_at(p, s, i),
    ensures
        is_key_end(p, s, i, key_end(p, s, i)),
{
    let d = digits_start(p, i);
    lemma_digit_run_end(s, d, d + MAX_KEY_DIGITS as int);
}

proof fn lemma_key_end_unique(p: Seq<char>, s: Seq<char>, i: int, e1: int, e2: int)
    requires
        is_key_end(p, s, i, e1),
        is_key_end(p, s, i, e2),
    ensures
        e1 == e2,
{
    if e1 < e2 {
        assert(is_key_digit(s[e1]));
    } else if e2 < e1 {
        assert(is_key_digit(s[e2]));
    }
}

proof fn lemma_first_key_from(p: Seq<char>, s: Seq<char>, i: int, j: int)
    requires
        0 <= j <= i,
        key_starts_at(p, s, i),
        forall|k: int| j <= k < i ==> !key_starts_at(p, s, k),
    ensures
        first_key_from(p, s, j) == Some((i, key_end(p, s, i))),
    decreases i - j,
{
    if j < i {
        lemma_first_key_from(p, s, i, j + 1);
    }
}

proof fn lemma_no_key_from(p: Seq<char>, s: Seq<char>, j: int)
    requires
        0 <= j,
        forall|k: int| j <= k ==> !key_starts_at(p, s, k),
    ensures
        first_key_from(p, s, j) is None,
    decreases s.len() - j,
{
    if j < s.len() {
        lemma_no_key_from(p, s, j + 1);
    }
}

/// Extraction finds the first match: where a key begins at `i` and at no
/// earlier position, and `e` ends it, the key found is exactly `s[i..e]`.
pub proof fn lemma_first_match_is_extracted(p: Seq<char>, s: Seq<char>, i: int, e: int)
    requires
        key_starts_at(p, s, i),
        forall|k: int| 0 <= k < i ==> !key_starts_at(p, s, k),
        is_key_end(p, s, i, e),
    ensures
        first_issue_key(p, s) == Some(s.subrange(i, e)),
{
    lemma_first_key_from(p, s, i, 0);
    lemma_key_end(p, s, i);
    lemma_key_end_unique(p, s, i, e, key_end(p, s, i));
}

/// Extraction fails exactly on texts where no key begins anywhere.
pub proof fn lemma_no_match_is_not_found(p: Seq<char>, s: Seq<char>)
    ensures
        first_issue_key(p, s) is None <==> forall|k: int| 0 <= k ==> !key_starts_at(p, s, k),
{
    if forall|k: int| 0 <= k ==> !key_starts_at(p, s, k) {
        lemma_no_key_from(p, s, 0);
    } else {
        let i = choose|i: int| 0 <= i && key_starts_at(p, s, i);
        lemma_first_exists(p, s, i, 0);
    }
}

proof fn lemma_first_exists(p: Seq<char>, s: Seq<char>, i: int, j: int)
    requires
        0 <= j <= i,
        key_starts_at(p, s, i),
    ensures
        first_key_from(p, s, j) is Some,
    decreases i - j,
{
    if j < i && !key_starts_at(p, s, j) {
        lemma_first_exists(p, s, i, j + 1);
    }
}

/// Whether a key begins at character `i` of `input`.
fn key_starts_here(prefix: &str, input: &str, i: usize) -> (r: bool)
    requires
        prefix@.len() + input@.len() + 8 <= usize::MAX,
    ensures
        r == key_starts_at(prefix@, input@, i as int),
{
    let pl = prefix.unicode_len();
    let n = input.unicode_len();
    if i > n || n - i < pl + 2 {
        return false;
    }
    let mut k: usize = 0;
    while k < pl
        invariant
            pl == prefix@.len(),
            n == input@.len(),
            i + pl + 2 <= n,
            k <= pl,
            forall|m: int| 0 <= m < k ==> input@[i + m] == prefix@[m],
        decreases pl - k,
    {
        if input.get_char(i + k) != prefix.get_char(k) {
            assert(input@.subrange(i as int, i + pl)[k as int] != prefix@[k as int]);
            return false;
        }
        k += 1;
    }
    assert(input@.subrange(i as int, i + pl) =~= prefix@);
    let dash = input.get_char(i + pl);
    let digit = input.get_char(i + pl + 1);
    dash == '-' && '0' <= digit && digit <= '9'
}

/// Locates the first issue key with the given prefix in `input`, as a range of
/// character positions.
pub fn find_issue_key(prefix: &str, input: &str) -> (r: Option<(usize, usize)>)
    requires
        prefix@.len() + input@.len() + 8 <= usize::MAX,
    ensures
        match r {
            Some((a, b)) => {
                &&& first_key_from(prefix@, input@, 0) == Some((a as int, b as int))
                &&& key_starts_at(prefix@, input@, a as int)
                &&& b == key_end(prefix@, input@, a as int)
            },
            None => first_key_from(prefix@, input@, 0) is None,
        },
{
    let n = input.unicode_len();
    let pl = prefix.unicode_len();
    let mut i: usize = 0;
    while i < n
        invariant
            n == input@.len(),
            pl == prefix@.len(),
            pl + n + 8 <= usize::MAX,
            i <= n,
            first_key_from(prefix@, input@, 0) == first_key_from(prefix@, input@, i as int),
        decreases n - i,
    {
        if key_starts_here(prefix, input, i) {
            let start = i + pl + 1;
            let limit = start + MAX_KEY_DIGITS;
            let mut e: usize = start;
            while e < limit && e < n && is_ascii_digit_at(input, e)
                invariant
                    n == input@.len(),
                    start <= e <= limit,
                    limit == start + MAX_KEY_DIGITS,
                    start < n,
                    limit <= usize::MAX,
                    digit_run_end(input@, start as int, limit as int) == digit_run_end(
                        input@,
                        e as int,
                        limit as int,
                    ),
                decreases limit - e,
            {
                e += 1;
            }
            return Some((i, e));
        }
        i += 1;
    }
    None
}

fn is_ascii_digit_at(input: &str, k: usize) -> (r: bool)
    requires
        k < input@.len(),
    ensures
        r == is_key_digit(input@[k as int]),
{
    let c = input.get_char(k);
    '0' <= c && c <= '9'
}

/// The first issue key with the given prefix in `input`.
pub fn extract_issue_key(prefix: &str, input: &str) -> (r: Result<String, AppError>)
    requires
        prefix@.len() + input@.len() + 8 <= usize::MAX,
    ensures
        match first_issue_key(prefix@, input@) {
            Some(k) => r matches Ok(key) && key@ == k,
            None => r == Err::<String, AppError>(AppError::NoIssueKeyFound),
        },
{
    match find_issue_key(prefix, input) {
        Some((a, b)) => {
            proof {
                lemma_key_end(prefix@, input@, a as int);
            }
            Ok(input.substring_char(a, b).to_owned())
        },
        None => Err(AppError::NoIssueKeyFound),
    }
}

/// The first issue key of this tool's project in `input`.
pub fn parse_issue_key(input: &str) -> (r: Result<String, AppError>)
    requires
        input@.len() + 11 <= usize::MAX,
    ensures
        match first_issue_key(ISSUE_KEY_PREFIX@, input@) {
            Some(k) => r matches Ok(key) && key@ == k,
            None => r == Err::<String, AppError>(AppError::NoIssueKeyFound),
        },
{
    proof {
        reveal_strlit("TTM");
    }
    extract_issue_key(ISSUE_KEY_PREFIX, input)
}

} // verus!
