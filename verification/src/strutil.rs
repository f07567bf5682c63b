//! Small verified helpers over strings and their `Seq<char>` views:
//! equality, search, splitting, trimming, decimal numbers and JSON string
//! escaping.  Every executable function is specified against a spec
//! function on `Seq<char>`.

use vstd::prelude::*;
use vstd::string::StrSliceExecFns;
use vstd::string::StringExecFns;

verus! {

// ---------------------------------------------------------------------------
// Equality and prefix tests
// ---------------------------------------------------------------------------

/// Character-for-character equality of two string slices.
pub fn str_eq(a: &str, b: &str) -> (r: bool)
    ensures
        r <==> a@ == b@,
{
    let alen = a.unicode_len();
    let blen = b.unicode_len();
    if alen != blen {
        assert(a@ != b@) by {
            assert(a@.len() != b@.len());
        }
        return false;
    }
    let mut i: usize = 0;
    while i < alen
        invariant
            i <= alen,
            alen == a@.len(),
            alen == b@.len(),
            forall|j: int| 0 <= j < i ==> a@[j] == b@[j],
        decreases alen - i,
    {
        if a.get_char(i) != b.get_char(i) {
            return false;
        }
        i += 1;
    }
    assert(a@ =~= b@);
    true
}

/// `p` is a prefix of `s`.
pub open spec fn spec_starts_with(s: Seq<char>, p: Seq<char>) -> bool {
    p.len() <= s.len() && s.take(p.len() as int) == p
}

pub fn starts_with(s: &str, p: &str) -> (r: bool)
    ensures
        r == spec_starts_with(s@, p@),
{
    let slen = s.unicode_len();
    let plen = p.unicode_len();
    if plen > slen {
        return false;
    }
    let mut i: usize = 0;
    while i < plen
        invariant
            i <= plen,
            plen == p@.len(),
            slen == s@.len(),
            plen <= slen,
            forall|j: int| 0 <= j < i ==> s@[j] == p@[j],
        decreases plen - i,
    {
        if s.get_char(i) != p.get_char(i) {
            assert(s@.take(p@.len() as int)[i as int] != p@[i as int]);
            return false;
        }
        i += 1;
    }
    assert(s@.take(p@.len() as int) =~= p@);
    true
}

/// `p` occurs somewhere in `s` as a contiguous substring.
pub open spec fn spec_contains(s: Seq<char>, p: Seq<char>) -> bool {
    exists|k: int|
        0 <= k && k + p.len() <= s.len() && #[trigger] s.subrange(k, k + p.len() as int) == p
}

pub fn contains_str(s: &str, p: &str) -> (r: bool)
    ensures
        r == spec_contains(s@, p@),
{
    let slen = s.unicode_len();
    let plen = p.unicode_len();
    if plen > slen {
        return false;
    }
    let mut k: usize = 0;
    while k <= slen - plen
        invariant
            slen == s@.len(),
            plen == p@.len(),
            plen <= slen,
            k <= slen - plen + 1,
            forall|k2: int| 0 <= k2 < k ==> #[trigger] s@.subrange(k2, k2 + p@.len() as int) != p@,
        decreases slen - plen + 1 - k,
    {
        let mut i: usize = 0;
        let mut all_eq = true;
        while i < plen
            invariant
                i <= plen,
                slen == s@.len(),
                plen == p@.len(),
                k + plen <= slen,
                all_eq <==> (forall|j: int| 0 <= j < i ==> s@[k + j] == p@[j]),
            decreases plen - i,
        {
            if s.get_char(k + i) != p.get_char(i) {
                all_eq = false;
                assert(s@[k + i as int] != p@[i as int]);
                i = plen;
            } else {
                i += 1;
            }
        }
        if all_eq {
            assert(s@.subrange(k as int, k as int + p@.len() as int) =~= p@);
            return true;
        }
        assert(s@.subrange(k as int, k as int + p@.len() as int) != p@);
        k += 1;
    }
    assert(forall|k2: int|
        0 <= k2 && k2 + p@.len() <= s@.len() ==> #[trigger] s@.subrange(k2, k2 + p@.len() as int)
            != p@);
    false
}

// ---------------------------------------------------------------------------
// Finding a separator
// ---------------------------------------------------------------------------

/// Index of the first occurrence of `c` in `s`, if any.
pub open spec fn spec_find(s: Seq<char>, c: char) -> Option<int>
    decreases s.len(),
{
    if s.len() == 0 {
        None
    } else if s[0] == c {
        Some(0)
    } else {
        match spec_find(s.drop_first(), c) {
            Some(i) => Some(i + 1),
            None => None,
        }
    }
}

pub proof fn lemma_find_at(s: Seq<char>, c: char, i: int)
    requires
        0 <= i < s.len(),
        s[i] == c,
        forall|j: int| 0 <= j < i ==> s[j] != c,
    ensures
        spec_find(s, c) == Some(i),
    decreases i,
{
    if i > 0 {
        lemma_find_at(s.drop_first(), c, i - 1);
    }
}

proof fn lemma_find_none(s: Seq<char>, c: char)
    requires
        forall|j: int| 0 <= j < s.len() ==> s[j] != c,
    ensures
        spec_find(s, c) is None,
    decreases s.len(),
{
    if s.len() > 0 {
        lemma_find_none(s.drop_first(), c);
    }
}

pub proof fn lemma_find_props(s: Seq<char>, c: char)
    requires
        spec_find(s, c) is Some,
    ensures
        0 <= spec_find(s, c)->Some_0 < s.len(),
        s[spec_find(s, c)->Some_0] == c,
        forall|j: int| 0 <= j < spec_find(s, c)->Some_0 ==> s[j] != c,
    decreases s.len(),
{
    if s.len() > 0 && s[0] != c {
        lemma_find_props(s.drop_first(), c);
        assert forall|j: int| 0 <= j < spec_find(s, c)->Some_0 implies s[j] != c by {
            if j > 0 {
                assert(s.drop_first()[j - 1] == s[j]);
            }
        }
    }
}

/// First index of `c` in `s`, found by a scan.
pub fn find_char(s: &str, c: char) -> (r: Option<usize>)
    ensures
        match r {
            Some(i) => spec_find(s@, c) == Some(i as int),
            None => spec_find(s@, c) is None,
        },
{
    let n = s.unicode_len();
    let mut i: usize = 0;
    while i < n
        invariant
            i <= n,
            n == s@.len(),
            forall|j: int| 0 <= j < i ==> s@[j] != c,
        decreases n - i,
    {
        if s.get_char(i) == c {
            proof {
                lemma_find_at(s@, c, i as int);
            }
            return Some(i);
        }
        i += 1;
    }
    proof {
        lemma_find_none(s@, c);
    }
    None
}

// ---------------------------------------------------------------------------
// Splitting
// ---------------------------------------------------------------------------

/// Split on a separator character, keeping empty pieces, as `str::split`
/// does: the result has one piece more than there are separators.
pub open spec fn spec_split(s: Seq<char>, sep: char) -> Seq<Seq<char>>
    decreases s.len(),
{
    match spec_find(s, sep) {
        None => seq![s],
        Some(i) => {
            if 0 <= i < s.len() {
                seq![s.take(i)] + spec_split(s.skip(i + 1), sep)
            } else {
                // unreachable: a found index is always in range
                seq![s]
            }
        },
    }
}

pub fn split_char(s: &str, sep: char) -> (r: Vec<String>)
    ensures
        r.deep_view() == spec_split(s@, sep),
    decreases s@.len(),
{
    let n = s.unicode_len();
    match find_char(s, sep) {
        None => {
            let mut r: Vec<String> = Vec::new();
            r.push(s.to_owned());
            assert(r.deep_view() =~= seq![s@]);
            r
        },
        Some(i) => {
            proof {
                lemma_find_props(s@, sep);
            }
            let head = s.substring_char(0, i).to_owned();
            let tail = s.substring_char(i + 1, n);
            assert(tail@ =~= s@.skip(i + 1));
            let mut r = split_char(tail, sep);
            r.insert(0, head);
            assert(head@ =~= s@.take(i as int));
            assert(r.deep_view() =~= seq![s@.take(i as int)] + spec_split(s@.skip(i as int + 1), sep));
            r
        },
    }
}

/// Index of the first occurrence of the two-character separator `::`.
pub open spec fn spec_find2(s: Seq<char>) -> Option<int>
    decreases s.len(),
{
    if s.len() < 2 {
        None
    } else if s[0] == ':' && s[1] == ':' {
        Some(0)
    } else {
        match spec_find2(s.drop_first()) {
            Some(i) => Some(i + 1),
            None => None,
        }
    }
}

proof fn lemma_find2_at(s: Seq<char>, i: int)
    requires
        0 <= i,
        i + 1 < s.len(),
        s[i] == ':' && s[i + 1] == ':',
        forall|j: int| 0 <= j < i ==> !(#[trigger] s[j] == ':' && s[j + 1] == ':'),
    ensures
        spec_find2(s) == Some(i),
    decreases i,
{
    if i > 0 {
        lemma_find2_at(s.drop_first(), i - 1);
    }
}

proof fn lemma_find2_none(s: Seq<char>)
    requires
        forall|j: int| 0 <= j && j + 1 < s.len() ==> !(#[trigger] s[j] == ':' && s[j + 1] == ':'),
    ensures
        spec_find2(s) is None,
    decreases s.len(),
{
    if s.len() >= 2 {
        lemma_find2_none(s.drop_first());
    }
}

proof fn lemma_find2_props(s: Seq<char>)
    requires
        spec_find2(s) is Some,
    ensures
        0 <= spec_find2(s)->Some_0,
        spec_find2(s)->Some_0 + 1 < s.len(),
        s[spec_find2(s)->Some_0] == ':',
        s[spec_find2(s)->Some_0 + 1] == ':',
    decreases s.len(),
{
    if s.len() >= 2 && !(s[0] == ':' && s[1] == ':') {
        lemma_find2_props(s.drop_first());
    }
}

/// Split on the two-character separator `::`, as `str::split("::")` does.
pub open spec fn spec_split2(s: Seq<char>) -> Seq<Seq<char>>
    decreases s.len(),
{
    match spec_find2(s) {
        None => seq![s],
        Some(i) => {
            if 0 <= i && i + 1 < s.len() {
                seq![s.take(i)] + spec_split2(s.skip(i + 2))
            } else {
                // unreachable: a found index is always in range
                seq![s]
            }
        },
    }
}

fn find2(s: &str) -> (r: Option<usize>)
    ensures
        match r {
            Some(i) => spec_find2(s@) == Some(i as int),
            None => spec_find2(s@) is None,
        },
{
    let n = s.unicode_len();
    if n < 2 {
        proof {
            lemma_find2_none(s@);
        }
        return None;
    }
    let mut i: usize = 0;
    while i + 1 < n
        invariant
            i + 1 <= n,
            n == s@.len(),
            2 <= n,
            forall|j: int| 0 <= j < i ==> !(#[trigger] s@[j] == ':' && s@[j + 1] == ':'),
        decreases n - i,
    {
        if s.get_char(i) == ':' && s.get_char(i + 1) == ':' {
            proof {
                lemma_find2_at(s@, i as int);
            }
            return Some(i);
        }
        i += 1;
    }
    proof {
        lemma_find2_none(s@);
    }
    None
}

pub fn split_double_colon(s: &str) -> (r: Vec<String>)
    ensures
        r.deep_view() == spec_split2(s@),
    decreases s@.len(),
{
    let n = s.unicode_len();
    match find2(s) {
        None => {
            let mut r: Vec<String> = Vec::new();
            r.push(s.to_owned());
            assert(r.deep_view() =~= seq![s@]);
            r
        },
        Some(i) => {
            proof {
                lemma_find2_props(s@);
            }
            let head = s.substring_char(0, i).to_owned();
            let tail = s.substring_char(i + 2, n);
            assert(tail@ =~= s@.skip(i as int + 2));
            let mut r = split_double_colon(tail);
            r.insert(0, head);
            assert(head@ =~= s@.take(i as int));
            assert(r.deep_view() =~= seq![s@.take(i as int)] + spec_split2(s@.skip(i as int + 2)));
            r
        },
    }
}

// ---------------------------------------------------------------------------
// Whitespace trimming
// ---------------------------------------------------------------------------

/// The whitespace characters this crate trims: space, tab, carriage return
/// and line feed.
pub open spec fn spec_is_space(c: char) -> bool {
    c == ' ' || c == '\t' || c == '\r' || c == '\n'
}

fn is_space(c: char) -> (r: bool)
    ensures
        r == spec_is_space(c),
{
    c == ' ' || c == '\t' || c == '\r' || c == '\n'
}

/// Number of whitespace characters at the front of `s`.
pub open spec fn spec_leading_spaces(s: Seq<char>) -> int
    decreases s.len(),
{
    if s.len() == 0 || !spec_is_space(s[0]) {
        0
    } else {
        1 + spec_leading_spaces(s.drop_first())
    }
}

/// Number of whitespace characters at the back of `s`.
pub open spec fn spec_trailing_spaces(s: Seq<char>) -> int
    decreases s.len(),
{
    if s.len() == 0 || !spec_is_space(s.last()) {
        0
    } else {
        1 + spec_trailing_spaces(s.drop_last())
    }
}

proof fn lemma_leading_spaces_bounds(s: Seq<char>)
    ensures
        0 <= spec_leading_spaces(s) <= s.len(),
        forall|j: int| 0 <= j < spec_leading_spaces(s) ==> spec_is_space(s[j]),
        spec_leading_spaces(s) < s.len() ==> !spec_is_space(s[spec_leading_spaces(s)]),
    decreases s.len(),
{
    if s.len() > 0 && spec_is_space(s[0]) {
        lemma_leading_spaces_bounds(s.drop_first());
        assert forall|j: int| 0 <= j < spec_leading_spaces(s) implies spec_is_space(s[j]) by {
            if j > 0 {
                assert(spec_is_space(s.drop_first()[j - 1]));
            }
        }
    }
}

proof fn lemma_trailing_spaces_bounds(s: Seq<char>)
    ensures
        0 <= spec_trailing_spaces(s) <= s.len(),
        forall|j: int| s.len() - spec_trailing_spaces(s) <= j < s.len() ==> spec_is_space(s[j]),
        spec_trailing_spaces(s) < s.len() ==> !spec_is_space(
            s[s.len() - spec_trailing_spaces(s) - 1],
        ),
    decreases s.len(),
{
    if s.len() > 0 && spec_is_space(s.last()) {
        lemma_trailing_spaces_bounds(s.drop_last());
        assert forall|j: int| s.len() - spec_trailing_spaces(s) <= j < s.len() implies spec_is_space(
            s[j],
        ) by {
            if j < s.len() - 1 {
                assert(spec_is_space(s.drop_last()[j]));
            }
        }
    }
}

/// `s` with leading and trailing whitespace removed.
pub open spec fn spec_trim(s: Seq<char>) -> Seq<char> {
    if spec_leading_spaces(s) == s.len() {
        Seq::empty()
    } else {
        s.subrange(spec_leading_spaces(s), s.len() - spec_trailing_spaces(s))
    }
}

pub fn trim(s: &str) -> (r: String)
    ensures
        r@ == spec_trim(s@),
{
    proof {
        lemma_leading_spaces_bounds(s@);
        lemma_trailing_spaces_bounds(s@);
    }
    let n = s.unicode_len();
    let mut b: usize = 0;
    while b < n && is_space(s.get_char(b))
        invariant
            b <= n,
            n == s@.len(),
            forall|j: int| 0 <= j < b ==> spec_is_space(s@[j]),
            b <= spec_leading_spaces(s@),
        decreases n - b,
    {
        proof {
            lemma_leading_prefix(s@, b as int + 1);
        }
        b += 1;
    }
    assert(b as int == spec_leading_spaces(s@));
    if b == n {
        let r = String::new();
        return r;
    }
    let mut e: usize = n;
    while e > b && is_space(s.get_char(e - 1))
        invariant
            b <= e <= n,
            n == s@.len(),
            b as int == spec_leading_spaces(s@),
            b < n,
            !spec_is_space(s@[b as int]),
            forall|j: int| e <= j < n ==> spec_is_space(s@[j]),
            n - e <= spec_trailing_spaces(s@),
        decreases e,
    {
        proof {
            lemma_trailing_suffix(s@, n - e as int + 1);
        }
        e -= 1;
    }
    assert(n - e as int == spec_trailing_spaces(s@)) by {
        if e > b {
            assert(!spec_is_space(s@[e - 1]));
            if (n - e as int) < spec_trailing_spaces(s@) {
                assert(spec_is_space(s@[e - 1]));
            }
        } else {
            if (n - e as int) < spec_trailing_spaces(s@) {
                assert(spec_is_space(s@[b as int]));
            }
        }
    }
    let r = s.substring_char(b, e).to_owned();
    assert(r@ =~= spec_trim(s@));
    r
}

/// Counting `k` leading spaces by hand implies the spec count is at least `k`.
proof fn lemma_leading_prefix(s: Seq<char>, k: int)
    requires
        0 <= k <= s.len(),
        forall|j: int| 0 <= j < k ==> spec_is_space(s[j]),
    ensures
        spec_leading_spaces(s) >= k,
    decreases k,
{
    lemma_leading_spaces_bounds(s);
    if k > 0 {
        assert(spec_is_space(s[0]));
        assert forall|j: int| 0 <= j < k - 1 implies spec_is_space(s.drop_first()[j]) by {
            assert(s.drop_first()[j] == s[j + 1]);
            assert(spec_is_space(s[j + 1]));
        }
        lemma_leading_prefix(s.drop_first(), k - 1);
        assert(spec_leading_spaces(s) == 1 + spec_leading_spaces(s.drop_first()));
    }
}

/// Counting `k` trailing spaces by hand implies the spec count is at least `k`.
proof fn lemma_trailing_suffix(s: Seq<char>, k: int)
    requires
        0 <= k <= s.len(),
        forall|j: int| s.len() - k <= j < s.len() ==> spec_is_space(s[j]),
    ensures
        spec_trailing_spaces(s) >= k,
    decreases k,
{
    lemma_trailing_spaces_bounds(s);
    if k > 0 {
        assert(spec_is_space(s.last()));
        assert forall|j: int| s.len() - 1 - (k - 1) <= j < s.len() - 1 implies spec_is_space(
            s.drop_last()[j],
        ) by {
            assert(s.drop_last()[j] == s[j]);
            assert(spec_is_space(s[j]));
        }
        lemma_trailing_suffix(s.drop_last(), k - 1);
        assert(spec_trailing_spaces(s) == 1 + spec_trailing_spaces(s.drop_last()));
    }
}

/// `s` with only leading whitespace removed.
pub open spec fn spec_trim_start(s: Seq<char>) -> Seq<char> {
    s.skip(spec_leading_spaces(s))
}

pub fn trim_start(s: &str) -> (r: String)
    ensures
        r@ == spec_trim_start(s@),
{
    proof {
        lemma_leading_spaces_bounds(s@);
    }
    let n = s.unicode_len();
    let mut b: usize = 0;
    while b < n && is_space(s.get_char(b))
        invariant
            b <= n,
            n == s@.len(),
            forall|j: int| 0 <= j < b ==> spec_is_space(s@[j]),
            b <= spec_leading_spaces(s@),
        decreases n - b,
    {
        proof {
            lemma_leading_prefix(s@, b as int + 1);
        }
        b += 1;
    }
    assert(b as int == spec_leading_spaces(s@));
    let r = s.substring_char(b, n).to_owned();
    assert(r@ =~= spec_trim_start(s@));
    r
}

// ---------------------------------------------------------------------------
// Decimal numbers
// ---------------------------------------------------------------------------

pub open spec fn is_dec_digit(c: char) -> bool {
    48 <= c as u32 <= 57
}

pub open spec fn digit_val(c: char) -> nat {
    (c as u32 - 48) as nat
}

pub open spec fn all_dec_digits(s: Seq<char>) -> bool {
    forall|i: int| 0 <= i < s.len() ==> is_dec_digit(s[i])
}

/// Numeric value of a digit string, most significant digit first.
pub open spec fn dec_val(s: Seq<char>) -> nat
    decreases s.len(),
{
    if s.len() == 0 {
        0
    } else {
        dec_val(s.drop_last()) * 10 + digit_val(s.last())
    }
}

/// What `str::parse::<u64>` returns on a plain digit string: the value if
/// every character is a digit, there is at least one, and the value fits.
pub open spec fn spec_parse_u64(s: Seq<char>) -> Option<u64> {
    if s.len() > 0 && all_dec_digits(s) && dec_val(s) <= u64::MAX {
        Some(dec_val(s) as u64)
    } else {
        None
    }
}

/// A longer digit prefix never has a smaller value.
proof fn lemma_dec_val_prefix_le(s: Seq<char>, i: int)
    requires
        0 <= i <= s.len(),
    ensures
        dec_val(s.take(i)) <= dec_val(s),
    decreases s.len() - i,
{
    if i < s.len() {
        lemma_dec_val_prefix_le(s.take(s.len() - 1), i);
        assert(s.take(s.len() - 1) =~= s.drop_last());
        assert(s.take(s.len() - 1).take(i) =~= s.take(i));
    } else {
        assert(s.take(i) =~= s);
    }
}

pub fn parse_u64_dec(s: &str) -> (r: Option<u64>)
    ensures
        r == spec_parse_u64(s@),
{
    let n = s.unicode_len();
    if n == 0 {
        return None;
    }
    let mut acc: u64 = 0;
    let mut i: usize = 0;
    while i < n
        invariant
            i <= n,
            n == s@.len(),
            0 < n,
            forall|j: int| 0 <= j < i ==> is_dec_digit(s@[j]),
            acc as nat == dec_val(s@.take(i as int)),
        decreases n - i,
    {
        let c = s.get_char(i);
        let cu = c as u32;
        if cu < 48 || cu > 57 {
            assert(!all_dec_digits(s@));
            return None;
        }
        let d = (cu - 48) as u64;
        assert(s@.take(i + 1).drop_last() =~= s@.take(i as int));
        assert(s@.take(i + 1).last() == s@[i as int]);
        let step = match acc.checked_mul(10) {
            Some(x) => x.checked_add(d),
            None => None,
        };
        match step {
            Some(y) => {
                acc = y;
            },
            None => {
                proof {
                    lemma_dec_val_prefix_le(s@, i + 1);
                }
                assert(dec_val(s@) > u64::MAX);
                return None;
            },
        }
        i += 1;
    }
    assert(s@.take(n as int) =~= s@);
    Some(acc)
}

/// What `str::parse::<u32>` returns on a plain digit string.
pub open spec fn spec_parse_u32(s: Seq<char>) -> Option<u32> {
    if s.len() > 0 && all_dec_digits(s) && dec_val(s) <= u32::MAX {
        Some(dec_val(s) as u32)
    } else {
        None
    }
}

pub fn parse_u32_dec(s: &str) -> (r: Option<u32>)
    ensures
        r == spec_parse_u32(s@),
{
    match parse_u64_dec(s) {
        Some(v) => {
            if v <= u32::MAX as u64 {
                Some(v as u32)
            } else {
                None
            }
        },
        None => None,
    }
}

/// The decimal digit character for `d` (0 to 9).
pub open spec fn digit_char(d: nat) -> char {
    if d == 0 {
        '0'
    } else if d == 1 {
        '1'
    } else if d == 2 {
        '2'
    } else if d == 3 {
        '3'
    } else if d == 4 {
        '4'
    } else if d == 5 {
        '5'
    } else if d == 6 {
        '6'
    } else if d == 7 {
        '7'
    } else if d == 8 {
        '8'
    } else {
        '9'
    }
}

/// Decimal digit string of `n`, most significant digit first, no sign and
/// no leading zeros (except for `n == 0` itself).
pub open spec fn dec_digits(n: nat) -> Seq<char>
    decreases n,
{
    if n < 10 {
        seq![digit_char(n)]
    } else {
        dec_digits(n / 10) + seq![digit_char(n % 10)]
    }
}

fn digit_str(d: u64) -> (r: &'static str)
    requires
        d < 10,
    ensures
        r@ =~= seq![digit_char(d as nat)],
{
    proof {
        reveal_strlit("0");
        reveal_strlit("1");
        reveal_strlit("2");
        reveal_strlit("3");
        reveal_strlit("4");
        reveal_strlit("5");
        reveal_strlit("6");
        reveal_strlit("7");
        reveal_strlit("8");
        reveal_strlit("9");
    }
    if d == 0 {
        "0"
    } else if d == 1 {
        "1"
    } else if d == 2 {
        "2"
    } else if d == 3 {
        "3"
    } else if d == 4 {
        "4"
    } else if d == 5 {
        "5"
    } else if d == 6 {
        "6"
    } else if d == 7 {
        "7"
    } else if d == 8 {
        "8"
    } else {
        "9"
    }
}

pub fn u64_to_dec(n: u64) -> (r: String)
    ensures
        r@ == dec_digits(n as nat),
    decreases n,
{
    if n < 10 {
        digit_str(n).to_owned()
    } else {
        let mut s = u64_to_dec(n / 10);
        s.append(digit_str(n % 10));
        s
    }
}

/// Every character of a decimal digit string is a digit, and the string is
/// never empty.
pub proof fn lemma_dec_digits_are_digits(n: nat)
    ensures
        dec_digits(n).len() > 0,
        all_dec_digits(dec_digits(n)),
    decreases n,
{
    if n >= 10 {
        lemma_dec_digits_are_digits(n / 10);
    }
}

/// Decoding the decimal digit string of `n` gives back `n`.
pub proof fn lemma_dec_round_trip(n: nat)
    ensures
        dec_val(dec_digits(n)) == n,
    decreases n,
{
    if n < 10 {
        let s1 = seq![digit_char(n)];
        assert(dec_digits(n) =~= s1);
        assert(s1.drop_last() =~= Seq::<char>::empty());
        assert(dec_val(s1.drop_last()) == 0);
        assert(s1.last() == digit_char(n));
        assert(dec_val(s1) == dec_val(s1.drop_last()) * 10 + digit_val(s1.last()));
        assert(digit_val(digit_char(n)) == n);
    } else {
        lemma_dec_round_trip(n / 10);
        let s = dec_digits(n);
        assert(s =~= dec_digits(n / 10) + seq![digit_char(n % 10)]);
        assert(s.drop_last() =~= dec_digits(n / 10));
        assert(s.last() == digit_char(n % 10));
    }
}

/// Parsing the decimal digit string of a `u64` gives back the value.
pub proof fn lemma_parse_dec_round_trip(n: u64)
    ensures
        spec_parse_u64(dec_digits(n as nat)) == Some(n),
{
    lemma_dec_digits_are_digits(n as nat);
    lemma_dec_round_trip(n as nat);
}

// ---------------------------------------------------------------------------
// Case-insensitive keyword comparison
// ---------------------------------------------------------------------------

/// `c` equals the lowercase ASCII letter `k`, ignoring ASCII case.
pub open spec fn spec_char_eq_nocase(c: char, k: char) -> bool {
    c == k || (97 <= k as u32 <= 122 && c as u32 + 32 == k as u32)
}

/// `s` equals the lowercase ASCII keyword `k`, ignoring ASCII case in `s`.
pub open spec fn spec_eq_nocase(s: Seq<char>, k: Seq<char>) -> bool {
    s.len() == k.len() && forall|i: int| 0 <= i < s.len() ==> spec_char_eq_nocase(s[i], k[i])
}

pub fn eq_nocase(s: &str, k: &str) -> (r: bool)
    ensures
        r == spec_eq_nocase(s@, k@),
{
    let slen = s.unicode_len();
    let klen = k.unicode_len();
    if slen != klen {
        return false;
    }
    let mut i: usize = 0;
    while i < slen
        invariant
            i <= slen,
            slen == s@.len(),
            slen == k@.len(),
            forall|j: int| 0 <= j < i ==> spec_char_eq_nocase(s@[j], k@[j]),
        decreases slen - i,
    {
        let c = s.get_char(i);
        let kc = k.get_char(i);
        let ok = c == kc || (97 <= kc as u32 && kc as u32 <= 122 && c as u32 + 32 == kc as u32);
        if !ok {
            assert(!spec_char_eq_nocase(s@[i as int], k@[i as int]));
            return false;
        }
        i += 1;
    }
    true
}

// ---------------------------------------------------------------------------
// JSON string escaping
// ---------------------------------------------------------------------------

/// The hexadecimal digit character for `d` (0 to 15), lowercase.
pub open spec fn hex_char(d: nat) -> char {
    if d < 10 {
        digit_char(d)
    } else if d == 10 {
        'a'
    } else if d == 11 {
        'b'
    } else if d == 12 {
        'c'
    } else if d == 13 {
        'd'
    } else if d == 14 {
        'e'
    } else {
        'f'
    }
}

fn hex_str(d: u32) -> (r: &'static str)
    requires
        d < 16,
    ensures
        r@ =~= seq![hex_char(d as nat)],
{
    if d < 10 {
        digit_str(d as u64)
    } else {
        proof {
            reveal_strlit("a");
            reveal_strlit("b");
            reveal_strlit("c");
            reveal_strlit("d");
            reveal_strlit("e");
            reveal_strlit("f");
        }
        if d == 10 {
            "a"
        } else if d == 11 {
            "b"
        } else if d == 12 {
            "c"
        } else if d == 13 {
            "d"
        } else if d == 14 {
            "e"
        } else {
            "f"
        }
    }
}

/// The JSON escape of one character: quote, backslash and control
/// characters are escaped, everything else stands for itself.
pub open spec fn esc_char(c: char) -> Seq<char> {
    if c == '"' {
        seq!['\\', '"']
    } else if c == '\\' {
        seq!['\\', '\\']
    } else if c == '\n' {
        seq!['\\', 'n']
    } else if c == '\r' {
        seq!['\\', 'r']
    } else if c == '\t' {
        seq!['\\', 't']
    } else if (c as u32) < 32 {
        seq!['\\', 'u', '0', '0', hex_char((c as u32 / 16) as nat), hex_char((c as u32 % 16) as nat)]
    } else {
        seq![c]
    }
}

/// The body of a JSON string literal holding exactly the characters of `s`.
pub open spec fn spec_json_escape(s: Seq<char>) -> Seq<char>
    decreases s.len(),
{
    if s.len() == 0 {
        Seq::empty()
    } else {
        esc_char(s[0]) + spec_json_escape(s.drop_first())
    }
}

proof fn lemma_json_escape_push(s: Seq<char>, c: char)
    ensures
        spec_json_escape(s.push(c)) == spec_json_escape(s) + esc_char(c),
    decreases s.len(),
{
    if s.len() == 0 {
        assert(s.push(c)[0] == c);
        assert(s.push(c).drop_first() =~= Seq::<char>::empty());
        assert(spec_json_escape(s.push(c)) == esc_char(c) + spec_json_escape(
            Seq::<char>::empty(),
        ));
        assert(esc_char(c) + Seq::<char>::empty() =~= esc_char(c));
        assert(spec_json_escape(s) + esc_char(c) =~= esc_char(c));
    } else {
        assert(s.push(c).drop_first() =~= s.drop_first().push(c));
        lemma_json_escape_push(s.drop_first(), c);
        assert(spec_json_escape(s.push(c)) =~= spec_json_escape(s) + esc_char(c));
    }
}

/// Append the JSON escape of `s` to `out`.
pub fn json_escape_into(out: &mut String, s: &str)
    ensures
        final(out)@ == old(out)@ + spec_json_escape(s@),
{
    let n = s.unicode_len();
    let mut i: usize = 0;
    assert(out@ =~= old(out)@ + spec_json_escape(s@.take(0)));
    while i < n
        invariant
            i <= n,
            n == s@.len(),
            out@ == old(out)@ + spec_json_escape(s@.take(i as int)),
        decreases n - i,
    {
        let c = s.get_char(i);
        let ghost pre = out@;
        if c == '"' {
            out.append("\\\"");
            proof {
                reveal_strlit("\\\"");
            }
            assert(out@ =~= pre + esc_char(c));
        } else if c == '\\' {
            out.append("\\\\");
            proof {
                reveal_strlit("\\\\");
            }
            assert(out@ =~= pre + esc_char(c));
        } else if c == '\n' {
            out.append("\\n");
            proof {
                reveal_strlit("\\n");
            }
            assert(out@ =~= pre + esc_char(c));
        } else if c == '\r' {
            out.append("\\r");
            proof {
                reveal_strlit("\\r");
            }
            assert(out@ =~= pre + esc_char(c));
        } else if c == '\t' {
            out.append("\\t");
            proof {
                reveal_strlit("\\t");
            }
            assert(out@ =~= pre + esc_char(c));
        } else if (c as u32) < 32 {
            out.append("\\u00");
            out.append(hex_str(c as u32 / 16));
            out.append(hex_str(c as u32 % 16));
            proof {
                reveal_strlit("\\u00");
            }
            assert(out@ =~= pre + esc_char(c));
        } else {
            out.append(s.substring_char(i, i + 1));
            assert(s@.subrange(i as int, i + 1) =~= seq![s@[i as int]]);
            assert(out@ =~= pre + esc_char(c));
        }
        proof {
            lemma_json_escape_push(s@.take(i as int), c);
            assert(s@.take(i as int).push(c) =~= s@.take(i + 1));
        }
        i += 1;
    }
    assert(s@.take(n as int) =~= s@);
}

} // verus!
