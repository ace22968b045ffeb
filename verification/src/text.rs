//! Text helpers on `&str`, specified over the string's characters.
use vstd::prelude::*;
use vstd::string::*;
use vstd::utf8::*;

verus! {

/// Unicode `White_Space` (the set `char::is_whitespace` tests).
pub open spec fn is_unicode_whitespace(c: char) -> bool {
    let u = c as u32;
    (9 <= u && u <= 13) || u == 32 || u == 0x85 || u == 0xa0 || u == 0x1680 || (0x2000 <= u
        && u <= 0x200a) || u == 0x2028 || u == 0x2029 || u == 0x202f || u == 0x205f || u == 0x3000
}

/// The characters a trimming operation removes.
#[derive(Debug, Clone, Copy, PartialEq)]
pub enum CharSet {
    Whitespace,
    Only(char),
}

pub open spec fn in_set(set: CharSet, c: char) -> bool {
    match set {
        CharSet::Whitespace => is_unicode_whitespace(c),
        CharSet::Only(x) => c == x,
    }
}

/// The first position at or after `i` whose character is outside `set`
/// (the length of `s` when there is none).
pub open spec fn skip_front(s: Seq<char>, set: CharSet, i: int) -> int
    decreases s.len() - i,
{
    if i < 0 || i >= s.len() {
        s.len() as int
    } else if in_set(set, s[i]) {
        skip_front(s, set, i + 1)
    } else {
        i
    }
}

/// The end of `s[..j]` once the characters of `set` at its end are dropped.
pub open spec fn skip_back(s: Seq<char>, set: CharSet, j: int) -> int
    decreases j,
{
    if j <= 0 || j > s.len() {
        0
    } else if in_set(set, s[j - 1]) {
        skip_back(s, set, j - 1)
    } else {
        j
    }
}

pub open spec fn strip_start(s: Seq<char>, set: CharSet) -> Seq<char> {
    s.subrange(skip_front(s, set, 0), s.len() as int)
}

pub open spec fn strip_end(s: Seq<char>, set: CharSet) -> Seq<char> {
    s.subrange(0, skip_back(s, set, s.len() as int))
}

/// Both ends stripped, as `str::trim` / `str::trim_matches` do.
pub open spec fn strip(s: Seq<char>, set: CharSet) -> Seq<char> {
    strip_end(strip_start(s, set), set)
}

pub open spec fn spec_trim(s: Seq<char>) -> Seq<char> {
    strip(s, CharSet::Whitespace)
}

pub open spec fn has_prefix(s: Seq<char>, p: Seq<char>) -> bool {
    p.len() <= s.len() && s.subrange(0, p.len() as int) == p
}

pub open spec fn occurs_at(s: Seq<char>, needle: Seq<char>, i: int) -> bool {
    0 <= i && i + needle.len() <= s.len() && s.subrange(i, i + needle.len()) == needle
}

pub open spec fn has_infix(s: Seq<char>, needle: Seq<char>) -> bool {
    exists|i: int| occurs_at(s, needle, i)
}

/// Index of the first `c` at or after `i`, or the length of `s`.
pub open spec fn find_from(s: Seq<char>, c: char, i: int) -> int
    decreases s.len() - i,
{
    if i < 0 || i >= s.len() {
        s.len() as int
    } else if s[i] == c {
        i
    } else {
        find_from(s, c, i + 1)
    }
}

/// The text after the first `c`, as the second half of `str::split_once`.
pub open spec fn after_first(s: Seq<char>, c: char) -> Option<Seq<char>> {
    let k = find_from(s, c, 0);
    if k >= s.len() {
        None
    } else {
        Some(s.subrange(k + 1, s.len() as int))
    }
}

/// The second piece of `s.split(c)`, as `s.split(c).nth(1)`.
pub open spec fn second_piece(s: Seq<char>, c: char) -> Option<Seq<char>> {
    let k = find_from(s, c, 0);
    if k >= s.len() {
        None
    } else {
        Some(s.subrange(k + 1, find_from(s, c, k + 1)))
    }
}

/// The code of `c` with ASCII upper-case letters folded to lower case.
pub open spec fn ascii_folded(c: char) -> u32 {
    let u = c as u32;
    if 65 <= u && u <= 90 {
        (u + 32) as u32
    } else {
        u
    }
}

pub open spec fn eq_ignoring_ascii_case(a: Seq<char>, b: Seq<char>) -> bool {
    a.len() == b.len() && forall|i: int| 0 <= i < a.len() ==> ascii_folded(a[i]) == ascii_folded(b[i])
}

pub open spec fn digit_char(d: int) -> char {
    if d == 0 {
        '0'
    } else if d == 1 {
        '1'
    } else if d == 2 {
        '2'
    } else if d == 3 {
        '3'
    } else if d == 4 {
        '4'
    } else if d == 5 {
        '5'
    } else if d == 6 {
        '6'
    } else if d == 7 {
        '7'
    } else if d == 8 {
        '8'
    } else {
        '9'
    }
}

/// Decimal notation of a natural number.
pub open spec fn nat_decimal(n: nat) -> Seq<char>
    decreases n,
{
    if n < 10 {
        seq![digit_char(n as int)]
    } else {
        nat_decimal(n / 10) + seq![digit_char((n % 10) as int)]
    }
}

/// Decimal notation of an integer, as `Display` writes an `i64`.
pub open spec fn int_decimal(n: int) -> Seq<char> {
    if n < 0 {
        seq!['-'] + nat_decimal((-n) as nat)
    } else {
        nat_decimal(n as nat)
    }
}

pub open spec fn opt_text(o: Option<String>) -> Option<Seq<char>> {
    match o {
        Some(s) => Some(s@),
        None => None,
    }
}

pub proof fn lemma_skip_back_bounds(s: Seq<char>, set: CharSet, j: int)
    requires
        j <= s.len(),
    ensures
        0 <= skip_back(s, set, j) <= j || (j < 0 && skip_back(s, set, j) == 0),
    decreases j,
{
    if 0 < j && in_set(set, s[j - 1]) {
        lemma_skip_back_bounds(s, set, j - 1);
    }
}

pub proof fn lemma_find_from_bounds(s: Seq<char>, c: char, i: int)
    requires
        0 <= i,
    ensures
        i <= find_from(s, c, i) <= s.len() || (i > s.len() && find_from(s, c, i) == s.len()),
        find_from(s, c, i) < s.len() ==> s[find_from(s, c, i)] == c,
        forall|j: int| i <= j < find_from(s, c, i) ==> s[j] != c,
    decreases s.len() - i,
{
    if i < s.len() && s[i] != c {
        lemma_find_from_bounds(s, c, i + 1);
    }
}

pub fn is_whitespace(c: char) -> (res: bool)
    ensures
        res == is_unicode_whitespace(c),
{
    let u = c as u32;
    (9 <= u && u <= 13) || u == 32 || u == 0x85 || u == 0xa0 || u == 0x1680 || (0x2000 <= u && u
        <= 0x200a) || u == 0x2028 || u == 0x2029 || u == 0x202f || u == 0x205f || u == 0x3000
}

pub fn char_in_set(set: CharSet, c: char) -> (res: bool)
    ensures
        res == in_set(set, c),
{
    match set {
        CharSet::Whitespace => is_whitespace(c),
        CharSet::Only(x) => c == x,
    }
}

/// `s` without the characters of `set` at its start.
pub fn trim_start_set(s: &str, set: CharSet) -> (res: &str)
    ensures
        res@ == strip_start(s@, set),
{
    let n = s.unicode_len();
    let mut i: usize = 0;
    while i < n && char_in_set(set, s.get_char(i))
        invariant
            n == s@.len(),
            0 <= i <= n,
            skip_front(s@, set, 0) == skip_front(s@, set, i as int),
        decreases n - i,
    {
        i = i + 1;
    }
    s.substring_char(i, n)
}

/// `s` without the characters of `set` at its end.
pub fn trim_end_set(s: &str, set: CharSet) -> (res: &str)
    ensures
        res@ == strip_end(s@, set),
{
    let n = s.unicode_len();
    let mut j: usize = n;
    while j > 0 && char_in_set(set, s.get_char(j - 1))
        invariant
            n == s@.len(),
            0 <= j <= n,
            skip_back(s@, set, n as int) == skip_back(s@, set, j as int),
        decreases j,
    {
        j = j - 1;
    }
    s.substring_char(0, j)
}

/// `s` without the characters of `set` at either end.
pub fn trim_set(s: &str, set: CharSet) -> (res: &str)
    ensures
        res@ == strip(s@, set),
{
    trim_end_set(trim_start_set(s, set), set)
}

/// `str::trim`.
pub fn trim(s: &str) -> (res: &str)
    ensures
        res@ == spec_trim(s@),
{
    trim_set(s, CharSet::Whitespace)
}

/// Whether two strings hold the same characters.
pub fn text_eq(a: &str, b: &str) -> (res: bool)
    ensures
        res == (a@ == b@),
{
    String::from_str(a) == String::from_str(b)
}

/// `str::starts_with` for a string prefix.
pub fn starts_with(s: &str, prefix: &str) -> (res: bool)
    ensures
        res == has_prefix(s@, prefix@),
{
    let n = s.unicode_len();
    let m = prefix.unicode_len();
    if m > n {
        return false;
    }
    let mut i: usize = 0;
    while i < m
        invariant
            n == s@.len(),
            m == prefix@.len(),
            m <= n,
            0 <= i <= m,
            forall|j: int| 0 <= j < i ==> s@[j] == prefix@[j],
        decreases m - i,
    {
        if s.get_char(i) != prefix.get_char(i) {
            assert(s@.subrange(0, m as int)[i as int] != prefix@[i as int]);
            return false;
        }
        i = i + 1;
    }
    assert(s@.subrange(0, m as int) =~= prefix@);
    true
}

/// Whether `needle` occurs in `s` at character position `i`.
fn occurs_at_exec(s: &str, n: usize, needle: &str, m: usize, i: usize) -> (res: bool)
    requires
        n == s@.len(),
        m == needle@.len(),
        i + m <= n,
    ensures
        res == occurs_at(s@, needle@, i as int),
{
    let mut j: usize = 0;
    while j < m
        invariant
            n == s@.len(),
            m == needle@.len(),
            i + m <= n,
            0 <= j <= m,
            forall|k: int| 0 <= k < j ==> s@[i + k] == needle@[k],
        decreases m - j,
    {
        if s.get_char(i + j) != needle.get_char(j) {
            assert(s@.subrange(i as int, i + m)[j as int] != needle@[j as int]);
            return false;
        }
        j = j + 1;
    }
    assert(s@.subrange(i as int, i + m) =~= needle@);
    true
}

/// `str::contains` for a string needle.
pub fn contains(s: &str, needle: &str) -> (res: bool)
    ensures
        res == has_infix(s@, needle@),
{
    let n = s.unicode_len();
    let m = needle.unicode_len();
    if m > n {
        return false;
    }
    let last = n - m;
    let mut i: usize = 0;
    while i <= last
        invariant
            n == s@.len(),
            m == needle@.len(),
            m <= n,
            last == n - m,
            0 <= i <= last + 1,
            forall|k: int| 0 <= k < i ==> !occurs_at(s@, needle@, k),
        decreases last + 1 - i,
    {
        if occurs_at_exec(s, n, needle, m, i) {
            return true;
        }
        if i == last {
            assert forall|k: int| !occurs_at(s@, needle@, k) by {
                if 0 <= k && k + m <= n {
                    assert(k <= i);
                }
            }
            return false;
        }
        i = i + 1;
    }
    assert forall|k: int| !occurs_at(s@, needle@, k) by {
        if 0 <= k && k + m <= n {
            assert(k < i);
        }
    }
    false
}

/// Position of the first `c` at or after `from`, or the length of `s`.
pub fn find_char_from(s: &str, c: char, from: usize) -> (res: usize)
    requires
        from <= s@.len(),
    ensures
        res == find_from(s@, c, from as int),
{
    let n = s.unicode_len();
    let mut i: usize = from;
    while i < n && s.get_char(i) != c
        invariant
            n == s@.len(),
            from <= i <= n,
            find_from(s@, c, from as int) == find_from(s@, c, i as int),
        decreases n - i,
    {
        i = i + 1;
    }
    i
}

/// The text after the first `c`: the second half of `str::split_once(c)`.
pub fn split_once_after(s: &str, c: char) -> (res: Option<&str>)
    ensures
        match res {
            Some(r) => after_first(s@, c) == Some(r@),
            None => after_first(s@, c) is None,
        },
{
    let n = s.unicode_len();
    let k = find_char_from(s, c, 0);
    proof {
        lemma_find_from_bounds(s@, c, 0);
    }
    if k >= n {
        None
    } else {
        Some(s.substring_char(k + 1, n))
    }
}

/// `s.split(c).nth(1)`.
pub fn second_split_piece(s: &str, c: char) -> (res: Option<&str>)
    ensures
        match res {
            Some(r) => second_piece(s@, c) == Some(r@),
            None => second_piece(s@, c) is None,
        },
{
    let n = s.unicode_len();
    let k = find_char_from(s, c, 0);
    proof {
        lemma_find_from_bounds(s@, c, 0);
    }
    if k >= n {
        None
    } else {
        let e = find_char_from(s, c, k + 1);
        proof {
            lemma_find_from_bounds(s@, c, k + 1);
        }
        Some(s.substring_char(k + 1, e))
    }
}

pub fn ascii_fold(c: char) -> (res: u32)
    ensures
        res == ascii_folded(c),
{
    let u = c as u32;
    if 65 <= u && u <= 90 {
        u + 32
    } else {
        u
    }
}

/// `str::eq_ignore_ascii_case`.
pub fn eq_ignore_ascii_case(a: &str, b: &str) -> (res: bool)
    ensures
        res == eq_ignoring_ascii_case(a@, b@),
{
    let n = a.unicode_len();
    if n != b.unicode_len() {
        return false;
    }
    let mut i: usize = 0;
    while i < n
        invariant
            n == a@.len(),
            n == b@.len(),
            0 <= i <= n,
            forall|k: int| 0 <= k < i ==> ascii_folded(a@[k]) == ascii_folded(b@[k]),
        decreases n - i,
    {
        if ascii_fold(a.get_char(i)) != ascii_fold(b.get_char(i)) {
            return false;
        }
        i = i + 1;
    }
    true
}

/// The one-character string of a decimal digit.
fn digit_text(d: u64) -> (res: &'static str)
    requires
        d < 10,
    ensures
        res@ == seq![digit_char(d as int)],
{
    if d == 0 {
        proof {
            reveal_strlit("0");
        }
        "0"
    } else if d == 1 {
        proof {
            reveal_strlit("1");
        }
        "1"
    } else if d == 2 {
        proof {
            reveal_strlit("2");
        }
        "2"
    } else if d == 3 {
        proof {
            reveal_strlit("3");
        }
        "3"
    } else if d == 4 {
        proof {
            reveal_strlit("4");
        }
        "4"
    } else if d == 5 {
        proof {
            reveal_strlit("5");
        }
        "5"
    } else if d == 6 {
        proof {
            reveal_strlit("6");
        }
        "6"
    } else if d == 7 {
        proof {
            reveal_strlit("7");
        }
        "7"
    } else if d == 8 {
        proof {
            reveal_strlit("8");
        }
        "8"
    } else {
        proof {
            reveal_strlit("9");
        }
        "9"
    }
}

/// Decimal notation of an `i64`, as its `Display` implementation writes it.
pub fn i64_to_decimal(n: i64) -> (res: String)
    ensures
        res@ == int_decimal(n as int),
{
    let magnitude: u64 = if n < 0 {
        (0i128 - (n as i128)) as u64
    } else {
        n as u64
    };
    let mut x: u64 = magnitude;
    let mut digits = String::new();
    while x >= 10
        invariant
            nat_decimal(magnitude as nat) == nat_decimal(x as nat) + digits@,
        decreases x,
    {
        let d = digit_text(x % 10);
        digits = String::from_str(d).concat(digits.as_str());
        assert(nat_decimal(x as nat) == nat_decimal((x / 10) as nat) + seq![digit_char((x % 10) as int)]);
        x = x / 10;
    }
    let res = String::from_str(digit_text(x)).concat(digits.as_str());
    if n < 0 {
        proof {
            reveal_strlit("-");
        }
        String::from_str("-").concat(res.as_str())
    } else {
        res
    }
}

/// The first eight characters of an account id, as shown in default labels.
pub fn short_account(account_id: &str) -> (res: String)
    ensures
        res@ == account_id@.take(if account_id@.len() < 8 { account_id@.len() as int } else { 8 }),
{
    let n = account_id.unicode_len();
    let k = if n < 8 {
        n
    } else {
        8
    };
    String::from_str(account_id.substring_char(0, k))
}

/// Shortens a response body for an error message: bodies of at most
/// `max_len` bytes are kept, longer ones are cut to their first `max_len`
/// bytes and marked with `...`.
pub fn truncate_for_error(value: &str, max_len: usize) -> (res: String)
    requires
        value.spec_bytes().len() <= usize::MAX,
        value.spec_bytes().len() > max_len ==> is_char_boundary(value.spec_bytes(), max_len as int),
    ensures
        value.spec_bytes().len() <= max_len ==> res@ == value@,
        value.spec_bytes().len() > max_len ==> res@ == decode_utf8(
            value.spec_bytes().subrange(0, max_len as int),
        ) + "..."@,
{
    proof {
        reveal_strlit("...");
    }
    if value.len() <= max_len {
        String::from_str(value)
    } else {
        let (head, _) = value.split_at(max_len);
        proof {
            encode_utf8_decode_utf8(head@);
            reveal_strlit("...");
            assert(head.spec_bytes() == value.spec_bytes().subrange(0, max_len as int));
        }
        String::from_str(head).concat("...")
    }
}

} // verus!
