//! Character-level text handling: the string operations that the configuration,
//! `/proc` and keymap readers are built from, each stated over `Seq<char>`.
use vstd::prelude::*;

verus! {

// ---------------------------------------------------------------------------
// Specifications
// ---------------------------------------------------------------------------

/// The Unicode `White_Space` characters, the set that `char::is_whitespace`
/// documents: U+0009..U+000D, U+0020, U+0085, U+00A0, U+1680, U+2000..U+200A,
/// U+2028, U+2029, U+202F, U+205F and U+3000.
pub open spec fn is_ws(c: char) -> bool {
    let u: u32 = c as u32;
    ||| 0x9 <= u <= 0xd
    ||| u == 0x20
    ||| u == 0x85
    ||| u == 0xa0
    ||| u == 0x1680
    ||| 0x2000 <= u <= 0x200a
    ||| u == 0x2028
    ||| u == 0x2029
    ||| u == 0x202f
    ||| u == 0x205f
    ||| u == 0x3000
}

/// First index at or after `i` that does not hold whitespace (or `s.len()`).
pub open spec fn skip_ws(s: Seq<char>, i: int) -> int
    decreases s.len() - i,
{
    if 0 <= i < s.len() && is_ws(s[i]) {
        skip_ws(s, i + 1)
    } else {
        i
    }
}

/// First index at or after `i` that holds whitespace (or `s.len()`).
pub open spec fn skip_non_ws(s: Seq<char>, i: int) -> int
    decreases s.len() - i,
{
    if 0 <= i < s.len() && !is_ws(s[i]) {
        skip_non_ws(s, i + 1)
    } else {
        i
    }
}

/// Walking back from the end position `j`, the end of the text once trailing
/// whitespace is dropped.
pub open spec fn rskip_ws(s: Seq<char>, j: int) -> int
    decreases j,
{
    if 0 < j <= s.len() && is_ws(s[j - 1]) {
        rskip_ws(s, j - 1)
    } else {
        j
    }
}

/// `str::trim`: the text without leading and trailing whitespace.
pub open spec fn seq_trim(s: Seq<char>) -> Seq<char> {
    let a = skip_ws(s, 0);
    let b = rskip_ws(s, s.len() as int);
    if a < b {
        s.subrange(a, b)
    } else {
        Seq::empty()
    }
}

/// First index at or after `i` whose character is not `c` (or `s.len()`).
pub open spec fn skip_char(s: Seq<char>, c: char, i: int) -> int
    decreases s.len() - i,
{
    if 0 <= i < s.len() && s[i] == c {
        skip_char(s, c, i + 1)
    } else {
        i
    }
}

/// Walking back from `j`, the end of the text once trailing `c`s are dropped.
pub open spec fn rskip_char(s: Seq<char>, c: char, j: int) -> int
    decreases j,
{
    if 0 < j <= s.len() && s[j - 1] == c {
        rskip_char(s, c, j - 1)
    } else {
        j
    }
}

/// `str::trim_matches(c)` for a single character `c`.
pub open spec fn seq_trim_char(s: Seq<char>, c: char) -> Seq<char> {
    let a = skip_char(s, c, 0);
    let b = rskip_char(s, c, s.len() as int);
    if a < b {
        s.subrange(a, b)
    } else {
        Seq::empty()
    }
}

/// `p` is a prefix of `s`.
pub open spec fn seq_starts_with(s: Seq<char>, p: Seq<char>) -> bool {
    p.len() <= s.len() && s.subrange(0, p.len() as int) == p
}

/// `str::strip_prefix`.
pub open spec fn seq_strip_prefix(s: Seq<char>, p: Seq<char>) -> Option<Seq<char>> {
    if seq_starts_with(s, p) {
        Some(s.subrange(p.len() as int, s.len() as int))
    } else {
        None
    }
}

/// `p` occurs in `s` starting at index `i`.
pub open spec fn matches_at(s: Seq<char>, p: Seq<char>, i: int) -> bool {
    0 <= i && i + p.len() <= s.len() && s.subrange(i, i + p.len()) == p
}

/// The leftmost occurrence of `p` in `s` that starts at or after `i`.
pub open spec fn seq_find(s: Seq<char>, p: Seq<char>, i: int) -> Option<int>
    decreases s.len() + 1 - i,
{
    if i < 0 || i + p.len() > s.len() {
        None
    } else if s.subrange(i, i + p.len()) == p {
        Some(i)
    } else {
        seq_find(s, p, i + 1)
    }
}

/// `s.contains(p)` for a text pattern.
pub open spec fn seq_contains(s: Seq<char>, p: Seq<char>) -> bool {
    seq_find(s, p, 0) is Some
}

/// The pieces of `s` from index `start` on, cut at each leftmost
/// non-overlapping occurrence of the non-empty separator `sep` (`str::split`).
pub open spec fn seq_split_from(s: Seq<char>, sep: Seq<char>, start: int) -> Seq<Seq<char>>
    decreases s.len() + 1 - start,
{
    if sep.len() == 0 || start < 0 || start > s.len() {
        Seq::empty()
    } else {
        match seq_find(s, sep, start) {
            None => seq![s.subrange(start, s.len() as int)],
            Some(k) => {
                proof {
                    lemma_find_bounds(s, sep, start);
                }
                seq![s.subrange(start, k)] + seq_split_from(s, sep, k + sep.len())
            },
        }
    }
}

/// `str::split` with a non-empty text separator.
pub open spec fn seq_split(s: Seq<char>, sep: Seq<char>) -> Seq<Seq<char>> {
    seq_split_from(s, sep, 0)
}

/// `str::split_once`: the text before the first occurrence of `sep`, and the
/// text after it if there is one.
pub open spec fn seq_split_once(s: Seq<char>, sep: Seq<char>) -> (Seq<char>, Option<Seq<char>>) {
    match seq_find(s, sep, 0) {
        None => (s, None),
        Some(k) => (s.subrange(0, k), Some(s.subrange(k + sep.len(), s.len() as int))),
    }
}

/// A line without its `\r` terminator, if it has one.
pub open spec fn strip_cr(t: Seq<char>) -> Seq<char> {
    if t.len() > 0 && t.last() == '\r' {
        t.drop_last()
    } else {
        t
    }
}

/// The lines of `s` from index `start` on (`str::lines`): split at `\n`, a
/// `\r` right before a `\n` dropped, no empty line after a final `\n`.
pub open spec fn seq_lines_from(s: Seq<char>, start: int) -> Seq<Seq<char>>
    decreases s.len() + 1 - start,
{
    if start < 0 || start >= s.len() {
        Seq::empty()
    } else {
        match seq_find(s, seq!['\n'], start) {
            None => seq![s.subrange(start, s.len() as int)],
            Some(k) => {
                proof {
                    lemma_find_bounds(s, seq!['\n'], start);
                }
                seq![strip_cr(s.subrange(start, k))] + seq_lines_from(s, k + 1)
            },
        }
    }
}

/// `str::lines`.
pub open spec fn seq_lines(s: Seq<char>) -> Seq<Seq<char>> {
    seq_lines_from(s, 0)
}

/// The maximal runs of non-whitespace characters of `s` from `start` on
/// (`str::split_whitespace`).
pub open spec fn seq_words_from(s: Seq<char>, start: int) -> Seq<Seq<char>>
    decreases s.len() + 1 - start,
{
    let a = skip_ws(s, start);
    if start < 0 || a >= s.len() {
        Seq::empty()
    } else {
        proof {
            lemma_skip_ws(s, start);
            lemma_skip_non_ws(s, a);
        }
        let b = skip_non_ws(s, a);
        seq![s.subrange(a, b)] + seq_words_from(s, b)
    }
}

/// `str::split_whitespace`.
pub open spec fn seq_words(s: Seq<char>) -> Seq<Seq<char>> {
    seq_words_from(s, 0)
}


/// An ASCII decimal digit.
pub open spec fn is_digit(c: char) -> bool {
    48 <= (c as u32) <= 57
}

/// The value of an ASCII decimal digit.
pub open spec fn digit_value(c: char) -> int {
    (c as u32) - 48
}

/// Every character of `s` is an ASCII decimal digit.
pub open spec fn all_digits(s: Seq<char>) -> bool {
    forall|i: int| 0 <= i < s.len() ==> is_digit(#[trigger] s[i])
}

/// The number that a run of decimal digits denotes.
pub open spec fn digits_value(s: Seq<char>) -> int
    decreases s.len(),
{
    if s.len() == 0 {
        0
    } else {
        digits_value(s.drop_last()) * 10 + digit_value(s.last())
    }
}

/// `i32::from_str` (base 10): an optional `+` or `-`, then at least one ASCII
/// digit and nothing else, with a value that fits in an `i32`.
pub open spec fn seq_parse_i32(s: Seq<char>) -> Option<i32> {
    if s.len() == 0 {
        None
    } else {
        let signed = s[0] == '+' || s[0] == '-';
        let ds = if signed {
            s.drop_first()
        } else {
            s
        };
        let v = if s[0] == '-' {
            -digits_value(ds)
        } else {
            digits_value(ds)
        };
        if ds.len() == 0 || !all_digits(ds) || v < i32::MIN || v > i32::MAX {
            None
        } else {
            Some(v as i32)
        }
    }
}

/// The ASCII digit for `d` in `0..10`.
pub open spec fn digit_char(d: int) -> char {
    (d + 48) as char
}

/// The decimal notation of a natural number, without leading zeros.
pub open spec fn nat_decimal(n: nat) -> Seq<char>
    decreases n,
{
    if n < 10 {
        seq![digit_char(n as int)]
    } else {
        nat_decimal(n / 10).push(digit_char((n % 10) as int))
    }
}

/// The decimal notation of an integer (`i32::to_string`).
pub open spec fn int_decimal(n: int) -> Seq<char> {
    if n < 0 {
        seq!['-'] + nat_decimal((-n) as nat)
    } else {
        nat_decimal(n as nat)
    }
}

/// The texts held by a vector of character vectors.
pub open spec fn texts(v: Seq<Vec<char>>) -> Seq<Seq<char>> {
    v.map_values(|x: Vec<char>| x@)
}

// ---------------------------------------------------------------------------
// Facts about the specifications
// ---------------------------------------------------------------------------

pub proof fn lemma_find_bounds(s: Seq<char>, p: Seq<char>, i: int)
    ensures
        seq_find(s, p, i) matches Some(k) ==> i <= k && matches_at(s, p, k),
        seq_find(s, p, i) matches Some(k) ==> forall|j: int|
            i <= j < k ==> !matches_at(s, p, j),
    decreases s.len() + 1 - i,
{
    if i < 0 || i + p.len() > s.len() {
    } else if s.subrange(i, i + p.len()) == p {
    } else {
        lemma_find_bounds(s, p, i + 1);
    }
}

/// An occurrence of `p` at or after `i` is found by the search from `i`.
pub proof fn lemma_find_reaches(s: Seq<char>, p: Seq<char>, i: int, k: int)
    requires
        0 <= i <= k,
        matches_at(s, p, k),
    ensures
        seq_find(s, p, i) is Some,
    decreases k - i,
{
    if s.subrange(i, i + p.len()) != p {
        lemma_find_reaches(s, p, i + 1, k);
    }
}


pub proof fn lemma_digits_value_nonneg(s: Seq<char>)
    requires
        all_digits(s),
    ensures
        digits_value(s) >= 0,
    decreases s.len(),
{
    if s.len() > 0 {
        assert(is_digit(s[s.len() - 1]));
        lemma_digits_value_nonneg(s.drop_last());
    }
}

pub proof fn lemma_digit_char(d: int)
    requires
        0 <= d < 10,
    ensures
        is_digit(digit_char(d)),
        digit_value(digit_char(d)) == d,
        digit_char(d) != '-',
        digit_char(d) != '+',
{
    assert(((d + 48) as char) as u32 == d + 48);
}

pub proof fn lemma_nat_decimal(n: nat)
    ensures
        nat_decimal(n).len() > 0,
        all_digits(nat_decimal(n)),
        digits_value(nat_decimal(n)) == n,
        nat_decimal(n)[0] != '-',
        nat_decimal(n)[0] != '+',
    decreases n,
{
    if n < 10 {
        lemma_digit_char(n as int);
        assert(nat_decimal(n).drop_last() =~= Seq::<char>::empty());
        assert(digits_value(Seq::<char>::empty()) == 0);
    } else {
        lemma_nat_decimal(n / 10);
        lemma_digit_char((n % 10) as int);
        let s = nat_decimal(n / 10).push(digit_char((n % 10) as int));
        assert(s.drop_last() =~= nat_decimal(n / 10));
        assert forall|i: int| 0 <= i < s.len() implies is_digit(#[trigger] s[i]) by {
            if i < s.len() - 1 {
                assert(s[i] == nat_decimal(n / 10)[i]);
            }
        }
        assert(digits_value(s) == (n / 10) * 10 + n % 10);
        assert((n / 10) * 10 + n % 10 == n) by (nonlinear_arith);
    }
}

/// Reading back the decimal notation of an `i32` gives the same number.
pub proof fn lemma_parse_decimal_roundtrip(n: i32)
    ensures
        seq_parse_i32(int_decimal(n as int)) == Some(n),
{
    if n < 0 {
        let m = (-n) as nat;
        lemma_nat_decimal(m);
        let s = int_decimal(n as int);
        assert(s.drop_first() =~= nat_decimal(m));
    } else {
        lemma_nat_decimal(n as nat);
    }
}

pub proof fn lemma_skip_ws(s: Seq<char>, i: int)
    requires
        0 <= i,
    ensures
        i <= skip_ws(s, i),
        i <= s.len() ==> skip_ws(s, i) <= s.len(),
        skip_ws(s, i) < s.len() ==> !is_ws(s[skip_ws(s, i)]),
        forall|j: int| i <= j < skip_ws(s, i) ==> is_ws(s[j]),
    decreases s.len() - i,
{
    if 0 <= i < s.len() && is_ws(s[i]) {
        lemma_skip_ws(s, i + 1);
    }
}

pub proof fn lemma_skip_non_ws(s: Seq<char>, i: int)
    requires
        0 <= i,
    ensures
        i <= skip_non_ws(s, i),
        i <= s.len() ==> skip_non_ws(s, i) <= s.len(),
        i < s.len() && !is_ws(s[i]) ==> i < skip_non_ws(s, i),
        skip_non_ws(s, i) < s.len() ==> is_ws(s[skip_non_ws(s, i)]),
        forall|j: int| i <= j < skip_non_ws(s, i) ==> !is_ws(s[j]),
    decreases s.len() - i,
{
    if 0 <= i < s.len() && !is_ws(s[i]) {
        lemma_skip_non_ws(s, i + 1);
    }
}

// ---------------------------------------------------------------------------
// Executable operations
// ---------------------------------------------------------------------------

/// The characters of a string slice.
pub fn chars_of(s: &str) -> (v: Vec<char>)
    ensures
        v@ == s@,
{
    let mut v: Vec<char> = Vec::new();
    for c in it: s.chars()
        invariant
            v@ == it.seq().take(it.index() as int),
            it.seq() == s@,
    {
        v.push(c);
    }
    v
}

/// Appends one character to a `String` (`String::push`).
#[verifier::external_body]
fn push_char(s: &mut String, c: char)
    ensures
        final(s)@ == old(s)@.push(c),
{
    s.push(c);
}

/// The full Unicode lowercase mapping of a text, as `str::to_lowercase`
/// computes it.
pub uninterp spec fn str_lowercase(s: Seq<char>) -> Seq<char>;

/// `str::to_lowercase`. Claimed: the result is [`str_lowercase`] of the text.
#[verifier::external_body]
pub(crate) fn to_lowercase(s: &str) -> (r: String)
    ensures
        r@ == str_lowercase(s@),
{
    s.to_lowercase()
}

/// The string made of the given characters.
pub fn string_of(v: &[char]) -> (s: String)
    ensures
        s@ == v@,
{
    let mut s = String::new();
    let n: usize = v.len();
    for i in 0..n
        invariant
            n == v@.len(),
            s@ == v@.take(i as int),
    {
        push_char(&mut s, v[i]);
        assert(v@.take(i + 1) =~= v@.take(i as int).push(v@[i as int]));
    }
    assert(v@.take(n as int) =~= v@);
    s
}

/// `char::is_whitespace`.
pub fn is_whitespace(c: char) -> (b: bool)
    ensures
        b == is_ws(c),
{
    let u: u32 = c as u32;
    (0x9 <= u && u <= 0xd) || u == 0x20 || u == 0x85 || u == 0xa0 || u == 0x1680 || (0x2000
        <= u && u <= 0x200a) || u == 0x2028 || u == 0x2029 || u == 0x202f || u == 0x205f || u
        == 0x3000
}

/// The characters `s[lo..hi]`.
pub fn subrange(s: &Vec<char>, lo: usize, hi: usize) -> (r: Vec<char>)
    requires
        lo <= hi <= s@.len(),
    ensures
        r@ == s@.subrange(lo as int, hi as int),
{
    let mut r: Vec<char> = Vec::new();
    let mut i: usize = lo;
    while i < hi
        invariant
            lo <= i <= hi <= s@.len(),
            r@ == s@.subrange(lo as int, i as int),
        decreases hi - i,
    {
        r.push(s[i]);
        assert(s@.subrange(lo as int, i + 1) =~= s@.subrange(lo as int, i as int).push(
            s@[i as int],
        ));
        i = i + 1;
    }
    r
}

fn skip_ws_from(s: &Vec<char>, start: usize) -> (r: usize)
    requires
        start <= s@.len(),
    ensures
        r == skip_ws(s@, start as int),
{
    let mut i: usize = start;
    while i < s.len() && is_whitespace(s[i])
        invariant
            start <= i <= s@.len(),
            skip_ws(s@, start as int) == skip_ws(s@, i as int),
        decreases s@.len() - i,
    {
        i = i + 1;
    }
    i
}

fn skip_non_ws_from(s: &Vec<char>, start: usize) -> (r: usize)
    requires
        start <= s@.len(),
    ensures
        r == skip_non_ws(s@, start as int),
{
    let mut i: usize = start;
    while i < s.len() && !is_whitespace(s[i])
        invariant
            start <= i <= s@.len(),
            skip_non_ws(s@, start as int) == skip_non_ws(s@, i as int),
        decreases s@.len() - i,
    {
        i = i + 1;
    }
    i
}

/// `str::trim`.
pub fn trim(s: &Vec<char>) -> (r: Vec<char>)
    ensures
        r@ == seq_trim(s@),
{
    let a: usize = skip_ws_from(s, 0);
    let mut b: usize = s.len();
    while b > 0 && is_whitespace(s[b - 1])
        invariant
            b <= s@.len(),
            rskip_ws(s@, s@.len() as int) == rskip_ws(s@, b as int),
        decreases b,
    {
        b = b - 1;
    }
    if a < b {
        subrange(s, a, b)
    } else {
        Vec::new()
    }
}

/// `str::trim_matches(c)`.
pub fn trim_char(s: &Vec<char>, c: char) -> (r: Vec<char>)
    ensures
        r@ == seq_trim_char(s@, c),
{
    let mut a: usize = 0;
    while a < s.len() && s[a] == c
        invariant
            a <= s@.len(),
            skip_char(s@, c, 0) == skip_char(s@, c, a as int),
        decreases s@.len() - a,
    {
        a = a + 1;
    }
    let mut b: usize = s.len();
    while b > 0 && s[b - 1] == c
        invariant
            b <= s@.len(),
            rskip_char(s@, c, s@.len() as int) == rskip_char(s@, c, b as int),
        decreases b,
    {
        b = b - 1;
    }
    if a < b {
        subrange(s, a, b)
    } else {
        Vec::new()
    }
}

/// Whether `p` occurs in `s` at index `i`.
fn matches_at_exec(s: &Vec<char>, p: &Vec<char>, i: usize) -> (b: bool)
    requires
        i + p@.len() <= s@.len(),
    ensures
        b == (s@.subrange(i as int, i + p@.len()) == p@),
{
    let n: usize = p.len();
    let mut j: usize = 0;
    while j < n
        invariant
            n == p@.len(),
            i + n <= s@.len(),
            s@.len() == s.len(),
            j <= n,
            forall|k: int| 0 <= k < j ==> s@[i + k] == p@[k],
        decreases n - j,
    {
        if s[i + j] != p[j] {
            assert(s@.subrange(i as int, i + p@.len())[j as int] != p@[j as int]);
            return false;
        }
        j = j + 1;
    }
    assert(s@.subrange(i as int, i + p@.len()) =~= p@);
    true
}

/// Whether two texts are equal.
pub fn same_text(a: &Vec<char>, b: &Vec<char>) -> (r: bool)
    ensures
        r == (a@ == b@),
{
    if a.len() != b.len() {
        return false;
    }
    let r = matches_at_exec(a, b, 0);
    assert(a@.subrange(0, b@.len() as int) =~= a@);
    r
}

/// `str::starts_with`.
pub fn starts_with(s: &Vec<char>, p: &Vec<char>) -> (b: bool)
    ensures
        b == seq_starts_with(s@, p@),
{
    if p.len() > s.len() {
        false
    } else {
        matches_at_exec(s, p, 0)
    }
}

/// `str::strip_prefix`.
pub fn strip_prefix(s: &Vec<char>, p: &Vec<char>) -> (r: Option<Vec<char>>)
    ensures
        r matches Some(v) ==> seq_strip_prefix(s@, p@) == Some(v@),
        r is None ==> seq_strip_prefix(s@, p@) is None,
{
    if starts_with(s, p) {
        Some(subrange(s, p.len(), s.len()))
    } else {
        None
    }
}

/// The leftmost occurrence of `p` in `s` at or after `start`.
pub fn find(s: &Vec<char>, p: &Vec<char>, start: usize) -> (r: Option<usize>)
    ensures
        r matches Some(k) ==> seq_find(s@, p@, start as int) == Some(k as int),
        r is None ==> seq_find(s@, p@, start as int) is None,
{
    if p.len() > s.len() {
        return None;
    }
    let last: usize = s.len() - p.len();
    let mut i: usize = start;
    while i <= last
        invariant
            last + p@.len() == s@.len(),
            start <= i,
            seq_find(s@, p@, start as int) == seq_find(s@, p@, i as int),
        decreases last + 1 - i,
    {
        if matches_at_exec(s, p, i) {
            return Some(i);
        }
        if i == last {
            assert(seq_find(s@, p@, i + 1) is None);
            return None;
        }
        i = i + 1;
    }
    None
}

/// `str::contains` for a text pattern.
pub fn contains(s: &Vec<char>, p: &Vec<char>) -> (b: bool)
    ensures
        b == seq_contains(s@, p@),
{
    find(s, p, 0).is_some()
}

/// `str::split` with a non-empty text separator.
pub fn split(s: &Vec<char>, sep: &Vec<char>) -> (r: Vec<Vec<char>>)
    requires
        sep@.len() > 0,
    ensures
        texts(r@) == seq_split(s@, sep@),
{
    let mut r: Vec<Vec<char>> = Vec::new();
    let mut start: usize = 0;
    let n: usize = s.len();
    assert(texts(r@) =~= Seq::<Seq<char>>::empty());
    loop
        invariant
            n == s@.len(),
            sep@.len() > 0,
            start <= s@.len(),
            texts(r@) + seq_split_from(s@, sep@, start as int) == seq_split(s@, sep@),
        decreases s@.len() + 1 - start,
    {
        let ghost before = texts(r@);
        match find(s, sep, start) {
            None => {
                let piece = subrange(s, start, s.len());
                r.push(piece);
                assert(texts(r@) =~= before.push(piece@));
                assert(texts(r@) =~= before + seq_split_from(s@, sep@, start as int));
                return r;
            },
            Some(k) => {
                proof {
                    lemma_find_bounds(s@, sep@, start as int);
                }
                let piece = subrange(s, start, k);
                r.push(piece);
                assert(texts(r@) =~= before.push(piece@));
                assert(seq_split_from(s@, sep@, start as int) =~= seq![piece@] + seq_split_from(
                    s@,
                    sep@,
                    k + sep@.len(),
                ));
                assert(texts(r@) + seq_split_from(s@, sep@, k + sep@.len()) =~= before
                    + seq_split_from(s@, sep@, start as int));
                start = k + sep.len();
            },
        }
    }
}


/// `str::lines`.
pub fn lines(s: &Vec<char>) -> (r: Vec<Vec<char>>)
    ensures
        texts(r@) == seq_lines(s@),
{
    let nl: Vec<char> = vec!['\n'];
    assert(nl@ =~= seq!['\n']);
    let mut r: Vec<Vec<char>> = Vec::new();
    let mut start: usize = 0;
    let n: usize = s.len();
    assert(texts(r@) =~= Seq::<Seq<char>>::empty());
    loop
        invariant
            n == s@.len(),
            nl@ == seq!['\n'],
            start <= s@.len() + 1,
            texts(r@) + seq_lines_from(s@, start as int) == seq_lines(s@),
        decreases s@.len() + 1 - start,
    {
        let ghost before = texts(r@);
        if start >= n {
            assert(before + seq_lines_from(s@, start as int) =~= before);
            return r;
        }
        match find(s, &nl, start) {
            None => {
                let piece = subrange(s, start, n);
                r.push(piece);
                assert(texts(r@) =~= before.push(piece@));
                assert(texts(r@) =~= before + seq_lines_from(s@, start as int));
                return r;
            },
            Some(k) => {
                proof {
                    lemma_find_bounds(s@, nl@, start as int);
                }
                let mut piece = subrange(s, start, k);
                let ghost raw = piece@;
                let len: usize = piece.len();
                if len > 0 && piece[len - 1] == '\r' {
                    piece.pop();
                }
                assert(piece@ =~= strip_cr(raw));
                r.push(piece);
                assert(texts(r@) =~= before.push(piece@));
                assert(seq_lines_from(s@, start as int) =~= seq![piece@] + seq_lines_from(
                    s@,
                    k + 1,
                ));
                assert(texts(r@) + seq_lines_from(s@, k + 1) =~= before + seq_lines_from(
                    s@,
                    start as int,
                ));
                start = k + 1;
            },
        }
    }
}

/// `str::split_whitespace`.
pub fn words(s: &Vec<char>) -> (r: Vec<Vec<char>>)
    ensures
        texts(r@) == seq_words(s@),
{
    let mut r: Vec<Vec<char>> = Vec::new();
    let mut start: usize = 0;
    let n: usize = s.len();
    assert(texts(r@) =~= Seq::<Seq<char>>::empty());
    loop
        invariant
            n == s@.len(),
            start <= s@.len(),
            texts(r@) + seq_words_from(s@, start as int) == seq_words(s@),
        decreases s@.len() + 1 - start,
    {
        let ghost before = texts(r@);
        let a = skip_ws_from(s, start);
        proof {
            lemma_skip_ws(s@, start as int);
        }
        if a >= n {
            assert(before + seq_words_from(s@, start as int) =~= before);
            return r;
        }
        let b = skip_non_ws_from(s, a);
        proof {
            lemma_skip_non_ws(s@, a as int);
        }
        let piece = subrange(s, a, b);
        r.push(piece);
        assert(texts(r@) =~= before.push(piece@));
        assert(seq_words_from(s@, start as int) =~= seq![piece@] + seq_words_from(s@, b as int));
        assert(texts(r@) + seq_words_from(s@, b as int) =~= before + seq_words_from(
            s@,
            start as int,
        ));
        start = b;
    }
}

/// `str::split_once` with a text separator.
pub fn split_once(s: &Vec<char>, sep: &Vec<char>) -> (r: (Vec<char>, Option<Vec<char>>))
    ensures
        r.0@ == seq_split_once(s@, sep@).0,
        r.1 matches Some(t) ==> seq_split_once(s@, sep@).1 == Some(t@),
        r.1 is None ==> seq_split_once(s@, sep@).1 is None,
{
    let n: usize = s.len();
    match find(s, sep, 0) {
        None => (subrange(s, 0, n), None),
        Some(k) => {
            proof {
                lemma_find_bounds(s@, sep@, 0);
            }
            (subrange(s, 0, k), Some(subrange(s, k + sep.len(), n)))
        },
    }
}

proof fn lemma_digits_extend(s: Seq<char>, start: int, i: int)
    requires
        0 <= start <= i < s.len(),
        all_digits(s.subrange(start, i)),
        is_digit(s[i]),
    ensures
        all_digits(s.subrange(start, i + 1)),
        digits_value(s.subrange(start, i)) >= 0,
        digits_value(s.subrange(start, i + 1)) == digits_value(s.subrange(start, i)) * 10
            + digit_value(s[i]),
{
    let prev = s.subrange(start, i);
    let next = s.subrange(start, i + 1);
    assert(next.drop_last() =~= prev);
    assert(next.last() == s[i]);
    assert forall|j: int| 0 <= j < next.len() implies is_digit(#[trigger] next[j]) by {
        if j < prev.len() {
            assert(next[j] == prev[j]);
        }
    }
    lemma_digits_value_nonneg(prev);
}

/// `i32::from_str`.
pub fn parse_i32(s: &Vec<char>) -> (r: Option<i32>)
    ensures
        r == seq_parse_i32(s@),
{
    let n: usize = s.len();
    if n == 0 {
        return None;
    }
    let negative: bool = s[0] == '-';
    let start: usize = if s[0] == '+' || s[0] == '-' {
        1
    } else {
        0
    };
    let ghost ds = if start == 1 {
        s@.drop_first()
    } else {
        s@
    };
    assert(ds =~= s@.subrange(start as int, n as int));
    if start == n {
        return None;
    }
    // The magnitude read so far, held at `cap` once it is beyond any `i32`.

    let cap: u64 = 2147483649;
    let mut acc: u64 = 0;
    let mut i: usize = start;
    assert(s@.subrange(start as int, start as int) =~= Seq::<char>::empty());
    while i < n
        invariant
            n == s@.len(),
            start <= i <= n,
            ds == s@.subrange(start as int, n as int),
            ds == (if s@[0] == '+' || s@[0] == '-' { s@.drop_first() } else { s@ }),
            n > 0,
            cap == 2147483649,
            all_digits(s@.subrange(start as int, i as int)),
            digits_value(s@.subrange(start as int, i as int)) >= cap ==> acc == cap,
            digits_value(s@.subrange(start as int, i as int)) < cap ==> acc == digits_value(
                s@.subrange(start as int, i as int),
            ),
        decreases n - i,
    {
        let c: char = s[i];
        let u: u32 = c as u32;
        if u < 48 || u > 57 {
            assert(ds[i - start] == c);
            assert(!all_digits(ds));
            return None;
        }
        proof {
            lemma_digits_extend(s@, start as int, i as int);
        }
        acc = acc * 10 + (u - 48) as u64;
        if acc > cap {
            acc = cap;
        }
        i = i + 1;
    }
    assert(s@.subrange(start as int, n as int) =~= ds);
    proof {
        lemma_digits_value_nonneg(ds);
    }
    if negative {
        if acc <= 2147483648 {
            let v: i64 = -(acc as i64);
            Some(v as i32)
        } else {
            None
        }
    } else {
        if acc <= 2147483647 {
            Some(acc as i32)
        } else {
            None
        }
    }
}

/// The ASCII digit for `d` in `0..10`.
fn digit_to_char(d: u32) -> (c: char)
    requires
        d < 10,
    ensures
        c == digit_char(d as int),
{
    let b: u8 = d as u8 + 48;
    b as char
}

/// The decimal notation of a natural number.
fn nat_to_decimal(n: u32) -> (r: Vec<char>)
    ensures
        r@ == nat_decimal(n as nat),
    decreases n,
{
    if n < 10 {
        let v: Vec<char> = vec![digit_to_char(n)];
        assert(v@ =~= nat_decimal(n as nat));
        v
    } else {
        let mut v = nat_to_decimal(n / 10);
        v.push(digit_to_char(n % 10));
        v
    }
}

/// `i32::to_string`: the decimal notation of `n`.
pub fn decimal_i32(n: i32) -> (r: Vec<char>)
    ensures
        r@ == int_decimal(n as int),
{
    if n < 0 {
        let m: i64 = -(n as i64);
        let mut v: Vec<char> = vec!['-'];
        let digits = nat_to_decimal(m as u32);
        let k: usize = digits.len();
        for i in 0..k
            invariant
                k == digits@.len(),
                v@ == seq!['-'] + digits@.take(i as int),
        {
            v.push(digits[i]);
            assert(digits@.take(i + 1) =~= digits@.take(i as int).push(digits@[i as int]));
            assert(v@ =~= seq!['-'] + digits@.take(i + 1));
        }
        assert(digits@.take(k as int) =~= digits@);
        v
    } else {
        nat_to_decimal(n as u32)
    }
}

} // verus!
