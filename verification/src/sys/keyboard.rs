//! Keyboard layout family detection (AZERTY or QWERTY), which decides the key
//! that types `%`.
use crate::text::{
    chars_of, lemma_find_bounds, lemma_find_reaches, lines, rskip_char, same_text, seq_find, seq_lines, seq_lines_from, skip_char, strip_cr, seq_starts_with, seq_strip_prefix, seq_trim, seq_trim_char,
    starts_with, string_of, strip_prefix, texts, trim, trim_char,
};
use vstd::prelude::*;

verus! {

/// Represents the detected keyboard layout family.
#[derive(Debug, PartialEq)]
pub enum KeyboardLayout {
    /// French and Belgian AZERTY layout: keymaps starting with `"fr"` or `"be"`.
    Azerty,
    /// English QWERTY layout.
    Qwerty,
    /// Layout could not be mapped to a known family. Contains the raw keymap
    /// string, or `"undetected"` if no keymap source was available.
    Unknown(String),
}

/// A keyboard layout family as plain values.
pub enum KeyboardLayoutView {
    Azerty,
    Qwerty,
    Unknown(Seq<char>),
}

impl View for KeyboardLayout {
    type V = KeyboardLayoutView;

    open spec fn view(&self) -> KeyboardLayoutView {
        match self {
            KeyboardLayout::Azerty => KeyboardLayoutView::Azerty,
            KeyboardLayout::Qwerty => KeyboardLayoutView::Qwerty,
            KeyboardLayout::Unknown(s) => KeyboardLayoutView::Unknown(s@),
        }
    }
}

/// The family of a raw keymap name: prefix `fr` or `be` is AZERTY (checked
/// first), `undetected` or the empty name is unknown, anything else QWERTY.
pub open spec fn keymap_layout(k: Seq<char>) -> KeyboardLayoutView {
    if seq_starts_with(k, "fr"@) || seq_starts_with(k, "be"@) {
        KeyboardLayoutView::Azerty
    } else if k == "undetected"@ || k.len() == 0 {
        KeyboardLayoutView::Unknown(k)
    } else {
        KeyboardLayoutView::Qwerty
    }
}

/// The keymap of the first line from index `i` on that starts with `KEYMAP=`:
/// the rest of the line without surrounding `"`, then without surrounding `'`.
pub open spec fn vconsole_keymap(ls: Seq<Seq<char>>, i: int) -> Option<Seq<char>>
    decreases ls.len() - i,
{
    if i < 0 || i >= ls.len() {
        None
    } else {
        match seq_strip_prefix(ls[i], "KEYMAP="@) {
            Some(v) => Some(seq_trim_char(seq_trim_char(v, '"'), '\'')),
            None => vconsole_keymap(ls, i + 1),
        }
    }
}

/// The keymap of the first line from index `i` on that, once trimmed, starts
/// with `X11 Layout:` or `VC Keymap:`: the trimmed rest of that line.
pub open spec fn localectl_keymap(ls: Seq<Seq<char>>, i: int) -> Option<Seq<char>>
    decreases ls.len() - i,
{
    if i < 0 || i >= ls.len() {
        None
    } else {
        let t = seq_trim(ls[i]);
        match seq_strip_prefix(t, "X11 Layout:"@) {
            Some(v) => Some(seq_trim(v)),
            None => match seq_strip_prefix(t, "VC Keymap:"@) {
                Some(v) => Some(seq_trim(v)),
                None => localectl_keymap(ls, i + 1),
            },
        }
    }
}

/// Trimming `c` off a text that neither starts nor ends with `c` keeps it.
proof fn lemma_trim_char_keeps(s: Seq<char>, c: char)
    requires
        s.len() > 0 ==> s[0] != c && s.last() != c,
    ensures
        seq_trim_char(s, c) == s,
{
    if s.len() > 0 {
        assert(s.subrange(0, s.len() as int) =~= s);
    } else {
        assert(seq_trim_char(s, c) =~= s);
    }
}

/// Trimming `c` off `c k c`, where `k` neither starts nor ends with `c`,
/// gives `k`.
proof fn lemma_trim_char_quoted(k: Seq<char>, c: char)
    requires
        k.len() > 0 ==> k[0] != c && k.last() != c,
    ensures
        seq_trim_char(seq![c] + k + seq![c], c) == k,
{
    let s = seq![c] + k + seq![c];
    let n = s.len() as int;
    assert(s[0] == c);
    assert(s[n - 1] == c);
    if k.len() > 0 {
        assert(s[1] == k[0]);
        assert(s[n - 2] == k.last());
        assert(skip_char(s, c, 1) == 1);
        assert(rskip_char(s, c, n - 1) == n - 1);
        assert(s.subrange(1, n - 1) =~= k);
    } else {
        assert(s[1] == c);
        assert(skip_char(s, c, 2) == 2);
        assert(skip_char(s, c, 1) == 2);
        assert(rskip_char(s, c, 0) == 0);
        assert(rskip_char(s, c, 1) == 0);
        assert(seq_trim_char(s, c) =~= k);
    }
}

/// A non-empty text without `\n` is one line, and so is that text followed
/// by `\n` (less a `\r` at its end).
proof fn lemma_one_line(s: Seq<char>)
    requires
        s.len() > 0,
        forall|i: int| 0 <= i < s.len() ==> s[i] != '\n',
    ensures
        seq_lines(s) == seq![s],
        seq_lines(s + seq!['\n']) == seq![strip_cr(s)],
{
    let nl = seq!['\n'];
    lemma_find_bounds(s, nl, 0);
    if let Some(j) = seq_find(s, nl, 0) {
        assert(s.subrange(j, j + 1)[0] == s[j]);
    }
    assert(s.subrange(0, s.len() as int) =~= s);
    let t = s + nl;
    let n = s.len() as int;
    assert(t.subrange(n, n + 1) =~= nl);
    lemma_find_reaches(t, nl, 0, n);
    lemma_find_bounds(t, nl, 0);
    if let Some(j) = seq_find(t, nl, 0) {
        assert(t.subrange(j, j + 1)[0] == t[j]);
        if j < n {
            assert(t[j] == s[j]);
        }
        assert(j == n);
        assert(t.subrange(0, n) =~= s);
        assert(seq_lines_from(t, n + 1) =~= Seq::<Seq<char>>::empty());
    }
}

/// The keymap of a `KEYMAP=` line comes without the quotes around it, single
/// or double: for a keymap name `k` on one line that neither starts nor ends
/// with a quote, `KEYMAP=k`, `KEYMAP="k"` and `KEYMAP='k'` all give `k`, so
/// they name the same layout family; with a final newline too, unless `k`
/// ends in `\r` (a `\r\n` line ending).
pub proof fn law_vconsole_quotes_removed(k: Seq<char>, q: Seq<char>)
    requires
        q == Seq::<char>::empty() || q == seq!['"'] || q == seq!['\''],
        forall|i: int| 0 <= i < k.len() ==> k[i] != '\n',
        k.len() > 0 ==> k[0] != '"' && k[0] != '\'' && k.last() != '"' && k.last() != '\'',
    ensures
        vconsole_keymap(seq_lines("KEYMAP="@ + q + k + q), 0) == Some(k),
        (k.len() > 0 ==> k.last() != '\r') ==> vconsole_keymap(
            seq_lines("KEYMAP="@ + q + k + q + seq!['\n']),
            0,
        ) == Some(k),
{
    reveal_strlit("KEYMAP=");
    let p = "KEYMAP="@;
    let v = q + k + q;
    let line = p + v;
    assert(forall|i: int| 0 <= i < line.len() ==> line[i] != '\n') by {
        assert forall|i: int| 0 <= i < line.len() implies line[i] != '\n' by {
            if i < 7 {
                assert(line[i] == p[i]);
            } else if i < 7 + q.len() {
                assert(line[i] == q[i - 7]);
            } else if i < 7 + q.len() + k.len() {
                assert(line[i] == k[i - 7 - q.len()]);
            } else {
                assert(line[i] == q[i - 7 - q.len() - k.len()]);
            }
        }
    }
    assert(line.subrange(0, 7) =~= p);
    assert(line.subrange(7, line.len() as int) =~= v);
    assert(seq_strip_prefix(line, p) == Some(v));
    if q.len() == 0 {
        assert(v =~= k);
        lemma_trim_char_keeps(k, '"');
        lemma_trim_char_keeps(k, '\'');
    } else if q == seq!['"'] {
        assert(v =~= seq!['"'] + k + seq!['"']);
        lemma_trim_char_quoted(k, '"');
        lemma_trim_char_keeps(k, '\'');
    } else {
        assert(v =~= seq!['\''] + k + seq!['\'']);
        assert(v.len() > 0 && v[0] == '\'' && v.last() == '\'');
        lemma_trim_char_keeps(v, '"');
        lemma_trim_char_quoted(k, '\'');
    }
    assert(seq_trim_char(seq_trim_char(v, '"'), '\'') == k);
    lemma_one_line(line);
    assert(vconsole_keymap(seq![line], 0) == Some(k));
    assert("KEYMAP="@ + q + k + q =~= line);
    if k.len() > 0 ==> k.last() != '\r' {
        let n = line.len() as int;
        if q.len() > 0 {
            assert(line[n - 1] == q[0]);
        } else if k.len() > 0 {
            assert(line[n - 1] == k.last());
        } else {
            assert(line[n - 1] == p[6]);
        }
        assert(strip_cr(line) == line);
        assert("KEYMAP="@ + q + k + q + seq!['\n'] =~= line + seq!['\n']);
    }
}

/// Only the first `KEYMAP=` line counts: the lines before it, none of which
/// starts with `KEYMAP=`, are passed over, and the lines after it are never
/// read.
pub proof fn law_vconsole_first_keymap_line(
    pre: Seq<Seq<char>>,
    l: Seq<char>,
    post: Seq<Seq<char>>,
)
    requires
        forall|i: int| 0 <= i < pre.len() ==> !seq_starts_with(#[trigger] pre[i], "KEYMAP="@),
        seq_starts_with(l, "KEYMAP="@),
    ensures
        vconsole_keymap(pre + seq![l] + post, 0) == vconsole_keymap(seq![l], 0),
{
    let all = pre + seq![l] + post;
    let n = pre.len() as int;
    assert(all[n] == l);
    assert(seq![l][0] == l);
    assert(seq_strip_prefix(l, "KEYMAP="@) is Some);
    lemma_vconsole_skips(all, n, 0);
}

/// From `i` on, lines up to index `n` that do not start with `KEYMAP=` are
/// passed over.
proof fn lemma_vconsole_skips(ls: Seq<Seq<char>>, n: int, i: int)
    requires
        0 <= i <= n < ls.len(),
        forall|j: int| i <= j < n ==> !seq_starts_with(#[trigger] ls[j], "KEYMAP="@),
    ensures
        vconsole_keymap(ls, i) == vconsole_keymap(ls, n),
    decreases n - i,
{
    if i < n {
        assert(!seq_starts_with(ls[i], "KEYMAP="@));
        lemma_vconsole_skips(ls, n, i + 1);
    }
}

impl KeyboardLayout {
    /// Maps a raw keymap string to a [`KeyboardLayout`] variant.
    ///
    /// Matching is prefix-based and case-sensitive:
    ///
    /// | Condition                        | Returned variant    |
    /// |----------------------------------|---------------------|
    /// | Starts with `"fr"` or `"be"`     | `Azerty`            |
    /// | `"undetected"` or empty string   | `Unknown(keymap)`   |
    /// | Anything else                    | `Qwerty`            |
    pub fn from_keymap(keymap: &str) -> (r: Self)
        ensures
            r@ == keymap_layout(keymap@),
    {
        let k = chars_of(keymap);
        if starts_with(&k, &chars_of("fr")) || starts_with(&k, &chars_of("be")) {
            KeyboardLayout::Azerty
        } else if keymap.is_empty() || same_text(&k, &chars_of("undetected")) {
            KeyboardLayout::Unknown(string_of(k.as_slice()))
        } else {
            KeyboardLayout::Qwerty
        }
    }

    /// The layout named by the `KEYMAP=` line of the text of
    /// `/etc/vconsole.conf`, if it has one.
    pub fn from_vconsole(content: &str) -> (r: Option<Self>)
        ensures
            match vconsole_keymap(seq_lines(content@), 0) {
                Some(k) => r matches Some(l) && l@ == keymap_layout(k),
                None => r is None,
            },
    {
        let ls = lines(&chars_of(content));
        let prefix = chars_of("KEYMAP=");
        let n: usize = ls.len();
        let mut i: usize = 0;
        while i < n
            invariant
                n == ls@.len(),
                prefix@ == "KEYMAP="@,
                i <= n,
                texts(ls@) == seq_lines(content@),
                vconsole_keymap(texts(ls@), 0) == vconsole_keymap(texts(ls@), i as int),
            decreases n - i,
        {
            assert(texts(ls@)[i as int] == ls@[i as int]@);
            if let Some(v) = strip_prefix(&ls[i], &prefix) {
                let k = trim_char(&trim_char(&v, '"'), '\'');
                let s = string_of(k.as_slice());
                return Some(KeyboardLayout::from_keymap(s.as_str()));
            }
            i = i + 1;
        }
        None
    }

    /// The layout named by the `X11 Layout:` or `VC Keymap:` line of the
    /// output of `localectl status`, whichever comes first, if there is one.
    pub fn from_localectl(output: &str) -> (r: Option<Self>)
        ensures
            match localectl_keymap(seq_lines(output@), 0) {
                Some(k) => r matches Some(l) && l@ == keymap_layout(k),
                None => r is None,
            },
    {
        let ls = lines(&chars_of(output));
        let x11 = chars_of("X11 Layout:");
        let vc = chars_of("VC Keymap:");
        let n: usize = ls.len();
        let mut i: usize = 0;
        while i < n
            invariant
                n == ls@.len(),
                x11@ == "X11 Layout:"@,
                vc@ == "VC Keymap:"@,
                i <= n,
                texts(ls@) == seq_lines(output@),
                localectl_keymap(texts(ls@), 0) == localectl_keymap(texts(ls@), i as int),
            decreases n - i,
        {
            assert(texts(ls@)[i as int] == ls@[i as int]@);
            let t = trim(&ls[i]);
            if let Some(v) = strip_prefix(&t, &x11) {
                let s = string_of(trim(&v).as_slice());
                return Some(KeyboardLayout::from_keymap(s.as_str()));
            }
            if let Some(v) = strip_prefix(&t, &vc) {
                let s = string_of(trim(&v).as_slice());
                return Some(KeyboardLayout::from_keymap(s.as_str()));
            }
            i = i + 1;
        }
        None
    }

    /// The layout when no keymap source could be read: `Unknown("undetected")`.
    pub fn undetected() -> (r: Self)
        ensures
            r@ == KeyboardLayoutView::Unknown("undetected"@),
    {
        KeyboardLayout::Unknown(String::from_str("undetected"))
    }
}

} // verus!
