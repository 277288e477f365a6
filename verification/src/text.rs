//! Text as sequences of characters: comparison, trimming, suffixes and
//! single-character edits. Every offset in this module counts characters.

use crate::inputs::key::Key;
use vstd::prelude::*;
use vstd::string::*;

verus! {

/// The characters that count as blank when a text is trimmed: the code
/// points with the Unicode property White_Space.
pub open spec fn is_white_space(c: char) -> bool {
    let n = c as u32;
    ||| 0x09 <= n <= 0x0D
    ||| n == 0x20
    ||| n == 0x85
    ||| n == 0xA0
    ||| n == 0x1680
    ||| 0x2000 <= n <= 0x200A
    ||| n == 0x2028
    ||| n == 0x2029
    ||| n == 0x202F
    ||| n == 0x205F
    ||| n == 0x3000
}

/// The set of blank characters.
pub open spec fn white_space() -> Set<char> {
    Set::new(|c: char| is_white_space(c))
}

/// The set that holds the double quote alone.
pub open spec fn quote() -> Set<char> {
    Set::new(|c: char| c == '"')
}

/// `s` without its longest prefix made of characters of `cut`.
pub open spec fn skip_leading(s: Seq<char>, cut: Set<char>) -> Seq<char>
    decreases s.len(),
{
    if s.len() > 0 && cut.contains(s[0]) {
        skip_leading(s.drop_first(), cut)
    } else {
        s
    }
}

/// `s` without its longest suffix made of characters of `cut`.
pub open spec fn skip_trailing(s: Seq<char>, cut: Set<char>) -> Seq<char>
    decreases s.len(),
{
    if s.len() > 0 && cut.contains(s.last()) {
        skip_trailing(s.drop_last(), cut)
    } else {
        s
    }
}

/// `s` with the characters of `cut` removed from both ends.
pub open spec fn strip(s: Seq<char>, cut: Set<char>) -> Seq<char> {
    skip_trailing(skip_leading(s, cut), cut)
}

/// `s` without leading and trailing blanks.
pub open spec fn trimmed(s: Seq<char>) -> Seq<char> {
    strip(s, white_space())
}

/// `s` without leading and trailing double quotes.
pub open spec fn unquoted(s: Seq<char>) -> Seq<char> {
    strip(s, quote())
}

/// `s` without the suffix `suffix`, where it ends with it; else `s`.
pub open spec fn without_suffix(s: Seq<char>, suffix: Seq<char>) -> Seq<char> {
    if suffix.is_suffix_of(s) {
        s.subrange(0, s.len() - suffix.len())
    } else {
        s
    }
}

/// The part of `s` before its first occurrence of `stop`; all of `s` where
/// `stop` does not occur.
pub open spec fn before_first(s: Seq<char>, stop: char) -> Seq<char>
    decreases s.len(),
{
    if s.len() == 0 || s[0] == stop {
        Seq::empty()
    } else {
        seq![s[0]] + before_first(s.drop_first(), stop)
    }
}

proof fn lemma_skip_leading_head(s: Seq<char>, cut: Set<char>)
    ensures
        skip_leading(s, cut).len() == 0 || !cut.contains(skip_leading(s, cut)[0]),
    decreases s.len(),
{
    if s.len() > 0 && cut.contains(s[0]) {
        lemma_skip_leading_head(s.drop_first(), cut);
    }
}

proof fn lemma_skip_trailing_tail(s: Seq<char>, cut: Set<char>)
    ensures
        skip_trailing(s, cut).len() == 0 || !cut.contains(skip_trailing(s, cut).last()),
        skip_trailing(s, cut).is_prefix_of(s),
    decreases s.len(),
{
    if s.len() > 0 && cut.contains(s.last()) {
        lemma_skip_trailing_tail(s.drop_last(), cut);
    }
}

/// What is stripped has no character of `cut` at either end, so that to
/// strip it again changes nothing.
pub proof fn lemma_strip_twice(s: Seq<char>, cut: Set<char>)
    ensures
        strip(strip(s, cut), cut) == strip(s, cut),
{
    let t = skip_leading(s, cut);
    let u = skip_trailing(t, cut);
    lemma_skip_leading_head(s, cut);
    lemma_skip_trailing_tail(t, cut);
    if u.len() > 0 {
        assert(u[0] == t[0]);
    }
}

/// `String::push`: appends the one character `c` to the text.
#[verifier::external_body]
pub(crate) fn push_char(s: &mut String, c: char)
    ensures
        final(s)@ == old(s)@.push(c),
{
    s.push(c);
}

/// The characters of `s`, in order.
pub fn chars_of(s: &str) -> (out: Vec<char>)
    ensures
        out@ == s@,
{
    let mut out: Vec<char> = Vec::new();
    for c in it: s.chars()
        invariant
            out@ == it.seq().take(it.index() as int),
            it.seq() == s@,
    {
        out.push(c);
    }
    out
}

/// Whether `c` is a blank.
pub fn is_blank(c: char) -> (b: bool)
    ensures
        b == is_white_space(c),
{
    let n: u32 = c as u32;
    (0x09 <= n && n <= 0x0D) || n == 0x20 || n == 0x85 || n == 0xA0 || n == 0x1680 || (0x2000 <= n
        && n <= 0x200A) || n == 0x2028 || n == 0x2029 || n == 0x202F || n == 0x205F || n == 0x3000
}

/// Whether the two texts hold the same characters.
pub fn same_text(a: &str, b: &str) -> (r: bool)
    ensures
        r == (a@ == b@),
{
    let x = chars_of(a);
    let y = chars_of(b);
    if x.len() != y.len() {
        return false;
    }
    let mut i: usize = 0;
    while i < x.len()
        invariant
            i <= x.len(),
            x.len() == y.len(),
            x@ == a@,
            y@ == b@,
            x@.take(i as int) == y@.take(i as int),
        decreases x.len() - i,
    {
        if x[i] != y[i] {
            return false;
        }
        assert(x@.take(i + 1) == x@.take(i as int).push(x@[i as int]));
        assert(y@.take(i + 1) == y@.take(i as int).push(y@[i as int]));
        i += 1;
    }
    assert(x@.take(i as int) == x@);
    assert(y@.take(i as int) == y@);
    true
}

/// Whether `s` ends with `suffix`.
pub fn ends_with(s: &str, suffix: &str) -> (r: bool)
    ensures
        r == suffix@.is_suffix_of(s@),
{
    let n = s.unicode_len();
    let m = suffix.unicode_len();
    if m > n {
        return false;
    }
    let tail = s.substring_char(n - m, n);
    same_text(tail, suffix)
}

/// `s` without the suffix `suffix`, where it ends with it; else `s`.
pub fn strip_suffix(s: &str, suffix: &str) -> (out: String)
    ensures
        out@ == without_suffix(s@, suffix@),
{
    if ends_with(s, suffix) {
        let n = s.unicode_len();
        let m = suffix.unicode_len();
        String::from_str(s.substring_char(0, n - m))
    } else {
        String::from_str(s)
    }
}

spec fn cut_set(quotes: bool) -> Set<char> {
    if quotes {
        quote()
    } else {
        white_space()
    }
}

fn is_cut(c: char, quotes: bool) -> (b: bool)
    ensures
        b == cut_set(quotes).contains(c),
{
    if quotes {
        c == '"'
    } else {
        is_blank(c)
    }
}

fn strip_range(v: &Vec<char>, quotes: bool) -> (r: (usize, usize))
    ensures
        r.0 <= r.1 <= v.len(),
        v@.subrange(r.0 as int, r.1 as int) == strip(v@, cut_set(quotes)),
{
    let ghost cut = cut_set(quotes);
    let n = v.len();
    let mut a: usize = 0;
    assert(v@.subrange(0, n as int) == v@);
    while a < n && is_cut(v[a], quotes)
        invariant
            a <= n,
            n == v.len(),
            cut == cut_set(quotes),
            skip_leading(v@, cut) == skip_leading(v@.subrange(a as int, n as int), cut),
        decreases n - a,
    {
        assert(v@.subrange(a as int, n as int).drop_first() == v@.subrange(a + 1, n as int));
        a += 1;
    }
    let mut b: usize = n;
    while b > a && is_cut(v[b - 1], quotes)
        invariant
            a <= b <= n,
            n == v.len(),
            cut == cut_set(quotes),
            strip(v@, cut) == skip_trailing(v@.subrange(a as int, b as int), cut),
        decreases b - a,
    {
        assert(v@.subrange(a as int, b as int).drop_last() == v@.subrange(a as int, b - 1));
        b -= 1;
    }
    (a, b)
}

/// `s` without leading and trailing blanks.
pub fn trim(s: &str) -> (out: String)
    ensures
        out@ == trimmed(s@),
{
    let v = chars_of(s);
    let (a, b) = strip_range(&v, false);
    String::from_str(s.substring_char(a, b))
}

/// `s` without leading and trailing double quotes.
pub fn trim_quotes(s: &str) -> (out: String)
    ensures
        out@ == unquoted(s@),
{
    let v = chars_of(s);
    let (a, b) = strip_range(&v, true);
    String::from_str(s.substring_char(a, b))
}

/// Whether `s` holds nothing but blanks.
pub fn is_blank_text(s: &str) -> (r: bool)
    ensures
        r == (trimmed(s@).len() == 0),
{
    let v = chars_of(s);
    let (a, b) = strip_range(&v, false);
    a == b
}

/// The part of `s` before its first `stop`.
pub fn prefix_before(s: &str, stop: char) -> (out: String)
    ensures
        out@ == before_first(s@, stop),
{
    let v = chars_of(s);
    let n = v.len();
    let mut i: usize = 0;
    assert(v@.subrange(0, n as int) == v@);
    while i < n && v[i] != stop
        invariant
            i <= n,
            n == v.len(),
            before_first(v@, stop) == v@.subrange(0, i as int) + before_first(
                v@.subrange(i as int, n as int),
                stop,
            ),
        decreases n - i,
    {
        assert(v@.subrange(i as int, n as int).drop_first() == v@.subrange(i + 1, n as int));
        assert(v@.subrange(0, i + 1) == v@.subrange(0, i as int) + seq![v@[i as int]]);
        i += 1;
    }
    String::from_str(s.substring_char(0, i))
}

/// `s` with `c` put in before the character at offset `at`.
pub fn insert_char(s: &str, at: usize, c: char) -> (out: String)
    requires
        at <= s@.len(),
    ensures
        out@ == s@.insert(at as int, c),
{
    let n = s.unicode_len();
    let mut out = String::from_str(s.substring_char(0, at));
    push_char(&mut out, c);
    out.append(s.substring_char(at, n));
    out
}

/// `s` without the character at offset `at`.
pub fn remove_char(s: &str, at: usize) -> (out: String)
    requires
        at < s@.len(),
    ensures
        out@ == s@.remove(at as int),
{
    let n = s.unicode_len();
    let mut out = String::from_str(s.substring_char(0, at));
    out.append(s.substring_char(at + 1, n));
    out
}

/// A text under edit and its cursor. The cursor is an offset in
/// characters, or `None` where the text has none.
pub ghost struct Line {
    pub text: Seq<char>,
    pub cursor: Option<usize>,
}

impl Line {
    /// The cursor, if there is one, is at a character of the text or just
    /// behind the last one.
    pub open spec fn in_bounds(self) -> bool {
        match self.cursor {
            Some(c) => c <= self.text.len(),
            None => true,
        }
    }

    /// The offset at which an edit takes place: the cursor, brought back
    /// to the end of the text where it lies beyond it, and the start of
    /// the text where there is no cursor.
    pub open spec fn offset(self) -> int {
        match self.cursor {
            Some(c) => if c <= self.text.len() {
                c as int
            } else {
                self.text.len() as int
            },
            None => 0,
        }
    }

    /// The line with its cursor, if it has one, brought back into the
    /// text.
    pub open spec fn settled(self) -> Line {
        match self.cursor {
            Some(_) => Line { cursor: Some(self.offset() as usize), ..self },
            None => self,
        }
    }

    /// The line after `c` was typed: `c` stands at the offset, the cursor
    /// behind it.
    pub open spec fn typed(self, c: char) -> Line {
        Line {
            text: self.text.insert(self.offset(), c),
            cursor: Some((self.offset() + 1) as usize),
        }
    }

    /// The line after the character before the cursor was erased. With
    /// the cursor at the start nothing is erased. Without a cursor the
    /// last character goes.
    pub open spec fn erased(self) -> Line {
        match self.cursor {
            Some(_) => if self.offset() > 0 {
                Line {
                    text: self.text.remove(self.offset() - 1),
                    cursor: Some((self.offset() - 1) as usize),
                }
            } else {
                Line { cursor: Some(0), ..self }
            },
            None => if self.text.len() > 0 {
                Line { text: self.text.drop_last(), ..self }
            } else {
                self
            },
        }
    }

    /// The line with the cursor one character to the left, if there is
    /// one.
    pub open spec fn left(self) -> Line {
        if self.offset() > 0 {
            Line { cursor: Some((self.offset() - 1) as usize), ..self }
        } else {
            self.settled()
        }
    }

    /// The line with the cursor one character to the right, if there is
    /// one.
    pub open spec fn right(self) -> Line {
        if self.offset() < self.text.len() {
            Line { cursor: Some((self.offset() + 1) as usize), ..self }
        } else {
            self.settled()
        }
    }

    /// The line with the cursor at the start.
    pub open spec fn home(self) -> Line {
        Line { cursor: Some(0), ..self }
    }

    /// The line with the cursor behind the last character.
    pub open spec fn end(self) -> Line {
        Line { cursor: Some(self.text.len() as usize), ..self }
    }

    /// The line after the chord `key` was pressed over it. A chord that
    /// neither types nor erases nor moves leaves the text as it is.
    pub open spec fn pressed(self, key: Key) -> Line {
        match key {
            Key::Backspace => self.erased(),
            Key::Left => self.left(),
            Key::Right => self.right(),
            Key::Home => self.home(),
            Key::End => self.end(),
            _ => match key.glyph() {
                Some(c) => self.typed(c),
                None => self.settled(),
            },
        }
    }

    /// The line after the chords of `keys` were pressed over it, one
    /// after the other.
    pub open spec fn pressed_all(self, keys: Seq<Key>) -> Line
        decreases keys.len(),
    {
        if keys.len() == 0 {
            self
        } else {
            self.pressed_all(keys.drop_last()).pressed(keys.last())
        }
    }

    /// Whatever the line and the chord, after the chord the cursor is in
    /// the text.
    pub proof fn lemma_pressed_in_bounds(self, key: Key)
        requires
            self.text.len() < usize::MAX,
        ensures
            self.pressed(key).in_bounds(),
    {
    }

    /// A cursor that is in the text stays in it through any sequence of
    /// chords.
    pub proof fn lemma_pressed_all_in_bounds(self, keys: Seq<Key>)
        requires
            self.in_bounds(),
            self.text.len() + keys.len() <= usize::MAX,
        ensures
            self.pressed_all(keys).in_bounds(),
            self.pressed_all(keys).text.len() <= self.text.len() + keys.len(),
        decreases keys.len(),
    {
        if keys.len() > 0 {
            self.lemma_pressed_all_in_bounds(keys.drop_last());
            self.pressed_all(keys.drop_last()).lemma_pressed_in_bounds(keys.last());
        }
    }
}

/// The text and the cursor after the chord `key` was pressed over them.
pub fn press(text: &str, cursor: Option<usize>, key: Key) -> (out: (String, Option<usize>))
    ensures
        (Line { text: out.0@, cursor: out.1 }) == (Line { text: text@, cursor }).pressed(key),
        (Line { text: out.0@, cursor: out.1 }).in_bounds(),
{
    let ghost line = Line { text: text@, cursor };
    let n = text.unicode_len();
    let at: usize = match cursor {
        Some(c) => if c <= n {
            c
        } else {
            n
        },
        None => 0,
    };
    let settled: Option<usize> = match cursor {
        Some(_) => Some(at),
        None => None,
    };
    assert(at == line.offset());
    match key {
        Key::Backspace => match cursor {
            Some(_) => if at > 0 {
                (remove_char(text, at - 1), Some(at - 1))
            } else {
                (String::from_str(text), Some(0))
            },
            None => if n > 0 {
                let out = String::from_str(text.substring_char(0, n - 1));
                assert(text@.subrange(0, n - 1) == text@.drop_last());
                (out, None)
            } else {
                (String::from_str(text), None)
            },
        },
        Key::Left => if at > 0 {
            (String::from_str(text), Some(at - 1))
        } else {
            (String::from_str(text), settled)
        },
        Key::Right => if at < n {
            (String::from_str(text), Some(at + 1))
        } else {
            (String::from_str(text), settled)
        },
        Key::Home => (String::from_str(text), Some(0)),
        Key::End => (String::from_str(text), Some(n)),
        _ => match key.typed() {
            Some(c) => {
                let out = insert_char(text, at, c);
                let longer = out.as_str().unicode_len();
                assert(longer == n + 1);
                (out, Some(at + 1))
            },
            None => (String::from_str(text), settled),
        },
    }
}

} // verus!
