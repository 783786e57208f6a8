//! Text as a sequence of characters.

use vstd::prelude::*;
use vstd::slice::slice_subrange;

verus! {

/// The characters of a text, in order.
pub fn chars_of(s: &str) -> (chars: Vec<char>)
    ensures
        chars@ == s@,
{
    let mut chars: Vec<char> = Vec::new();
    for c in it: s.chars()
        invariant
            chars@ == it.seq().take(it.index() as int),
            it.seq() == s@,
    {
        chars.push(c);
        assert(it.seq().take(it.index() + 1) == it.seq().take(it.index() as int).push(c));
    }
    chars
}

/// The text that a run of characters spells.
pub fn text_of(chars: &[char]) -> (s: String)
    ensures
        s@ == chars@,
{
    let mut s: String = String::new();
    let mut i: usize = 0;
    while i < chars.len()
        invariant
            i <= chars@.len(),
            s@ == chars@.take(i as int),
        decreases chars@.len() - i,
    {
        s.push(chars[i]);
        i += 1;
        assert(chars@.take(i as int) == chars@.take(i - 1).push(chars@[i - 1]));
    }
    assert(chars@.take(i as int) == chars@);
    s
}

/// The texts that a list of strings holds.
pub open spec fn texts(list: Seq<String>) -> Seq<Seq<char>> {
    Seq::new(list.len(), |i: int| list[i]@)
}

/// Whether two texts are the same.
pub fn same_text(a: &[char], b: &[char]) -> (same: bool)
    ensures
        same == (a@ == b@),
{
    if a.len() != b.len() {
        return false;
    }
    let mut i: usize = 0;
    while i < a.len()
        invariant
            i <= a@.len() == b@.len(),
            a@.take(i as int) == b@.take(i as int),
        decreases a@.len() - i,
    {
        if a[i] != b[i] {
            assert(a@[i as int] != b@[i as int]);
            return false;
        }
        assert(a@.take(i + 1) == a@.take(i as int).push(a@[i as int]));
        assert(b@.take(i + 1) == b@.take(i as int).push(b@[i as int]));
        i += 1;
    }
    assert(a@.take(i as int) == a@);
    assert(b@.take(i as int) == b@);
    true
}

/// Whether two texts are the same.
pub fn str_eq(a: &str, b: &str) -> (same: bool)
    ensures
        same == (a@ == b@),
{
    let x = chars_of(a);
    let y = chars_of(b);
    same_text(x.as_slice(), y.as_slice())
}

// ---------------------------------------------------------------------------
// White space
// ---------------------------------------------------------------------------

/// Whether `c` has the Unicode `White_Space` property.
pub open spec fn is_space(c: char) -> bool {
    ||| '\u{0009}' <= c <= '\u{000D}'
    ||| c == ' '
    ||| c == '\u{0085}'
    ||| c == '\u{00A0}'
    ||| c == '\u{1680}'
    ||| '\u{2000}' <= c <= '\u{200A}'
    ||| c == '\u{2028}'
    ||| c == '\u{2029}'
    ||| c == '\u{202F}'
    ||| c == '\u{205F}'
    ||| c == '\u{3000}'
}

/// `s` without the white space it starts with.
pub open spec fn trim_start(s: Seq<char>) -> Seq<char>
    decreases s.len(),
{
    if s.len() > 0 && is_space(s[0]) {
        trim_start(s.drop_first())
    } else {
        s
    }
}

/// `s` without the white space it ends with.
pub open spec fn trim_end(s: Seq<char>) -> Seq<char>
    decreases s.len(),
{
    if s.len() > 0 && is_space(s.last()) {
        trim_end(s.drop_last())
    } else {
        s
    }
}

/// `s` without the white space around it.
pub open spec fn trim(s: Seq<char>) -> Seq<char> {
    trim_end(trim_start(s))
}

/// How many characters `s` starts with that are no white space.
pub open spec fn word_len(s: Seq<char>) -> nat
    decreases s.len(),
{
    if s.len() > 0 && !is_space(s[0]) {
        1 + word_len(s.drop_first())
    } else {
        0
    }
}

/// The words of `s`: its longest runs without white space, in order.
pub open spec fn words(s: Seq<char>) -> Seq<Seq<char>>
    decreases s.len(),
{
    proof {
        lemma_trim_start_len(s);
        lemma_word_len(trim_start(s));
    }
    let t = trim_start(s);
    if t.len() == 0 {
        seq![]
    } else {
        seq![t.take(word_len(t) as int)] + words(t.skip(word_len(t) as int))
    }
}

pub proof fn lemma_trim_start_len(s: Seq<char>)
    ensures
        trim_start(s).len() <= s.len(),
        trim_start(s).len() > 0 ==> !is_space(trim_start(s)[0]),
        trim_start(s) == s.skip(s.len() - trim_start(s).len()),
    decreases s.len(),
{
    if s.len() > 0 && is_space(s[0]) {
        lemma_trim_start_len(s.drop_first());
        let t = trim_start(s);
        assert(s.drop_first().skip(s.drop_first().len() - t.len()) == s.skip(s.len() - t.len()));
    } else {
        assert(s.skip(0) == s);
    }
}

pub proof fn lemma_trim_end_len(s: Seq<char>)
    ensures
        trim_end(s).len() <= s.len(),
        trim_end(s).len() > 0 ==> !is_space(trim_end(s).last()),
        trim_end(s) == s.take(trim_end(s).len() as int),
    decreases s.len(),
{
    if s.len() > 0 && is_space(s.last()) {
        lemma_trim_end_len(s.drop_last());
        let t = trim_end(s);
        assert(s.drop_last().take(t.len() as int) == s.take(t.len() as int));
    } else {
        assert(s.take(s.len() as int) == s);
    }
}

pub proof fn lemma_word_len(s: Seq<char>)
    ensures
        word_len(s) <= s.len(),
        s.len() > 0 && !is_space(s[0]) ==> word_len(s) > 0,
    decreases s.len(),
{
    if s.len() > 0 && !is_space(s[0]) {
        lemma_word_len(s.drop_first());
    }
}

/// A text that neither starts nor ends with white space is its own trimmed form.
pub proof fn lemma_trim_is_identity(s: Seq<char>)
    requires
        s.len() > 0 ==> !is_space(s[0]) && !is_space(s.last()),
    ensures
        trim(s) == s,
{
}

/// Trimming a second time changes nothing.
pub proof fn law_trim_is_idempotent(s: Seq<char>)
    ensures
        trim(trim(s)) == trim(s),
{
    let t = trim_start(s);
    let u = trim(s);
    lemma_trim_start_len(s);
    lemma_trim_end_len(t);
    if u.len() > 0 {
        assert(u[0] == t[0]);
    }
    lemma_trim_is_identity(u);
}

/// `char::is_whitespace`.
pub fn is_whitespace(c: char) -> (b: bool)
    ensures
        b == is_space(c),
{
    ('\u{0009}' <= c && c <= '\u{000D}') || c == ' ' || c == '\u{0085}' || c == '\u{00A0}'
        || c == '\u{1680}' || ('\u{2000}' <= c && c <= '\u{200A}') || c == '\u{2028}'
        || c == '\u{2029}' || c == '\u{202F}' || c == '\u{205F}' || c == '\u{3000}'
}

/// How many characters of white space `s` starts with.
fn leading_spaces(s: &[char]) -> (n: usize)
    ensures
        n <= s@.len(),
        s@.skip(n as int) == trim_start(s@),
{
    let mut n: usize = 0;
    assert(s@.skip(0) == s@);
    while n < s.len() && is_whitespace(s[n])
        invariant
            n <= s@.len(),
            trim_start(s@.skip(n as int)) == trim_start(s@),
        decreases s@.len() - n,
    {
        assert(s@.skip(n as int).drop_first() == s@.skip(n + 1));
        n += 1;
    }
    n
}

/// `str::trim`.
pub fn trim_chars(s: &[char]) -> (t: &[char])
    ensures
        t@ == trim(s@),
{
    let from = leading_spaces(s);
    let mut to: usize = s.len();
    let ghost rest = s@.skip(from as int);
    assert(s@.subrange(from as int, to as int) == rest);
    while from < to && is_whitespace(s[to - 1])
        invariant
            from <= to <= s@.len(),
            trim_end(s@.subrange(from as int, to as int)) == trim_end(rest),
        decreases to - from,
    {
        assert(s@.subrange(from as int, to as int).drop_last() == s@.subrange(
            from as int,
            to - 1,
        ));
        to -= 1;
    }
    slice_subrange(s, from, to)
}

/// `str::trim`.
pub fn trim_text(s: &str) -> (t: String)
    ensures
        t@ == trim(s@),
{
    let chars = chars_of(s);
    text_of(trim_chars(chars.as_slice()))
}

/// `str::split_whitespace`.
pub fn split_whitespace(s: &[char]) -> (list: Vec<String>)
    ensures
        texts(list@) == words(s@),
{
    let mut list: Vec<String> = Vec::new();
    let mut at: usize = 0;
    assert(s@.skip(0) == s@);
    assert(texts(list@) + words(s@) == words(s@));
    loop
        invariant
            at <= s@.len(),
            texts(list@) + words(s@.skip(at as int)) == words(s@),
        ensures
            texts(list@) == words(s@),
        decreases s@.len() - at,
    {
        let ghost rest = s@.skip(at as int);
        let skipped = leading_spaces(slice_subrange(s, at, s.len()));
        let from: usize = at + skipped;
        let ghost t = trim_start(rest);
        assert(s@.subrange(at as int, s@.len() as int) == rest);
        assert(rest.skip(skipped as int) == s@.skip(from as int));
        if from == s.len() {
            assert(t.len() == 0);
            assert(texts(list@) + words(rest) == texts(list@));
            break;
        }
        let mut to: usize = from;
        assert(t.skip(0) == t);
        while to < s.len() && !is_whitespace(s[to])
            invariant
                from <= to <= s@.len(),
                t == s@.skip(from as int),
                word_len(t) == (to - from) + word_len(t.skip(to - from)),
            decreases s@.len() - to,
        {
            assert(t.skip(to - from)[0] == s@[to as int]);
            assert(t.skip(to - from).drop_first() == t.skip(to + 1 - from));
            to += 1;
        }
        proof {
            lemma_trim_start_len(rest);
            lemma_word_len(t);
            assert(word_len(t) == to - from) by {
                if to < s@.len() {
                    assert(t.skip(to - from)[0] == s@[to as int]);
                }
            }
        }
        let word = text_of(slice_subrange(s, from, to));
        assert(word@ == t.take(to - from));
        let ghost before = texts(list@);
        list.push(word);
        assert(texts(list@) == before.push(t.take(to - from)));
        assert(t.skip(to - from) == s@.skip(to as int));
        assert(texts(list@) + words(s@.skip(to as int)) == before + words(rest));
        at = to;
    }
    list
}

// ---------------------------------------------------------------------------
// Lines
// ---------------------------------------------------------------------------

/// Where `c` first stands in `s`, or the length of `s` where it does not.
pub open spec fn find_char(s: Seq<char>, c: char) -> nat
    decreases s.len(),
{
    if s.len() == 0 || s[0] == c {
        0
    } else {
        1 + find_char(s.drop_first(), c)
    }
}

/// `s` without the carriage return at its end, where it has one.
pub open spec fn strip_cr(s: Seq<char>) -> Seq<char> {
    if s.len() > 0 && s.last() == '\r' {
        s.drop_last()
    } else {
        s
    }
}

/// The lines of `s`. A line ends with `\n` or `\r\n`, which is no part of it; the
/// ending of the last line may be missing.
pub open spec fn lines(s: Seq<char>) -> Seq<Seq<char>>
    decreases s.len(),
{
    proof {
        lemma_find_char(s, '\n');
    }
    if s.len() == 0 {
        seq![]
    } else if find_char(s, '\n') == s.len() {
        seq![s]
    } else {
        let n = find_char(s, '\n') as int;
        seq![strip_cr(s.take(n))] + lines(s.skip(n + 1))
    }
}

pub proof fn lemma_find_char(s: Seq<char>, c: char)
    ensures
        find_char(s, c) <= s.len(),
        find_char(s, c) < s.len() ==> s[find_char(s, c) as int] == c,
        forall|i: int| 0 <= i < find_char(s, c) ==> s[i] != c,
    decreases s.len(),
{
    if s.len() > 0 && s[0] != c {
        let t = s.drop_first();
        lemma_find_char(t, c);
        assert forall|i: int| 0 <= i < find_char(s, c) implies s[i] != c by {
            if i > 0 {
                assert(t[i - 1] != c);
            }
        }
    }
}

/// Where `c` first stands in `s`, or the length of `s`.
pub fn position(s: &[char], c: char) -> (n: usize)
    ensures
        n == find_char(s@, c),
        n <= s@.len(),
{
    let mut n: usize = 0;
    assert(s@.skip(0) == s@);
    while n < s.len() && s[n] != c
        invariant
            n <= s@.len(),
            find_char(s@, c) == n + find_char(s@.skip(n as int), c),
        decreases s@.len() - n,
    {
        assert(s@.skip(n as int).drop_first() == s@.skip(n + 1));
        n += 1;
    }
    n
}

/// `str::lines`.
pub fn split_lines(s: &[char]) -> (list: Vec<String>)
    ensures
        texts(list@) == lines(s@),
{
    let mut list: Vec<String> = Vec::new();
    let mut at: usize = 0;
    assert(s@.skip(0) == s@);
    assert(texts(list@) + lines(s@) == lines(s@));
    while at < s.len()
        invariant
            at <= s@.len(),
            texts(list@) + lines(s@.skip(at as int)) == lines(s@),
        decreases s@.len() - at,
    {
        let ghost rest = s@.skip(at as int);
        let ghost before = texts(list@);
        let tail = slice_subrange(s, at, s.len());
        assert(tail@ == rest);
        let n = position(tail, '\n');
        if n == tail.len() {
            list.push(text_of(tail));
            assert(texts(list@) == before.push(rest));
            assert(before + seq![rest] == before.push(rest));
            at = s.len();
            assert(s@.skip(at as int) == Seq::<char>::empty());
            assert(texts(list@) + lines(s@.skip(at as int)) == texts(list@));
        } else {
            let end: usize = if n > 0 && tail[n - 1] == '\r' {
                n - 1
            } else {
                n
            };
            let line = slice_subrange(tail, 0, end);
            assert(line@ == strip_cr(rest.take(n as int)));
            list.push(text_of(line));
            assert(texts(list@) == before.push(line@));
            assert(rest.skip(n + 1) == s@.skip(at + n + 1));
            assert(texts(list@) + lines(s@.skip(at + n + 1)) == before + lines(rest));
            at = at + n + 1;
        }
    }
    assert(s@.skip(at as int) == Seq::<char>::empty());
    assert(texts(list@) + lines(s@.skip(at as int)) == texts(list@));
    list
}

/// `parts` one after the other, with `sep` between each two.
pub open spec fn join(parts: Seq<Seq<char>>, sep: Seq<char>) -> Seq<char>
    decreases parts.len(),
{
    if parts.len() == 0 {
        seq![]
    } else if parts.len() == 1 {
        parts[0]
    } else {
        join(parts.drop_last(), sep) + sep + parts.last()
    }
}

/// Joins `list[from..]`, with `sep` between each two.
pub fn join_from(list: &Vec<String>, from: usize, sep: &str) -> (s: String)
    requires
        from <= list@.len(),
    ensures
        s@ == join(texts(list@).skip(from as int), sep@),
{
    let mut s: String = String::new();
    let mut i: usize = from;
    let ghost all = texts(list@).skip(from as int);
    assert(s@ == join(all.take(0), sep@));
    while i < list.len()
        invariant
            from <= i <= list@.len(),
            all == texts(list@).skip(from as int),
            s@ == join(all.take(i - from), sep@),
        decreases list@.len() - i,
    {
        if i > from {
            s.append(sep);
        }
        s.append(list[i].as_str());
        i += 1;
        proof {
            let now = all.take(i - from);
            assert(now.drop_last() == all.take(i - from - 1));
            assert(now.last() == list@[i - 1]@);
            if i - from == 1 {
                assert(s@ == now[0]);
            }
        }
    }
    assert(all.take(i - from) == all);
    s
}

// ---------------------------------------------------------------------------
// Letter case and search
// ---------------------------------------------------------------------------

/// `c` in lower case, where it is an ASCII letter.
pub open spec fn lower(c: char) -> char {
    if 'A' <= c <= 'Z' {
        (c as u32 + 32) as char
    } else {
        c
    }
}

/// `s` with its ASCII letters in lower case.
pub open spec fn lowercase(s: Seq<char>) -> Seq<char> {
    s.map_values(|c: char| lower(c))
}

/// Whether `part` stands in `s` from index `i` on.
pub open spec fn stands_at(s: Seq<char>, part: Seq<char>, i: int) -> bool {
    0 <= i && i + part.len() <= s.len() && s.subrange(i, i + part.len()) == part
}

/// Whether `part` stands somewhere in `s`.
pub open spec fn has_part(s: Seq<char>, part: Seq<char>) -> bool {
    exists|i: int| stands_at(s, part, i)
}

/// `char::to_ascii_lowercase`.
pub fn lower_char(c: char) -> (l: char)
    ensures
        l == lower(c),
{
    if 'A' <= c && c <= 'Z' {
        ((c as u8) + 32u8) as char
    } else {
        c
    }
}

/// `str::to_ascii_lowercase`.
pub fn lower_chars(s: &[char]) -> (l: Vec<char>)
    ensures
        l@ == lowercase(s@),
{
    let mut l: Vec<char> = Vec::new();
    let mut i: usize = 0;
    while i < s.len()
        invariant
            i <= s@.len(),
            l@ == lowercase(s@.take(i as int)),
        decreases s@.len() - i,
    {
        l.push(lower_char(s[i]));
        i += 1;
        assert(s@.take(i as int).drop_last() == s@.take(i - 1));
        assert(l@ == lowercase(s@.take(i as int)));
    }
    assert(s@.take(i as int) == s@);
    l
}

/// Whether `part` stands in `s` from index `i` on.
fn stands(s: &[char], part: &[char], i: usize) -> (b: bool)
    requires
        i + part@.len() <= s@.len(),
    ensures
        b == stands_at(s@, part@, i as int),
{
    let len: usize = s.len();
    assert(i + part@.len() <= len);
    same_text(slice_subrange(s, i, i + part.len()), part)
}

/// `str::contains`.
pub fn contains(s: &[char], part: &[char]) -> (b: bool)
    ensures
        b == has_part(s@, part@),
{
    if part.len() > s.len() {
        return false;
    }
    let last: usize = s.len() - part.len();
    let mut i: usize = 0;
    while i < last && !stands(s, part, i)
        invariant
            i <= last,
            last == s@.len() - part@.len(),
            forall|j: int| 0 <= j < i ==> !stands_at(s@, part@, j),
        decreases last - i,
    {
        i += 1;
    }
    stands(s, part, i)
}

/// `str::starts_with`.
pub fn starts_with(s: &[char], part: &[char]) -> (b: bool)
    ensures
        b == part@.is_prefix_of(s@),
{
    part.len() <= s.len() && stands(s, part, 0)
}

/// `str::ends_with`.
pub fn ends_with(s: &[char], part: &[char]) -> (b: bool)
    ensures
        b == part@.is_suffix_of(s@),
{
    part.len() <= s.len() && stands(s, part, s.len() - part.len())
}

// ---------------------------------------------------------------------------
// Order
// ---------------------------------------------------------------------------

/// Whether `a` does not come after `b` in the order of texts, by the first character in
/// which they differ.
pub open spec fn in_order(a: Seq<char>, b: Seq<char>) -> bool
    decreases a.len(),
{
    if a.len() == 0 {
        true
    } else if b.len() == 0 {
        false
    } else if a[0] != b[0] {
        a[0] < b[0]
    } else {
        in_order(a.drop_first(), b.drop_first())
    }
}

/// Of two texts, one does not come after the other.
pub proof fn lemma_order_total(a: Seq<char>, b: Seq<char>)
    ensures
        in_order(a, b) || in_order(b, a),
    decreases a.len(),
{
    if a.len() > 0 && b.len() > 0 && a[0] == b[0] {
        lemma_order_total(a.drop_first(), b.drop_first());
    }
}

/// The order is transitive.
pub proof fn lemma_order_transitive(a: Seq<char>, b: Seq<char>, c: Seq<char>)
    requires
        in_order(a, b),
        in_order(b, c),
    ensures
        in_order(a, c),
    decreases a.len(),
{
    if a.len() > 0 && b.len() > 0 && c.len() > 0 && a[0] == b[0] && b[0] == c[0] {
        lemma_order_transitive(a.drop_first(), b.drop_first(), c.drop_first());
    }
}

/// Two texts neither of which comes after the other are the same.
pub proof fn lemma_order_antisymmetric(a: Seq<char>, b: Seq<char>)
    requires
        in_order(a, b),
        in_order(b, a),
    ensures
        a == b,
    decreases a.len(),
{
    if a.len() > 0 && b.len() > 0 {
        lemma_order_antisymmetric(a.drop_first(), b.drop_first());
        assert(a == seq![a[0]] + a.drop_first());
        assert(b == seq![b[0]] + b.drop_first());
    } else {
        assert(a == b);
    }
}

/// Whether `a` does not come after `b`.
pub fn is_in_order(a: &[char], b: &[char]) -> (r: bool)
    ensures
        r == in_order(a@, b@),
{
    let mut i: usize = 0;
    assert(a@.skip(0) == a@);
    assert(b@.skip(0) == b@);
    while i < a.len()
        invariant
            i <= a@.len(),
            i <= b@.len(),
            in_order(a@, b@) == in_order(a@.skip(i as int), b@.skip(i as int)),
        decreases a@.len() - i,
    {
        if i == b.len() {
            return false;
        }
        assert(a@.skip(i as int)[0] == a@[i as int]);
        assert(b@.skip(i as int)[0] == b@[i as int]);
        if a[i] != b[i] {
            return a[i] < b[i];
        }
        assert(a@.skip(i as int).drop_first() == a@.skip(i + 1));
        assert(b@.skip(i as int).drop_first() == b@.skip(i + 1));
        i += 1;
    }
    true
}

} // verus!
