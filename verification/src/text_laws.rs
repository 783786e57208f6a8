//! What holds of texts and numbers: how they are taken apart, put together, compared,
//! written and read.

use vstd::prelude::*;

use crate::number::{
    decimal, is_digit, law_decimal_reads_back, lemma_decimal_digits, read_digits, read_number,
    zero_padded, NumberError,
};
use crate::text::{
    find_char, has_part, in_order, is_space, join, lemma_find_char, lemma_trim_start_len, lines,
    lower, lowercase, stands_at, strip_cr, trim, trim_end, trim_start, word_len, words,
};

verus! {

// ---------------------------------------------------------------------------
// Parts of sequences
// ---------------------------------------------------------------------------

/// What stands between the same beginning and the same end is the same.
pub proof fn lemma_between(start: Seq<char>, a: Seq<char>, b: Seq<char>, end: Seq<char>)
    requires
        start + a + end == start + b + end,
    ensures
        a == b,
{
    let p = start + a + end;
    let q = start + b + end;
    assert(p.len() == start.len() + a.len() + end.len());
    assert(q.len() == start.len() + b.len() + end.len());
    let s = start.len() as int;
    assert(p.subrange(s, s + a.len()) == a);
    assert(q.subrange(s, s + b.len()) == b);
}

// ---------------------------------------------------------------------------
// Numbers
// ---------------------------------------------------------------------------

/// Different numbers are written differently.
pub proof fn law_decimal_is_unique(a: nat, b: nat)
    requires
        decimal(a) == decimal(b),
    ensures
        a == b,
{
    law_decimal_reads_back(a, a + b);
    law_decimal_reads_back(b, a + b);
}

/// A number is written with the digits of the decimal system: a digit behind a number
/// that is not zero makes ten times as much and the digit.
pub proof fn law_decimal_appends_digits(n: nat, d: nat)
    requires
        d < 10,
    ensures
        decimal(d) == seq![(48 + d) as char],
        n > 0 ==> decimal(10 * n + d) == decimal(n).push((48 + d) as char),
{
    if n > 0 {
        assert((10 * n + d) / 10 == n);
        assert((10 * n + d) % 10 == d);
    }
}

/// A number with leading zeros is the number behind so many zeros that the width is met,
/// and no more than that.
pub proof fn law_zero_padded_is_as_wide_as_asked(n: nat, width: nat)
    ensures
        zero_padded(n, width).len() == if decimal(n).len() < width {
            width
        } else {
            decimal(n).len()
        },
        zero_padded(n, width).skip(zero_padded(n, width).len() - decimal(n).len()) == decimal(n),
        forall|i: int|
            0 <= i < zero_padded(n, width).len() - decimal(n).len() ==> #[trigger] zero_padded(
                n,
                width,
            )[i] == '0',
{
}

/// The two digits of a number below a hundred.
pub proof fn law_two_digits(n: nat)
    requires
        n < 100,
    ensures
        zero_padded(n, 2) == seq![(48 + n / 10) as char, (48 + n % 10) as char],
{
    reveal_with_fuel(decimal, 3);
    if n < 10 {
        assert(decimal(n).len() == 1);
        assert(zero_padded(n, 2) == seq!['0', (48 + n) as char]);
    } else {
        assert(decimal(n) == seq![(48 + n / 10) as char, (48 + n % 10) as char]);
    }
}

/// The four digits of a number below ten thousand.
pub proof fn law_four_digits(n: nat)
    requires
        n < 10_000,
    ensures
        zero_padded(n, 4) == seq![
            (48 + n / 1000) as char,
            (48 + n / 100 % 10) as char,
            (48 + n / 10 % 10) as char,
            (48 + n % 10) as char,
        ],
{
    reveal_with_fuel(decimal, 5);
    let (a, b, c, d) = (n / 1000, n / 100 % 10, n / 10 % 10, n % 10);
    assert(n / 10 / 10 == n / 100 && n / 10 / 10 / 10 == n / 1000);
    if n < 10 {
        assert(decimal(n) == seq![(48 + d) as char]);
    } else if n < 100 {
        assert(decimal(n) == seq![(48 + c) as char, (48 + d) as char]);
    } else if n < 1000 {
        assert(decimal(n) == seq![(48 + b) as char, (48 + c) as char, (48 + d) as char]);
    } else {
        assert(decimal(n) == seq![
            (48 + a) as char,
            (48 + b) as char,
            (48 + c) as char,
            (48 + d) as char,
        ]);
    }
}

/// A text that is read as a number is read within the limit, holds nothing but ASCII
/// digits, and may have one plus sign before them.
pub proof fn law_only_digits_are_read(s: Seq<char>, max: nat)
    requires
        read_number(s, max) is Ok,
    ensures
        s.len() > 0,
        read_number(s, max)->Ok_0 <= max,
        forall|i: int| 0 < i < s.len() ==> '0' <= #[trigger] s[i] <= '9',
        ('0' <= s[0] <= '9') || (s[0] == '+' && s.len() > 1),
{
    if s[0] == '+' {
        let t = s.drop_first();
        lemma_only_digits(t, 0, max);
        assert forall|i: int| 0 < i < s.len() implies '0' <= #[trigger] s[i] <= '9' by {
            assert(s[i] == t[i - 1]);
        }
    } else {
        lemma_only_digits(s, 0, max);
        assert(is_digit(s[0]));
    }
}

proof fn lemma_only_digits(s: Seq<char>, so_far: nat, max: nat)
    requires
        read_digits(s, so_far, max) is Ok,
        so_far <= max,
    ensures
        read_digits(s, so_far, max)->Ok_0 <= max,
        forall|i: int| 0 <= i < s.len() ==> '0' <= #[trigger] s[i] <= '9',
    decreases s.len(),
{
    if s.len() > 0 {
        let next = (so_far * 10 + (s[0] as int - 48)) as nat;
        lemma_only_digits(s.drop_first(), next, max);
        assert forall|i: int| 0 <= i < s.len() implies '0' <= #[trigger] s[i] <= '9' by {
            if i > 0 {
                assert(s[i] == s.drop_first()[i - 1]);
            }
        }
    }
}

/// Nothing is no number; a zero or a plus sign before a number does not change it; a number
/// above the limit is refused; and so is anything but a digit, at the start or behind a
/// number.
pub proof fn law_numbers_may_be_written_longer(
    s: Seq<char>,
    n: nat,
    c: char,
    t: Seq<char>,
    max: nat,
)
    requires
        s.len() > 0,
        '0' <= s[0] <= '9',
        !('0' <= c <= '9'),
    ensures
        read_number(seq![], max) == Err::<nat, NumberError>(NumberError::Empty),
        read_number(seq!['0'] + s, max) == read_number(s, max),
        read_number(seq!['+'] + s, max) == read_number(s, max),
        n > max ==> read_number(decimal(n), max) == Err::<nat, NumberError>(NumberError::TooLarge),
        n <= max ==> read_number(decimal(n) + seq![c] + t, max) == Err::<nat, NumberError>(
            NumberError::InvalidDigit,
        ),
        c != '+' ==> read_number(seq![c] + t, max) == Err::<nat, NumberError>(
            NumberError::InvalidDigit,
        ),
        read_number(seq!['+'], max) == Err::<nat, NumberError>(NumberError::InvalidDigit),
{
    reveal_with_fuel(read_digits, 2);
    assert((seq!['0'] + s).drop_first() == s);
    assert((seq!['+'] + s).drop_first() == s);
    assert(is_digit(s[0]));
    let d = decimal(n);
    lemma_decimal_digits(n);
    assert(is_digit(d[0]));
    if n > max {
        lemma_too_large(n, max);
    } else {
        law_decimal_reads_back(n, max);
        let whole = d + seq![c] + t;
        assert(whole[0] == d[0]);
        lemma_no_digit_behind(d, c, t, 0, max);
    }
}

proof fn lemma_no_digit_behind(s: Seq<char>, c: char, t: Seq<char>, so_far: nat, max: nat)
    requires
        !is_digit(c),
        read_digits(s, so_far, max) is Ok,
    ensures
        read_digits(s + seq![c] + t, so_far, max) == Err::<nat, NumberError>(
            NumberError::InvalidDigit,
        ),
    decreases s.len(),
{
    let whole = s + seq![c] + t;
    if s.len() > 0 {
        assert(whole[0] == s[0]);
        assert(whole.drop_first() == s.drop_first() + seq![c] + t);
        lemma_no_digit_behind(
            s.drop_first(),
            c,
            t,
            (so_far * 10 + (s[0] as int - 48)) as nat,
            max,
        );
    } else {
        assert(whole[0] == c);
    }
}

proof fn lemma_too_large(n: nat, max: nat)
    requires
        n > max,
    ensures
        read_digits(decimal(n), 0, max) == Err::<nat, NumberError>(NumberError::TooLarge),
    decreases n,
{
    reveal_with_fuel(read_digits, 2);
    if n >= 10 {
        let head = decimal(n / 10);
        let last = ((48 + n % 10) as nat) as char;
        lemma_decimal_digits(n / 10);
        if n / 10 > max {
            lemma_too_large(n / 10, max);
            lemma_too_large_stays(head, last, 0, max);
        } else {
            law_decimal_reads_back(n / 10, max);
            assert(is_digit(head[0]));
            lemma_last_digit_too_large(head, last, 0, max);
        }
    }
}

proof fn lemma_too_large_stays(s: Seq<char>, c: char, so_far: nat, max: nat)
    requires
        read_digits(s, so_far, max) == Err::<nat, NumberError>(NumberError::TooLarge),
    ensures
        read_digits(s.push(c), so_far, max) == Err::<nat, NumberError>(NumberError::TooLarge),
    decreases s.len(),
{
    let next = (so_far * 10 + (s[0] as int - 48)) as nat;
    assert(s.push(c).drop_first() == s.drop_first().push(c));
    if next <= max {
        lemma_too_large_stays(s.drop_first(), c, next, max);
    }
}

proof fn lemma_last_digit_too_large(s: Seq<char>, c: char, so_far: nat, max: nat)
    requires
        is_digit(c),
        read_digits(s, so_far, max) is Ok,
        read_digits(s, so_far, max)->Ok_0 * 10 + (c as int - 48) > max,
    ensures
        read_digits(s.push(c), so_far, max) == Err::<nat, NumberError>(NumberError::TooLarge),
    decreases s.len(),
{
    if s.len() > 0 {
        assert(s.push(c).drop_first() == s.drop_first().push(c));
        lemma_last_digit_too_large(
            s.drop_first(),
            c,
            (so_far * 10 + (s[0] as int - 48)) as nat,
            max,
        );
    }
}

// ---------------------------------------------------------------------------
// White space
// ---------------------------------------------------------------------------

/// White space is these characters, by their numbers, and no others.
pub proof fn law_white_space_by_numbers(c: char)
    ensures
        is_space(c) <==> {
            let n = c as u32;
            ||| 0x09 <= n <= 0x0d
            ||| n == 0x20
            ||| n == 0x85
            ||| n == 0xa0
            ||| n == 0x1680
            ||| 0x2000 <= n <= 0x200a
            ||| n == 0x2028
            ||| n == 0x2029
            ||| n == 0x202f
            ||| n == 0x205f
            ||| n == 0x3000
        },
{
}

/// Whether a text is white space throughout.
pub open spec fn is_blank(s: Seq<char>) -> bool {
    forall|i: int| 0 <= i < s.len() ==> is_space(#[trigger] s[i])
}

/// Trimming takes away the white space around a text, and nothing else.
pub proof fn law_trim_takes_what_is_around(a: Seq<char>, text: Seq<char>, b: Seq<char>)
    requires
        is_blank(a),
        is_blank(b),
        text.len() > 0 ==> !is_space(text[0]) && !is_space(text.last()),
    ensures
        trim(a + text + b) == text,
{
    if text.len() == 0 {
        assert(a + text + b == a + b);
        assert(is_blank(a + b));
        lemma_trim_start_blank(a + b, seq![]);
        assert(a + b + Seq::<char>::empty() == a + b);
    } else {
        assert(a + text + b == a + (text + b));
        lemma_trim_start_blank(a, text + b);
        lemma_trim_end_blank(text, b);
    }
}

proof fn lemma_trim_start_blank(a: Seq<char>, text: Seq<char>)
    requires
        is_blank(a),
        text.len() > 0 ==> !is_space(text[0]),
    ensures
        trim_start(a + text) == text,
    decreases a.len(),
{
    if a.len() > 0 {
        let next = a.drop_first();
        assert((a + text)[0] == a[0]);
        assert((a + text).drop_first() == next + text);
        assert forall|i: int| 0 <= i < next.len() implies is_space(#[trigger] next[i]) by {
            assert(next[i] == a[i + 1]);
        }
        lemma_trim_start_blank(next, text);
    } else {
        assert(a + text == text);
    }
}

proof fn lemma_trim_end_blank(text: Seq<char>, b: Seq<char>)
    requires
        is_blank(b),
        text.len() > 0,
        !is_space(text.last()),
    ensures
        trim_end(text + b) == text,
    decreases b.len(),
{
    if b.len() > 0 {
        let next = b.drop_last();
        assert((text + b).last() == b[b.len() - 1]);
        assert((text + b).drop_last() == text + next);
        assert forall|i: int| 0 <= i < next.len() implies is_space(#[trigger] next[i]) by {
            assert(next[i] == b[i]);
        }
        lemma_trim_end_blank(text, next);
    } else {
        assert(text + b == text);
    }
}

/// The words of a text are its runs without white space, one after the other.
pub proof fn law_words_are_what_stands_between(a: Seq<char>, word: Seq<char>, rest: Seq<char>)
    requires
        is_blank(a),
        word.len() > 0,
        forall|i: int| 0 <= i < word.len() ==> !is_space(#[trigger] word[i]),
        rest.len() > 0 ==> is_space(rest[0]),
    ensures
        words(a) == Seq::<Seq<char>>::empty(),
        words(a + word + rest) == seq![word] + words(rest),
{
    let whole = a + word + rest;
    lemma_trim_start_blank(a, seq![]);
    assert(a + Seq::<char>::empty() == a);
    assert(whole == a + (word + rest));
    assert((word + rest)[0] == word[0]);
    lemma_trim_start_blank(a, word + rest);
    lemma_word_ends(word, rest);
    let t = word + rest;
    assert(t.take(word.len() as int) == word);
    assert(t.skip(word.len() as int) == rest);
    lemma_trim_start_len(whole);
}

proof fn lemma_word_ends(word: Seq<char>, rest: Seq<char>)
    requires
        forall|i: int| 0 <= i < word.len() ==> !is_space(#[trigger] word[i]),
        rest.len() > 0 ==> is_space(rest[0]),
    ensures
        word_len(word + rest) == word.len(),
    decreases word.len(),
{
    if word.len() > 0 {
        let next = word.drop_first();
        assert((word + rest)[0] == word[0]);
        assert((word + rest).drop_first() == next + rest);
        assert forall|i: int| 0 <= i < next.len() implies !is_space(#[trigger] next[i]) by {
            assert(next[i] == word[i + 1]);
        }
        lemma_word_ends(next, rest);
    } else {
        assert(word + rest == rest);
    }
}

// ---------------------------------------------------------------------------
// Lines
// ---------------------------------------------------------------------------

proof fn lemma_find_is(s: Seq<char>, c: char, n: int)
    requires
        0 <= n <= s.len(),
        forall|i: int| 0 <= i < n ==> s[i] != c,
        n < s.len() ==> s[n] == c,
    ensures
        find_char(s, c) == n,
{
    lemma_find_char(s, c);
    let found = find_char(s, c) as int;
    if found < n {
        assert(s[found] == c);
    } else if n < found {
        assert(s[n] != c);
    }
}

/// A line ends with a line feed, or a carriage return and a line feed, which are no part of
/// it; what follows are the other lines. A text without a line feed is one line, unless it
/// is empty.
pub proof fn law_lines_end_with_line_feeds(line: Seq<char>, rest: Seq<char>)
    requires
        forall|i: int| 0 <= i < line.len() ==> #[trigger] line[i] != '\n',
    ensures
        lines(seq![]) == Seq::<Seq<char>>::empty(),
        line.len() > 0 ==> lines(line) == seq![line],
        line.len() == 0 || line.last() != '\r' ==> lines(line + seq!['\n'] + rest) == seq![line]
            + lines(rest),
        lines(line + seq!['\r', '\n'] + rest) == seq![line] + lines(rest),
{
    let n = line.len() as int;
    lemma_find_is(line, '\n', n);
    let one = line + seq!['\n'] + rest;
    lemma_find_is(one, '\n', n);
    assert(one.take(n) == line);
    assert(one.skip(n + 1) == rest);
    let two = line + seq!['\r', '\n'] + rest;
    lemma_find_is(two, '\n', n + 1);
    assert(two.take(n + 1) == line.push('\r'));
    assert(strip_cr(line.push('\r')) == line);
    assert(two.skip(n + 2) == rest);
}

/// Texts are joined with the separator between each two of them.
pub proof fn law_join_puts_the_separator_between(
    parts: Seq<Seq<char>>,
    last: Seq<char>,
    sep: Seq<char>,
)
    ensures
        join(seq![], sep) == Seq::<char>::empty(),
        join(seq![last], sep) == last,
        parts.len() > 0 ==> join(parts.push(last), sep) == join(parts, sep) + sep + last,
{
    assert(parts.push(last).drop_last() == parts);
}

/// The first of joined texts stands before the others.
pub proof fn lemma_join_first(parts: Seq<Seq<char>>, sep: Seq<char>)
    requires
        parts.len() >= 2,
    ensures
        join(parts, sep) == parts[0] + sep + join(parts.drop_first(), sep),
    decreases parts.len(),
{
    let rest = parts.drop_first();
    if parts.len() == 2 {
        reveal_with_fuel(join, 2);
        assert(parts.drop_last() == seq![parts[0]]);
        assert(rest == seq![parts[1]]);
    } else {
        let before = parts.drop_last();
        lemma_join_first(before, sep);
        assert(before.drop_first() == rest.drop_last());
        assert(before[0] == parts[0]);
        assert(rest.last() == parts.last());
        assert(join(parts, sep) == parts[0] + sep + join(rest.drop_last(), sep) + sep
            + parts.last());
        assert(join(rest, sep) == join(rest.drop_last(), sep) + sep + rest.last());
    }
}

/// Whether a text can stand on a line as it is: it holds no end of a line.
pub open spec fn is_line(s: Seq<char>) -> bool {
    &&& s.len() > 0 ==> s.last() != '\r'
    &&& forall|i: int| 0 <= i < s.len() ==> #[trigger] s[i] != '\n'
}

/// Lines that are joined with line feeds come apart as they were, empty ones too; only an
/// empty last line is none.
pub proof fn law_joined_lines_come_apart(ls: Seq<Seq<char>>)
    requires
        forall|i: int| 0 <= i < ls.len() ==> is_line(#[trigger] ls[i]),
        ls.len() > 0 ==> ls.last().len() > 0,
    ensures
        lines(join(ls, seq!['\n'])) == ls,
    decreases ls.len(),
{
    if ls.len() == 0 {
    } else if ls.len() == 1 {
        assert(is_line(ls[0]));
        law_lines_end_with_line_feeds(ls[0], seq![]);
        assert(seq![ls[0]] == ls);
    } else {
        let rest = ls.drop_first();
        assert(is_line(ls[0]));
        assert forall|i: int| 0 <= i < rest.len() implies is_line(#[trigger] rest[i]) by {
            assert(rest[i] == ls[i + 1]);
        }
        law_joined_lines_come_apart(rest);
        lemma_join_first(ls, seq!['\n']);
        law_lines_end_with_line_feeds(ls[0], join(rest, seq!['\n']));
        assert(seq![ls[0]] + rest == ls);
    }
}

// ---------------------------------------------------------------------------
// Letter case, search and order
// ---------------------------------------------------------------------------

/// Only the case of ASCII letters changes; a text keeps its length, and a second time
/// changes nothing.
pub proof fn law_lower_case_is_of_ascii_letters(s: Seq<char>, c: char)
    ensures
        'A' <= c <= 'Z' ==> lower(c) as int == c as int + 32,
        !('A' <= c <= 'Z') ==> lower(c) == c,
        lowercase(s).len() == s.len(),
        forall|i: int| 0 <= i < s.len() ==> #[trigger] lowercase(s)[i] == lower(s[i]),
        lowercase(lowercase(s)) == lowercase(s),
{
    assert forall|d: char| #[trigger] lower(lower(d)) == lower(d) by {}
    assert(lowercase(lowercase(s)) =~= lowercase(s));
}

/// A text is found wherever it stands, and only where the other text is something before
/// it, the text, and something after it.
pub proof fn law_parts_are_found_where_they_stand(
    before: Seq<char>,
    part: Seq<char>,
    after: Seq<char>,
    s: Seq<char>,
)
    ensures
        has_part(before + part + after, part),
        has_part(s, part) ==> exists|a: Seq<char>, b: Seq<char>| s == #[trigger] (a + part + b),
{
    let whole = before + part + after;
    let n = before.len() as int;
    assert(whole.subrange(n, n + part.len()) == part);
    assert(stands_at(whole, part, n));
    if has_part(s, part) {
        let i = choose|i: int| stands_at(s, part, i);
        let (a, b) = (s.take(i), s.skip(i + part.len()));
        assert(s == a + part + b);
    }
}

/// Texts are in the order of the first character in which they differ; one that another
/// begins with comes before it.
pub proof fn law_order_is_by_the_first_difference(
    start: Seq<char>,
    x: char,
    y: char,
    a: Seq<char>,
    b: Seq<char>,
)
    requires
        x < y,
    ensures
        in_order(start + seq![x] + a, start + seq![y] + b),
        !in_order(start + seq![y] + b, start + seq![x] + a),
        in_order(start, start + a),
        a.len() > 0 ==> !in_order(start + a, start),
    decreases start.len(),
{
    let (p, q) = (start + seq![x] + a, start + seq![y] + b);
    if start.len() > 0 {
        let next = start.drop_first();
        assert(p[0] == start[0] && q[0] == start[0]);
        assert(p.drop_first() == next + seq![x] + a);
        assert(q.drop_first() == next + seq![y] + b);
        assert((start + a)[0] == start[0]);
        assert((start + a).drop_first() == next + a);
        law_order_is_by_the_first_difference(next, x, y, a, b);
    } else {
        assert(p[0] == x && q[0] == y);
    }
}

} // verus!
