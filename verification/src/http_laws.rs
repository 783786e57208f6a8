//! What holds of reading a request: how its bytes are cut into chunks does not matter, and
//! what a client writes is what is read.

use vstd::prelude::*;
use vstd::utf8::{
    decode_utf8, encode_utf8, encode_utf8_decode_utf8, is_ascii_chars, is_ascii_chars_encode_utf8,
};

use crate::http::{
    announced_length, body_step, bytes_at, crlf_crlf, fields_of, first_at, fresh_reader,
    head_of, header_end, lemma_first_at, lemma_first_at_is, lemma_first_at_none,
    lemma_until_blank, lf_lf, read_step, with_field, HeadView, MAX_OPEN_HEADERS, ReaderView,
    RequestView, StepView,
};
use crate::number::{decimal, law_decimal_reads_back};
use crate::outside::utf8_lossy;
use crate::text::{
    find_char, is_space, lemma_find_char, lines, lowercase, strip_cr, trim, trim_start,
    word_len, words,
};

verus! {

// ---------------------------------------------------------------------------
// How the bytes arrive does not matter
// ---------------------------------------------------------------------------

/// Reading chunk after chunk, as long as more bytes are needed.
pub open spec fn read_all(reader: ReaderView, chunks: Seq<Seq<u8>>) -> StepView
    decreases chunks.len(),
{
    if chunks.len() == 0 {
        StepView::NeedMore
    } else {
        let (next, step) = read_step(reader, chunks[0]);
        if step is NeedMore {
            read_all(next, chunks.drop_first())
        } else {
            step
        }
    }
}

/// Whether the header section of `bytes` ends at `end`, before an empty line of
/// `sep` bytes, in one style throughout: where the lines end with `\r\n`, no empty
/// line in the other style comes before.
pub open spec fn plain_header_end(bytes: Seq<u8>, end: nat, sep: nat) -> bool {
    ||| sep == 4 && first_at(bytes, crlf_crlf()) == Some(end) && first_at(
        bytes.take(end + 4int),
        lf_lf(),
    ) is None
    ||| sep == 2 && first_at(bytes, crlf_crlf()) is None && first_at(bytes, lf_lf()) == Some(end)
}

proof fn lemma_bytes_at_prefix(bytes: Seq<u8>, n: int, part: Seq<u8>, i: int)
    requires
        0 <= n <= bytes.len(),
    ensures
        bytes_at(bytes.take(n), part, i) == (bytes_at(bytes, part, i) && i + part.len() <= n),
{
    if 0 <= i && i + part.len() <= n {
        assert(bytes.take(n).subrange(i, i + part.len()) == bytes.subrange(i, i + part.len()));
    }
}

proof fn lemma_prefix_header_end(bytes: Seq<u8>, end: nat, sep: nat, n: int)
    requires
        plain_header_end(bytes, end, sep),
        0 <= n <= bytes.len(),
    ensures
        end + sep <= bytes.len(),
        n < end + sep ==> header_end(bytes.take(n)) is None,
        n >= end + sep ==> {
            &&& header_end(bytes.take(n)) == Some(end)
            &&& bytes_at(bytes.take(n), crlf_crlf(), end as int) == (sep == 4)
            &&& bytes.take(n).take(end as int) == bytes.take(end as int)
        },
{
    let p = bytes.take(n);
    lemma_first_at(bytes, crlf_crlf());
    lemma_first_at(bytes, lf_lf());
    assert forall|i: int| bytes_at(p, crlf_crlf(), i) == (bytes_at(bytes, crlf_crlf(), i) && i + 4
        <= n) by {
        lemma_bytes_at_prefix(bytes, n, crlf_crlf(), i);
    }
    assert forall|i: int| bytes_at(p, lf_lf(), i) == (bytes_at(bytes, lf_lf(), i) && i + 2
        <= n) by {
        lemma_bytes_at_prefix(bytes, n, lf_lf(), i);
    }
    if n >= end + sep {
        assert(p.take(end as int) == bytes.take(end as int));
    }
    if sep == 4 {
        lemma_first_at(bytes.take(end + 4int), lf_lf());
        if n >= end + 4 {
            lemma_first_at_is(p, crlf_crlf(), end as int);
        } else {
            assert forall|j: int| !bytes_at(p, crlf_crlf(), j) by {
                if bytes_at(p, crlf_crlf(), j) {
                    assert(bytes_at(bytes, crlf_crlf(), j));
                    assert(j < end);
                }
            }
            lemma_first_at_none(p, crlf_crlf());
            assert forall|j: int| !bytes_at(p, lf_lf(), j) by {
                lemma_bytes_at_prefix(bytes, end + 4int, lf_lf(), j);
                assert(!bytes_at(bytes.take(end + 4int), lf_lf(), j));
            }
            lemma_first_at_none(p, lf_lf());
        }
    } else {
        assert forall|j: int| !bytes_at(p, crlf_crlf(), j) by {
            assert(!bytes_at(bytes, crlf_crlf(), j));
        }
        lemma_first_at_none(p, crlf_crlf());
        if n >= end + 2 {
            lemma_first_at_is(p, lf_lf(), end as int);
        } else {
            assert forall|j: int| !bytes_at(p, lf_lf(), j) by {
                if bytes_at(p, lf_lf(), j) {
                    assert(bytes_at(bytes, lf_lf(), j));
                    assert(j < end);
                }
            }
            lemma_first_at_none(p, lf_lf());
        }
    }
}

/// What reading `n` of the bytes leaves where more are needed.
spec fn reader_after(bytes: Seq<u8>, end: nat, sep: nat, n: int) -> ReaderView {
    ReaderView {
        buf: bytes.take(n),
        head: if n < end + sep {
            None
        } else {
            head_of(utf8_lossy(bytes.take(end as int)), end + sep)
        },
    }
}

proof fn lemma_read_rest(bytes: Seq<u8>, n: int, chunks: Seq<Seq<u8>>, end: nat, sep: nat)
    requires
        plain_header_end(bytes, end, sep),
        end + sep <= MAX_OPEN_HEADERS + 1,
        0 <= n <= bytes.len(),
        chunks.flatten() == bytes.skip(n),
        forall|i: int| 0 <= i < chunks.len() ==> (#[trigger] chunks[i]).len() > 0,
        n >= end + sep ==> reader_after(bytes, end, sep, n).head is Some,
        n == bytes.len() ==> read_step(fresh_reader(), bytes).1 is NeedMore,
    ensures
        read_all(reader_after(bytes, end, sep, n), chunks) == read_step(fresh_reader(), bytes).1,
    decreases chunks.len(),
{
    let reader = reader_after(bytes, end, sep, n);
    let whole = read_step(fresh_reader(), bytes).1;
    lemma_prefix_header_end(bytes, end, sep, bytes.len() as int);
    assert(bytes.take(bytes.len() as int) == bytes);
    assert(fresh_reader().buf + bytes == bytes);
    if chunks.len() == 0 {
        assert(n == bytes.len());
    } else {
        let chunk = chunks[0];
        let rest = chunks.drop_first();
        assert(chunk.len() > 0);
        assert(chunks.flatten() == chunk + rest.flatten());
        let m = n + chunk.len();
        assert(m <= bytes.len()) by {
            assert(chunks.flatten().len() == chunk.len() + rest.flatten().len());
        }
        assert(bytes.take(n) + chunk == bytes.take(m)) by {
            assert forall|i: int| 0 <= i < chunk.len() implies chunk[i] == bytes[n + i] by {
                assert(bytes.skip(n)[i] == chunk[i]);
            }
        }
        assert(rest.flatten() == bytes.skip(m)) by {
            assert forall|i: int| 0 <= i < rest.flatten().len() implies rest.flatten()[i]
                == bytes.skip(m)[i] by {
                assert(bytes.skip(n)[chunk.len() + i] == rest.flatten()[i]);
            }
        }
        assert forall|i: int| 0 <= i < rest.len() implies (#[trigger] rest[i]).len() > 0 by {
            assert(chunks[i + 1].len() > 0);
        }
        lemma_prefix_header_end(bytes, end, sep, m);
        let (next, step) = read_step(reader, chunk);
        if m < end + sep {
            assert(step is NeedMore);
            assert(next == reader_after(bytes, end, sep, m));
            lemma_read_rest(bytes, m, rest, end, sep);
        } else {
            match head_of(utf8_lossy(bytes.take(end as int)), end + sep) {
                None => {
                    assert(step == whole);
                },
                Some(head) => {
                    assert((next, step) == body_step(bytes.take(m), head));
                    assert(whole == body_step(bytes, head).1);
                    let stop = head.body_start + head.content_length;
                    if stop <= usize::MAX && m >= stop {
                        assert(bytes.take(m).subrange(head.body_start as int, stop as int)
                            == bytes.subrange(head.body_start as int, stop as int));
                    } else if stop <= usize::MAX {
                        assert(next == reader_after(bytes, end, sep, m));
                        lemma_read_rest(bytes, m, rest, end, sep);
                    }
                },
            }
        }
    }
}

/// How a client's bytes are cut into chunks does not matter: a request whose header
/// section ends plainly, and not too late, is read as if it had come in one piece.
pub proof fn law_chunks_do_not_matter(bytes: Seq<u8>, chunks: Seq<Seq<u8>>, end: nat, sep: nat)
    requires
        plain_header_end(bytes, end, sep),
        end + sep <= MAX_OPEN_HEADERS + 1,
        chunks.flatten() == bytes,
        forall|i: int| 0 <= i < chunks.len() ==> (#[trigger] chunks[i]).len() > 0,
    ensures
        read_all(fresh_reader(), chunks) == read_step(fresh_reader(), bytes).1,
{
    lemma_prefix_header_end(bytes, end, sep, bytes.len() as int);
    assert(bytes.skip(0) == bytes);
    assert(bytes.take(0) == Seq::<u8>::empty());
    lemma_read_rest(bytes, 0, chunks, end, sep);
}

// ---------------------------------------------------------------------------
// What a client writes is what is read
// ---------------------------------------------------------------------------

/// A header section as a client writes it: the request line, then a line for each field.
pub open spec fn written_head(
    method: Seq<char>,
    path: Seq<char>,
    fields: Seq<(Seq<char>, Seq<char>)>,
) -> Seq<char>
    decreases fields.len(),
{
    if fields.len() == 0 {
        method + " "@ + (path + " "@ + "HTTP/1.1"@)
    } else {
        written_head(method, path, fields.drop_last()) + "\r\n"@ + (fields.last().0 + ": "@
            + fields.last().1)
    }
}

/// The fields that a client has written, the later ones in place of the earlier.
pub open spec fn written_fields(fields: Seq<(Seq<char>, Seq<char>)>) -> Map<Seq<char>, Seq<char>>
    decreases fields.len(),
{
    if fields.len() == 0 {
        Map::empty()
    } else {
        written_fields(fields.drop_last()).insert(lowercase(fields.last().0), fields.last().1)
    }
}

/// Whether `s` is a word: not empty, and without white space.
pub open spec fn is_word(s: Seq<char>) -> bool {
    s.len() > 0 && forall|i: int| 0 <= i < s.len() ==> !is_space(#[trigger] s[i])
}

/// Whether a field can stand on a line: no white space around its name and its value, no
/// end of a line in them, and no colon in its name.
pub open spec fn is_field(field: (Seq<char>, Seq<char>)) -> bool {
    &&& trim(field.0) == field.0
    &&& trim(field.1) == field.1
    &&& !field.0.contains(':')
    &&& !field.0.contains('\n')
    &&& !field.1.contains('\n')
}

proof fn lemma_find_char_is(s: Seq<char>, c: char, n: int)
    requires
        0 <= n <= s.len(),
        forall|i: int| 0 <= i < n ==> s[i] != c,
        n < s.len() ==> s[n] == c,
    ensures
        find_char(s, c) == n,
{
    lemma_find_char(s, c);
    let found = find_char(s, c) as int;
    if found < n {
        assert(s[found] == c);
    } else if n < found {
        assert(s[n] != c);
    }
}

/// A line that is appended is the last line.
proof fn lemma_appended_line(text: Seq<char>, line: Seq<char>)
    requires
        text.len() > 0,
        text.last() != '\n',
        line.len() > 0,
        !line.contains('\n'),
    ensures
        lines(text + "\r\n"@ + line) == lines(text).push(line),
    decreases text.len(),
{
    reveal_strlit("\r\n");
    let whole = text + "\r\n"@ + line;
    lemma_find_char(text, '\n');
    let n = find_char(text, '\n') as int;
    if n == text.len() {
        lemma_find_char_is(whole, '\n', n + 1);
        assert(whole.take(n + 1) == text.push('\r'));
        assert(strip_cr(text.push('\r')) == text);
        assert(whole.skip(n + 2) == line);
        lemma_find_char_is(line, '\n', line.len() as int);
        assert(lines(line) == seq![line]);
        assert(lines(text) == seq![text]);
        assert(seq![text] + seq![line] == seq![text].push(line));
    } else {
        lemma_find_char_is(whole, '\n', n);
        let rest = text.skip(n + 1);
        assert(rest.last() == text.last());
        assert(whole.take(n) == text.take(n));
        assert(whole.skip(n + 1) == rest + "\r\n"@ + line);
        lemma_appended_line(rest, line);
        assert(seq![strip_cr(text.take(n))] + lines(rest).push(line) == (seq![
            strip_cr(text.take(n)),
        ] + lines(rest)).push(line));
    }
}

proof fn lemma_word_len_is(word: Seq<char>, rest: Seq<char>)
    requires
        is_word(word),
    ensures
        word_len(word + " "@ + rest) == word.len(),
        word_len(word) == word.len(),
    decreases word.len(),
{
    reveal_strlit(" ");
    let whole = word + " "@ + rest;
    let next = word.drop_first();
    assert(whole[0] == word[0]);
    assert(whole.drop_first() == next + " "@ + rest);
    if next.len() > 0 {
        assert forall|i: int| 0 <= i < next.len() implies !is_space(#[trigger] next[i]) by {
            assert(next[i] == word[i + 1]);
        }
        lemma_word_len_is(next, rest);
    } else {
        assert(whole.drop_first()[0] == ' ');
        reveal_with_fuel(word_len, 2);
    }
}

/// A text that starts with a word and a space has it as its first word.
proof fn lemma_first_word(word: Seq<char>, rest: Seq<char>)
    requires
        is_word(word),
    ensures
        words(word + " "@ + rest) == seq![word] + words(rest),
{
    reveal_strlit(" ");
    let whole = word + " "@ + rest;
    assert(whole[0] == word[0]);
    assert(trim_start(whole) == whole);
    lemma_word_len_is(word, rest);
    assert(whole.take(word.len() as int) == word);
    let behind = whole.skip(word.len() as int);
    assert(behind == " "@ + rest);
    assert(behind.drop_first() == rest);
    assert(trim_start(behind) == trim_start(rest));
    assert(words(behind) == words(rest));
}

/// A field that is written on a line is read from it.
proof fn lemma_written_field(fields: Map<Seq<char>, Seq<char>>, field: (Seq<char>, Seq<char>))
    requires
        is_field(field),
    ensures
        with_field(fields, field.0 + ": "@ + field.1) == fields.insert(
            lowercase(field.0),
            field.1,
        ),
{
    reveal_strlit(": ");
    let line = field.0 + ": "@ + field.1;
    let n = field.0.len() as int;
    lemma_find_char_is(line, ':', n);
    assert(line.take(n) == field.0);
    let value = line.skip(n + 1);
    assert(value[0] == ' ');
    assert(value.drop_first() == field.1);
    assert(trim_start(value) == trim_start(field.1));
}

/// The lines of a header section that a client has written.
proof fn lemma_written_lines(
    method: Seq<char>,
    path: Seq<char>,
    fields: Seq<(Seq<char>, Seq<char>)>,
)
    requires
        is_word(method),
        is_word(path),
        forall|i: int| 0 <= i < fields.len() ==> is_field(#[trigger] fields[i]),
    ensures
        ({
            let text = written_head(method, path, fields);
            let ls = lines(text);
            &&& text.len() > 0
            &&& text.last() != '\n'
            &&& ls.len() == fields.len() + 1
            &&& ls[0] == written_head(method, path, seq![])
            &&& forall|i: int| 1 <= i < ls.len() ==> (#[trigger] ls[i]).len() > 0
            &&& fields_of(ls.skip(1)) == written_fields(fields)
        }),
    decreases fields.len(),
{
    reveal_strlit(" ");
    reveal_strlit(": ");
    reveal_strlit("HTTP/1.1");
    let text = written_head(method, path, fields);
    if fields.len() == 0 {
        assert(fields == Seq::<(Seq<char>, Seq<char>)>::empty());
        assert forall|i: int| 0 <= i < text.len() implies text[i] != '\n' by {
            if i < method.len() {
                assert(text[i] == method[i]);
            } else if method.len() < i <= method.len() + path.len() {
                assert(text[i] == path[i - method.len() - 1]);
            }
        }
        lemma_find_char_is(text, '\n', text.len() as int);
        assert(lines(text).skip(1) == Seq::<Seq<char>>::empty());
    } else {
        let before = fields.drop_last();
        assert forall|i: int| 0 <= i < before.len() implies is_field(#[trigger] before[i]) by {
            assert(before[i] == fields[i]);
        }
        lemma_written_lines(method, path, before);
        let field = fields.last();
        assert(is_field(fields[fields.len() - 1]));
        let line = field.0 + ": "@ + field.1;
        assert(!line.contains('\n')) by {
            assert forall|i: int| 0 <= i < line.len() implies line[i] != '\n' by {
                if i < field.0.len() {
                    assert(field.0.contains(line[i]));
                } else if i >= field.0.len() + 2 {
                    assert(line[i] == field.1[i - field.0.len() - 2]);
                    assert(field.1.contains(line[i]));
                }
            }
        }
        let head = written_head(method, path, before);
        lemma_appended_line(head, line);
        let ls = lines(text);
        assert(ls == lines(head).push(line));
        assert(ls.skip(1).drop_last() == lines(head).skip(1));
        assert(ls.skip(1).last() == line);
        lemma_written_field(written_fields(before), field);
        assert(text.last() == line.last());
        assert(line.contains(line.last()));
    }
}

/// What a client writes is what is read: the method, the path and the fields, each name
/// in lower case and with the value it was given last.
pub proof fn law_head_is_read_as_written(
    method: Seq<char>,
    path: Seq<char>,
    fields: Seq<(Seq<char>, Seq<char>)>,
    body_start: nat,
)
    requires
        is_word(method),
        is_word(path),
        forall|i: int| 0 <= i < fields.len() ==> is_field(#[trigger] fields[i]),
    ensures
        head_of(written_head(method, path, fields), body_start) == Some(
            HeadView {
                method,
                path,
                headers: written_fields(fields),
                body_start,
                content_length: announced_length(written_fields(fields)),
            },
        ),
{
    lemma_written_lines(method, path, fields);
    let ls = lines(written_head(method, path, fields));
    lemma_first_word(method, path + " "@ + "HTTP/1.1"@);
    lemma_first_word(path, "HTTP/1.1"@);
    let parts = words(ls[0]);
    assert(parts[0] == method);
    assert(parts[1] == path);
    let rest = ls.skip(1);
    assert forall|i: int| 0 <= i < rest.len() implies (#[trigger] rest[i]).len() > 0 by {
        assert(rest[i] == ls[i + 1]);
    }
    lemma_until_blank(rest, rest.len() as int);
    assert(rest.take(rest.len() as int) == rest);
}

/// A length that a client writes is the length that is waited for.
pub proof fn law_announced_length_is_read_as_written(
    fields: Map<Seq<char>, Seq<char>>,
    length: nat,
)
    requires
        length <= usize::MAX,
    ensures
        announced_length(fields.insert("content-length"@, decimal(length))) == length,
{
    law_decimal_reads_back(length, usize::MAX as nat);
}

/// The body of a request is what follows the header section, as long as announced, and
/// nothing that comes after it.
pub proof fn law_body_is_read_as_sent(
    head: HeadView,
    before: Seq<u8>,
    body: Seq<u8>,
    more: Seq<u8>,
)
    requires
        head.body_start == before.len(),
        head.content_length == body.len(),
        before.len() + body.len() <= usize::MAX,
    ensures
        body_step(before + body + more, head).1 == StepView::Done(
            RequestView {
                method: head.method,
                path: head.path,
                headers: head.headers,
                body,
            },
        ),
{
    assert((before + body + more).subrange(
        before.len() as int,
        (before.len() + body.len()) as int,
    ) == body);
}

/// Two lines of a written header section do not end within four characters, and no line
/// ends at the end of the section: no line of it is empty.
proof fn lemma_line_ends_are_apart(
    method: Seq<char>,
    path: Seq<char>,
    fields: Seq<(Seq<char>, Seq<char>)>,
)
    requires
        is_word(method),
        is_word(path),
        forall|i: int| 0 <= i < fields.len() ==> is_field(#[trigger] fields[i]),
    ensures
        ({
            let text = written_head(method, path, fields);
            &&& forall|i: int|
                0 <= i < text.len() && #[trigger] text[i] == '\n' ==> i + 3 <= text.len()
            &&& forall|i: int, j: int|
                0 <= i < j < text.len() && #[trigger] text[i] == '\n' && #[trigger] text[j] == '\n'
                    ==> i + 4 <= j
        }),
    decreases fields.len(),
{
    reveal_strlit(" ");
    reveal_strlit(": ");
    reveal_strlit("\r\n");
    reveal_strlit("HTTP/1.1");
    let text = written_head(method, path, fields);
    if fields.len() == 0 {
        assert forall|i: int| 0 <= i < text.len() implies text[i] != '\n' by {
            if i < method.len() {
                assert(text[i] == method[i]);
            } else if method.len() < i <= method.len() + path.len() {
                assert(text[i] == path[i - method.len() - 1]);
            }
        }
    } else {
        let before = fields.drop_last();
        assert forall|i: int| 0 <= i < before.len() implies is_field(#[trigger] before[i]) by {
            assert(before[i] == fields[i]);
        }
        lemma_line_ends_are_apart(method, path, before);
        let head = written_head(method, path, before);
        let field = fields.last();
        assert(is_field(fields[fields.len() - 1]));
        let line = field.0 + ": "@ + field.1;
        assert forall|i: int| head.len() <= i < text.len() && text[i] == '\n' implies i
            == head.len() + 1 by {
            if i >= head.len() + 2 {
                let k = i - head.len() - 2;
                assert(text[i] == line[k]);
                if k < field.0.len() {
                    assert(field.0.contains(line[k]));
                } else if k >= field.0.len() + 2 {
                    assert(line[k] == field.1[k - field.0.len() - 2]);
                    assert(field.1.contains(line[k]));
                }
            }
        }
        assert forall|i: int| 0 <= i < head.len() implies text[i] == head[i] by {}
    }
}

/// A written header section ends at the empty line that follows it, and not before.
proof fn lemma_written_head_ends(
    method: Seq<char>,
    path: Seq<char>,
    fields: Seq<(Seq<char>, Seq<char>)>,
    body: Seq<u8>,
)
    requires
        is_word(method),
        is_word(path),
        forall|i: int| 0 <= i < fields.len() ==> is_field(#[trigger] fields[i]),
        is_ascii_chars(written_head(method, path, fields)),
    ensures
        ({
            let head = encode_utf8(written_head(method, path, fields));
            plain_header_end(head + crlf_crlf() + body, head.len(), 4)
        }),
{
    let text = written_head(method, path, fields);
    let head = encode_utf8(text);
    let bytes = head + crlf_crlf() + body;
    let n = head.len() as int;
    lemma_line_ends_are_apart(method, path, fields);
    is_ascii_chars_encode_utf8(text);
    assert forall|i: int| 0 <= i < n implies (#[trigger] bytes[i] == 10u8 <==> text[i] == '\n') by {
        assert(bytes[i] == head[i]);
        assert(text[i] as u8 == head[i]);
    }
    assert(bytes[n] == 13u8 && bytes[n + 1] == 10u8 && bytes[n + 2] == 13u8 && bytes[n + 3]
        == 10u8);
    assert(bytes.subrange(n, n + 4) == crlf_crlf());
    assert forall|j: int| 0 <= j < n implies !bytes_at(bytes, crlf_crlf(), j) by {
        if bytes_at(bytes, crlf_crlf(), j) {
            let part = bytes.subrange(j, j + 4);
            assert(part[1] == bytes[j + 1] && part[3] == bytes[j + 3]);
            if j + 3 < n {
                assert(text[j + 1] == '\n' && text[j + 3] == '\n');
            } else if j + 1 < n {
                assert(text[j + 1] == '\n');
            }
        }
    }
    lemma_first_at_is(bytes, crlf_crlf(), n);
    let short = bytes.take(n + 4);
    assert forall|j: int| !bytes_at(short, lf_lf(), j) by {
        if bytes_at(short, lf_lf(), j) {
            let part = short.subrange(j, j + 2);
            assert(part[0] == bytes[j] && part[1] == bytes[j + 1]);
            if j + 1 < n {
                assert(text[j] == '\n' && text[j + 1] == '\n');
            }
        }
    }
    lemma_first_at_none(short, lf_lf());
}

/// A request is read as a client sends it: the method, the path, the fields and the body,
/// in whatever chunks they come. The client writes the header section in ASCII, within
/// the limit, and announces the length of the body. Text that is valid UTF-8 is read as it
/// is.
pub proof fn law_request_is_read_as_sent(
    method: Seq<char>,
    path: Seq<char>,
    fields: Seq<(Seq<char>, Seq<char>)>,
    body: Seq<u8>,
    chunks: Seq<Seq<u8>>,
)
    requires
        is_word(method),
        is_word(path),
        forall|i: int| 0 <= i < fields.len() ==> is_field(#[trigger] fields[i]),
        is_ascii_chars(written_head(method, path, fields)),
        written_head(method, path, fields).len() + 4 <= MAX_OPEN_HEADERS + 1,
        announced_length(written_fields(fields)) == body.len(),
        written_head(method, path, fields).len() + 4 + body.len() <= usize::MAX,
        chunks.flatten() == encode_utf8(written_head(method, path, fields)) + crlf_crlf() + body,
        forall|i: int| 0 <= i < chunks.len() ==> (#[trigger] chunks[i]).len() > 0,
    ensures
        ({
            let head = encode_utf8(written_head(method, path, fields));
            utf8_lossy(head) == decode_utf8(head) ==> read_all(fresh_reader(), chunks)
                == StepView::Done(
                RequestView { method, path, headers: written_fields(fields), body },
            )
        }),
{
    let text = written_head(method, path, fields);
    let head = encode_utf8(text);
    let bytes = head + crlf_crlf() + body;
    lemma_written_head_ends(method, path, fields, body);
    is_ascii_chars_encode_utf8(text);
    law_chunks_do_not_matter(bytes, chunks, head.len(), 4);
    lemma_prefix_header_end(bytes, head.len(), 4, bytes.len() as int);
    assert(bytes.take(bytes.len() as int) == bytes);
    assert(Seq::<u8>::empty() + bytes == bytes);
    assert(bytes.take(head.len() as int) == head);
    encode_utf8_decode_utf8(text);
    law_head_is_read_as_written(method, path, fields, head.len() + 4);
    let section = HeadView {
        method,
        path,
        headers: written_fields(fields),
        body_start: head.len() + 4,
        content_length: body.len(),
    };
    assert((head + crlf_crlf()).len() == head.len() + 4);
    law_body_is_read_as_sent(section, head + crlf_crlf(), body, seq![]);
    assert(head + crlf_crlf() + body + Seq::<u8>::empty() == bytes);
}

} // verus!
