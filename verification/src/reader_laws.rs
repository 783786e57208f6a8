//! What holds of reading a request that is not yet, or never, complete, and of the parts of
//! its header section.

use vstd::prelude::*;

use crate::error::{ErrorKind, ErrorView};
use crate::http::{
    announced_length, bytes_at, crlf_crlf, fields_of, fresh_reader, head_of, header_end,
    lemma_first_at, lemma_first_at_is, lemma_first_at_none, lf_lf, read_step, until_blank,
    with_field, HeadView, ReaderView, RequestView, StepView, MAX_OPEN_HEADERS,
};
use crate::number::{decimal, read_number};
use crate::outside::utf8_lossy;
use crate::text::{find_char, is_space, lemma_find_char, lowercase, trim, words};
use crate::text_laws::{
    is_blank, law_lines_end_with_line_feeds, law_trim_takes_what_is_around,
    law_words_are_what_stands_between,
};

verus! {

// ---------------------------------------------------------------------------
// The end of the header section
// ---------------------------------------------------------------------------

/// Whether an empty line in `\r\n` style stands at `i`.
pub open spec fn blank_crlf(buf: Seq<u8>, i: int) -> bool {
    0 <= i && i + 4 <= buf.len() && buf[i] == 13 && buf[i + 1] == 10 && buf[i + 2] == 13 && buf[i
        + 3] == 10
}

/// Whether an empty line in `\n` style stands at `i`.
pub open spec fn blank_lf(buf: Seq<u8>, i: int) -> bool {
    0 <= i && i + 2 <= buf.len() && buf[i] == 10 && buf[i + 1] == 10
}

proof fn lemma_blank_lines(buf: Seq<u8>, i: int)
    ensures
        bytes_at(buf, crlf_crlf(), i) == blank_crlf(buf, i),
        bytes_at(buf, lf_lf(), i) == blank_lf(buf, i),
{
    if 0 <= i && i + 4 <= buf.len() {
        let part = buf.subrange(i, i + 4);
        assert(part[0] == buf[i] && part[1] == buf[i + 1] && part[2] == buf[i + 2] && part[3]
            == buf[i + 3]);
        if blank_crlf(buf, i) {
            assert(part =~= crlf_crlf());
        }
    }
    if 0 <= i && i + 2 <= buf.len() {
        let part = buf.subrange(i, i + 2);
        assert(part[0] == buf[i] && part[1] == buf[i + 1]);
        if blank_lf(buf, i) {
            assert(part =~= lf_lf());
        }
    }
}

/// The header section ends before the first empty line in `\r\n` style; where there is none
/// at all, before the first in `\n` style; and where there is neither, nowhere yet.
pub proof fn law_headers_end_before_the_first_empty_line(buf: Seq<u8>)
    ensures
        match header_end(buf) {
            Some(end) => {
                ||| blank_crlf(buf, end as int) && forall|i: int|
                    0 <= i < end ==> !#[trigger] blank_crlf(buf, i)
                ||| blank_lf(buf, end as int) && (forall|i: int|
                    !#[trigger] blank_crlf(buf, i)) && (forall|i: int|
                    0 <= i < end ==> !#[trigger] blank_lf(buf, i))
            },
            None => (forall|i: int| !#[trigger] blank_crlf(buf, i)) && (forall|i: int|
                !#[trigger] blank_lf(buf, i)),
        },
{
    lemma_first_at(buf, crlf_crlf());
    lemma_first_at(buf, lf_lf());
    assert forall|i: int| #[trigger] blank_crlf(buf, i) == bytes_at(buf, crlf_crlf(), i) by {
        lemma_blank_lines(buf, i);
    }
    assert forall|i: int| #[trigger] blank_lf(buf, i) == bytes_at(buf, lf_lf(), i) by {
        lemma_blank_lines(buf, i);
    }
}

// ---------------------------------------------------------------------------
// Reading on
// ---------------------------------------------------------------------------

/// Where reading stands when the header section `head` was followed by `body`: more is
/// needed exactly where the body is shorter than announced; a request has the body as
/// announced, and nothing that came after it.
pub open spec fn stands(step: StepView, head: HeadView, body: Seq<u8>) -> bool {
    if head.body_start + head.content_length > usize::MAX {
        step is BeyondMemory
    } else if body.len() < head.content_length {
        step is NeedMore
    } else {
        step == StepView::Done(
            RequestView {
                method: head.method,
                path: head.path,
                headers: head.headers,
                body: body.take(head.content_length as int),
            },
        )
    }
}

/// What is before the first empty line is the header section, and what is behind it, four
/// bytes or two, the body. A header section without a request line is refused.
pub proof fn law_head_and_body_are_parted(head: Seq<u8>, blank: Seq<u8>, body: Seq<u8>)
    requires
        ({
            let buf = head + blank + body;
            ||| blank == seq![13u8, 10u8, 13u8, 10u8] && forall|i: int|
                0 <= i < head.len() ==> !#[trigger] blank_crlf(buf, i)
            ||| blank == seq![10u8, 10u8] && (forall|i: int| !#[trigger] blank_crlf(buf, i)) && (
            forall|i: int| 0 <= i < head.len() ==> !#[trigger] blank_lf(buf, i))
        }),
    ensures
        ({
            let step = read_step(fresh_reader(), head + blank + body).1;
            match head_of(utf8_lossy(head), head.len() + blank.len()) {
                Some(section) => stands(step, section, body),
                None => step == StepView::Failed(
                    ErrorView { kind: ErrorKind::InvalidData, message: "bad request line"@ },
                ),
            }
        }),
{
    let buf = head + blank + body;
    let n = head.len() as int;
    assert(Seq::<u8>::empty() + buf == buf);
    assert(buf.take(n) == head);
    assert forall|i: int| #[trigger] bytes_at(buf, crlf_crlf(), i) == blank_crlf(buf, i) by {
        lemma_blank_lines(buf, i);
    }
    assert forall|i: int| #[trigger] bytes_at(buf, lf_lf(), i) == blank_lf(buf, i) by {
        lemma_blank_lines(buf, i);
    }
    if blank.len() == 4 {
        assert(buf[n] == blank[0] && buf[n + 1] == blank[1] && buf[n + 2] == blank[2] && buf[n + 3]
            == blank[3]);
        assert(blank_crlf(buf, n));
        lemma_first_at_is(buf, crlf_crlf(), n);
    } else {
        assert(buf[n] == blank[0] && buf[n + 1] == blank[1]);
        assert(blank_lf(buf, n));
        lemma_first_at_none(buf, crlf_crlf());
        lemma_first_at_is(buf, lf_lf(), n);
        assert(!bytes_at(buf, crlf_crlf(), n));
    }
    if let Some(section) = head_of(utf8_lossy(head), head.len() + blank.len()) {
        let end = section.body_start + section.content_length;
        if end <= usize::MAX && buf.len() >= end {
            assert(buf.subrange(section.body_start as int, end as int) == body.take(
                section.content_length as int,
            ));
        }
    }
}

/// Once the header section is known, a chunk only adds to the body.
pub proof fn law_later_chunks_add_to_the_body(
    head: HeadView,
    before: Seq<u8>,
    body: Seq<u8>,
    chunk: Seq<u8>,
)
    requires
        head.body_start == before.len(),
        chunk.len() > 0,
    ensures
        stands(
            read_step(ReaderView { buf: before + body, head: Some(head) }, chunk).1,
            head,
            body + chunk,
        ),
        read_step(ReaderView { buf: before + body, head: Some(head) }, chunk).1 is NeedMore
            ==> read_step(ReaderView { buf: before + body, head: Some(head) }, chunk).0 == (
        ReaderView { buf: before + (body + chunk), head: Some(head) }),
{
    let buf = before + body + chunk;
    assert(buf == before + (body + chunk));
    let end = head.body_start + head.content_length;
    if end <= usize::MAX && buf.len() >= end {
        assert(buf.subrange(head.body_start as int, end as int) == (body + chunk).take(
            head.content_length as int,
        ));
    }
}

/// A beginning without an empty line is read on up to 65536 bytes, and refused beyond.
pub proof fn law_open_headers_have_a_limit(reader: ReaderView, chunk: Seq<u8>)
    requires
        reader.head is None,
        chunk.len() > 0,
        forall|i: int| !#[trigger] blank_crlf(reader.buf + chunk, i),
        forall|i: int| !#[trigger] blank_lf(reader.buf + chunk, i),
    ensures
        MAX_OPEN_HEADERS == 65536,
        reader.buf.len() + chunk.len() <= 65536 ==> {
            &&& read_step(reader, chunk).1 is NeedMore
            &&& read_step(reader, chunk).0 == (ReaderView {
                buf: reader.buf + chunk,
                head: None,
            })
        },
        reader.buf.len() + chunk.len() > 65536 ==> read_step(reader, chunk).1 == StepView::Failed(
            ErrorView { kind: ErrorKind::InvalidData, message: "HTTP headers too large"@ },
        ),
{
    let buf = reader.buf + chunk;
    law_headers_end_before_the_first_empty_line(buf);
    assert(header_end(buf) is None);
}

/// A connection that closes before the request is complete is an error: of the headers
/// where these are not complete, and else of the body, with how much of it has come.
pub proof fn law_early_ends_are_errors(buf: Seq<u8>, head: HeadView)
    ensures
        read_step(ReaderView { buf, head: None }, seq![]).1 == StepView::Failed(
            ErrorView {
                kind: ErrorKind::UnexpectedEof,
                message: "connection closed before HTTP headers completed"@,
            },
        ),
        buf.len() >= head.body_start ==> read_step(
            ReaderView { buf, head: Some(head) },
            seq![],
        ).1 == StepView::Failed(
            ErrorView {
                kind: ErrorKind::UnexpectedEof,
                message: "connection closed with "@ + decimal(
                    (buf.len() - head.body_start) as nat,
                ) + "/"@ + decimal(head.content_length) + " body bytes"@,
            },
        ),
{
}

// ---------------------------------------------------------------------------
// The lines of the header section
// ---------------------------------------------------------------------------

/// A header section whose first line has fewer than two words has no request line.
pub proof fn law_a_request_line_has_two_words(
    a: Seq<char>,
    word: Seq<char>,
    b: Seq<char>,
    body_start: nat,
)
    requires
        is_blank(a),
        is_blank(b),
        word.len() > 0,
        forall|i: int| 0 <= i < word.len() ==> !is_space(#[trigger] word[i]),
        forall|i: int| 0 <= i < a.len() ==> #[trigger] a[i] != '\n',
        forall|i: int| 0 <= i < b.len() ==> #[trigger] b[i] != '\n',
    ensures
        head_of(seq![], body_start) is None,
        head_of(a, body_start) is None,
        head_of(a + word + b, body_start) is None,
{
    let none = Seq::<char>::empty();
    law_words_are_what_stands_between(none, word, none);
    law_lines_end_with_line_feeds(none, none);
    law_words_are_what_stands_between(a, word, b);
    law_lines_end_with_line_feeds(a, none);
    law_words_are_what_stands_between(b, word, none);
    let line = a + word + b;
    assert forall|i: int| 0 <= i < line.len() implies #[trigger] line[i] != '\n' by {
        if i < a.len() {
            assert(line[i] == a[i]);
        } else if i < a.len() + word.len() {
            assert(line[i] == word[i - a.len()]);
        } else {
            assert(line[i] == b[i - a.len() - word.len()]);
        }
    }
    law_lines_end_with_line_feeds(line, none);
    assert(words(line) == seq![word]);
}

/// A field is the text before the first colon of its line, in lower case, and all the text
/// behind it, both without the white space around them; a line without a colon is none.
pub proof fn law_fields_are_parted_by_the_first_colon(
    fields: Map<Seq<char>, Seq<char>>,
    name: Seq<char>,
    value: Seq<char>,
)
    requires
        forall|i: int| 0 <= i < name.len() ==> #[trigger] name[i] != ':',
    ensures
        with_field(fields, name + seq![':'] + value) == fields.insert(
            lowercase(trim(name)),
            trim(value),
        ),
        with_field(fields, name) == fields,
{
    let line = name + seq![':'] + value;
    let n = name.len() as int;
    lemma_find_char(line, ':');
    let found = find_char(line, ':') as int;
    assert(found == n) by {
        if found < n {
            assert(line[found] == name[found]);
        } else if n < found {
            assert(line[n] != ':');
        }
    }
    assert(line.take(n) == name);
    assert(line.skip(n + 1) == value);
    lemma_find_char(name, ':');
    let k = find_char(name, ':') as int;
    assert(k == n) by {
        if k < n {
            assert(name[k] == ':');
        }
    }
}

/// Fields are read line by line up to the first empty line, and not behind it; a later field
/// takes the place of an earlier one of the same name.
pub proof fn law_fields_end_with_an_empty_line(ls: Seq<Seq<char>>, more: Seq<Seq<char>>, line: Seq<char>)
    requires
        forall|i: int| 0 <= i < ls.len() ==> (#[trigger] ls[i]).len() > 0,
    ensures
        until_blank(ls) == ls,
        until_blank(ls + seq![seq![]] + more) == ls,
        fields_of(seq![]) == Map::<Seq<char>, Seq<char>>::empty(),
        fields_of(ls.push(line)) == with_field(fields_of(ls), line),
    decreases ls.len(),
{
    assert(ls.push(line).drop_last() == ls);
    let whole = ls + seq![Seq::<char>::empty()] + more;
    if ls.len() > 0 {
        let rest = ls.drop_first();
        assert forall|i: int| 0 <= i < rest.len() implies (#[trigger] rest[i]).len() > 0 by {
            assert(rest[i] == ls[i + 1]);
        }
        law_fields_end_with_an_empty_line(rest, more, line);
        assert(ls[0].len() > 0);
        assert(whole[0] == ls[0]);
        assert(whole.drop_first() == rest + seq![Seq::<char>::empty()] + more);
        assert(seq![ls[0]] + rest == ls);
    } else {
        assert(whole[0].len() == 0);
        assert(ls == Seq::<Seq<char>>::empty());
    }
}

/// A body is as long as its field says, where that is a number; and empty where there is no
/// such field, or it is none.
pub proof fn law_a_body_is_as_long_as_announced(fields: Map<Seq<char>, Seq<char>>)
    ensures
        !fields.dom().contains("content-length"@) ==> announced_length(fields) == 0,
        fields.dom().contains("content-length"@) && read_number(
            fields["content-length"@],
            usize::MAX as nat,
        ) is Err ==> announced_length(fields) == 0,
        fields.dom().contains("content-length"@) && read_number(
            fields["content-length"@],
            usize::MAX as nat,
        ) is Ok ==> announced_length(fields) == read_number(
            fields["content-length"@],
            usize::MAX as nat,
        )->Ok_0,
{
}

/// White space around a field's name and value does not count.
pub proof fn law_white_space_around_fields_does_not_count(
    fields: Map<Seq<char>, Seq<char>>,
    a: Seq<char>,
    name: Seq<char>,
    b: Seq<char>,
    c: Seq<char>,
    value: Seq<char>,
    d: Seq<char>,
)
    requires
        is_blank(a) && is_blank(b) && is_blank(c) && is_blank(d),
        name.len() > 0 ==> !is_space(name[0]) && !is_space(name.last()),
        value.len() > 0 ==> !is_space(value[0]) && !is_space(value.last()),
        forall|i: int| 0 <= i < name.len() ==> #[trigger] name[i] != ':',
    ensures
        with_field(fields, a + name + b + seq![':'] + (c + value + d)) == fields.insert(
            lowercase(name),
            value,
        ),
{
    let left = a + name + b;
    assert forall|i: int| 0 <= i < left.len() implies #[trigger] left[i] != ':' by {
        if i < a.len() {
            assert(is_space(a[i]));
        } else if i < a.len() + name.len() {
            assert(left[i] == name[i - a.len()]);
        } else {
            assert(left[i] == b[i - a.len() - name.len()]);
            assert(is_space(b[i - a.len() - name.len()]));
        }
    }
    law_fields_are_parted_by_the_first_colon(fields, left, c + value + d);
    law_trim_takes_what_is_around(a, name, b);
    law_trim_takes_what_is_around(c, value, d);
}

} // verus!
