//! HTTP requests of the device bridge, read from a connection.

use vstd::prelude::*;
use vstd::slice::slice_subrange;
use vstd::utf8::{decode_utf8, valid_utf8};

use crate::error::{ErrorKind, ErrorView, ShellError};
use crate::number::{decimal, parse_number, push_decimal, read_number};
use crate::outside::{text_from_utf8_lossy, utf8_lossy};
use crate::text::{
    chars_of, find_char, lines, lower_chars, lowercase, position, split_lines, split_whitespace,
    str_eq, text_of, texts, trim, trim_chars, words,
};

verus! {

// ---------------------------------------------------------------------------
// Header fields
// ---------------------------------------------------------------------------

/// The header fields of a request: each name with the value it was given last.
pub struct Headers {
    entries: Vec<(String, String)>,
}

pub open spec fn field_map(entries: Seq<(Seq<char>, Seq<char>)>) -> Map<Seq<char>, Seq<char>>
    decreases entries.len(),
{
    if entries.len() == 0 {
        Map::empty()
    } else {
        field_map(entries.drop_last()).insert(entries.last().0, entries.last().1)
    }
}

impl View for Headers {
    type V = Map<Seq<char>, Seq<char>>;

    closed spec fn view(&self) -> Map<Seq<char>, Seq<char>> {
        field_map(self.pairs())
    }
}

impl Headers {
    closed spec fn pairs(&self) -> Seq<(Seq<char>, Seq<char>)> {
        Seq::new(self.entries@.len(), |i: int| (self.entries@[i].0@, self.entries@[i].1@))
    }

    /// No fields.
    pub fn new() -> (h: Headers)
        ensures
            h@ == Map::<Seq<char>, Seq<char>>::empty(),
    {
        Headers { entries: Vec::new() }
    }

    /// Gives `name` the value `value`, in place of any it had.
    pub fn insert(&mut self, name: String, value: String)
        ensures
            final(self)@ == old(self)@.insert(name@, value@),
    {
        let ghost before = self.pairs();
        self.entries.push((name, value));
        assert(self.pairs().drop_last() == before);
    }

    /// The value of `name`.
    pub fn get(&self, name: &str) -> (value: Option<String>)
        ensures
            match value {
                Some(v) => self@.dom().contains(name@) && self@[name@] == v@,
                None => !self@.dom().contains(name@),
            },
    {
        let mut i: usize = self.entries.len();
        assert(self.pairs().take(i as int) == self.pairs());
        while i > 0
            invariant
                i <= self.entries@.len(),
                self@.dom().contains(name@) == field_map(
                    self.pairs().take(i as int),
                ).dom().contains(name@),
                self@.dom().contains(name@) ==> self@[name@] == field_map(
                    self.pairs().take(i as int),
                )[name@],
            decreases i,
        {
            proof {
                let now = self.pairs().take(i as int);
                assert(now.drop_last() == self.pairs().take(i - 1));
                assert(now.last() == (self.entries@[i - 1].0@, self.entries@[i - 1].1@));
            }
            let entry = &self.entries[i - 1];
            if str_eq(entry.0.as_str(), name) {
                return Some(entry.1.clone());
            }
            i -= 1;
        }
        None
    }
}

/// The value of a header field, by its name in lower case.
pub fn header_ci(headers: &Headers, key: &str) -> (value: Option<String>)
    ensures
        match value {
            Some(v) => headers@.dom().contains(key@) && headers@[key@] == v@,
            None => !headers@.dom().contains(key@),
        },
{
    headers.get(key)
}

// ---------------------------------------------------------------------------
// The end of the header section
// ---------------------------------------------------------------------------

/// Whether `part` stands in `buf` from index `i` on.
pub open spec fn bytes_at(buf: Seq<u8>, part: Seq<u8>, i: int) -> bool {
    0 <= i && i + part.len() <= buf.len() && buf.subrange(i, i + part.len()) == part
}

/// Where `part` first stands in `buf`.
pub open spec fn first_at(buf: Seq<u8>, part: Seq<u8>) -> Option<nat>
    decreases buf.len(),
{
    if bytes_at(buf, part, 0) {
        Some(0)
    } else if buf.len() == 0 {
        None
    } else {
        match first_at(buf.drop_first(), part) {
            Some(i) => Some(i + 1),
            None => None,
        }
    }
}

/// An empty line between lines that end with `\r\n`.
pub open spec fn crlf_crlf() -> Seq<u8> {
    seq![13u8, 10u8, 13u8, 10u8]
}

/// An empty line between lines that end with `\n`.
pub open spec fn lf_lf() -> Seq<u8> {
    seq![10u8, 10u8]
}

/// Where the header section ends: before the first empty line in `\r\n` style, or,
/// where there is none, before the first in `\n` style.
pub open spec fn header_end(buf: Seq<u8>) -> Option<nat> {
    match first_at(buf, crlf_crlf()) {
        Some(i) => Some(i),
        None => first_at(buf, lf_lf()),
    }
}

/// What `first_at` finds is the first place of all.
pub proof fn lemma_first_at(buf: Seq<u8>, part: Seq<u8>)
    ensures
        match first_at(buf, part) {
            Some(i) => bytes_at(buf, part, i as int) && forall|j: int|
                0 <= j < i ==> !bytes_at(buf, part, j),
            None => forall|j: int| !bytes_at(buf, part, j),
        },
    decreases buf.len(),
{
    let rest = buf.drop_first();
    if !bytes_at(buf, part, 0) && buf.len() > 0 {
        lemma_first_at(rest, part);
        assert forall|j: int| 0 < j implies bytes_at(buf, part, j) == bytes_at(
            rest,
            part,
            j - 1,
        ) by {
            if j + part.len() <= buf.len() {
                assert(buf.subrange(j, j + part.len()) == rest.subrange(
                    j - 1,
                    j - 1 + part.len(),
                ));
            }
        }
        match first_at(buf, part) {
            Some(i) => {
                assert forall|j: int| 0 <= j < i implies !bytes_at(buf, part, j) by {
                    if j > 0 {
                        assert(!bytes_at(rest, part, j - 1));
                    }
                }
            },
            None => {
                assert forall|j: int| !bytes_at(buf, part, j) by {
                    if j > 0 {
                        assert(!bytes_at(rest, part, j - 1));
                    }
                }
            },
        }
    }
}

/// A place that no earlier one precedes is the one that `first_at` finds.
pub proof fn lemma_first_at_is(buf: Seq<u8>, part: Seq<u8>, i: int)
    requires
        bytes_at(buf, part, i),
        forall|j: int| 0 <= j < i ==> !bytes_at(buf, part, j),
    ensures
        first_at(buf, part) == Some(i as nat),
{
    lemma_first_at(buf, part);
    if first_at(buf, part) is Some {
        let k = first_at(buf, part)->0;
        if k < i {
            assert(!bytes_at(buf, part, k as int));
        }
        if i < k {
            assert(!bytes_at(buf, part, i));
        }
    }
}

/// Where no place holds `part`, `first_at` finds none.
pub proof fn lemma_first_at_none(buf: Seq<u8>, part: Seq<u8>)
    requires
        forall|j: int| !bytes_at(buf, part, j),
    ensures
        first_at(buf, part) is None,
{
    lemma_first_at(buf, part);
}

fn find_crlf_crlf(buf: &[u8]) -> (r: Option<usize>)
    ensures
        match r {
            Some(i) => first_at(buf@, crlf_crlf()) == Some(i as nat) && i + 4 <= buf@.len(),
            None => first_at(buf@, crlf_crlf()) is None,
        },
{
    let mut i: usize = 0;
    let len: usize = buf.len();
    while i < len && len - i >= 4
        invariant
            i <= len == buf@.len(),
            forall|j: int| 0 <= j < i ==> !bytes_at(buf@, crlf_crlf(), j),
        decreases len - i,
    {
        if buf[i] == 13 && buf[i + 1] == 10 && buf[i + 2] == 13 && buf[i + 3] == 10 {
            proof {
                assert(buf@.subrange(i as int, i + 4) == crlf_crlf());
                lemma_first_at_is(buf@, crlf_crlf(), i as int);
            }
            return Some(i);
        }
        proof {
            let part = buf@.subrange(i as int, i + 4);
            assert(part[0] == buf@[i as int] && part[1] == buf@[i + 1] && part[2] == buf@[i + 2]
                && part[3] == buf@[i + 3]);
        }
        i += 1;
    }
    proof {
        lemma_first_at_none(buf@, crlf_crlf());
    }
    None
}

fn find_lf_lf(buf: &[u8]) -> (r: Option<usize>)
    ensures
        match r {
            Some(i) => first_at(buf@, lf_lf()) == Some(i as nat) && i + 2 <= buf@.len(),
            None => first_at(buf@, lf_lf()) is None,
        },
{
    let mut i: usize = 0;
    let len: usize = buf.len();
    while i < len && len - i >= 2
        invariant
            i <= len == buf@.len(),
            forall|j: int| 0 <= j < i ==> !bytes_at(buf@, lf_lf(), j),
        decreases len - i,
    {
        if buf[i] == 10 && buf[i + 1] == 10 {
            proof {
                assert(buf@.subrange(i as int, i + 2) == lf_lf());
                lemma_first_at_is(buf@, lf_lf(), i as int);
            }
            return Some(i);
        }
        proof {
            let part = buf@.subrange(i as int, i + 2);
            assert(part[0] == buf@[i as int] && part[1] == buf@[i + 1]);
        }
        i += 1;
    }
    proof {
        lemma_first_at_none(buf@, lf_lf());
    }
    None
}

/// Where the header section of `buf` ends.
pub fn find_header_end(buf: &[u8]) -> (r: Option<usize>)
    ensures
        match r {
            Some(i) => header_end(buf@) == Some(i as nat),
            None => header_end(buf@) is None,
        },
{
    match find_crlf_crlf(buf) {
        Some(i) => Some(i),
        None => find_lf_lf(buf),
    }
}

// ---------------------------------------------------------------------------
// The header section
// ---------------------------------------------------------------------------

/// The lines before the first empty one.
pub open spec fn until_blank(ls: Seq<Seq<char>>) -> Seq<Seq<char>>
    decreases ls.len(),
{
    if ls.len() == 0 || ls[0].len() == 0 {
        seq![]
    } else {
        seq![ls[0]] + until_blank(ls.drop_first())
    }
}

/// The field that a line adds: the name, before the first colon, in lower case, and
/// the value after it, both without white space around them. A line without a colon
/// adds nothing.
pub open spec fn with_field(
    fields: Map<Seq<char>, Seq<char>>,
    line: Seq<char>,
) -> Map<Seq<char>, Seq<char>> {
    let colon = find_char(line, ':') as int;
    if colon < line.len() {
        fields.insert(lowercase(trim(line.take(colon))), trim(line.skip(colon + 1)))
    } else {
        fields
    }
}

/// The fields that lines give, the later ones in place of the earlier.
pub open spec fn fields_of(ls: Seq<Seq<char>>) -> Map<Seq<char>, Seq<char>>
    decreases ls.len(),
{
    if ls.len() == 0 {
        Map::empty()
    } else {
        with_field(fields_of(ls.drop_last()), ls.last())
    }
}

/// The length of the body that the fields announce: 0 where they announce none, or
/// none that is a number.
pub open spec fn announced_length(fields: Map<Seq<char>, Seq<char>>) -> nat {
    if fields.dom().contains("content-length"@) {
        match read_number(fields["content-length"@], usize::MAX as nat) {
            Ok(n) => n,
            Err(_) => 0,
        }
    } else {
        0
    }
}

/// A header section, read.
pub struct HeadView {
    pub method: Seq<char>,
    pub path: Seq<char>,
    pub headers: Map<Seq<char>, Seq<char>>,
    pub body_start: nat,
    pub content_length: nat,
}

/// Reads a header section: the first two words of its first line are the method and
/// the path. `None` where there are not two.
pub open spec fn head_of(text: Seq<char>, body_start: nat) -> Option<HeadView> {
    let ls = lines(text);
    let request_line = if ls.len() > 0 {
        ls[0]
    } else {
        seq![]
    };
    let parts = words(request_line);
    if parts.len() < 2 {
        None
    } else {
        let headers = fields_of(until_blank(ls.skip(1)));
        Some(
            HeadView {
                method: parts[0],
                path: parts[1],
                headers,
                body_start,
                content_length: announced_length(headers),
            },
        )
    }
}

/// A header section, and where the body that follows it starts and how long it is.
pub struct Head {
    pub method: String,
    pub path: String,
    pub headers: Headers,
    pub body_start: usize,
    pub content_length: usize,
}

impl View for Head {
    type V = HeadView;

    open spec fn view(&self) -> HeadView {
        HeadView {
            method: self.method@,
            path: self.path@,
            headers: self.headers@,
            body_start: self.body_start as nat,
            content_length: self.content_length as nat,
        }
    }
}

pub proof fn lemma_until_blank(ls: Seq<Seq<char>>, n: int)
    requires
        0 <= n <= ls.len(),
        forall|i: int| 0 <= i < n ==> #[trigger] ls[i].len() > 0,
        n < ls.len() ==> ls[n].len() == 0,
    ensures
        until_blank(ls) == ls.take(n),
    decreases ls.len(),
{
    if n > 0 {
        assert(ls[0].len() > 0);
        let rest = ls.drop_first();
        assert forall|i: int| 0 <= i < n - 1 implies #[trigger] rest[i].len() > 0 by {
            assert(ls[i + 1].len() > 0);
        }
        lemma_until_blank(rest, n - 1);
        assert(seq![ls[0]] + rest.take(n - 1) == ls.take(n));
    } else {
        assert(ls.take(0) == Seq::<Seq<char>>::empty());
    }
}

fn add_field(headers: &mut Headers, line: &str)
    ensures
        final(headers)@ == with_field(old(headers)@, line@),
{
    let chars = chars_of(line);
    let colon = position(chars.as_slice(), ':');
    if colon < chars.len() {
        let name = lower_chars(trim_chars(slice_subrange(chars.as_slice(), 0, colon)));
        let value = text_of(trim_chars(slice_subrange(chars.as_slice(), colon + 1, chars.len())));
        assert(chars@.subrange(0, colon as int) == line@.take(colon as int));
        assert(chars@.subrange(colon + 1, chars@.len() as int) == line@.skip(colon + 1));
        headers.insert(text_of(name.as_slice()), value);
    }
}

fn content_length(headers: &Headers) -> (n: usize)
    ensures
        n == announced_length(headers@),
{
    match headers.get("content-length") {
        Some(v) => {
            let chars = chars_of(v.as_str());
            match parse_number(chars.as_slice(), usize::MAX as u64) {
                Ok(n) => n as usize,
                Err(_) => 0,
            }
        },
        None => 0,
    }
}

/// Reads the text of a header section; the body starts at `body_start`.
pub fn parse_head(text: &str, body_start: usize) -> (r: Option<Head>)
    ensures
        match r {
            Some(h) => head_of(text@, body_start as nat) == Some(h@),
            None => head_of(text@, body_start as nat) is None,
        },
{
    let chars = chars_of(text);
    let list = split_lines(chars.as_slice());
    let ghost ls = lines(text@);
    let first: Vec<char> = if list.len() > 0 {
        assert(texts(list@)[0] == list@[0]@);
        chars_of(list[0].as_str())
    } else {
        Vec::new()
    };
    let parts = split_whitespace(first.as_slice());
    assert(texts(parts@).len() == parts@.len());
    if parts.len() < 2 {
        return None;
    }
    assert(texts(parts@)[0] == parts@[0]@ && texts(parts@)[1] == parts@[1]@);
    assert(list@.len() > 0) by {
        if list@.len() == 0 {
            assert(texts(parts@) == words(Seq::<char>::empty()));
        }
    }
    let mut headers = Headers::new();
    let mut i: usize = 1;
    let ghost rest = ls.skip(1);
    assert(fields_of(rest.take(0)) == Map::<Seq<char>, Seq<char>>::empty());
    while i < list.len() && !list[i].as_str().is_empty()
        invariant
            1 <= i <= list@.len(),
            texts(list@) == ls,
            rest == ls.skip(1),
            headers@ == fields_of(rest.take(i - 1)),
            forall|j: int| 0 <= j < i - 1 ==> #[trigger] rest[j].len() > 0,
        decreases list@.len() - i,
    {
        assert(rest[i - 1] == list@[i as int]@);
        add_field(&mut headers, list[i].as_str());
        i += 1;
        assert(rest.take(i - 1).drop_last() == rest.take(i - 2));
        assert(rest.take(i - 1).last() == rest[i - 2]);
    }
    proof {
        if i < list@.len() {
            assert(rest[i - 1] == list@[i as int]@);
        }
        lemma_until_blank(rest, i - 1);
    }
    let content_length = content_length(&headers);
    Some(
        Head {
            method: parts[0].clone(),
            path: parts[1].clone(),
            headers,
            body_start,
            content_length,
        },
    )
}

// ---------------------------------------------------------------------------
// Reading a request
// ---------------------------------------------------------------------------

/// A request of a client.
pub struct HttpRequest {
    pub method: String,
    pub path: String,
    pub headers: Headers,
    pub body: Vec<u8>,
}

/// A request as a value.
pub struct RequestView {
    pub method: Seq<char>,
    pub path: Seq<char>,
    pub headers: Map<Seq<char>, Seq<char>>,
    pub body: Seq<u8>,
}

impl View for HttpRequest {
    type V = RequestView;

    open spec fn view(&self) -> RequestView {
        RequestView {
            method: self.method@,
            path: self.path@,
            headers: self.headers@,
            body: self.body@,
        }
    }
}

/// How far a request has been read.
pub enum ReadStep {
    /// More bytes are needed.
    NeedMore,
    /// The request is complete.
    Done(HttpRequest),
    /// The request cannot be read.
    Failed(ShellError),
    /// The end of the announced body is beyond what the machine can address.
    BeyondMemory,
}

/// How far a request has been read, as a value.
pub enum StepView {
    NeedMore,
    Done(RequestView),
    Failed(ErrorView),
    BeyondMemory,
}

impl View for ReadStep {
    type V = StepView;

    open spec fn view(&self) -> StepView {
        match *self {
            ReadStep::NeedMore => StepView::NeedMore,
            ReadStep::Done(r) => StepView::Done(r@),
            ReadStep::Failed(e) => StepView::Failed(e@),
            ReadStep::BeyondMemory => StepView::BeyondMemory,
        }
    }
}

/// What a connection has sent so far.
pub struct HttpReader {
    buf: Vec<u8>,
    head: Option<Head>,
}

/// What a connection has sent so far, as a value: the bytes, and the header section
/// once it is complete.
pub struct ReaderView {
    pub buf: Seq<u8>,
    pub head: Option<HeadView>,
}

impl View for HttpReader {
    type V = ReaderView;

    closed spec fn view(&self) -> ReaderView {
        ReaderView {
            buf: self.buf@,
            head: match self.head {
                Some(h) => Some(h@),
                None => None,
            },
        }
    }
}

/// The longest beginning of a request that may lack the end of the header section.
pub const MAX_OPEN_HEADERS: usize = 65536;

pub open spec fn failed(kind: ErrorKind, message: Seq<char>) -> StepView {
    StepView::Failed(ErrorView { kind, message })
}

/// A reader that has seen nothing.
pub open spec fn fresh_reader() -> ReaderView {
    ReaderView { buf: seq![], head: None }
}

/// Where reading stands once the header section `head` is known.
pub open spec fn body_step(buf: Seq<u8>, head: HeadView) -> (ReaderView, StepView) {
    let end = head.body_start + head.content_length;
    if end > usize::MAX {
        (ReaderView { buf, head: Some(head) }, StepView::BeyondMemory)
    } else if buf.len() < end {
        (ReaderView { buf, head: Some(head) }, StepView::NeedMore)
    } else {
        (
            fresh_reader(),
            StepView::Done(
                RequestView {
                    method: head.method,
                    path: head.path,
                    headers: head.headers,
                    body: buf.subrange(head.body_start as int, end as int),
                },
            ),
        )
    }
}

/// What a connection that closes too early leaves.
pub open spec fn closed_step(reader: ReaderView) -> StepView {
    match reader.head {
        None => failed(
            ErrorKind::UnexpectedEof,
            "connection closed before HTTP headers completed"@,
        ),
        Some(head) => failed(
            ErrorKind::UnexpectedEof,
            "connection closed with "@ + decimal(
                if reader.buf.len() >= head.body_start {
                    (reader.buf.len() - head.body_start) as nat
                } else {
                    0
                },
            ) + "/"@ + decimal(head.content_length) + " body bytes"@,
        ),
    }
}

/// Reading one chunk more; an empty one means that the connection was closed.
pub open spec fn read_step(reader: ReaderView, chunk: Seq<u8>) -> (ReaderView, StepView) {
    if chunk.len() == 0 {
        (reader, closed_step(reader))
    } else {
        let buf = reader.buf + chunk;
        let open = ReaderView { buf, head: None };
        match reader.head {
            Some(head) => body_step(buf, head),
            None => match header_end(buf) {
                None => if buf.len() > MAX_OPEN_HEADERS {
                    (open, failed(ErrorKind::InvalidData, "HTTP headers too large"@))
                } else {
                    (open, StepView::NeedMore)
                },
                Some(end) => {
                    let sep: nat = if bytes_at(buf, crlf_crlf(), end as int) {
                        4
                    } else {
                        2
                    };
                    match head_of(utf8_lossy(buf.take(end as int)), end + sep) {
                        None => (open, failed(ErrorKind::InvalidData, "bad request line"@)),
                        Some(head) => body_step(buf, head),
                    }
                },
            },
        }
    }
}

/// Whether the header section of `buf`, where it is complete and valid UTF-8, is read as
/// what it encodes.
pub open spec fn reads_utf8(buf: Seq<u8>) -> bool {
    match header_end(buf) {
        Some(end) => valid_utf8(buf.take(end as int)) ==> utf8_lossy(buf.take(end as int))
            == decode_utf8(buf.take(end as int)),
        None => true,
    }
}

proof fn lemma_header_end_sep(buf: Seq<u8>)
    ensures
        match header_end(buf) {
            Some(end) => if bytes_at(buf, crlf_crlf(), end as int) {
                end + 4 <= buf.len()
            } else {
                end + 2 <= buf.len()
            },
            None => true,
        },
{
    lemma_first_at(buf, crlf_crlf());
    lemma_first_at(buf, lf_lf());
}

/// Where the body starts after a header section that ends at `end`.
fn body_start(buf: &[u8], end: usize) -> (start: usize)
    requires
        header_end(buf@) == Some(end as nat),
    ensures
        start == end + (if bytes_at(buf@, crlf_crlf(), end as int) {
            4int
        } else {
            2int
        }),
        end <= start <= buf@.len(),
{
    proof {
        lemma_header_end_sep(buf@);
    }
    let len: usize = buf.len();
    if len - end >= 4 && buf[end] == 13 && buf[end + 1] == 10 && buf[end + 2] == 13 && buf[end + 3]
        == 10 {
        assert(buf@.subrange(end as int, end + 4) == crlf_crlf());
        end + 4
    } else {
        proof {
            if end + 4 <= buf@.len() {
                let part = buf@.subrange(end as int, end + 4);
                assert(part[0] == buf@[end as int] && part[1] == buf@[end + 1] && part[2]
                    == buf@[end + 2] && part[3] == buf@[end + 3]);
            }
        }
        end + 2
    }
}

impl HttpReader {
    /// A reader that has seen nothing.
    pub fn new() -> (r: HttpReader)
        ensures
            r@ == fresh_reader(),
    {
        HttpReader { buf: Vec::new(), head: None }
    }

    fn closed(&self) -> (e: ShellError)
        ensures
            StepView::Failed(e@) == closed_step(self@),
    {
        match &self.head {
            None => ShellError::new(
                ErrorKind::UnexpectedEof,
                "connection closed before HTTP headers completed",
            ),
            Some(head) => {
                let mut message: String = "connection closed with ".to_owned();
                push_decimal(&mut message, self.buf.len().saturating_sub(head.body_start) as u128);
                message.append("/");
                push_decimal(&mut message, head.content_length as u128);
                message.append(" body bytes");
                ShellError { kind: ErrorKind::UnexpectedEof, message }
            },
        }
    }

    fn read_body(&mut self, head: Head) -> (step: ReadStep)
        ensures
            (final(self)@, step@) == body_step(old(self)@.buf, head@),
    {
        if usize::MAX - head.body_start < head.content_length {
            self.head = Some(head);
            return ReadStep::BeyondMemory;
        }
        let end: usize = head.body_start + head.content_length;
        if self.buf.len() < end {
            self.head = Some(head);
            return ReadStep::NeedMore;
        }
        let body = vstd::slice::slice_to_vec(
            slice_subrange(self.buf.as_slice(), head.body_start, end),
        );
        self.buf.clear();
        self.head = None;
        ReadStep::Done(
            HttpRequest { method: head.method, path: head.path, headers: head.headers, body },
        )
    }

    /// Takes the next chunk that the connection sent, an empty one where it was
    /// closed, and tells how far the request has been read. A reader that has given
    /// a request starts over. A header section that is valid UTF-8 is read as it is.
    pub fn feed(&mut self, chunk: &[u8]) -> (step: ReadStep)
        ensures
            (final(self)@, step@) == read_step(old(self)@, chunk@),
            chunk@.len() > 0 && old(self)@.head is None ==> reads_utf8(old(self)@.buf + chunk@),
    {
        if chunk.len() == 0 {
            return ReadStep::Failed(self.closed());
        }
        self.buf.extend_from_slice(chunk);
        assert(self.buf@ == old(self).buf@ + chunk@);
        match self.head.take() {
            Some(head) => self.read_body(head),
            None => match find_header_end(self.buf.as_slice()) {
                None => if self.buf.len() > MAX_OPEN_HEADERS {
                    ReadStep::Failed(
                        ShellError::new(ErrorKind::InvalidData, "HTTP headers too large"),
                    )
                } else {
                    ReadStep::NeedMore
                },
                Some(end) => {
                    let start = body_start(self.buf.as_slice(), end);
                    let text = text_from_utf8_lossy(slice_subrange(self.buf.as_slice(), 0, end));
                    assert(self.buf@.subrange(0, end as int) == self.buf@.take(end as int));
                    match parse_head(text.as_str(), start) {
                        None => ReadStep::Failed(
                            ShellError::new(ErrorKind::InvalidData, "bad request line"),
                        ),
                        Some(head) => self.read_body(head),
                    }
                },
            },
        }
    }
}

} // verus!
