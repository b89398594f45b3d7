//! Page templates: text with named slots, parsed once and rendered with a
//! set of fields.
//!
//! A template is a byte string in which `<%= name %>` stands for the value of
//! the field `name`, escaped for HTML, and `<%- name %>` for the value as it
//! is. Everything else is copied to the page unchanged.
//!
//! A tag runs from `<%` to the first `%>` after it. Between the two stand
//! `=` or `-` and then the name, with any white space around the name. A
//! name is a letter or `_` followed by letters, digits and `_`. A tag that is
//! not closed, or that holds anything else, makes the template malformed.

use vstd::prelude::*;
use crate::escape::{escape_to_bytes, html_escape};
use crate::fields::Fields;
use crate::text::{
    contains,
    lemma_contains_middle,
    lemma_contains_widen,
    CARRIAGE_RETURN,
    DIGIT_NINE,
    DIGIT_ZERO,
    EQUALS,
    GREATER_THAN,
    HYPHEN,
    LESS_THAN,
    LINE_FEED,
    LOWER_A,
    LOWER_Z,
    PERCENT,
    SPACE,
    TAB,
    UNDERSCORE,
    UPPER_A,
    UPPER_Z,
};

verus! {

/// One piece of a parsed template.
pub enum Piece {
    /// Bytes copied to the page as they are.
    Text(Seq<u8>),
    /// A slot, filled with the value of the field `name`.
    Slot { name: Seq<u8>, escaped: bool },
}

/// Why a template could not be turned into a page.
#[derive(Clone, Copy, Debug, PartialEq, Eq, Structural)]
pub enum RenderError {
    /// The template text is malformed: the tag that opens at byte `offset`
    /// is not closed, or is not a slot.
    Malformed { offset: usize },
    /// The piece at index `slot` of the template names a field that was not
    /// supplied.
    MissingField { slot: usize },
}

/// A tag opens at `i`: the bytes `<%`.
pub open spec fn opens_at(src: Seq<u8>, i: int) -> bool {
    0 <= i && i + 1 < src.len() && src[i] == LESS_THAN && src[i + 1] == PERCENT
}

/// A tag closes at `i`: the bytes `%>`.
pub open spec fn closes_at(src: Seq<u8>, i: int) -> bool {
    0 <= i && i + 1 < src.len() && src[i] == PERCENT && src[i + 1] == GREATER_THAN
}

/// The first offset at or after `from` where a tag opens, or the length of
/// `src` if there is none.
pub open spec fn next_open(src: Seq<u8>, from: int) -> int
    decreases src.len() - from,
{
    if from >= src.len() {
        src.len() as int
    } else if opens_at(src, from) {
        from
    } else {
        next_open(src, from + 1)
    }
}

/// The first offset at or after `from` where a tag closes, or the length of
/// `src` if there is none.
pub open spec fn next_close(src: Seq<u8>, from: int) -> int
    decreases src.len() - from,
{
    if from >= src.len() {
        src.len() as int
    } else if closes_at(src, from) {
        from
    } else {
        next_close(src, from + 1)
    }
}

/// Space, tab, line feed or carriage return.
pub open spec fn is_space(b: u8) -> bool {
    b == SPACE || b == TAB || b == LINE_FEED || b == CARRIAGE_RETURN
}

/// A byte that may begin a field name: an ASCII letter or `_`.
pub open spec fn is_name_start(b: u8) -> bool {
    (UPPER_A <= b <= UPPER_Z) || (LOWER_A <= b <= LOWER_Z) || b == UNDERSCORE
}

/// A byte that may stand in a field name: an ASCII letter, a digit or `_`.
pub open spec fn is_name_byte(b: u8) -> bool {
    is_name_start(b) || (DIGIT_ZERO <= b <= DIGIT_NINE)
}

/// A field name: a letter or `_`, then letters, digits and `_`.
pub open spec fn is_name(s: Seq<u8>) -> bool {
    &&& s.len() > 0
    &&& is_name_start(s[0])
    &&& forall|i: int| 0 <= i < s.len() ==> is_name_byte(#[trigger] s[i])
}

/// `s` without the white space at its beginning.
pub open spec fn trim_start(s: Seq<u8>) -> Seq<u8>
    decreases s.len(),
{
    if s.len() > 0 && is_space(s[0]) {
        trim_start(s.drop_first())
    } else {
        s
    }
}

/// `s` without the white space at its end.
pub open spec fn trim_end(s: Seq<u8>) -> Seq<u8>
    decreases s.len(),
{
    if s.len() > 0 && is_space(s.last()) {
        trim_end(s.drop_last())
    } else {
        s
    }
}

/// `s` without the white space at either end.
pub open spec fn trim(s: Seq<u8>) -> Seq<u8> {
    trim_end(trim_start(s))
}

/// The slot that a tag with the given body (the bytes between `<%` and `%>`)
/// stands for, if it is one: `=` or `-`, then a field name with optional
/// white space around it.
pub open spec fn slot_of(body: Seq<u8>) -> Option<Piece> {
    if body.len() > 0 && (body[0] == EQUALS || body[0] == HYPHEN) && is_name(
        trim(body.drop_first()),
    ) {
        Some(Piece::Slot { name: trim(body.drop_first()), escaped: body[0] == EQUALS })
    } else {
        None
    }
}

/// The pieces `done`, followed by the outcome of parsing what comes after
/// them.
pub open spec fn prepend(done: Seq<Piece>, rest: Result<Seq<Piece>, int>) -> Result<
    Seq<Piece>,
    int,
> {
    match rest {
        Ok(pieces) => Ok(done + pieces),
        Err(offset) => Err(offset),
    }
}

/// The pieces of the template text `src` from offset `pos` on, or the offset
/// of the first tag that is not closed or is not a slot.
pub open spec fn parse_from(src: Seq<u8>, pos: int) -> Result<Seq<Piece>, int>
    decreases src.len() - pos,
    via parse_from_decreases
{
    if pos < 0 || pos >= src.len() {
        Ok(Seq::empty())
    } else if opens_at(src, pos) {
        let close: int = next_close(src, pos + 2);
        if close >= src.len() {
            Err(pos)
        } else {
            match slot_of(src.subrange(pos + 2, close)) {
                None => Err(pos),
                Some(piece) => prepend(seq![piece], parse_from(src, close + 2)),
            }
        }
    } else {
        let end: int = next_open(src, pos);
        prepend(seq![Piece::Text(src.subrange(pos, end))], parse_from(src, end))
    }
}

#[via_fn]
proof fn parse_from_decreases(src: Seq<u8>, pos: int) {
    if 0 <= pos < src.len() {
        if opens_at(src, pos) {
            lemma_next_close_bounds(src, pos + 2);
        } else {
            lemma_next_open_bounds(src, pos + 1);
        }
    }
}

/// The pieces of the template text `src`.
pub open spec fn parse_spec(src: Seq<u8>) -> Result<Seq<Piece>, int> {
    parse_from(src, 0)
}

/// `next_open` lies between its starting point and the end of the text, a
/// tag opens there unless it is the end, and none opens before it.
pub proof fn lemma_next_open_bounds(src: Seq<u8>, from: int)
    requires
        0 <= from <= src.len(),
    ensures
        from <= next_open(src, from) <= src.len(),
        next_open(src, from) < src.len() ==> opens_at(src, next_open(src, from)),
        forall|i: int| from <= i < next_open(src, from) ==> !opens_at(src, i),
    decreases src.len() - from,
{
    if from < src.len() && !opens_at(src, from) {
        lemma_next_open_bounds(src, from + 1);
    }
}

/// `next_close` lies between its starting point and the end of the text, a
/// tag closes there unless it is the end, and none closes before it.
pub proof fn lemma_next_close_bounds(src: Seq<u8>, from: int)
    requires
        0 <= from <= src.len(),
    ensures
        from <= next_close(src, from) <= src.len(),
        next_close(src, from) < src.len() ==> closes_at(src, next_close(src, from)),
        forall|i: int| from <= i < next_close(src, from) ==> !closes_at(src, i),
    decreases src.len() - from,
{
    if from < src.len() && !closes_at(src, from) {
        lemma_next_close_bounds(src, from + 1);
    }
}

/// The piece is a slot whose field is not among `names`.
pub open spec fn is_missing(piece: Piece, names: Set<Seq<u8>>) -> bool {
    match piece {
        Piece::Text(_) => false,
        Piece::Slot { name, escaped } => !names.contains(name),
    }
}

/// The index of the first piece at or after `from` whose field is not among
/// `names`, or the number of pieces if there is none.
pub open spec fn first_missing(pieces: Seq<Piece>, names: Set<Seq<u8>>, from: int) -> int
    decreases pieces.len() - from,
{
    if from < 0 || from >= pieces.len() {
        pieces.len() as int
    } else if is_missing(pieces[from], names) {
        from
    } else {
        first_missing(pieces, names, from + 1)
    }
}

/// Every slot of `pieces` names a field among `names`.
pub open spec fn is_complete(pieces: Seq<Piece>, names: Set<Seq<u8>>) -> bool {
    first_missing(pieces, names, 0) == pieces.len()
}

/// What a piece puts on the page: its text, or the value of its field,
/// escaped if the slot asks for it.
pub open spec fn piece_output(piece: Piece, fields: Map<Seq<u8>, Seq<u8>>) -> Seq<u8> {
    match piece {
        Piece::Text(bytes) => bytes,
        Piece::Slot { name, escaped } => if escaped {
            html_escape(fields[name])
        } else {
            fields[name]
        },
    }
}

/// The page that the pieces make: what each puts on it, in order.
pub open spec fn fill(pieces: Seq<Piece>, fields: Map<Seq<u8>, Seq<u8>>) -> Seq<u8>
    decreases pieces.len(),
{
    if pieces.len() == 0 {
        Seq::empty()
    } else {
        fill(pieces.drop_last(), fields) + piece_output(pieces.last(), fields)
    }
}

/// The outcome of rendering: the page, or the first slot whose field is
/// missing.
pub open spec fn render_spec(pieces: Seq<Piece>, fields: Map<Seq<u8>, Seq<u8>>) -> Result<
    Seq<u8>,
    RenderError,
> {
    let missing: int = first_missing(pieces, fields.dom(), 0);
    if missing < pieces.len() {
        Err(RenderError::MissingField { slot: missing as usize })
    } else {
        Ok(fill(pieces, fields))
    }
}

/// The piece is a slot for the field `name`.
pub open spec fn is_slot_for(piece: Piece, name: Seq<u8>) -> bool {
    match piece {
        Piece::Text(_) => false,
        Piece::Slot { name: own, escaped } => own == name,
    }
}

/// The template has a slot for the field `name`.
pub open spec fn has_slot(pieces: Seq<Piece>, name: Seq<u8>) -> bool {
    exists|i: int| 0 <= i < pieces.len() && is_slot_for(#[trigger] pieces[i], name)
}

/// The page holds what each piece puts on it.
pub proof fn lemma_fill_contains(pieces: Seq<Piece>, fields: Map<Seq<u8>, Seq<u8>>, i: int)
    requires
        0 <= i < pieces.len(),
    ensures
        contains(fill(pieces, fields), piece_output(pieces[i], fields)),
    decreases pieces.len(),
{
    let head = fill(pieces.drop_last(), fields);
    let tail = piece_output(pieces.last(), fields);
    if i == pieces.len() - 1 {
        lemma_contains_middle(head, tail, Seq::empty());
        assert(head + tail + Seq::<u8>::empty() =~= head + tail);
    } else {
        lemma_fill_contains(pieces.drop_last(), fields, i);
        lemma_contains_widen(Seq::empty(), head, tail, piece_output(pieces[i], fields));
        assert(Seq::<u8>::empty() + head + tail =~= head + tail);
    }
}

/// With every field supplied, rendering succeeds and gives the filled page.
pub proof fn lemma_render_complete(pieces: Seq<Piece>, fields: Map<Seq<u8>, Seq<u8>>)
    requires
        is_complete(pieces, fields.dom()),
    ensures
        render_spec(pieces, fields) == Ok::<Seq<u8>, RenderError>(fill(pieces, fields)),
{
}

/// One piece of a parsed template, as it is held in memory.
#[derive(Debug, PartialEq, Eq)]
enum Segment {
    /// Bytes copied to the page as they are.
    Text(Vec<u8>),
    /// A slot, filled with the value of the field `name`.
    Slot { name: Vec<u8>, escaped: bool },
}

impl View for Segment {
    type V = Piece;

    closed spec fn view(&self) -> Piece {
        match self {
            Segment::Text(bytes) => Piece::Text(bytes@),
            Segment::Slot { name, escaped } => Piece::Slot { name: name@, escaped: *escaped },
        }
    }
}

/// A parsed template. Its view is the sequence of its pieces.
#[derive(Debug, PartialEq, Eq)]
pub struct Template {
    segments: Vec<Segment>,
}

impl View for Template {
    type V = Seq<Piece>;

    closed spec fn view(&self) -> Seq<Piece> {
        self.segments@.map_values(|segment: Segment| segment@)
    }
}

/// Whether `b` is white space.
fn space(b: u8) -> (yes: bool)
    ensures
        yes == is_space(b),
{
    b == SPACE || b == TAB || b == LINE_FEED || b == CARRIAGE_RETURN
}

/// Whether `b` may begin a field name.
fn name_start(b: u8) -> (yes: bool)
    ensures
        yes == is_name_start(b),
{
    (UPPER_A <= b && b <= UPPER_Z) || (LOWER_A <= b && b <= LOWER_Z) || b == UNDERSCORE
}

/// Whether `b` may stand in a field name.
fn name_byte(b: u8) -> (yes: bool)
    ensures
        yes == is_name_byte(b),
{
    name_start(b) || (DIGIT_ZERO <= b && b <= DIGIT_NINE)
}

/// The first offset at or after `from` where a tag opens.
fn scan_open(src: &[u8], from: usize) -> (at: usize)
    requires
        from <= src@.len(),
    ensures
        at == next_open(src@, from as int),
        from <= at <= src@.len(),
{
    let mut at: usize = from;
    while at < src.len() && !(at + 1 < src.len() && src[at] == LESS_THAN && src[at + 1]
        == PERCENT)
        invariant
            from <= at <= src@.len(),
            next_open(src@, from as int) == next_open(src@, at as int),
        decreases src@.len() - at,
    {
        at += 1;
    }
    at
}

/// The first offset at or after `from` where a tag closes.
fn scan_close(src: &[u8], from: usize) -> (at: usize)
    requires
        from <= src@.len(),
    ensures
        at == next_close(src@, from as int),
        from <= at <= src@.len(),
{
    let mut at: usize = from;
    while at < src.len() && !(at + 1 < src.len() && src[at] == PERCENT && src[at + 1]
        == GREATER_THAN)
        invariant
            from <= at <= src@.len(),
            next_close(src@, from as int) == next_close(src@, at as int),
        decreases src@.len() - at,
    {
        at += 1;
    }
    at
}

/// White space at the beginning of `s` does not change what `trim_start`
/// leaves of it.
proof fn lemma_trim_start_skip(s: Seq<u8>, k: int)
    requires
        0 <= k <= s.len(),
        forall|i: int| 0 <= i < k ==> is_space(s[i]),
    ensures
        trim_start(s) == trim_start(s.subrange(k, s.len() as int)),
    decreases k,
{
    if k == 0 {
        assert(s.subrange(0, s.len() as int) =~= s);
    } else {
        let rest = s.drop_first();
        lemma_trim_start_skip(rest, k - 1);
        assert(rest.subrange(k - 1, rest.len() as int) =~= s.subrange(k, s.len() as int));
    }
}

/// White space at the end of `s` does not change what `trim_end` leaves of
/// it.
proof fn lemma_trim_end_skip(s: Seq<u8>, k: int)
    requires
        0 <= k <= s.len(),
        forall|i: int| k <= i < s.len() ==> is_space(s[i]),
    ensures
        trim_end(s) == trim_end(s.subrange(0, k)),
    decreases s.len() - k,
{
    if k == s.len() {
        assert(s.subrange(0, k) =~= s);
    } else {
        let rest = s.drop_last();
        lemma_trim_end_skip(rest, k);
        assert(rest.subrange(0, k) =~= s.subrange(0, k));
    }
}

/// The slot that the tag body `src[start..end]` stands for, if it is one.
fn parse_slot(src: &[u8], start: usize, end: usize) -> (slot: Option<Segment>)
    requires
        start <= end <= src@.len(),
    ensures
        match slot_of(src@.subrange(start as int, end as int)) {
            Some(piece) => slot is Some && slot->0@ == piece,
            None => slot is None,
        },
{
    let ghost body = src@.subrange(start as int, end as int);
    if start == end {
        return None;
    }
    let mark: u8 = src[start];
    assert(mark == body[0]);
    if mark != EQUALS && mark != HYPHEN {
        return None;
    }
    let ghost inner = body.drop_first();
    assert(inner =~= src@.subrange(start + 1, end as int));
    let mut first: usize = start + 1;
    while first < end && space(src[first])
        invariant
            start < first <= end <= src@.len(),
            forall|i: int| start < i < first ==> is_space(src@[i]),
        decreases end - first,
    {
        first += 1;
    }
    let ghost tail = src@.subrange(first as int, end as int);
    proof {
        lemma_trim_start_skip(inner, first - start - 1);
        assert(inner.subrange(first - start - 1, inner.len() as int) =~= tail);
        assert(trim_start(inner) == tail) by {
            if tail.len() > 0 {
                assert(tail[0] == src@[first as int]);
            }
        }
    }
    let mut last: usize = end;
    while last > first && space(src[last - 1])
        invariant
            first <= last <= end <= src@.len(),
            forall|i: int| last <= i < end ==> is_space(src@[i]),
        decreases last - first,
    {
        last -= 1;
    }
    let ghost name = src@.subrange(first as int, last as int);
    proof {
        lemma_trim_end_skip(tail, last - first);
        assert(tail.subrange(0, last - first) =~= name);
        assert(trim_end(tail) == name) by {
            if name.len() > 0 {
                assert(name.last() == src@[last - 1]);
            }
        }
        assert(trim(inner) == name);
    }
    let ghost found = Piece::Slot { name, escaped: mark == EQUALS };
    assert(slot_of(body) == if is_name(name) {
        Some(found)
    } else {
        None
    });
    if first == last || !name_start(src[first]) {
        assert(name.len() > 0 ==> name[0] == src@[first as int]);
        return None;
    }
    let mut at: usize = first;
    while at < last
        invariant
            first <= at <= last <= src@.len(),
            name == src@.subrange(first as int, last as int),
            body == src@.subrange(start as int, end as int),
            slot_of(body) == if is_name(name) {
                Some(found)
            } else {
                None
            },
            forall|i: int| 0 <= i < at - first ==> is_name_byte(#[trigger] name[i]),
        decreases last - at,
    {
        if !name_byte(src[at]) {
            assert(name[at - first] == src@[at as int]);
            return None;
        }
        assert(name[at - first] == src@[at as int]);
        at += 1;
    }
    assert(name[0] == src@[first as int]);
    assert(is_name(name));
    let name_bytes = vstd::slice::slice_to_vec(vstd::slice::slice_subrange(src, first, last));
    Some(Segment::Slot { name: name_bytes, escaped: mark == EQUALS })
}

impl Template {
    /// Parses template text.
    ///
    /// Succeeds exactly when every tag of `src` is closed and is a slot; the
    /// error gives the offset of the first tag that is not.
    pub fn parse(src: &[u8]) -> (parsed: Result<Template, RenderError>)
        ensures
            match parsed {
                Ok(template) => parse_spec(src@) == Ok::<Seq<Piece>, int>(template@),
                Err(error) => error is Malformed && parse_spec(src@) == Err::<Seq<Piece>, int>(
                    error->offset as int,
                ),
            },
    {
        let mut segments: Vec<Segment> = Vec::new();
        let mut pos: usize = 0;
        while pos < src.len()
            invariant
                pos <= src@.len(),
                parse_spec(src@) == prepend(
                    segments@.map_values(|segment: Segment| segment@),
                    parse_from(src@, pos as int),
                ),
            decreases src@.len() - pos,
        {
            let ghost before = segments@.map_values(|segment: Segment| segment@);
            if pos + 1 < src.len() && src[pos] == LESS_THAN && src[pos + 1] == PERCENT {
                let close: usize = scan_close(src, pos + 2);
                if close >= src.len() {
                    return Err(RenderError::Malformed { offset: pos });
                }
                proof {
                    lemma_next_close_bounds(src@, pos + 2);
                }
                match parse_slot(src, pos + 2, close) {
                    None => {
                        return Err(RenderError::Malformed { offset: pos });
                    },
                    Some(segment) => {
                        let ghost piece = segment@;
                        segments.push(segment);
                        proof {
                            assert(segments@.map_values(|segment: Segment| segment@) =~= before
                                + seq![piece]);
                            lemma_prepend_one(before, piece, parse_from(src@, close + 2));
                        }
                        pos = close + 2;
                    },
                }
            } else {
                let end: usize = scan_open(src, pos);
                proof {
                    lemma_next_open_bounds(src@, pos as int + 1);
                }
                let text = vstd::slice::slice_to_vec(vstd::slice::slice_subrange(src, pos, end));
                let segment = Segment::Text(text);
                let ghost piece = segment@;
                segments.push(segment);
                proof {
                    assert(segments@.map_values(|segment: Segment| segment@) =~= before + seq![
                        piece,
                    ]);
                    lemma_prepend_one(before, piece, parse_from(src@, end as int));
                }
                pos = end;
            }
        }
        proof {
            assert(segments@.map_values(|segment: Segment| segment@) + Seq::<Piece>::empty()
                =~= segments@.map_values(|segment: Segment| segment@));
        }
        Ok(Template { segments })
    }

    /// Renders the template with `fields`.
    ///
    /// Succeeds exactly when `fields` holds the field of every slot; the
    /// error gives the index of the first piece whose field is missing.
    pub fn render(&self, fields: &Fields) -> (page: Result<Vec<u8>, RenderError>)
        ensures
            match page {
                Ok(bytes) => render_spec(self@, fields@) == Ok::<Seq<u8>, RenderError>(bytes@),
                Err(error) => render_spec(self@, fields@) == Err::<Seq<u8>, RenderError>(error),
            },
    {
        let mut out: Vec<u8> = Vec::new();
        let mut i: usize = 0;
        assert(self@.take(0) =~= Seq::<Piece>::empty());
        while i < self.segments.len()
            invariant
                i <= self.segments@.len(),
                self@.len() == self.segments@.len(),
                first_missing(self@, fields@.dom(), 0) == first_missing(
                    self@,
                    fields@.dom(),
                    i as int,
                ),
                out@ == fill(self@.take(i as int), fields@),
            decreases self.segments@.len() - i,
        {
            let ghost piece = self@[i as int];
            assert(piece == self.segments@[i as int]@);
            assert(self@.take(i + 1).drop_last() =~= self@.take(i as int));
            assert(self@.take(i + 1).last() == piece);
            match &self.segments[i] {
                Segment::Text(bytes) => {
                    push_all(&mut out, bytes.as_slice());
                },
                Segment::Slot { name, escaped } => {
                    match fields.get(name.as_slice()) {
                        None => {
                            return Err(RenderError::MissingField { slot: i });
                        },
                        Some(value) => {
                            if *escaped {
                                let safe = escape_to_bytes(value);
                                push_all(&mut out, safe.as_slice());
                            } else {
                                push_all(&mut out, value.as_bytes());
                            }
                        },
                    }
                },
            }
            i += 1;
        }
        assert(self@.take(i as int) =~= self@);
        Ok(out)
    }

    /// Checks that `fields` holds the field of every slot.
    ///
    /// The error gives the index of the first piece whose field is missing.
    pub fn validate(&self, fields: &Fields) -> (checked: Result<(), RenderError>)
        ensures
            match checked {
                Ok(_) => is_complete(self@, fields@.dom()),
                Err(error) => !is_complete(self@, fields@.dom()) && error
                    == (RenderError::MissingField {
                    slot: first_missing(self@, fields@.dom(), 0) as usize,
                }),
            },
    {
        let mut i: usize = 0;
        while i < self.segments.len()
            invariant
                i <= self.segments@.len(),
                self@.len() == self.segments@.len(),
                first_missing(self@, fields@.dom(), 0) == first_missing(
                    self@,
                    fields@.dom(),
                    i as int,
                ),
            decreases self.segments@.len() - i,
        {
            assert(self@[i as int] == self.segments@[i as int]@);
            match &self.segments[i] {
                Segment::Text(_) => {},
                Segment::Slot { name, escaped } => {
                    if fields.get(name.as_slice()).is_none() {
                        return Err(RenderError::MissingField { slot: i });
                    }
                },
            }
            i += 1;
        }
        Ok(())
    }
}

/// Appends `more` to `out`.
fn push_all(out: &mut Vec<u8>, more: &[u8])
    ensures
        final(out)@ == old(out)@ + more@,
{
    out.extend_from_slice(more);
    assert(out@ =~= old(out)@ + more@);
}

/// Putting one more piece behind `done` is putting it before the rest.
proof fn lemma_prepend_one(done: Seq<Piece>, piece: Piece, rest: Result<Seq<Piece>, int>)
    ensures
        prepend(done, prepend(seq![piece], rest)) == prepend(done + seq![piece], rest),
{
    match rest {
        Ok(pieces) => {
            assert(done + (seq![piece] + pieces) =~= (done + seq![piece]) + pieces);
        },
        Err(offset) => {},
    }
}

} // verus!
