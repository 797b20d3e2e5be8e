//! Source spans of diagnostics and the line/column locations that they
//! point at in text source.

use vstd::prelude::*;
use vstd::string::StringSliceAdditionalSpecFns;
use crate::diagnostic::Label;
use crate::text::{decimal, u32_to_decimal};

verus! {

/// A span of source bytes with a description of what it points at. The
/// span `0..0` stands for an unknown location.
#[derive(Debug)]
pub struct SpanText {
    /// Byte offset of the start of the span.
    pub start: u32,
    /// Byte offset just past the end of the span.
    pub end: u32,
    /// What this span refers to.
    pub message: String,
}

/// A span as plain values: start, end and description.
pub open spec fn span_view(s: SpanText) -> (u32, u32, Seq<char>) {
    (s.start, s.end, s.message@)
}

/// Spans as plain values.
pub open spec fn spans_view(spans: Seq<SpanText>) -> Seq<(u32, u32, Seq<char>)> {
    spans.map_values(|s: SpanText| span_view(s))
}

/// Whether a span points at a location: every span but `0..0` does.
pub open spec fn span_defined(start: u32, end: u32) -> bool {
    !(start == 0 && end == 0)
}

/// The number of newline bytes in `bytes`.
pub open spec fn newline_count(bytes: Seq<u8>) -> nat
    decreases bytes.len(),
{
    if bytes.len() == 0 {
        0
    } else {
        newline_count(bytes.drop_last()) + if bytes.last() == 10 {
            1nat
        } else {
            0nat
        }
    }
}

/// The offset just past the last newline byte of `bytes`, or 0 without one.
pub open spec fn line_start(bytes: Seq<u8>) -> nat
    decreases bytes.len(),
{
    if bytes.len() == 0 {
        0
    } else if bytes.last() == 10 {
        bytes.len()
    } else {
        line_start(bytes.drop_last())
    }
}

/// Whether a span fits the text whose UTF-8 bytes are `bytes`: it starts
/// inside the text, ends no earlier than it starts, and its line count
/// fits 32 bits.
pub open spec fn span_fits(bytes: Seq<u8>, start: u32, end: u32) -> bool {
    &&& start <= end
    &&& start <= bytes.len()
    &&& start < u32::MAX
}

/// The 1-based line of the span start.
pub open spec fn location_line(bytes: Seq<u8>, start: u32) -> int {
    newline_count(bytes.take(start as int)) + 1int
}

/// The 1-based column, in bytes, of the span start.
pub open spec fn location_column(bytes: Seq<u8>, start: u32) -> int {
    start - line_start(bytes.take(start as int)) + 1
}

/// `label` is the location of `start..end` in the text with bytes `bytes`,
/// described by `message`.
pub open spec fn label_at(label: Label, bytes: Seq<u8>, start: u32, end: u32, message: Seq<char>) -> bool {
    &&& label.line == location_line(bytes, start)
    &&& label.column == location_column(bytes, start)
    &&& label.length == end - start
    &&& label.message@ == message
}

proof fn lemma_line_start_bound(bytes: Seq<u8>)
    ensures
        line_start(bytes) <= bytes.len(),
    decreases bytes.len(),
{
    if bytes.len() != 0 {
        lemma_line_start_bound(bytes.drop_last());
    }
}

proof fn lemma_newline_count_bound(bytes: Seq<u8>)
    ensures
        newline_count(bytes) <= bytes.len(),
    decreases bytes.len(),
{
    if bytes.len() != 0 {
        lemma_newline_count_bound(bytes.drop_last());
    }
}

/// The line, column and length of the span `start..end` in `text`, counted
/// in bytes: the line is one more than the newlines before the start, the
/// column one more than the bytes between the last of them and the start.
pub fn source_location(text: &str, start: u32, end: u32) -> (r: (u32, u32, u32))
    requires
        span_fits(text.spec_bytes(), start, end),
    ensures
        r.0 == location_line(text.spec_bytes(), start),
        r.1 == location_column(text.spec_bytes(), start),
        r.2 == end - start,
{
    let bytes = text.as_bytes();
    let ghost all = text.spec_bytes();
    let mut count: u32 = 0;
    let mut last: u32 = 0;
    let mut i: u32 = 0;
    while i < start
        invariant
            bytes@ == all,
            span_fits(all, start, end),
            i <= start,
            count == newline_count(all.take(i as int)),
            last == line_start(all.take(i as int)),
        decreases start - i,
    {
        proof {
            assert(all.take(i + 1).drop_last() =~= all.take(i as int));
            lemma_newline_count_bound(all.take(i as int));
        }
        if bytes[i as usize] == 10 {
            count = count + 1;
            last = i + 1;
        }
        i = i + 1;
    }
    proof {
        lemma_newline_count_bound(all.take(start as int));
        lemma_line_start_bound(all.take(start as int));
    }
    (count + 1, start - last + 1, end - start)
}

/// The labels of the spans of `spans` that are defined and fit the text,
/// each with its description, in order; none without text.
pub open spec fn labels_for(spans: Seq<(u32, u32, Seq<char>)>, text: Option<Seq<u8>>) -> Seq<(u32, u32, Seq<char>)>
    decreases spans.len(),
{
    if spans.len() == 0 {
        Seq::empty()
    } else {
        let rest = labels_for(spans.drop_last(), text);
        let s = spans.last();
        match text {
            Some(bytes) => if span_defined(s.0, s.1) && span_fits(bytes, s.0, s.1) {
                rest.push(s)
            } else {
                rest
            },
            None => rest,
        }
    }
}

/// `labels` are the locations in the text with bytes `bytes` of the spans
/// in `wanted`, in order.
pub open spec fn labels_match(labels: Seq<Label>, bytes: Seq<u8>, wanted: Seq<(u32, u32, Seq<char>)>) -> bool {
    &&& labels.len() == wanted.len()
    &&& forall|i: int|
        0 <= i < labels.len() ==> label_at(
            #[trigger] labels[i],
            bytes,
            wanted[i].0,
            wanted[i].1,
            wanted[i].2,
        )
}

/// The bytes of an optional text.
pub open spec fn text_bytes(text: Option<&str>) -> Option<Seq<u8>> {
    match text {
        Some(t) => Some(t.spec_bytes()),
        None => None,
    }
}

/// Appends the location of `span` to `labels` when the span is defined and
/// points into text source (spans that do not fit the text are left out).
pub fn push_label(labels: &mut Vec<Label>, span: &SpanText, text: Option<&str>)
    ensures
        match text {
            Some(t) => if span_defined(span.start, span.end) && span_fits(
                t.spec_bytes(),
                span.start,
                span.end,
            ) {
                &&& final(labels)@.len() == old(labels)@.len() + 1
                &&& final(labels)@.take(old(labels)@.len() as int) == old(labels)@
                &&& label_at(
                    final(labels)@.last(),
                    t.spec_bytes(),
                    span.start,
                    span.end,
                    span.message@,
                )
            } else {
                final(labels)@ == old(labels)@
            },
            None => final(labels)@ == old(labels)@,
        },
{
    if span.start == 0 && span.end == 0 {
        return;
    }
    if let Some(source) = text {
        let len = source.as_bytes().len();
        if span.start <= span.end && span.start as usize <= len && span.start < u32::MAX {
            let (line, column, length) = source_location(source, span.start, span.end);
            labels.push(Label { line, column, length, message: span.message.clone() });
            assert(labels@.take(old(labels)@.len() as int) =~= old(labels)@);
        }
    }
}

/// The labels of `spans` in `text`, in order.
pub fn labels_of(spans: &Vec<SpanText>, text: Option<&str>) -> (labels: Vec<Label>)
    ensures
        match text_bytes(text) {
            Some(bytes) => labels_match(labels@, bytes, labels_for(spans_view(spans@), text_bytes(text))),
            None => labels@.len() == 0,
        },
{
    let mut labels: Vec<Label> = Vec::new();
    let n = spans.len();
    let mut i: usize = 0;
    while i < n
        invariant
            n == spans@.len(),
            i <= n,
            match text_bytes(text) {
                Some(bytes) => labels_match(
                    labels@,
                    bytes,
                    labels_for(spans_view(spans@.take(i as int)), text_bytes(text)),
                ),
                None => labels@.len() == 0,
            },
        decreases n - i,
    {
        assert(spans@.take(i + 1).drop_last() =~= spans@.take(i as int));
        assert(spans_view(spans@.take(i + 1)).drop_last() =~= spans_view(spans@.take(i as int)));
        let ghost before = labels@;
        push_label(&mut labels, &spans[i], text);
        proof {
            if let Some(bytes) = text_bytes(text) {
                let wanted = labels_for(spans_view(spans@.take(i + 1)), text_bytes(text));
                assert forall|j: int| 0 <= j < labels@.len() implies label_at(
                    #[trigger] labels@[j],
                    bytes,
                    wanted[j].0,
                    wanted[j].1,
                    wanted[j].2,
                ) by {
                    if j < before.len() {
                        assert(labels@[j] == labels@.take(before.len() as int)[j]);
                    }
                }
            }
        }
        i = i + 1;
    }
    assert(spans@.take(n as int) =~= spans@);
    labels
}

/// Where the first span of `spans` starts in `text`, as naga reports the
/// location of an error: nothing without spans, for empty text, or when
/// the span does not fit the text.
pub open spec fn first_location(spans: Seq<(u32, u32, Seq<char>)>, bytes: Seq<u8>) -> Option<(int, int)> {
    if spans.len() == 0 || bytes.len() == 0 || !span_fits(bytes, spans[0].0, spans[0].1) {
        None
    } else {
        Some((location_line(bytes, spans[0].0), location_column(bytes, spans[0].0)))
    }
}

/// The message of an error, with ` (at line L, column C)` appended when its
/// first span points into text source.
pub open spec fn located_message(base: Seq<char>, spans: Seq<(u32, u32, Seq<char>)>, text: Option<Seq<u8>>) -> Seq<char> {
    match text {
        Some(bytes) => match first_location(spans, bytes) {
            Some((line, column)) => base + " (at line "@ + decimal(line as nat) + ", column "@
                + decimal(column as nat) + ")"@,
            None => base,
        },
        None => base,
    }
}

/// Human-readable validation message, with `line:column` when the error
/// carries a span into text source.
pub fn with_location(base: String, spans: &Vec<SpanText>, text: Option<&str>) -> (s: String)
    ensures
        s@ == located_message(base@, spans_view(spans@), text_bytes(text)),
{
    match text {
        Some(source) => {
            let len = source.as_bytes().len();
            if spans.len() == 0 || len == 0 {
                return base;
            }
            let first = &spans[0];
            if !(first.start <= first.end && first.start as usize <= len && first.start
                < u32::MAX) {
                return base;
            }
            let (line, column, _length) = source_location(source, first.start, first.end);
            let mut s = base;
            s.append(" (at line ");
            s.append(u32_to_decimal(line).as_str());
            s.append(", column ");
            s.append(u32_to_decimal(column).as_str());
            s.append(")");
            s
        },
        None => base,
    }
}

} // verus!
