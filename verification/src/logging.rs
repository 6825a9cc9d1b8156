//! The two line formats for log records: one JSON object per line, and a
//! plain format for people.

use vstd::prelude::*;
use crate::json::{json_string, write_json_str};
use crate::json_error::byte_len;
use crate::record::{
    field_views, Field, FieldView, Level, LogRecord, RecordView, Value, ValueView,
};
use crate::text::{chars_of, decimal, has_prefix, push_decimal, push_text, starts_with};

verus! {

/// Where and when a record is written.
#[derive(Debug)]
pub struct LineContext {
    /// The module that the record comes from.
    pub target: String,
    /// The number of the process.
    pub pid: u32,
    pub hostname: String,
    /// The time, already as text.
    pub time: String,
}

/// Records of tracing spans are not written.
pub open spec fn is_span_target(target: Seq<char>) -> bool {
    has_prefix(target, "tracing::span"@)
}

/// The name of a level in lower case.
pub open spec fn level_name(level: Level) -> Seq<char> {
    match level {
        Level::Trace => "trace"@,
        Level::Debug => "debug"@,
        Level::Info => "info"@,
        Level::Warn => "warn"@,
        Level::Error => "error"@,
    }
}

/// The label of a level: upper case, five characters wide.
pub open spec fn level_label(level: Level) -> Seq<char> {
    match level {
        Level::Trace => "TRACE"@,
        Level::Debug => "DEBUG"@,
        Level::Info => "INFO "@,
        Level::Warn => "WARN "@,
        Level::Error => "ERROR"@,
    }
}

/// A value as it is written in a line.
pub open spec fn value_text(value: ValueView) -> Seq<char> {
    match value {
        ValueView::Text(s) => s,
        ValueView::Number(n) => decimal(n as nat),
        ValueView::Missing => "None"@,
    }
}

/// The fields as members of a JSON object, each with a comma before it. Keys
/// and values are written between quotes as they are.
pub open spec fn json_members(fields: Seq<FieldView>) -> Seq<char>
    decreases fields.len(),
{
    if fields.len() == 0 {
        Seq::empty()
    } else {
        json_members(fields.drop_last()) + ",\""@ + fields.last().key + "\":\""@ + value_text(
            fields.last().value,
        ) + "\""@
    }
}

/// A record as one line of JSON.
pub open spec fn json_line(
    record: RecordView,
    target: Seq<char>,
    pid: u32,
    hostname: Seq<char>,
    time: Seq<char>,
) -> Seq<char> {
    "{\"level\":\""@ + level_name(record.level) + "\""@ + ",\"pid\":"@ + decimal(pid as nat)
        + ",\"message\":"@ + json_string(record.message) + json_members(record.fields)
        + ",\"target\":\""@ + target + "\""@ + ",\"hostname\":\""@ + hostname + "\""@
        + ",\"time\":\""@ + time + "\""@ + "}\n"@
}

/// The fields, each on a line of its own, indented by two spaces.
pub open spec fn pretty_pairs(fields: Seq<FieldView>) -> Seq<char>
    decreases fields.len(),
{
    if fields.len() == 0 {
        Seq::empty()
    } else {
        pretty_pairs(fields.drop_last()) + "\n  "@ + fields.last().key + " "@ + value_text(
            fields.last().value,
        )
    }
}

/// `count` spaces.
pub open spec fn spaces(count: nat) -> Seq<char> {
    Seq::new(count, |i: int| ' ')
}

/// A text filled with spaces on the right up to `width` characters; a longer
/// text is left as it is.
pub open spec fn padded(text: Seq<char>, width: nat) -> Seq<char> {
    if text.len() >= width {
        text
    } else {
        text + spaces((width - text.len()) as nat)
    }
}

/// A record as a line for people: level, target, message, then the fields.
pub open spec fn pretty_line(record: RecordView, target: Seq<char>, width: nat) -> Seq<char> {
    level_label(record.level) + " "@ + padded(target, width) + " | "@ + record.message
        + pretty_pairs(record.fields) + "\n"@
}

/// The colour in which the label of a level is shown.
#[derive(Debug, Clone, Copy, PartialEq, Eq, Structural)]
pub enum Color {
    Magenta,
    Blue,
    Green,
    Yellow,
    Red,
}

/// The colour of a level.
pub open spec fn level_color(level: Level) -> Color {
    match level {
        Level::Trace => Color::Magenta,
        Level::Debug => Color::Blue,
        Level::Info => Color::Green,
        Level::Warn => Color::Yellow,
        Level::Error => Color::Red,
    }
}

/// The label of a level with its colour.
#[derive(Debug)]
pub struct StyledLevel {
    pub color: Color,
    pub label: String,
}

fn push_value(out: &mut String, value: &Value)
    ensures
        final(out)@ == old(out)@ + value_text(value@),
{
    match value {
        Value::Text(s) => {
            push_text(out, s.as_str());
        },
        Value::Number(n) => {
            push_decimal(out, *n);
        },
        Value::Missing => {
            push_text(out, "None");
        },
    }
}

fn push_json_members(out: &mut String, fields: &Vec<Field>)
    ensures
        final(out)@ == old(out)@ + json_members(field_views(fields@)),
{
    let ghost views = field_views(fields@);
    let mut i: usize = 0;
    assert(views.take(0).len() == 0);
    while i < fields.len()
        invariant
            0 <= i <= fields@.len(),
            views == field_views(fields@),
            out@ == old(out)@ + json_members(views.take(i as int)),
        decreases fields@.len() - i,
    {
        push_text(out, ",\"");
        push_text(out, fields[i].key.as_str());
        push_text(out, "\":\"");
        push_value(out, &fields[i].value);
        push_text(out, "\"");
        i += 1;
        proof {
            let seen = views.take(i as int);
            assert(seen.drop_last() == views.take(i as int - 1));
            assert(seen.last() == fields@[i as int - 1]@);
            assert(out@ =~= old(out)@ + json_members(seen));
        }
    }
    assert(views.take(i as int) == views);
}

fn push_pretty_pairs(out: &mut String, fields: &Vec<Field>)
    ensures
        final(out)@ == old(out)@ + pretty_pairs(field_views(fields@)),
{
    let ghost views = field_views(fields@);
    let mut i: usize = 0;
    assert(views.take(0).len() == 0);
    while i < fields.len()
        invariant
            0 <= i <= fields@.len(),
            views == field_views(fields@),
            out@ == old(out)@ + pretty_pairs(views.take(i as int)),
        decreases fields@.len() - i,
    {
        push_text(out, "\n  ");
        push_text(out, fields[i].key.as_str());
        push_text(out, " ");
        push_value(out, &fields[i].value);
        i += 1;
        proof {
            let seen = views.take(i as int);
            assert(seen.drop_last() == views.take(i as int - 1));
            assert(seen.last() == fields@[i as int - 1]@);
            assert(out@ =~= old(out)@ + pretty_pairs(seen));
        }
    }
    assert(views.take(i as int) == views);
}

fn push_padded(out: &mut String, text: &str, width: usize)
    ensures
        final(out)@ == old(out)@ + padded(text@, width as nat),
{
    let chars = chars_of(text);
    push_text(out, text);
    let mut n: usize = chars.len();
    let ghost start = n;
    assert(spaces(0) =~= Seq::<char>::empty());
    while n < width
        invariant
            start <= n,
            start < width ==> n <= width,
            start >= width ==> n == start,
            start == text@.len(),
            out@ == old(out)@ + text@ + spaces((n - start) as nat),
        decreases width - n,
    {
        out.push(' ');
        n += 1;
        assert(spaces((n - start) as nat) =~= spaces((n - 1 - start) as nat).push(' '));
        assert(out@ =~= old(out)@ + text@ + spaces((n - start) as nat));
    }
    assert(out@ =~= old(out)@ + padded(text@, width as nat));
}

/// A target filled with spaces on the right up to `width` characters.
pub fn pad_target(target: &str, width: usize) -> (r: String)
    ensures
        r@ == padded(target@, width as nat),
{
    let mut out = String::new();
    push_padded(&mut out, target, width);
    out
}

/// The widest target seen so far, once `target` has been seen too. Widths
/// are counted in bytes.
pub open spec fn widest(max_width: usize, target: Seq<char>) -> usize {
    if max_width < byte_len(target) {
        byte_len(target)
    } else {
        max_width
    }
}

/// The widest target seen so far, once `target` has been seen too. Widths
/// are counted in bytes.
pub fn max_target_width(max_width: usize, target: &str) -> (r: usize)
    ensures
        r == widest(max_width, target@),
{
    let len = target.len();
    if max_width < len {
        len
    } else {
        max_width
    }
}

/// The label and the colour for a level.
pub fn colored_level(level: Level) -> (r: StyledLevel)
    ensures
        r.color == level_color(level),
        r.label@ == level_label(level),
{
    match level {
        Level::Trace => StyledLevel { color: Color::Magenta, label: "TRACE".to_owned() },
        Level::Debug => StyledLevel { color: Color::Blue, label: "DEBUG".to_owned() },
        Level::Info => StyledLevel { color: Color::Green, label: "INFO ".to_owned() },
        Level::Warn => StyledLevel { color: Color::Yellow, label: "WARN ".to_owned() },
        Level::Error => StyledLevel { color: Color::Red, label: "ERROR".to_owned() },
    }
}

/// Appends the fields of a record to `out`, each on a line of its own.
pub fn format_kv_pairs(out: &mut String, record: &LogRecord)
    ensures
        final(out)@ == old(out)@ + pretty_pairs(record@.fields),
{
    push_pretty_pairs(out, &record.fields);
}

/// Appends a record to `out` as one line of JSON and says `true`; for a
/// record of a tracing span, appends nothing and says `false`.
pub fn log_format_json(out: &mut String, record: &LogRecord, context: &LineContext) -> (written:
    bool)
    ensures
        written == !is_span_target(context.target@),
        written ==> final(out)@ == old(out)@ + json_line(
            record@,
            context.target@,
            context.pid,
            context.hostname@,
            context.time@,
        ),
        !written ==> final(out)@ == old(out)@,
{
    if starts_with(context.target.as_str(), "tracing::span") {
        return false;
    }
    push_text(out, "{\"level\":\"");
    let name = match record.level {
        Level::Trace => "trace",
        Level::Debug => "debug",
        Level::Info => "info",
        Level::Warn => "warn",
        Level::Error => "error",
    };
    push_text(out, name);
    push_text(out, "\"");
    push_text(out, ",\"pid\":");
    push_decimal(out, context.pid as u64);
    push_text(out, ",\"message\":");
    write_json_str(out, record.message.as_str());
    push_json_members(out, &record.fields);
    push_text(out, ",\"target\":\"");
    push_text(out, context.target.as_str());
    push_text(out, "\"");
    push_text(out, ",\"hostname\":\"");
    push_text(out, context.hostname.as_str());
    push_text(out, "\"");
    push_text(out, ",\"time\":\"");
    push_text(out, context.time.as_str());
    push_text(out, "\"");
    push_text(out, "}\n");
    assert(out@ =~= old(out)@ + json_line(
        record@,
        context.target@,
        context.pid,
        context.hostname@,
        context.time@,
    ));
    true
}

/// Appends a record to `out` as a line for people, without colours, and says
/// `true`; for a record of a tracing span, appends nothing and says `false`.
/// The target is filled up to `width` characters.
pub fn log_format_pretty(out: &mut String, record: &LogRecord, target: &str, width: usize) -> (written:
    bool)
    ensures
        written == !is_span_target(target@),
        written ==> final(out)@ == old(out)@ + pretty_line(record@, target@, width as nat),
        !written ==> final(out)@ == old(out)@,
{
    if starts_with(target, "tracing::span") {
        return false;
    }
    let styled = colored_level(record.level);
    push_text(out, styled.label.as_str());
    push_text(out, " ");
    push_padded(out, target, width);
    push_text(out, " | ");
    push_text(out, record.message.as_str());
    format_kv_pairs(out, record);
    push_text(out, "\n");
    assert(out@ =~= old(out)@ + pretty_line(record@, target@, width as nat));
    true
}

/// How a piece of a line is shown where the sink shows styles.
#[derive(Debug, Clone, Copy, PartialEq, Eq, Structural)]
pub enum Style {
    Plain,
    Colored(Color),
    Bold,
}

/// One piece of a line, with the style it is shown in.
#[derive(Debug)]
pub struct Segment {
    pub text: String,
    pub style: Style,
}

/// What a `Segment` holds.
pub struct SegmentView {
    pub text: Seq<char>,
    pub style: Style,
}

impl View for Segment {
    type V = SegmentView;

    open spec fn view(&self) -> SegmentView {
        SegmentView { text: self.text@, style: self.style }
    }
}

/// The views of a list of segments, in order.
pub open spec fn segment_views(segments: Seq<Segment>) -> Seq<SegmentView> {
    segments.map_values(|s: Segment| s@)
}

/// A list of one segment.
pub open spec fn piece(text: Seq<char>, style: Style) -> Seq<SegmentView> {
    seq![SegmentView { text, style }]
}

/// The texts of the segments, one after the other.
pub open spec fn joined(segments: Seq<SegmentView>) -> Seq<char>
    decreases segments.len(),
{
    if segments.len() == 0 {
        Seq::empty()
    } else {
        joined(segments.drop_last()) + segments.last().text
    }
}

/// The segments for the fields: for each field a line break with the
/// indentation, the key in bold, and a space with the value.
pub open spec fn pair_segments(fields: Seq<FieldView>) -> Seq<SegmentView>
    decreases fields.len(),
{
    if fields.len() == 0 {
        Seq::empty()
    } else {
        pair_segments(fields.drop_last()) + piece("\n  "@, Style::Plain) + piece(
            fields.last().key,
            Style::Bold,
        ) + piece(" "@ + value_text(fields.last().value), Style::Plain)
    }
}

/// A record as a line for people, piece by piece: the label of the level in
/// its colour, the target in bold and filled up to `width`, the message, the
/// fields with their keys in bold, and the line break.
pub open spec fn pretty_segments(record: RecordView, target: Seq<char>, width: nat) -> Seq<
    SegmentView,
> {
    piece(level_label(record.level), Style::Colored(level_color(record.level))) + piece(
        " "@,
        Style::Plain,
    ) + piece(padded(target, width), Style::Bold) + piece(" | "@ + record.message, Style::Plain)
        + pair_segments(record.fields) + piece("\n"@, Style::Plain)
}

/// Joining two lists of segments joins their texts.
proof fn lemma_joined_concat(first: Seq<SegmentView>, second: Seq<SegmentView>)
    ensures
        joined(first + second) == joined(first) + joined(second),
    decreases second.len(),
{
    if second.len() == 0 {
        assert(first + second =~= first);
        assert(joined(first) + joined(second) =~= joined(first));
    } else {
        lemma_joined_concat(first, second.drop_last());
        assert((first + second).drop_last() =~= first + second.drop_last());
        assert((first + second).last() == second.last());
        assert(joined(first + second) =~= joined(first) + joined(second));
    }
}

/// One segment joins to its text.
proof fn lemma_joined_piece(text: Seq<char>, style: Style)
    ensures
        joined(piece(text, style)) == text,
{
    let p = piece(text, style);
    assert(p.drop_last().len() == 0);
    assert(joined(p.drop_last()) =~= Seq::<char>::empty());
    assert(joined(p) =~= text);
}

/// The segments for the fields join to the fields as the plain line has them.
proof fn lemma_pairs_join(fields: Seq<FieldView>)
    ensures
        joined(pair_segments(fields)) == pretty_pairs(fields),
    decreases fields.len(),
{
    if fields.len() > 0 {
        lemma_pairs_join(fields.drop_last());
        let before = pair_segments(fields.drop_last());
        let a = piece("\n  "@, Style::Plain);
        let b = piece(fields.last().key, Style::Bold);
        let c = piece(" "@ + value_text(fields.last().value), Style::Plain);
        lemma_joined_piece("\n  "@, Style::Plain);
        lemma_joined_piece(fields.last().key, Style::Bold);
        lemma_joined_piece(" "@ + value_text(fields.last().value), Style::Plain);
        lemma_joined_concat(before, a);
        lemma_joined_concat(before + a, b);
        lemma_joined_concat(before + a + b, c);
        assert(joined(pair_segments(fields)) =~= pretty_pairs(fields));
    }
}

/// The pieces of a line, without their styles, are the plain line: a sink
/// that shows no styles writes what `log_format_pretty` writes.
pub proof fn law_segments_are_the_line(record: RecordView, target: Seq<char>, width: nat)
    ensures
        joined(pretty_segments(record, target, width)) == pretty_line(record, target, width),
{
    let a = piece(level_label(record.level), Style::Colored(level_color(record.level)));
    let b = piece(" "@, Style::Plain);
    let c = piece(padded(target, width), Style::Bold);
    let d = piece(" | "@ + record.message, Style::Plain);
    let e = pair_segments(record.fields);
    let f = piece("\n"@, Style::Plain);
    lemma_joined_piece(level_label(record.level), Style::Colored(level_color(record.level)));
    lemma_joined_piece(" "@, Style::Plain);
    lemma_joined_piece(padded(target, width), Style::Bold);
    lemma_joined_piece(" | "@ + record.message, Style::Plain);
    lemma_joined_piece("\n"@, Style::Plain);
    lemma_pairs_join(record.fields);
    lemma_joined_concat(a, b);
    lemma_joined_concat(a + b, c);
    lemma_joined_concat(a + b + c, d);
    lemma_joined_concat(a + b + c + d, e);
    lemma_joined_concat(a + b + c + d + e, f);
    assert(joined(pretty_segments(record, target, width)) =~= pretty_line(record, target, width));
}

fn push_segment(segments: &mut Vec<Segment>, text: String, style: Style)
    ensures
        segment_views(final(segments)@) == segment_views(old(segments)@) + piece(text@, style),
{
    segments.push(Segment { text, style });
    assert(segment_views(segments@) =~= segment_views(old(segments)@) + piece(text@, style));
}

/// A line for people, piece by piece.
#[derive(Debug)]
pub struct StyledLine {
    /// The width that the target was filled up to: the widest target seen so
    /// far, this one included.
    pub width: usize,
    /// The pieces of the line, each with its style.
    pub segments: Vec<Segment>,
}

/// The pieces of a record as a line for people, each with its style; `None`
/// for a record of a tracing span, which is not written and does not count
/// for the width. `max_width` is the widest target seen before this one.
pub fn log_format_segments(record: &LogRecord, target: &str, max_width: usize) -> (r: Option<
    StyledLine,
>)
    ensures
        r is None <==> is_span_target(target@),
        r is Some ==> r->0.width == widest(max_width, target@) && segment_views(r->0.segments@)
            == pretty_segments(record@, target@, widest(max_width, target@) as nat),
{
    if starts_with(target, "tracing::span") {
        return None;
    }
    let width = max_target_width(max_width, target);
    let mut segments: Vec<Segment> = Vec::new();
    assert(segment_views(segments@) =~= Seq::<SegmentView>::empty());
    let styled = colored_level(record.level);
    push_segment(&mut segments, styled.label, Style::Colored(styled.color));
    push_segment(&mut segments, " ".to_owned(), Style::Plain);
    push_segment(&mut segments, pad_target(target, width), Style::Bold);
    let mut message = " | ".to_owned();
    push_text(&mut message, record.message.as_str());
    push_segment(&mut segments, message, Style::Plain);
    let ghost head = segment_views(segments@);
    let ghost views = field_views(record.fields@);
    let mut i: usize = 0;
    assert(views.take(0).len() == 0);
    assert(head + pair_segments(views.take(0)) =~= head);
    while i < record.fields.len()
        invariant
            0 <= i <= record.fields@.len(),
            views == field_views(record.fields@),
            segment_views(segments@) == head + pair_segments(views.take(i as int)),
        decreases record.fields@.len() - i,
    {
        push_segment(&mut segments, "\n  ".to_owned(), Style::Plain);
        push_segment(&mut segments, record.fields[i].key.clone(), Style::Bold);
        let mut value = " ".to_owned();
        push_value(&mut value, &record.fields[i].value);
        push_segment(&mut segments, value, Style::Plain);
        i += 1;
        proof {
            let seen = views.take(i as int);
            assert(seen.drop_last() == views.take(i as int - 1));
            assert(seen.last() == record.fields@[i as int - 1]@);
            assert(segment_views(segments@) =~= head + pair_segments(seen));
        }
    }
    assert(views.take(i as int) == views);
    push_segment(&mut segments, "\n".to_owned(), Style::Plain);
    assert(segment_views(segments@) =~= pretty_segments(record@, target@, width as nat));
    Some(StyledLine { width, segments })
}

} // verus!
