//! Markdown, laid out for the terminal: the events of a CommonMark parse
//! turned into blocks of styled lines, code, rules and quotes.
use pulldown_cmark::{Event, Options, Parser, Tag};
use vstd::prelude::*;

use crate::chars::string_from_chars;
use crate::text::{line_view, plain, plain_style, span, span_of, span_view, Color, Span, Style};

verus! {

/// The elements of a Markdown document that the layout tells apart.
#[derive(Clone, Copy, Debug)]
pub enum MdTag {
    Paragraph,
    /// A heading, with its level (1 for the largest).
    Heading(u32),
    BlockQuote,
    CodeBlock,
    List,
    Item,
    Emphasis,
    Strong,
    Strikethrough,
    Other,
}

/// One event of a Markdown parse.
pub enum MdEvent {
    Start(MdTag),
    End(MdTag),
    Text(String),
    Code(String),
    Html(String),
    SoftBreak,
    HardBreak,
    Rule,
    Other,
}

/// What an event is, without the element that it opens or closes.
pub enum EventShape {
    Start,
    End,
    Text(String),
    Code(String),
    Html(String),
    SoftBreak,
    HardBreak,
    Rule,
    Other,
}

/// A piece of the layout. A quote is laid out as the blocks between a
/// `BeginQuote` and its `EndQuote`.
pub enum MdBlock {
    Text(Vec<Vec<Span>>),
    Code(String),
    /// A horizontal line, then an empty line.
    Rule,
    BeginQuote,
    EndQuote,
}

pub struct Markdown {
    pub blocks: Vec<MdBlock>,
}

pub ghost enum MdEventView {
    Start(MdTag),
    End(MdTag),
    Text(Seq<char>),
    Code(Seq<char>),
    Html(Seq<char>),
    SoftBreak,
    HardBreak,
    Rule,
    Other,
}

pub ghost enum MdBlockView {
    Text(Seq<Seq<(Seq<char>, Style)>>),
    Code(Seq<char>),
    Rule,
    BeginQuote,
    EndQuote,
}

pub open spec fn event_view(e: MdEvent) -> MdEventView {
    match e {
        MdEvent::Start(t) => MdEventView::Start(t),
        MdEvent::End(t) => MdEventView::End(t),
        MdEvent::Text(s) => MdEventView::Text(s@),
        MdEvent::Code(s) => MdEventView::Code(s@),
        MdEvent::Html(s) => MdEventView::Html(s@),
        MdEvent::SoftBreak => MdEventView::SoftBreak,
        MdEvent::HardBreak => MdEventView::HardBreak,
        MdEvent::Rule => MdEventView::Rule,
        MdEvent::Other => MdEventView::Other,
    }
}

pub open spec fn events_view(events: Seq<MdEvent>) -> Seq<MdEventView> {
    events.map_values(|e: MdEvent| event_view(e))
}

pub open spec fn lines_view(lines: Seq<Vec<Span>>) -> Seq<Seq<(Seq<char>, Style)>> {
    lines.map_values(|l: Vec<Span>| line_view(l@))
}

pub open spec fn md_block_view(b: MdBlock) -> MdBlockView {
    match b {
        MdBlock::Text(lines) => MdBlockView::Text(lines_view(lines@)),
        MdBlock::Code(s) => MdBlockView::Code(s@),
        MdBlock::Rule => MdBlockView::Rule,
        MdBlock::BeginQuote => MdBlockView::BeginQuote,
        MdBlock::EndQuote => MdBlockView::EndQuote,
    }
}

pub open spec fn md_blocks_view(blocks: Seq<MdBlock>) -> Seq<MdBlockView> {
    blocks.map_values(|b: MdBlock| md_block_view(b))
}

// The lines of a text, as `str::lines` splits it: at each line feed, with a
// carriage return before it dropped; a final line feed ends the last line.

/// A line without the carriage return that ended it.
pub open spec fn without_cr(line: Seq<char>) -> Seq<char> {
    if line.len() > 0 && line.last() == '\r' { line.drop_last() } else { line }
}

/// The lines ended so far in `s`, and the line that is still open.
pub open spec fn line_split(s: Seq<char>) -> (Seq<Seq<char>>, Seq<char>)
    decreases s.len(),
{
    if s.len() == 0 {
        (Seq::empty(), Seq::empty())
    } else {
        let (done, open) = line_split(s.drop_last());
        if s.last() == '\n' {
            (done.push(without_cr(open)), Seq::empty())
        } else {
            (done, open.push(s.last()))
        }
    }
}

pub open spec fn text_lines(s: Seq<char>) -> Seq<Seq<char>> {
    let (done, open) = line_split(s);
    if open.len() > 0 { done.push(open) } else { done }
}

fn string_lines(s: &str) -> (r: Vec<String>)
    ensures
        r@.map_values(|l: String| l@) == text_lines(s@),
{
    let n = s.unicode_len();
    let mut done: Vec<String> = Vec::new();
    let mut open: Vec<char> = Vec::new();
    let mut i: usize = 0;
    while i < n
        invariant
            i <= n,
            n == s@.len(),
            (done@.map_values(|l: String| l@), open@) == line_split(s@.take(i as int)),
        decreases n - i,
    {
        let c = s.get_char(i);
        let ghost prefix = s@.take(i + 1);
        assert(prefix.drop_last() =~= s@.take(i as int));
        if c == '\n' {
            let len = open.len();
            if len > 0 && open[len - 1] == '\r' {
                open.pop();
            }
            let ghost before = done@;
            done.push(string_from_chars(&open));
            assert(done@.map_values(|l: String| l@) =~= before.map_values(|l: String| l@).push(open@));
            open = Vec::new();
        } else {
            open.push(c);
        }
        i += 1;
    }
    assert(s@.take(n as int) =~= s@);
    if open.len() > 0 {
        let ghost before = done@;
        done.push(string_from_chars(&open));
        assert(done@.map_values(|l: String| l@) =~= before.map_values(|l: String| l@).push(open@));
    }
    done
}

} // verus!

verus! {

pub open spec fn strong_style() -> Style {
    Style { bold: true, fg: Some(Color::Purple), ..plain() }
}

pub open spec fn emphasis_style() -> Style {
    Style { italic: true, fg: Some(Color::Magenta), ..plain() }
}

pub open spec fn code_span_style() -> Style {
    Style { reverse: true, ..plain() }
}

pub open spec fn heading_style(level: u32) -> Style {
    if level == 1 {
        Style { underline: true, bold: true, fg: Some(Color::White), ..plain() }
    } else {
        Style { underline: true, ..plain() }
    }
}

pub open spec fn html_style() -> Style {
    Style { dim: true, ..plain() }
}

pub open spec fn struck_style() -> Style {
    Style { strikethrough: true, ..plain() }
}

/// `n` hash signs and a space: the mark of a heading of level `n`.
pub open spec fn heading_mark(n: u32) -> Seq<char> {
    Seq::new(n as nat, |i: int| '#').push(' ')
}

/// The layout while the events are taken: the open elements, the text of
/// the line being built, the lines not yet laid out, and the blocks laid out.
pub ghost struct LayoutState {
    pub tags: Seq<MdTag>,
    pub spans: Seq<(Seq<char>, Style)>,
    pub lines: Seq<Seq<(Seq<char>, Style)>>,
    pub column: Seq<MdBlockView>,
}

pub open spec fn fresh() -> LayoutState {
    LayoutState { tags: Seq::empty(), spans: Seq::empty(), lines: Seq::empty(), column: Seq::empty() }
}

/// The lines so far become a block of text (an empty one, when there are none).
pub open spec fn flush(st: LayoutState) -> LayoutState {
    LayoutState { column: st.column.push(MdBlockView::Text(st.lines)), lines: Seq::empty(), ..st }
}

/// The blocks at the end: the lines not yet laid out are a last block, when
/// there are any; the text of an unfinished line is dropped.
pub open spec fn finish(st: LayoutState) -> Seq<MdBlockView> {
    if st.lines.len() > 0 { st.column.push(MdBlockView::Text(st.lines)) } else { st.column }
}

/// The line being built is laid out, when it has text.
pub open spec fn end_line(st: LayoutState) -> LayoutState {
    LayoutState {
        lines: if st.spans.len() > 0 { st.lines.push(st.spans) } else { st.lines },
        spans: Seq::empty(),
        ..st
    }
}

pub open spec fn text_style(tags: Seq<MdTag>) -> Style {
    if tags.len() == 0 {
        plain()
    } else {
        match tags.last() {
            MdTag::Strong => strong_style(),
            MdTag::Emphasis => emphasis_style(),
            MdTag::Heading(level) => heading_style(level),
            MdTag::Strikethrough => struck_style(),
            _ => plain(),
        }
    }
}

pub open spec fn html_lines(text: Seq<char>) -> Seq<Seq<(Seq<char>, Style)>> {
    text_lines(text).map_values(|l: Seq<char>| seq![(l, html_style())])
}

/// What one event does to the layout; a quote is handled by `layout_run`.
pub open spec fn step(st: LayoutState, e: MdEventView) -> LayoutState {
    match e {
        MdEventView::Start(tag) => match tag {
            MdTag::Item => LayoutState { spans: st.spans.push(("\u{2022} "@, plain())), tags: st.tags.push(tag), ..st },
            MdTag::Heading(level) => LayoutState {
                spans: st.spans.push((heading_mark(level), heading_style(level))),
                tags: st.tags.push(tag),
                ..st
            },
            _ => LayoutState { tags: st.tags.push(tag), ..st },
        },
        MdEventView::End(tag) => {
            let popped = LayoutState { tags: if st.tags.len() > 0 { st.tags.drop_last() } else { st.tags }, ..st };
            match tag {
                MdTag::Heading(_) | MdTag::Paragraph | MdTag::CodeBlock | MdTag::List => {
                    let ended = end_line(popped);
                    LayoutState { lines: ended.lines.push(Seq::empty()), ..ended }
                },
                MdTag::Item => end_line(popped),
                _ => popped,
            }
        },
        MdEventView::Text(text) => {
            if st.tags.len() > 0 && st.tags.last() is CodeBlock {
                let f = flush(st);
                LayoutState { column: f.column.push(MdBlockView::Code(text)), ..f }
            } else {
                LayoutState { spans: st.spans.push((text, text_style(st.tags))), ..st }
            }
        },
        MdEventView::Code(text) => LayoutState {
            spans: st.spans + seq![("\u{2590}"@, plain()), (text, code_span_style()), ("\u{258c}"@, plain())],
            ..st
        },
        MdEventView::Html(text) => LayoutState { lines: st.lines + html_lines(text), ..st },
        MdEventView::SoftBreak | MdEventView::HardBreak => LayoutState {
            lines: st.lines.push(st.spans),
            spans: Seq::empty(),
            ..st
        },
        MdEventView::Rule => {
            let f = flush(st);
            LayoutState { column: f.column.push(MdBlockView::Rule), ..f }
        },
        MdEventView::Other => st,
    }
}

pub open spec fn is_quote_start(e: MdEventView) -> bool {
    e matches MdEventView::Start(MdTag::BlockQuote)
}

pub open spec fn is_quote_end(e: MdEventView) -> bool {
    e matches MdEventView::End(MdTag::BlockQuote)
}

/// Lays out `events` from `pos` on, from the state `st`: the blocks, and the
/// position after the last event taken. Inside a quote, the end of the quote
/// ends the run; a quote inside is laid out by a run of its own.
pub open spec fn layout_run(events: Seq<MdEventView>, pos: nat, st: LayoutState, in_quote: bool) -> (Seq<MdBlockView>, nat)
    decreases events.len() - pos,
{
    if pos >= events.len() {
        (finish(st), pos)
    } else {
        let e = events[pos as int];
        if in_quote && is_quote_end(e) {
            (finish(st), pos + 1)
        } else if is_quote_start(e) {
            let (quoted, next) = layout_run(events, pos + 1, fresh(), true);
            if pos < next && next <= events.len() {
                let f = flush(st);
                layout_run(
                    events,
                    next,
                    LayoutState {
                        column: f.column.push(MdBlockView::BeginQuote) + quoted.push(MdBlockView::EndQuote),
                        lines: seq![Seq::empty()],
                        tags: st.tags.push(MdTag::BlockQuote),
                        spans: st.spans,
                    },
                    in_quote,
                )
            } else {
                (finish(st), next)
            }
        } else {
            layout_run(events, pos + 1, step(st, e), in_quote)
        }
    }
}

/// The layout of a whole document.
pub open spec fn layout(events: Seq<MdEventView>) -> Seq<MdBlockView> {
    layout_run(events, 0, fresh(), false).0
}

} // verus!

verus! {

/// The layout under construction.
struct Builder {
    tags: Vec<MdTag>,
    spans: Vec<Span>,
    lines: Vec<Vec<Span>>,
    column: Vec<MdBlock>,
}

impl Builder {
    spec fn state(&self) -> LayoutState {
        LayoutState {
            tags: self.tags@,
            spans: line_view(self.spans@),
            lines: lines_view(self.lines@),
            column: md_blocks_view(self.column@),
        }
    }

    fn new() -> (r: Builder)
        ensures
            r.state() == fresh(),
    {
        let r = Builder { tags: Vec::new(), spans: Vec::new(), lines: Vec::new(), column: Vec::new() };
        assert(r.state().spans =~= Seq::empty());
        assert(r.state().lines =~= Seq::empty());
        assert(r.state().column =~= Seq::empty());
        r
    }

    fn push_span(&mut self, s: Span)
        ensures
            final(self).state() == (LayoutState { spans: old(self).state().spans.push(span_view(s)), ..old(self).state() }),
    {
        self.spans.push(s);
        assert(line_view(self.spans@) =~= line_view(old(self).spans@).push(span_view(s)));
    }

    fn push_line(&mut self, line: Vec<Span>)
        ensures
            final(self).state() == (LayoutState { lines: old(self).state().lines.push(line_view(line@)), ..old(self).state() }),
    {
        self.lines.push(line);
        assert(lines_view(self.lines@) =~= lines_view(old(self).lines@).push(line_view(line@)));
    }

    fn push_block(&mut self, b: MdBlock)
        ensures
            final(self).state() == (LayoutState { column: old(self).state().column.push(md_block_view(b)), ..old(self).state() }),
    {
        self.column.push(b);
        assert(md_blocks_view(self.column@) =~= md_blocks_view(old(self).column@).push(md_block_view(b)));
    }

    fn flush(&mut self)
        ensures
            final(self).state() == flush(old(self).state()),
    {
        let mut lines: Vec<Vec<Span>> = Vec::new();
        std::mem::swap(&mut lines, &mut self.lines);
        assert(lines_view(self.lines@) =~= Seq::empty());
        self.push_block(MdBlock::Text(lines));
    }

    fn end_line(&mut self)
        ensures
            final(self).state() == end_line(old(self).state()),
    {
        let mut spans: Vec<Span> = Vec::new();
        std::mem::swap(&mut spans, &mut self.spans);
        assert(line_view(self.spans@) =~= Seq::empty());
        if spans.len() > 0 {
            self.push_line(spans);
        }
    }

    fn finish(self) -> (r: Vec<MdBlock>)
        ensures
            md_blocks_view(r@) == finish(self.state()),
    {
        let mut column = self.column;
        if self.lines.len() > 0 {
            let ghost before = column@;
            column.push(MdBlock::Text(self.lines));
            assert(md_blocks_view(column@) =~= md_blocks_view(before).push(md_block_view(MdBlock::Text(self.lines))));
        }
        column
    }

    fn text_style(&self) -> (r: Style)
        ensures
            r == text_style(self.tags@),
    {
        let n = self.tags.len();
        if n == 0 {
            plain_style()
        } else {
            match self.tags[n - 1] {
                MdTag::Strong => Style { bold: true, fg: Some(Color::Purple), ..plain_style() },
                MdTag::Emphasis => Style { italic: true, fg: Some(Color::Magenta), ..plain_style() },
                MdTag::Heading(level) => heading_style_of(level),
                MdTag::Strikethrough => Style { strikethrough: true, ..plain_style() },
                _ => plain_style(),
            }
        }
    }

    fn in_code_block(&self) -> (r: bool)
        ensures
            r == (self.tags@.len() > 0 && self.tags@.last() is CodeBlock),
    {
        let n = self.tags.len();
        n > 0 && matches!(self.tags[n - 1], MdTag::CodeBlock)
    }

    /// Takes one event that does not start a quote.
    fn apply(&mut self, e: &MdEvent)
        requires
            !is_quote_start(event_view(*e)),
        ensures
            final(self).state() == step(old(self).state(), event_view(*e)),
    {
        match e {
            MdEvent::Start(tag) => {
                match tag {
                    MdTag::Item => self.push_span(span("\u{2022} ", plain_style())),
                    MdTag::Heading(level) => self.push_span(span_of(heading_mark_string(*level), heading_style_of(*level))),
                    _ => {},
                }
                self.tags.push(*tag);
            },
            MdEvent::End(tag) => {
                self.tags.pop();
                match tag {
                    MdTag::Heading(_) | MdTag::Paragraph | MdTag::CodeBlock | MdTag::List => {
                        self.end_line();
                        self.push_line(Vec::new());
                        assert(line_view(Seq::<Span>::empty()) =~= Seq::empty());
                    },
                    MdTag::Item => self.end_line(),
                    _ => {},
                }
            },
            MdEvent::Text(text) => {
                if self.in_code_block() {
                    self.flush();
                    self.push_block(MdBlock::Code(text.clone()));
                } else {
                    let style = self.text_style();
                    self.push_span(span(text.as_str(), style));
                }
            },
            MdEvent::Code(text) => {
                self.push_span(span("\u{2590}", plain_style()));
                self.push_span(span(text.as_str(), Style { reverse: true, ..plain_style() }));
                self.push_span(span("\u{258c}", plain_style()));
                assert(self.state().spans =~= old(self).state().spans + seq![
                    ("\u{2590}"@, plain()),
                    (text@, code_span_style()),
                    ("\u{258c}"@, plain()),
                ]);
            },
            MdEvent::Html(text) => {
                let html = string_lines(text.as_str());
                let mut k: usize = 0;
                while k < html.len()
                    invariant
                        k <= html@.len(),
                        html@.map_values(|l: String| l@) == text_lines(text@),
                        self.state() == (LayoutState {
                            lines: old(self).state().lines + html_lines(text@).take(k as int),
                            ..old(self).state()
                        }),
                    decreases html@.len() - k,
                {
                    let line = vec![span(html[k].as_str(), Style { dim: true, ..plain_style() })];
                    assert(line_view(line@) =~= seq![(html@[k as int]@, html_style())]);
                    self.push_line(line);
                    k += 1;
                    assert(html_lines(text@).take(k as int) =~= html_lines(text@).take(k - 1).push(
                        seq![(html@[k - 1]@, html_style())],
                    ));
                }
                assert(html_lines(text@).take(k as int) =~= html_lines(text@));
            },
            MdEvent::SoftBreak | MdEvent::HardBreak => {
                let mut spans: Vec<Span> = Vec::new();
                std::mem::swap(&mut spans, &mut self.spans);
                assert(line_view(self.spans@) =~= Seq::empty());
                self.push_line(spans);
            },
            MdEvent::Rule => {
                self.flush();
                self.push_block(MdBlock::Rule);
            },
            MdEvent::Other => {},
        }
    }
}

fn heading_style_of(level: u32) -> (r: Style)
    ensures
        r == heading_style(level),
{
    if level == 1 {
        Style { underline: true, bold: true, fg: Some(Color::White), ..plain_style() }
    } else {
        Style { underline: true, ..plain_style() }
    }
}

fn heading_mark_string(level: u32) -> (r: String)
    ensures
        r@ == heading_mark(level),
{
    let mut chars: Vec<char> = Vec::new();
    let mut i: u32 = 0;
    while i < level
        invariant
            i <= level,
            chars@ == Seq::new(i as nat, |j: int| '#'),
        decreases level - i,
    {
        chars.push('#');
        i += 1;
        assert(chars@ =~= Seq::new(i as nat, |j: int| '#'));
    }
    chars.push(' ');
    string_from_chars(&chars)
}

} // verus!

verus! {

/// Lays out `events` from `pos` on. Inside a quote (`in_quote`), the run
/// stops at the first end of a quote that it does not open itself, taking
/// that event and leaving the events after it unread. Returns the blocks and
/// the position after the last event taken.
pub fn layout_from(events: &Vec<MdEvent>, pos: usize, in_quote: bool) -> (r: (Vec<MdBlock>, usize))
    requires
        pos <= events@.len(),
    ensures
        (md_blocks_view(r.0@), r.1 as nat) == layout_run(events_view(events@), pos as nat, fresh(), in_quote),
        pos <= r.1 <= events@.len(),
        pos < events@.len() ==> pos < r.1,
    decreases events@.len() - pos,
{
    let ghost evs = events_view(events@);
    let ghost target = layout_run(evs, pos as nat, fresh(), in_quote);
    let mut b = Builder::new();
    let mut i = pos;
    while i < events.len()
        invariant
            pos <= i <= events@.len(),
            evs == events_view(events@),
            target == layout_run(evs, pos as nat, fresh(), in_quote),
            layout_run(evs, i as nat, b.state(), in_quote) == target,
            pos < events@.len() && i == pos ==> b.state() == fresh(),
        ensures
            pos <= i <= events@.len(),
            pos < events@.len() ==> pos < i,
            target == (finish(b.state()), i as nat),
        decreases events@.len() - i,
    {
        let e = &events[i];
        assert(evs[i as int] == event_view(*e));
        let quote_end = matches!(e, MdEvent::End(MdTag::BlockQuote));
        let quote_start = matches!(e, MdEvent::Start(MdTag::BlockQuote));
        if in_quote && quote_end {
            assert(is_quote_end(evs[i as int]));
            let ghost st = b.state();
            assert(target == (finish(st), (i + 1) as nat));
            let done = b.finish();
            return (done, i + 1);
        }
        if quote_start {
            let (quoted, next) = layout_from(events, i + 1, true);
            let ghost st = b.state();
            b.flush();
            b.push_block(MdBlock::BeginQuote);
            let ghost column = b.state().column;
            let mut q = quoted;
            q.push(MdBlock::EndQuote);
            assert(md_blocks_view(q@) =~= md_blocks_view(quoted@).push(MdBlockView::EndQuote));
            b.column.append(&mut q);
            assert(md_blocks_view(b.column@) =~= column + md_blocks_view(quoted@).push(MdBlockView::EndQuote));
            let blank = vec![Vec::new()];
            assert(lines_view(blank@) =~= seq![Seq::<(Seq<char>, Style)>::empty()]) by {
                assert(line_view(blank@[0]@) =~= Seq::empty());
            }
            b.lines = blank;
            b.tags.push(MdTag::BlockQuote);
            i = next;
        } else {
            b.apply(e);
            i += 1;
        }
    }
    (b.finish(), i)
}

/// Lays out a whole document from the events of its parse.
pub fn parse(events: &Vec<MdEvent>) -> (r: Vec<MdBlock>)
    ensures
        md_blocks_view(r@) == layout(events_view(events@)),
{
    layout_from(events, 0, false).0
}

} // verus!

verus! {

/// The events of a CommonMark parse of `source`, with strikethrough
/// enabled, each without the element that it opens or closes.
pub uninterp spec fn markdown_shapes(source: Seq<char>) -> Seq<EventShape>;

/// For each event of the same parse, the element that it opens or closes,
/// when it opens or closes one.
pub uninterp spec fn markdown_tags(source: Seq<char>) -> Seq<Option<MdTag>>;

/// Calls pulldown-cmark's `Parser::new_ext` with strikethrough enabled and
/// collects what each event is: text, code and HTML with their text. The
/// result is named by `markdown_shapes`; the CommonMark grammar behind it is
/// not stated here.
#[verifier::external_body]
fn parse_shapes(source: &str) -> (r: Vec<EventShape>)
    ensures
        r@ == markdown_shapes(source@),
{
    Parser::new_ext(source, Options::ENABLE_STRIKETHROUGH).map(|e| match e {
        Event::Start(_) => EventShape::Start,
        Event::End(_) => EventShape::End,
        Event::Text(t) => EventShape::Text(t.to_string()),
        Event::Code(t) => EventShape::Code(t.to_string()),
        Event::Html(t) => EventShape::Html(t.to_string()),
        Event::SoftBreak => EventShape::SoftBreak,
        Event::HardBreak => EventShape::HardBreak,
        Event::Rule => EventShape::Rule,
        Event::FootnoteReference(_) | Event::TaskListMarker(_) => EventShape::Other,
    }).collect()
}

/// Calls pulldown-cmark's `Parser::new_ext` with strikethrough enabled and
/// collects, for each event, the element that a start or an end event opens
/// or closes. The result is named by `markdown_tags`.
#[verifier::external_body]
fn parse_tags(source: &str) -> (r: Vec<Option<MdTag>>)
    ensures
        r@ == markdown_tags(source@),
{
    let tag = |t: Tag| match t {
        Tag::Paragraph => MdTag::Paragraph,
        Tag::Heading(level, _, _) => MdTag::Heading(level as u32),
        Tag::BlockQuote => MdTag::BlockQuote,
        Tag::CodeBlock(_) => MdTag::CodeBlock,
        Tag::List(_) => MdTag::List,
        Tag::Item => MdTag::Item,
        Tag::Emphasis => MdTag::Emphasis,
        Tag::Strong => MdTag::Strong,
        Tag::Strikethrough => MdTag::Strikethrough,
        _ => MdTag::Other,
    };
    let opened_or_closed = |e: Event| if let Event::Start(t) | Event::End(t) = e { Some(tag(t)) } else { None };
    Parser::new_ext(source, Options::ENABLE_STRIKETHROUGH).map(opened_or_closed).collect()
}

/// The element at `i` of `tags`; `Other` where there is none.
pub open spec fn tag_at(tags: Seq<Option<MdTag>>, i: int) -> MdTag {
    if 0 <= i < tags.len() && tags[i] is Some { tags[i]->Some_0 } else { MdTag::Other }
}

pub open spec fn event_at(shapes: Seq<EventShape>, tags: Seq<Option<MdTag>>, i: int) -> MdEventView {
    match shapes[i] {
        EventShape::Start => MdEventView::Start(tag_at(tags, i)),
        EventShape::End => MdEventView::End(tag_at(tags, i)),
        EventShape::Text(s) => MdEventView::Text(s@),
        EventShape::Code(s) => MdEventView::Code(s@),
        EventShape::Html(s) => MdEventView::Html(s@),
        EventShape::SoftBreak => MdEventView::SoftBreak,
        EventShape::HardBreak => MdEventView::HardBreak,
        EventShape::Rule => MdEventView::Rule,
        EventShape::Other => MdEventView::Other,
    }
}

/// The events of a parse, from what each is and what it opens or closes.
pub open spec fn joined_events(shapes: Seq<EventShape>, tags: Seq<Option<MdTag>>) -> Seq<MdEventView> {
    Seq::new(shapes.len(), |i: int| event_at(shapes, tags, i))
}

fn join_events(shapes: Vec<EventShape>, tags: &Vec<Option<MdTag>>) -> (r: Vec<MdEvent>)
    ensures
        events_view(r@) == joined_events(shapes@, tags@),
{
    let mut events: Vec<MdEvent> = Vec::new();
    let mut i: usize = 0;
    while i < shapes.len()
        invariant
            i <= shapes@.len(),
            events@.len() == i,
            forall|j: int| 0 <= j < i ==> #[trigger] event_view(events@[j]) == event_at(shapes@, tags@, j),
        decreases shapes@.len() - i,
    {
        let tag = if i < tags.len() {
            match tags[i] {
                Some(t) => t,
                None => MdTag::Other,
            }
        } else {
            MdTag::Other
        };
        let e = match &shapes[i] {
            EventShape::Start => MdEvent::Start(tag),
            EventShape::End => MdEvent::End(tag),
            EventShape::Text(s) => MdEvent::Text(s.clone()),
            EventShape::Code(s) => MdEvent::Code(s.clone()),
            EventShape::Html(s) => MdEvent::Html(s.clone()),
            EventShape::SoftBreak => MdEvent::SoftBreak,
            EventShape::HardBreak => MdEvent::HardBreak,
            EventShape::Rule => MdEvent::Rule,
            EventShape::Other => MdEvent::Other,
        };
        events.push(e);
        i += 1;
    }
    assert(events_view(events@) =~= joined_events(shapes@, tags@));
    events
}

impl Markdown {
    /// The layout of the Markdown document `source`.
    pub fn new(source: &str) -> (r: Markdown)
        ensures
            md_blocks_view(r.blocks@) == layout(joined_events(markdown_shapes(source@), markdown_tags(source@))),
    {
        let shapes = parse_shapes(source);
        let tags = parse_tags(source);
        Markdown::from_parse(shapes, tags)
    }

    /// The layout of a document whose parse gave the events `shapes`, which
    /// open or close the elements `tags`.
    pub fn from_parse(shapes: Vec<EventShape>, tags: Vec<Option<MdTag>>) -> (r: Markdown)
        ensures
            md_blocks_view(r.blocks@) == layout(joined_events(shapes@, tags@)),
    {
        let events = join_events(shapes, &tags);
        Markdown { blocks: parse(&events) }
    }
}

impl Default for Markdown {
    /// An empty document.
    fn default() -> (r: Markdown)
        ensures
            r.blocks@.len() == 0,
    {
        Markdown { blocks: Vec::new() }
    }
}

} // verus!

verus! {

/// How many more quotes `blocks` begin than they end.
pub open spec fn open_quotes(blocks: Seq<MdBlockView>) -> int
    decreases blocks.len(),
{
    if blocks.len() == 0 {
        0
    } else {
        open_quotes(blocks.drop_last()) + match blocks.last() {
            MdBlockView::BeginQuote => 1int,
            MdBlockView::EndQuote => -1int,
            _ => 0int,
        }
    }
}

proof fn lemma_open_quotes_concat(a: Seq<MdBlockView>, b: Seq<MdBlockView>)
    ensures
        open_quotes(a + b) == open_quotes(a) + open_quotes(b),
    decreases b.len(),
{
    if b.len() > 0 {
        lemma_open_quotes_concat(a, b.drop_last());
        assert((a + b).drop_last() =~= a + b.drop_last());
    } else {
        assert(a + b =~= a);
    }
}

proof fn lemma_step_keeps_quotes(st: LayoutState, e: MdEventView)
    ensures
        open_quotes(step(st, e).column) == open_quotes(st.column),
{
    let c = st.column;
    match e {
        MdEventView::Text(text) => {
            if st.tags.len() > 0 && st.tags.last() is CodeBlock {
                let f = flush(st);
                assert(f.column.drop_last() =~= c);
                assert(open_quotes(f.column) == open_quotes(c));
                assert(f.column.push(MdBlockView::Code(text)).drop_last() =~= f.column);
                assert(open_quotes(f.column.push(MdBlockView::Code(text))) == open_quotes(f.column));
            }
        },
        MdEventView::Rule => {
            let f = flush(st);
            assert(f.column.drop_last() =~= c);
            assert(open_quotes(f.column) == open_quotes(c));
            assert(f.column.push(MdBlockView::Rule).drop_last() =~= f.column);
            assert(open_quotes(f.column.push(MdBlockView::Rule)) == open_quotes(f.column));
        },
        _ => {},
    }
}

proof fn lemma_run_balanced(events: Seq<MdEventView>, pos: nat, st: LayoutState, in_quote: bool)
    ensures
        open_quotes(layout_run(events, pos, st, in_quote).0) == open_quotes(st.column),
    decreases events.len() - pos,
{
    assert(st.column.push(MdBlockView::Text(st.lines)).drop_last() =~= st.column);
    assert(open_quotes(st.column.push(MdBlockView::Text(st.lines))) == open_quotes(st.column));
    assert(open_quotes(finish(st)) == open_quotes(st.column));
    if pos >= events.len() {
    } else {
        let e = events[pos as int];
        if in_quote && is_quote_end(e) {
        } else if is_quote_start(e) {
            let (quoted, next) = layout_run(events, pos + 1, fresh(), true);
            lemma_run_balanced(events, pos + 1, fresh(), true);
            assert(open_quotes(fresh().column) == 0);
            if pos < next && next <= events.len() {
                let f = flush(st);
                assert(f.column.drop_last() =~= st.column);
                assert(open_quotes(f.column) == open_quotes(st.column));
                let begun = f.column.push(MdBlockView::BeginQuote);
                assert(begun.drop_last() =~= f.column);
                assert(open_quotes(begun) == open_quotes(st.column) + 1);
                assert(quoted.push(MdBlockView::EndQuote).drop_last() =~= quoted);
                assert(open_quotes(quoted.push(MdBlockView::EndQuote)) == open_quotes(quoted) - 1);
                lemma_open_quotes_concat(begun, quoted.push(MdBlockView::EndQuote));
                lemma_run_balanced(
                    events,
                    next,
                    LayoutState {
                        column: begun + quoted.push(MdBlockView::EndQuote),
                        lines: seq![Seq::empty()],
                        tags: st.tags.push(MdTag::BlockQuote),
                        spans: st.spans,
                    },
                    in_quote,
                );
            }
        } else {
            lemma_step_keeps_quotes(st, e);
            lemma_run_balanced(events, pos + 1, step(st, e), in_quote);
        }
    }
}

/// Every quote that the layout begins, it ends.
pub proof fn law_quotes_balanced(events: Seq<MdEventView>)
    ensures
        open_quotes(layout(events)) == 0,
{
    lemma_run_balanced(events, 0, fresh(), false);
}

} // verus!
