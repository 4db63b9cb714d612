//! Presentation: what is shown to the user, as lines of styled text. The
//! terminal colours that each style stands for are chosen by the caller.

use vstd::prelude::*;

use crate::client::{rfc2822_of, Event};

verus! {

/// How a piece of text is shown.
#[derive(Clone, Copy, Debug, PartialEq, Eq, Structural)]
pub enum Style {
    /// As it is.
    Plain,
    /// In bold.
    Bold,
    /// In bright black.
    Dim,
    /// As the report of a success.
    Success,
    /// As the report of an error.
    Error,
    /// As a hint.
    Hint,
    /// As a notice that is neither a success nor an error.
    Notice,
}

/// A piece of text and how it is shown.
pub struct Styled {
    /// How the text is shown.
    pub style: Style,
    /// The text.
    pub text: String,
}

impl View for Styled {
    type V = (Style, Seq<char>);

    open spec fn view(&self) -> (Style, Seq<char>) {
        (self.style, self.text@)
    }
}

/// A line: pieces of text shown one after the other.
pub type Line = Vec<Styled>;

/// The abstract form of a line.
pub open spec fn line_view(line: Seq<Styled>) -> Seq<(Style, Seq<char>)> {
    line.map_values(|s: Styled| s@)
}

/// The abstract form of a list of lines.
pub open spec fn lines_view(lines: Seq<Line>) -> Seq<Seq<(Style, Seq<char>)>> {
    lines.map_values(|l: Line| line_view(l@))
}

/// The line of an event: its date, dimmed and followed by a colon, then its
/// label.
pub open spec fn event_line(e: Event) -> Seq<(Style, Seq<char>)> {
    seq![
        (Style::Dim, rfc2822_of(e.date.spec_timestamp(), e.date.spec_offset()) + ":"@),
        (Style::Plain, " "@ + e.label@),
    ]
}

/// The lines of a list of events received oldest first: one per event,
/// newest first.
pub open spec fn event_lines_view(events: Seq<Event>) -> Seq<Seq<(Style, Seq<char>)>> {
    Seq::new(events.len(), |i: int| event_line(events[events.len() - 1 - i]))
}

/// The heading of a parcel's events: its description and tracking number, or
/// its tracking number alone.
pub open spec fn heading_text(tracking_number: Seq<char>, description: Option<Seq<char>>) -> Seq<
    char,
> {
    match description {
        Some(d) => "--- "@ + d + " ("@ + tracking_number + ") ---"@,
        None => "--- "@ + tracking_number + " ---"@,
    }
}

/// The lines that show the events of a parcel: a blank line, the heading in
/// bold, a blank line, the events newest first, and a closing blank line.
pub open spec fn info_lines(
    tracking_number: Seq<char>,
    description: Option<Seq<char>>,
    events: Seq<Event>,
) -> Seq<Seq<(Style, Seq<char>)>> {
    seq![
        Seq::empty(),
        seq![(Style::Bold, heading_text(tracking_number, description))],
        Seq::empty(),
    ] + event_lines_view(events) + seq![Seq::empty()]
}

/// A piece of text from a style and a string.
pub fn styled(style: Style, text: String) -> (r: Styled)
    ensures
        r@ == (style, text@),
{
    Styled { style, text }
}

/// A line of one piece of text.
pub fn single(style: Style, text: String) -> (r: Line)
    ensures
        line_view(r@) == seq![(style, text@)],
{
    let mut line: Line = Vec::new();
    line.push(Styled { style, text });
    assert(line_view(line@) =~= seq![(style, text@)]);
    line
}

/// An empty line.
pub fn blank() -> (r: Line)
    ensures
        line_view(r@) == Seq::<(Style, Seq<char>)>::empty(),
{
    let line: Line = Vec::new();
    assert(line_view(line@) =~= Seq::<(Style, Seq<char>)>::empty());
    line
}

/// The line of an event.
pub fn render_event(e: &Event) -> (r: Line)
    ensures
        line_view(r@) == event_line(*e),
{
    let mut date = e.date.to_rfc2822();
    date.append(":");
    let mut label = String::from_str(" ");
    label.append(e.label.as_str());
    let mut line: Line = Vec::new();
    line.push(Styled { style: Style::Dim, text: date });
    line.push(Styled { style: Style::Plain, text: label });
    assert(line_view(line@) =~= event_line(*e));
    line
}

/// The lines of a list of events received oldest first: newest first, one
/// per event.
pub fn event_lines(events: &[Event]) -> (r: Vec<Line>)
    ensures
        lines_view(r@) == event_lines_view(events@),
{
    let n = events.len();
    let mut lines: Vec<Line> = Vec::new();
    let mut i: usize = n;
    while i > 0
        invariant
            i <= n,
            n == events@.len(),
            lines_view(lines@) =~= event_lines_view(events@).take(n - i),
        decreases i,
    {
        i = i - 1;
        let line = render_event(&events[i]);
        let ghost before = lines@;
        let ghost added = line_view(line@);
        lines.push(line);
        assert(lines@ == before.push(lines@[lines@.len() - 1]));
        assert(added == event_line(events@[i as int]));
        assert(lines_view(lines@) =~= lines_view(before).push(added));
        assert(lines_view(lines@) =~= event_lines_view(events@).take(n - i));
    }
    lines
}

/// A view of the events of a parcel.
pub struct TrackingInfo<'a> {
    tracking_number: &'a str,
    description: Option<&'a str>,
    events: &'a [Event],
}

/// An optional borrowed text, as a character sequence.
pub open spec fn opt_str_view(o: Option<&str>) -> Option<Seq<char>> {
    match o {
        Some(s) => Some(s@),
        None => None,
    }
}

impl<'a> TrackingInfo<'a> {
    /// The tracking number shown.
    pub closed spec fn spec_tracking_number(&self) -> Seq<char> {
        self.tracking_number@
    }

    /// The description shown, if any.
    pub closed spec fn spec_description(&self) -> Option<Seq<char>> {
        opt_str_view(self.description)
    }

    /// The events shown, oldest first.
    pub closed spec fn spec_events(&self) -> Seq<Event> {
        self.events@
    }

    /// The lines of the view.
    pub open spec fn lines(&self) -> Seq<Seq<(Style, Seq<char>)>> {
        info_lines(self.spec_tracking_number(), self.spec_description(), self.spec_events())
    }

    /// Creates a view of the events of a parcel, received oldest first.
    pub fn new(tracking_number: &'a str, description: Option<&'a str>, events: &'a [Event]) -> (r:
        Self)
        ensures
            r.spec_tracking_number() == tracking_number@,
            r.spec_description() == opt_str_view(description),
            r.spec_events() == events@,
    {
        TrackingInfo { tracking_number, description, events }
    }

    /// Renders the view.
    pub fn render(&self) -> (r: Vec<Line>)
        ensures
            lines_view(r@) == self.lines(),
    {
        let mut heading = String::from_str("--- ");
        match self.description {
            Some(d) => {
                heading.append(d);
                heading.append(" (");
                heading.append(self.tracking_number);
                heading.append(") ---");
            },
            None => {
                heading.append(self.tracking_number);
                heading.append(" ---");
            },
        }
        let mut lines: Vec<Line> = Vec::new();
        lines.push(blank());
        lines.push(single(Style::Bold, heading));
        lines.push(blank());
        let mut events = event_lines(self.events);
        lines.append(&mut events);
        lines.push(blank());
        assert(lines_view(lines@) =~= self.lines());
        lines
    }
}

} // verus!
