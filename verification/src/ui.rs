//! What the dashboard shows, as plain values for a terminal front end to
//! paint: one row for each issue on one side, the selected issue with its
//! comments on the other.

use crate::app::{App, AppView};
use crate::issue::{issue_views, Comment, CommentView, Issue, IssueView};
use vstd::prelude::*;

verus! {

/// How the two panes share the screen.
#[derive(Debug, Clone, Copy, PartialEq, Eq, Structural)]
pub enum Direction {
    Horizontal,
    Vertical,
}

/// A colour by its red, green and blue parts.
#[derive(Debug, Clone, Copy, PartialEq, Eq, Structural)]
pub struct Rgb {
    pub r: u8,
    pub g: u8,
    pub b: u8,
}

/// A piece of a row. A coloured piece is drawn in the colour of its row, the
/// others in the terminal's own.
#[derive(Debug, Clone, PartialEq, Eq)]
pub struct Span {
    pub text: String,
    pub colored: bool,
}

/// The row of one issue. `color` is `None` where the status does not carry a
/// colour of the form `#rrggbb`.
#[derive(Debug, Clone, PartialEq, Eq)]
pub struct Row {
    pub color: Option<Rgb>,
    pub spans: Vec<Span>,
}

/// Everything that one frame shows.
#[derive(Debug, Clone, PartialEq, Eq)]
pub struct Screen {
    pub direction: Direction,
    /// One row for each issue, in the order of the list.
    pub rows: Vec<Row>,
    /// The row to highlight.
    pub selected: Option<usize>,
    /// The text of the detail pane.
    pub detail: String,
}

/// The mathematical content of a [`Span`].
pub struct SpanView {
    pub text: Seq<char>,
    pub colored: bool,
}

/// The mathematical content of a [`Row`].
#[verifier::ext_equal]
pub struct RowView {
    pub color: Option<Rgb>,
    pub spans: Seq<SpanView>,
}

/// The mathematical content of a [`Screen`].
#[verifier::ext_equal]
pub struct ScreenView {
    pub direction: Direction,
    pub rows: Seq<RowView>,
    pub selected: Option<int>,
    pub detail: Seq<char>,
}

impl View for Span {
    type V = SpanView;

    open spec fn view(&self) -> SpanView {
        SpanView { text: self.text@, colored: self.colored }
    }
}

impl View for Row {
    type V = RowView;

    open spec fn view(&self) -> RowView {
        RowView { color: self.color, spans: self.spans@.map_values(|s: Span| s@) }
    }
}

impl View for Screen {
    type V = ScreenView;

    open spec fn view(&self) -> ScreenView {
        ScreenView {
            direction: self.direction,
            rows: self.rows@.map_values(|r: Row| r@),
            selected: match self.selected {
                Some(i) => Some(i as int),
                None => None,
            },
            detail: self.detail@,
        }
    }
}

/// The value of a hexadecimal digit, in either case.
pub open spec fn hex_digit(c: char) -> Option<u8> {
    if '0' <= c <= '9' {
        Some((c as u32 - '0' as u32) as u8)
    } else if 'a' <= c <= 'f' {
        Some((c as u32 - 'a' as u32 + 10) as u8)
    } else if 'A' <= c <= 'F' {
        Some((c as u32 - 'A' as u32 + 10) as u8)
    } else {
        None
    }
}

/// The value of two hexadecimal digits, the first counting sixteen times.
pub open spec fn hex_byte(high: char, low: char) -> Option<u8> {
    match (hex_digit(high), hex_digit(low)) {
        (Some(h), Some(l)) => Some((16 * h + l) as u8),
        _ => None,
    }
}

/// The colour that `text` names: a `#` and six hexadecimal digits, two each
/// for red, green and blue. Any other text names no colour.
pub open spec fn hex_color(text: Seq<char>) -> Option<Rgb> {
    if text.len() == 7 && text[0] == '#' {
        match (hex_byte(text[1], text[2]), hex_byte(text[3], text[4]), hex_byte(text[5], text[6])) {
            (Some(r), Some(g), Some(b)) => Some(Rgb { r, g, b }),
            _ => None,
        }
    } else {
        None
    }
}

/// A piece in the colour of its row.
pub open spec fn colored(text: Seq<char>) -> SpanView {
    SpanView { text, colored: true }
}

/// A piece in the terminal's own colour.
pub open spec fn plain(text: Seq<char>) -> SpanView {
    SpanView { text, colored: false }
}

/// The row of an issue: key, status and summary, the assignee behind an `@`
/// where there is one, and the time of the last change.
pub open spec fn row_of(issue: IssueView) -> RowView {
    RowView {
        color: hex_color(issue.status.color),
        spans: seq![
            colored(issue.issue_key),
            plain(" "@),
            colored(issue.status.name),
            plain(" "@),
            colored(issue.summary),
        ] + match issue.assignee {
            Some(user) => seq![colored(" @"@ + user.name)],
            None => seq![],
        } + seq![plain(" "@), colored(issue.updated)],
    }
}

/// What the detail pane says of one comment: after a blank line and a
/// speech balloon, who wrote it and when, then its text. A comment without
/// a text is passed over.
pub open spec fn comment_text(comment: CommentView) -> Seq<char> {
    match comment.content {
        Some(text) => "\n\n\u{1F4AC} "@ + comment.created_user.name + " "@ + comment.created
            + ":  "@ + text,
        None => Seq::empty(),
    }
}

/// What the detail pane says of a thread: of each comment in turn.
pub open spec fn thread_text(thread: Seq<CommentView>) -> Seq<char>
    decreases thread.len(),
{
    if thread.len() == 0 {
        Seq::empty()
    } else {
        thread_text(thread.drop_last()) + comment_text(thread.last())
    }
}

/// The text of the detail pane: the description of the selected issue, then
/// its comments as far as they have been fetched. Without a selected issue
/// the pane is empty.
pub open spec fn detail_text(issue: Option<IssueView>) -> Seq<char> {
    match issue {
        Some(i) => i.description + match i.comments {
            Some(thread) => thread_text(thread),
            None => Seq::empty(),
        },
        None => Seq::empty(),
    }
}

/// The frame that shows `app`.
pub open spec fn screen_of(app: AppView) -> ScreenView {
    ScreenView {
        direction: if app.is_vertical {
            Direction::Horizontal
        } else {
            Direction::Vertical
        },
        rows: app.issues.map_values(|i: IssueView| row_of(i)),
        selected: app.cursor,
        detail: detail_text(app.selected_issue()),
    }
}

fn hex_digit_value(c: char) -> (value: Option<u8>)
    ensures
        value == hex_digit(c),
{
    if '0' <= c && c <= '9' {
        Some((c as u32 - '0' as u32) as u8)
    } else if 'a' <= c && c <= 'f' {
        Some((c as u32 - 'a' as u32 + 10) as u8)
    } else if 'A' <= c && c <= 'F' {
        Some((c as u32 - 'A' as u32 + 10) as u8)
    } else {
        None
    }
}

fn hex_byte_value(high: char, low: char) -> (value: Option<u8>)
    ensures
        value == hex_byte(high, low),
{
    match (hex_digit_value(high), hex_digit_value(low)) {
        (Some(h), Some(l)) => Some(16 * h + l),
        _ => None,
    }
}

/// Reads a colour of the form `#rrggbb`.
pub fn hex_to_rgb_color(hex: &str) -> (color: Option<Rgb>)
    ensures
        color == hex_color(hex@),
{
    if hex.unicode_len() != 7 || hex.get_char(0) != '#' {
        return None;
    }
    let r = hex_byte_value(hex.get_char(1), hex.get_char(2));
    let g = hex_byte_value(hex.get_char(3), hex.get_char(4));
    let b = hex_byte_value(hex.get_char(5), hex.get_char(6));
    match (r, g, b) {
        (Some(r), Some(g), Some(b)) => Some(Rgb { r, g, b }),
        _ => None,
    }
}

fn colored_span(text: &str) -> (span: Span)
    ensures
        span@ == colored(text@),
{
    Span { text: text.to_owned(), colored: true }
}

fn plain_span(text: &str) -> (span: Span)
    ensures
        span@ == plain(text@),
{
    Span { text: text.to_owned(), colored: false }
}

/// The row that stands for `issue` in the list.
pub fn row(issue: &Issue) -> (row: Row)
    ensures
        row@ == row_of(issue@),
{
    let mut spans: Vec<Span> = Vec::new();
    spans.push(colored_span(issue.issue_key.as_str()));
    spans.push(plain_span(" "));
    spans.push(colored_span(issue.status.name.as_str()));
    spans.push(plain_span(" "));
    spans.push(colored_span(issue.summary.as_str()));
    match &issue.assignee {
        Some(user) => {
            let mut text = " @".to_owned();
            text.append(user.name.as_str());
            spans.push(Span { text, colored: true });
        },
        None => {},
    }
    spans.push(plain_span(" "));
    spans.push(colored_span(issue.updated.as_str()));
    let row = Row { color: hex_to_rgb_color(issue.status.color.as_str()), spans };
    assert(row@.spans == row_of(issue@).spans);
    row
}

/// Appends to `text` what the detail pane says of `comment`.
fn append_comment(text: &mut String, comment: &Comment)
    ensures
        final(text)@ == old(text)@ + comment_text(comment@),
{
    match &comment.content {
        Some(content) => {
            text.append("\n\n\u{1F4AC} ");
            text.append(comment.created_user.name.as_str());
            text.append(" ");
            text.append(comment.created.as_str());
            text.append(":  ");
            text.append(content.as_str());
        },
        None => {},
    }
}

/// The text of the detail pane for the issue under the cursor.
pub fn detail(issue: Option<&Issue>) -> (text: String)
    ensures
        text@ == detail_text(
            match issue {
                Some(i) => Some(i@),
                None => None,
            },
        ),
{
    let mut text = String::new();
    match issue {
        Some(i) => {
            text.append(i.description.as_str());
            match &i.comments {
                Some(thread) => {
                    let ghost views = crate::issue::comment_views(thread@);
                    let mut k: usize = 0;
                    while k < thread.len()
                        invariant
                            k <= thread.len(),
                            views == crate::issue::comment_views(thread@),
                            text@ == i.description@ + thread_text(views.take(k as int)),
                        decreases thread.len() - k,
                    {
                        proof {
                            assert(views.take(k + 1).drop_last() == views.take(k as int));
                        }
                        append_comment(&mut text, &thread[k]);
                        k += 1;
                    }
                    proof {
                        assert(views.take(k as int) == views);
                    }
                },
                None => {},
            }
        },
        None => {},
    }
    text
}

/// Lays out the frame that shows `app`: which way the panes are split, a row
/// for each issue, the row to highlight and the text of the detail pane.
pub fn draw(app: &App) -> (screen: Screen)
    ensures
        screen@ == screen_of(app@),
{
    let direction = if app.is_vertical {
        Direction::Horizontal
    } else {
        Direction::Vertical
    };
    let list = app.items();
    let issues = list.items();
    let mut rows: Vec<Row> = Vec::new();
    let mut k: usize = 0;
    while k < issues.len()
        invariant
            k <= issues.len(),
            rows@.map_values(|r: Row| r@) == issue_views(issues@).take(k as int).map_values(
                |i: IssueView| row_of(i),
            ),
        decreases issues.len() - k,
    {
        let next = row(&issues[k]);
        proof {
            assert(rows@.push(next).map_values(|r: Row| r@) == rows@.map_values(|r: Row| r@).push(
                next@,
            ));
            assert(issue_views(issues@).take(k + 1) == issue_views(issues@).take(k as int).push(
                issues@[k as int]@,
            ));
        }
        rows.push(next);
        k += 1;
    }
    proof {
        assert(issue_views(issues@).take(k as int) == issue_views(issues@));
    }
    Screen {
        direction,
        rows,
        selected: list.selected_index(),
        detail: detail(app.get_selected_issue()),
    }
}

} // verus!
