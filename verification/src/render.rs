//! Screen layout as data: a frame is a sequence of render directives, and
//! every render function pins the exact directives it produces. The driver
//! performs the directives against the terminal and flushes them as one
//! atomic frame.

use crate::config::WatchConfig;
use crate::cycle::CycleResult;
use crate::text::{spec_dec, u64_to_dec};
use crate::{align_col, spec_align_col};
use vstd::prelude::*;

verus! {

/// A piece of styled text printed at the current cursor position. The styles
/// are a small closed set of presentation tags layered on the plain text.
#[derive(Debug, Clone, PartialEq, Eq)]
pub struct Segment {
    /// The text to print.
    pub text: String,
    /// Bold emphasis.
    pub bold: bool,
    /// Underlined emphasis.
    pub underlined: bool,
    /// Rapid-blink emphasis, marking the tracked command.
    pub blink: bool,
    /// Italic emphasis.
    pub italic: bool,
}

/// The mathematical value of a `Segment`.
#[verifier::ext_equal]
pub ghost struct SegmentView {
    pub text: Seq<char>,
    pub bold: bool,
    pub underlined: bool,
    pub blink: bool,
    pub italic: bool,
}

impl View for Segment {
    type V = SegmentView;

    open spec fn view(&self) -> SegmentView {
        SegmentView {
            text: self.text@,
            bold: self.bold,
            underlined: self.underlined,
            blink: self.blink,
            italic: self.italic,
        }
    }
}

/// An unstyled segment.
pub open spec fn plain(text: Seq<char>) -> SegmentView {
    SegmentView { text, bold: false, underlined: false, blink: false, italic: false }
}

/// A bold segment.
pub open spec fn bold(text: Seq<char>) -> SegmentView {
    SegmentView { text, bold: true, underlined: false, blink: false, italic: false }
}

/// A bold and underlined segment, used for the body labels.
pub open spec fn bold_underlined(text: Seq<char>) -> SegmentView {
    SegmentView { text, bold: true, underlined: true, blink: false, italic: false }
}

/// A rapid-blink segment, used for the tracked command line.
pub open spec fn blink(text: Seq<char>) -> SegmentView {
    SegmentView { text, bold: false, underlined: false, blink: true, italic: false }
}

/// An italic segment, used for the footer hint.
pub open spec fn italic(text: Seq<char>) -> SegmentView {
    SegmentView { text, bold: false, underlined: false, blink: false, italic: true }
}

/// One drawing step handed to the terminal.
#[derive(Debug, Clone, PartialEq, Eq)]
pub enum Directive {
    /// Clear the whole screen.
    ClearAll,
    /// Move the cursor to the given column and row.
    MoveTo { col: u16, row: u16 },
    /// Move the cursor to the given column on the current row.
    MoveToColumn { col: u16 },
    /// Move the cursor to the start of the row the given number of lines down.
    MoveToNextLine { lines: u16 },
    /// Print a styled segment at the cursor.
    Print { seg: Segment },
    /// Leave the alternate display region, back to the normal screen.
    LeaveAlternateScreen,
}

/// The mathematical value of a `Directive`.
#[verifier::ext_equal]
pub ghost enum DirectiveView {
    ClearAll,
    MoveTo { col: u16, row: u16 },
    MoveToColumn { col: u16 },
    MoveToNextLine { lines: u16 },
    Print { seg: SegmentView },
    LeaveAlternateScreen,
}

impl View for Directive {
    type V = DirectiveView;

    open spec fn view(&self) -> DirectiveView {
        match self {
            Directive::ClearAll => DirectiveView::ClearAll,
            Directive::MoveTo { col, row } => DirectiveView::MoveTo { col: *col, row: *row },
            Directive::MoveToColumn { col } => DirectiveView::MoveToColumn { col: *col },
            Directive::MoveToNextLine { lines } => DirectiveView::MoveToNextLine {
                lines: *lines,
            },
            Directive::Print { seg } => DirectiveView::Print { seg: seg@ },
            Directive::LeaveAlternateScreen => DirectiveView::LeaveAlternateScreen,
        }
    }
}

/// The views of a sequence of directives.
pub open spec fn views_of(ds: Seq<Directive>) -> Seq<DirectiveView> {
    ds.map_values(|d: Directive| d@)
}

/// The right-aligned interval message of the header row.
pub open spec fn spec_interval_msg(interval: u64) -> Seq<char> {
    "Interval: "@ + spec_dec(interval as int) + "s"@
}

/// The footer hint naming the quit key and the interrupt chord.
pub open spec fn quit_msg() -> Seq<char> {
    "Press 'q' or 'Ctrl+C' to exit"@
}

/// The header of a frame: clear the screen, print the prompt marker and the
/// blinking command line at the top left, the bold interval message
/// right-aligned on the same row, and move two lines down.
pub open spec fn spec_header(cmd: Seq<char>, interval: u64, width: u16) -> Seq<DirectiveView> {
    seq![
        DirectiveView::ClearAll,
        DirectiveView::MoveTo { col: 0, row: 0 },
        DirectiveView::Print { seg: plain("> "@) },
        DirectiveView::Print { seg: blink(cmd) },
        DirectiveView::MoveToColumn {
            col: spec_align_col(width, spec_interval_msg(interval).len()),
        },
        DirectiveView::Print { seg: bold(spec_interval_msg(interval)) },
        DirectiveView::MoveToNextLine { lines: 2 },
    ]
}

/// The body of a frame: the bold underlined `Output:` label and the trimmed
/// standard output; then, only when the trimmed standard error is non-empty,
/// the bold underlined `StdErr:` label and that text.
pub open spec fn spec_body(stdout: Seq<char>, stderr: Seq<char>) -> Seq<DirectiveView> {
    let out_part = seq![
        DirectiveView::Print { seg: bold_underlined("Output:"@) },
        DirectiveView::MoveToNextLine { lines: 1 },
        DirectiveView::Print { seg: plain(stdout) },
        DirectiveView::MoveToNextLine { lines: 1 },
    ];
    if stderr.len() == 0 {
        out_part
    } else {
        out_part + seq![
            DirectiveView::Print { seg: bold_underlined("StdErr:"@) },
            DirectiveView::MoveToNextLine { lines: 1 },
            DirectiveView::Print { seg: plain(stderr) },
            DirectiveView::MoveToNextLine { lines: 1 },
        ]
    }
}

/// The footer of a frame: the italic quit hint right-aligned on the last
/// screen row.
pub open spec fn spec_footer(width: u16, height: u16) -> Seq<DirectiveView> {
    seq![
        DirectiveView::MoveTo {
            col: spec_align_col(width, quit_msg().len()),
            row: if height > 0 {
                (height - 1) as u16
            } else {
                0
            },
        },
        DirectiveView::Print { seg: italic(quit_msg()) },
    ]
}

/// A whole frame: header, body and footer, queued in order and flushed as
/// one atomic update.
pub open spec fn spec_frame(
    cmd: Seq<char>,
    interval: u64,
    stdout: Seq<char>,
    stderr: Seq<char>,
    width: u16,
    height: u16,
) -> Seq<DirectiveView> {
    spec_header(cmd, interval, width) + spec_body(stdout, stderr) + spec_footer(width, height)
}

/// The final render on cancellation: leave the alternate screen, print the
/// prompt marker and the command line plainly, and repeat the current
/// cycle's body on the normal screen.
pub open spec fn spec_final_frame(
    cmd: Seq<char>,
    stdout: Seq<char>,
    stderr: Seq<char>,
) -> Seq<DirectiveView> {
    seq![
        DirectiveView::LeaveAlternateScreen,
        DirectiveView::Print { seg: plain("> "@) },
        DirectiveView::Print { seg: plain(cmd) },
        DirectiveView::MoveToNextLine { lines: 2 },
    ] + spec_body(stdout, stderr)
}

fn plain_seg(text: String) -> (seg: Segment)
    ensures
        seg@ == plain(text@),
{
    Segment { text, bold: false, underlined: false, blink: false, italic: false }
}

fn label_seg(text: String) -> (seg: Segment)
    ensures
        seg@ == bold_underlined(text@),
{
    Segment { text, bold: true, underlined: true, blink: false, italic: false }
}

/// Formats the interval message for the header row.
fn interval_msg(interval: u64) -> (r: String)
    ensures
        r@ == spec_interval_msg(interval),
{
    let mut r = "Interval: ".to_owned();
    let digits = u64_to_dec(interval);
    r.append(digits.as_str());
    r.append("s");
    r
}

/// Renders the header of a frame for the given screen width.
pub fn render_header(cfg: &WatchConfig, width: u16) -> (out: Vec<Directive>)
    ensures
        views_of(out@) == spec_header(cfg.command_line@, cfg.interval, width),
{
    let msg = interval_msg(cfg.interval);
    let msg_len = msg.as_str().unicode_len();
    let col = align_col(width, msg_len);
    let mut out: Vec<Directive> = Vec::new();
    out.push(Directive::ClearAll);
    out.push(Directive::MoveTo { col: 0, row: 0 });
    out.push(Directive::Print { seg: plain_seg("> ".to_owned()) });
    out.push(
        Directive::Print {
            seg: Segment {
                text: cfg.command_line.clone(),
                bold: false,
                underlined: false,
                blink: true,
                italic: false,
            },
        },
    );
    out.push(Directive::MoveToColumn { col });
    out.push(
        Directive::Print {
            seg: Segment { text: msg, bold: true, underlined: false, blink: false, italic: false },
        },
    );
    out.push(Directive::MoveToNextLine { lines: 2 });
    proof {
        assert(views_of(out@) =~~= spec_header(cfg.command_line@, cfg.interval, width));
    }
    out
}

/// Renders the body of a frame from the current cycle's trimmed output.
pub fn render_body(result: &CycleResult) -> (out: Vec<Directive>)
    ensures
        views_of(out@) == spec_body(result.stdout@, result.stderr@),
{
    let mut out: Vec<Directive> = Vec::new();
    out.push(Directive::Print { seg: label_seg("Output:".to_owned()) });
    out.push(Directive::MoveToNextLine { lines: 1 });
    out.push(Directive::Print { seg: plain_seg(result.stdout.clone()) });
    out.push(Directive::MoveToNextLine { lines: 1 });
    if !result.stderr.as_str().is_empty() {
        out.push(Directive::Print { seg: label_seg("StdErr:".to_owned()) });
        out.push(Directive::MoveToNextLine { lines: 1 });
        out.push(Directive::Print { seg: plain_seg(result.stderr.clone()) });
        out.push(Directive::MoveToNextLine { lines: 1 });
    }
    proof {
        assert(views_of(out@) =~~= spec_body(result.stdout@, result.stderr@));
    }
    out
}

/// Renders the footer of a frame for the given screen size.
pub fn render_footer(width: u16, height: u16) -> (out: Vec<Directive>)
    ensures
        views_of(out@) == spec_footer(width, height),
{
    let hint = "Press 'q' or 'Ctrl+C' to exit";
    let hint_len = hint.unicode_len();
    let col = align_col(width, hint_len);
    let row = if height > 0 {
        height - 1
    } else {
        0
    };
    let mut out: Vec<Directive> = Vec::new();
    out.push(Directive::MoveTo { col, row });
    out.push(
        Directive::Print {
            seg: Segment {
                text: hint.to_owned(),
                bold: false,
                underlined: false,
                blink: false,
                italic: true,
            },
        },
    );
    proof {
        assert(views_of(out@) =~~= spec_footer(width, height));
    }
    out
}

/// Renders a whole frame: header, body and footer in order. Rendering reads
/// only its arguments, so identical inputs give the identical frame.
pub fn render_frame(cfg: &WatchConfig, result: &CycleResult, width: u16, height: u16) -> (out: Vec<
    Directive,
>)
    ensures
        views_of(out@) == spec_frame(
            cfg.command_line@,
            cfg.interval,
            result.stdout@,
            result.stderr@,
            width,
            height,
        ),
{
    let mut out = render_header(cfg, width);
    let mut body = render_body(result);
    let mut footer = render_footer(width, height);
    out.append(&mut body);
    out.append(&mut footer);
    proof {
        assert(views_of(out@) =~~= spec_frame(
            cfg.command_line@,
            cfg.interval,
            result.stdout@,
            result.stderr@,
            width,
            height,
        ));
    }
    out
}

/// Renders the one final frame of a cancelled session on the normal screen,
/// reusing the already-captured cycle result.
pub fn render_final_frame(cfg: &WatchConfig, result: &CycleResult) -> (out: Vec<Directive>)
    ensures
        views_of(out@) == spec_final_frame(cfg.command_line@, result.stdout@, result.stderr@),
{
    let mut out: Vec<Directive> = Vec::new();
    out.push(Directive::LeaveAlternateScreen);
    out.push(Directive::Print { seg: plain_seg("> ".to_owned()) });
    out.push(Directive::Print { seg: plain_seg(cfg.command_line.clone()) });
    out.push(Directive::MoveToNextLine { lines: 2 });
    let mut body = render_body(result);
    out.append(&mut body);
    proof {
        assert(views_of(out@) =~~= spec_final_frame(
            cfg.command_line@,
            result.stdout@,
            result.stderr@,
        ));
    }
    out
}

/// Rendering is idempotent: two frames rendered from the same command line,
/// interval, cycle output and screen size are identical, directive for
/// directive.
pub proof fn lemma_render_idempotent(
    a: Seq<DirectiveView>,
    b: Seq<DirectiveView>,
    cmd: Seq<char>,
    interval: u64,
    stdout: Seq<char>,
    stderr: Seq<char>,
    width: u16,
    height: u16,
)
    requires
        a == spec_frame(cmd, interval, stdout, stderr, width, height),
        b == spec_frame(cmd, interval, stdout, stderr, width, height),
    ensures
        a == b,
{
}

} // verus!
