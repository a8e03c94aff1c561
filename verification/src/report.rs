//! Lines of console output, their colours, and the section banner.
use vstd::prelude::*;
use crate::text::{append, centered, push_char, uppercase, to_upper, center, spaces};

verus! {

/// A terminal foreground colour.
#[derive(Clone, Copy, Debug, PartialEq, Eq, Structural)]
pub enum Hue {
    Red,
    Green,
    Yellow,
}

/// The two digits of the ANSI foreground code of `h`.
pub open spec fn hue_code(h: Hue) -> Seq<char> {
    match h {
        Hue::Red => seq!['3', '1'],
        Hue::Green => seq!['3', '2'],
        Hue::Yellow => seq!['3', '3'],
    }
}

/// `text` wrapped in the escape codes that colour it `h` and reset after it.
pub open spec fn painted(h: Hue, text: Seq<char>) -> Seq<char> {
    seq!['\u{1b}', '['] + hue_code(h) + seq!['m'] + text + seq!['\u{1b}', '[', '0', 'm']
}

/// Colours `text` with `ansi_term::Colour::paint` and renders it.
///
/// Trusted: `ansi_term` writes, for a style that only sets a foreground
/// colour, the prefix `ESC [ 3x m`, the text, and the suffix `ESC [ 0 m`
/// (`Style::write_prefix`, `write_foreground_code`, `write_suffix`).
#[verifier::external_body]
fn paint(h: Hue, text: &str) -> (r: String)
    ensures
        r@ == painted(h, text@),
{
    match h {
        Hue::Red => ansi_term::Colour::Red.paint(text).to_string(),
        Hue::Green => ansi_term::Colour::Green.paint(text).to_string(),
        Hue::Yellow => ansi_term::Colour::Yellow.paint(text).to_string(),
    }
}

/// One line of console output: a label, coloured or plain, then optionally
/// a space and an uncoloured detail.
pub struct Line {
    pub hue: Option<Hue>,
    pub label: String,
    pub detail: Option<String>,
    pub to_stderr: bool,
}

/// The mathematical content of a [`Line`].
pub struct LineView {
    pub hue: Option<Hue>,
    pub label: Seq<char>,
    pub detail: Option<Seq<char>>,
    pub to_stderr: bool,
}

impl View for Line {
    type V = LineView;

    open spec fn view(&self) -> LineView {
        LineView {
            hue: self.hue,
            label: self.label@,
            detail: match self.detail {
                Some(d) => Some(d@),
                None => None,
            },
            to_stderr: self.to_stderr,
        }
    }
}

/// The text of a line as it appears on the terminal.
pub open spec fn rendered(l: LineView) -> Seq<char> {
    let head = match l.hue {
        Some(h) => painted(h, l.label),
        None => l.label,
    };
    match l.detail {
        Some(d) => head + seq![' '] + d,
        None => head,
    }
}

impl Line {
    /// The text to print for this line.
    pub fn render(&self) -> (r: String)
        ensures
            r@ == rendered(self@),
    {
        let mut r = match self.hue {
            Some(h) => paint(h, self.label.as_str()),
            None => self.label.clone(),
        };
        match &self.detail {
            Some(d) => {
                push_char(&mut r, ' ');
                append(&mut r, d.as_str());
            },
            None => {},
        }
        r
    }
}

/// The views of a sequence of lines.
pub open spec fn views(lines: Seq<Line>) -> Seq<LineView> {
    lines.map_values(|l: Line| l@)
}

/// A line on standard output.
pub open spec fn say(hue: Option<Hue>, label: Seq<char>) -> LineView {
    LineView { hue, label, detail: None, to_stderr: false }
}

/// A line on standard output with a detail after the label.
pub open spec fn say_with(hue: Option<Hue>, label: Seq<char>, detail: Seq<char>) -> LineView {
    LineView { hue, label, detail: Some(detail), to_stderr: false }
}

/// A line on standard error.
pub open spec fn warn(hue: Option<Hue>, label: Seq<char>) -> LineView {
    LineView { hue, label, detail: None, to_stderr: true }
}

/// Appends `l` to `out`.
pub fn emit(out: &mut Vec<Line>, l: Line)
    ensures
        views(final(out)@) == views(old(out)@).push(l@),
{
    out.push(l);
    assert(views(out@) =~= views(old(out)@).push(l@));
}

/// Appends all of `lines`.
pub fn emit_all(out: &mut Vec<Line>, lines: Vec<Line>)
    ensures
        views(final(out)@) == views(old(out)@) + views(lines@),
{
    let mut lines = lines;
    let ghost added = lines@;
    out.append(&mut lines);
    assert(views(out@) =~= views(old(out)@) + views(added));
}

/// Appends a label-only line on standard output.
pub fn emit_say(out: &mut Vec<Line>, hue: Option<Hue>, label: String)
    ensures
        views(final(out)@) == views(old(out)@).push(say(hue, label@)),
{
    emit(out, Line { hue, label, detail: None, to_stderr: false });
}

/// Appends a line with a detail on standard output.
pub fn emit_with(out: &mut Vec<Line>, hue: Option<Hue>, label: String, detail: String)
    ensures
        views(final(out)@) == views(old(out)@).push(say_with(hue, label@, detail@)),
{
    emit(out, Line { hue, label, detail: Some(detail), to_stderr: false });
}

/// Appends a label-only line on standard error.
pub fn emit_warn(out: &mut Vec<Line>, hue: Option<Hue>, label: String)
    ensures
        views(final(out)@) == views(old(out)@).push(warn(hue, label@)),
{
    emit(out, Line { hue, label, detail: None, to_stderr: true });
}

/// Appends a yellow label-only line.
pub fn yellow(out: &mut Vec<Line>, label: &str)
    ensures
        views(final(out)@) == views(old(out)@).push(say(Some(Hue::Yellow), label@)),
{
    emit_say(out, Some(Hue::Yellow), String::from_str(label));
}

/// Appends a red label-only line.
pub fn red(out: &mut Vec<Line>, label: &str)
    ensures
        views(final(out)@) == views(old(out)@).push(say(Some(Hue::Red), label@)),
{
    emit_say(out, Some(Hue::Red), String::from_str(label));
}

/// Appends a line with a coloured label and a detail.
pub fn tinted(out: &mut Vec<Line>, hue: Hue, label: &str, detail: String)
    ensures
        views(final(out)@) == views(old(out)@).push(say_with(Some(hue), label@, detail@)),
{
    emit_with(out, Some(hue), String::from_str(label), detail);
}

/// Appends an uncoloured line.
pub fn plain(out: &mut Vec<Line>, text: String)
    ensures
        views(final(out)@) == views(old(out)@).push(say(None, text@)),
{
    emit_say(out, None, text);
}

// ---------------------------------------------------------------------------
// Section banner
// ---------------------------------------------------------------------------

/// The frame line of the banner: 54 `#`.
pub open spec fn banner_rule() -> Seq<char> {
    Seq::new(54, |i: int| '#')
}

/// The empty row of the banner: `#`, 52 spaces, `#`.
pub open spec fn banner_blank() -> Seq<char> {
    seq!['#'] + spaces(52) + seq!['#']
}

/// The banner announcing the section `step`: a framed box with the step's
/// name upper-cased and centred in a 50-character field.
pub open spec fn banner_text(step: Seq<char>) -> Seq<char> {
    banner_rule() + seq!['\n'] + banner_blank() + seq!['\n'] + seq!['#'] + centered(
        uppercase(step),
        50,
    ) + seq!['#'] + seq!['\n'] + banner_blank() + seq!['\n'] + banner_rule()
}

/// The banner as printed: `banner_text` coloured yellow.
pub open spec fn banner(step: Seq<char>) -> LineView {
    say(Some(Hue::Yellow), banner_text(step))
}

fn push_rule(out: &mut String)
    ensures
        final(out)@ == old(out)@ + banner_rule(),
{
    let mut i: usize = 0;
    while i < 54
        invariant
            i <= 54,
            out@ == old(out)@ + Seq::new(i as nat, |k: int| '#'),
        decreases 54 - i,
    {
        push_char(out, '#');
        i = i + 1;
        assert(out@ =~= old(out)@ + Seq::new(i as nat, |k: int| '#'));
    }
}

fn push_blank(out: &mut String)
    ensures
        final(out)@ == old(out)@ + banner_blank(),
{
    push_char(out, '#');
    let mut i: usize = 0;
    while i < 52
        invariant
            i <= 52,
            out@ == old(out)@ + seq!['#'] + spaces(i as nat),
        decreases 52 - i,
    {
        push_char(out, ' ');
        i = i + 1;
        assert(out@ =~= old(out)@ + seq!['#'] + spaces(i as nat));
    }
    push_char(out, '#');
    assert(out@ =~= old(out)@ + banner_blank());
}

/// The text of the banner for the section `step`.
pub fn banner_string(step: &str) -> (r: String)
    ensures
        r@ == banner_text(step@),
{
    let upper = to_upper(step);
    let middle = center(upper.as_str(), 50);
    let mut r = String::new();
    push_rule(&mut r);
    push_char(&mut r, '\n');
    push_blank(&mut r);
    push_char(&mut r, '\n');
    push_char(&mut r, '#');
    append(&mut r, middle.as_str());
    push_char(&mut r, '#');
    push_char(&mut r, '\n');
    push_blank(&mut r);
    push_char(&mut r, '\n');
    push_rule(&mut r);
    assert(r@ =~= banner_text(step@));
    r
}

/// Appends the banner for the section `step`.
pub fn emit_banner(out: &mut Vec<Line>, step: &str)
    ensures
        views(final(out)@) == views(old(out)@).push(banner(step@)),
{
    let text = banner_string(step);
    emit_say(out, Some(Hue::Yellow), text);
}

/// The banner announcing the section `step`, coloured yellow, ready to print.
pub fn header(step: &str) -> (r: String)
    ensures
        r@ == rendered(banner(step@)),
{
    let line = Line { hue: Some(Hue::Yellow), label: banner_string(step), detail: None, to_stderr: false };
    line.render()
}

} // verus!
