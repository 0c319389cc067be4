//! Coloured text: what a piece of output should look like, and the terminal
//! text that shows it.
//!
//! A [`Span`] pairs a text with a [`Look`]. The rest of the crate builds
//! output as lines of spans, which are plain data with exact contracts.
//! [`render`] turns a line into the characters to print. Whether escape
//! sequences are emitted at all is decided by the `colored` crate from what
//! it finds around it (whether output goes to a terminal, variables such as
//! `NO_COLOR`, a manual override), so the contracts here describe both
//! outcomes.

use vstd::prelude::*;
use vstd::string::*;

verus! {

/// A colour of the terminal's basic palette.
#[derive(Clone, Copy, Debug, PartialEq, Eq)]
pub enum Hue {
    Black,
    Red,
    Green,
    Yellow,
    Blue,
    Cyan,
    White,
}

/// How a span is shown: foreground, background and emphasis.
#[derive(Clone, Copy, Debug, PartialEq, Eq)]
pub struct Look {
    pub fg: Option<Hue>,
    pub bg: Option<Hue>,
    pub bold: bool,
    pub underline: bool,
}

/// A text together with the look it is shown in.
#[derive(Clone, Debug, PartialEq, Eq)]
pub struct Span {
    pub text: String,
    pub look: Look,
}

/// The mathematical view of a [`Span`].
pub struct SpanView {
    pub text: Seq<char>,
    pub look: Look,
}

impl DeepView for Span {
    type V = SpanView;

    open spec fn deep_view(&self) -> SpanView {
        SpanView { text: self.text@, look: self.look }
    }
}

/// The sequence that switches all terminal attributes off.
pub open spec fn reset_sequence() -> Seq<char> {
    seq!['\x1b', '[', '0', 'm']
}

/// Whether a reset sequence starts at position `i` of `text`.
pub open spec fn reset_at(text: Seq<char>, i: int) -> bool {
    0 <= i && i + 4 <= text.len() && text.subrange(i, i + 4) == reset_sequence()
}

/// Whether `text` holds a reset sequence somewhere.
pub open spec fn mentions_reset(text: Seq<char>) -> bool {
    exists|i: int| reset_at(text, i)
}

/// `text` with `opening` written again after every reset sequence in it,
/// so that a look that was switched off inside the text is back on for the
/// rest of it.
pub open spec fn resumed(text: Seq<char>, opening: Seq<char>) -> Seq<char>
    decreases text.len(),
{
    if text.len() < 4 {
        text
    } else if text.subrange(0, 4) == reset_sequence() {
        reset_sequence() + opening + resumed(text.skip(4), opening)
    } else {
        seq![text[0]] + resumed(text.skip(1), opening)
    }
}

/// The parameter that selects `hue` as foreground.
pub open spec fn foreground_code(hue: Hue) -> Seq<char> {
    match hue {
        Hue::Black => seq!['3', '0'],
        Hue::Red => seq!['3', '1'],
        Hue::Green => seq!['3', '2'],
        Hue::Yellow => seq!['3', '3'],
        Hue::Blue => seq!['3', '4'],
        Hue::Cyan => seq!['3', '6'],
        Hue::White => seq!['3', '7'],
    }
}

/// The parameter that selects `hue` as background.
pub open spec fn background_code(hue: Hue) -> Seq<char> {
    match hue {
        Hue::Black => seq!['4', '0'],
        Hue::Red => seq!['4', '1'],
        Hue::Green => seq!['4', '2'],
        Hue::Yellow => seq!['4', '3'],
        Hue::Blue => seq!['4', '4'],
        Hue::Cyan => seq!['4', '6'],
        Hue::White => seq!['4', '7'],
    }
}

/// `parts` written one after the other with `;` between neighbours.
pub open spec fn semicolon_separated(parts: Seq<Seq<char>>) -> Seq<char>
    decreases parts.len(),
{
    if parts.len() == 0 {
        Seq::empty()
    } else if parts.len() == 1 {
        parts[0]
    } else {
        semicolon_separated(parts.drop_last()) + seq![';'] + parts.last()
    }
}

impl Look {
    /// A look that changes nothing.
    pub open spec fn is_plain(self) -> bool {
        self.fg is None && self.bg is None && !self.bold && !self.underline
    }

    /// The parameters of the escape sequence, in the order they are
    /// written: emphasis, background, foreground.
    pub open spec fn parameters(self) -> Seq<Seq<char>> {
        (if self.bold {
            seq![seq!['1']]
        } else {
            Seq::empty()
        }) + (if self.underline {
            seq![seq!['4']]
        } else {
            Seq::empty()
        }) + (match self.bg {
            Some(hue) => seq![background_code(hue)],
            None => Seq::empty(),
        }) + (match self.fg {
            Some(hue) => seq![foreground_code(hue)],
            None => Seq::empty(),
        })
    }

    /// The escape sequence that switches this look on.
    pub open spec fn opening(self) -> Seq<char> {
        seq!['\x1b', '['] + semicolon_separated(self.parameters()) + seq!['m']
    }

    /// `text` between the opening sequence and the reset sequence, with
    /// the opening sequence again after every reset sequence inside `text`.
    pub open spec fn wrapped(self, text: Seq<char>) -> Seq<char> {
        self.opening() + resumed(text, self.opening()) + reset_sequence()
    }

    /// Whether `shown` is a way of showing `text` in this look.
    ///
    /// A plain look shows the text itself. Any other look shows either the
    /// text itself (colours are off) or the text wrapped in escape sequences
    /// (colours are on).
    pub open spec fn shows(self, text: Seq<char>, shown: Seq<char>) -> bool {
        if self.is_plain() {
            shown == text
        } else {
            shown == text || shown == self.wrapped(text)
        }
    }

    /// The look that changes nothing.
    pub open spec fn spec_plain() -> Look {
        Look { fg: None, bg: None, bold: false, underline: false }
    }

    /// A foreground colour and nothing else.
    pub open spec fn spec_tint(hue: Hue) -> Look {
        Look { fg: Some(hue), bg: None, bold: false, underline: false }
    }

    /// This look on a background colour.
    pub open spec fn spec_on(self, hue: Hue) -> Look {
        Look { bg: Some(hue), ..self }
    }

    /// This look in bold.
    pub open spec fn spec_bold(self) -> Look {
        Look { bold: true, ..self }
    }

    /// This look underlined.
    pub open spec fn spec_underlined(self) -> Look {
        Look { underline: true, ..self }
    }

    /// The look that changes nothing.
    #[verifier::when_used_as_spec(spec_plain)]
    pub fn plain() -> (look: Look)
        ensures
            look == Look::plain(),
    {
        Look { fg: None, bg: None, bold: false, underline: false }
    }

    /// A foreground colour and nothing else.
    #[verifier::when_used_as_spec(spec_tint)]
    pub fn tint(hue: Hue) -> (look: Look)
        ensures
            look == Look::tint(hue),
    {
        Look { fg: Some(hue), bg: None, bold: false, underline: false }
    }

    /// This look on a background colour.
    #[verifier::when_used_as_spec(spec_on)]
    pub fn on(self, hue: Hue) -> (look: Look)
        ensures
            look == self.on(hue),
    {
        Look { fg: self.fg, bg: Some(hue), bold: self.bold, underline: self.underline }
    }

    /// This look in bold.
    #[verifier::when_used_as_spec(spec_bold)]
    pub fn bold(self) -> (look: Look)
        ensures
            look == self.bold(),
    {
        Look { fg: self.fg, bg: self.bg, bold: true, underline: self.underline }
    }

    /// This look underlined.
    #[verifier::when_used_as_spec(spec_underlined)]
    pub fn underlined(self) -> (look: Look)
        ensures
            look == self.underlined(),
    {
        Look { fg: self.fg, bg: self.bg, bold: self.bold, underline: true }
    }
}

impl SpanView {
    /// A span of `text` in `look`.
    pub open spec fn new(text: Seq<char>, look: Look) -> SpanView {
        SpanView { text, look }
    }

    /// A span of `text` with no styling.
    pub open spec fn plain(text: Seq<char>) -> SpanView {
        SpanView { text, look: Look::plain() }
    }
}

impl Span {
    /// A span of `text` in `look`.
    pub fn new(text: &str, look: Look) -> (span: Span)
        ensures
            span.deep_view() == SpanView::new(text@, look),
    {
        Span { text: String::from_str(text), look }
    }

    /// A span of `text` with no styling.
    pub fn plain(text: &str) -> (span: Span)
        ensures
            span.deep_view() == SpanView::plain(text@),
    {
        Span { text: String::from_str(text), look: Look::plain() }
    }
}

/// Whether `shown` is a way of showing the spans of `line` one after the
/// other: it splits into one part per span, each showing its span.
pub open spec fn depicts(line: Seq<SpanView>, shown: Seq<char>) -> bool {
    exists|parts: Seq<Seq<char>>| #[trigger] depicts_by(line, parts) && shown == parts.flatten()
}

/// Whether `parts` shows `line` span by span.
pub open spec fn depicts_by(line: Seq<SpanView>, parts: Seq<Seq<char>>) -> bool {
    &&& parts.len() == line.len()
    &&& forall|i: int| 0 <= i < line.len() ==> (#[trigger] line[i]).look.shows(line[i].text, parts[i])
}

/// A text without a reset sequence is wrapped as it is.
pub proof fn law_texts_without_reset_are_kept(text: Seq<char>, opening: Seq<char>)
    requires
        !mentions_reset(text),
    ensures
        resumed(text, opening) == text,
    decreases text.len(),
{
    if text.len() >= 4 {
        assert(!reset_at(text, 0));
        let rest = text.skip(1);
        assert forall|i: int| !reset_at(rest, i) by {
            if 0 <= i && i + 4 <= rest.len() {
                assert(rest.subrange(i, i + 4) == text.subrange(i + 1, i + 5));
                assert(!reset_at(text, i + 1));
            }
        }
        law_texts_without_reset_are_kept(rest, opening);
        assert(seq![text[0]] + rest == text);
    }
}

/// A line of plain spans is shown in one way only: as its texts, one
/// after the other.
pub proof fn law_plain_lines_show_as_their_text(line: Seq<SpanView>, shown: Seq<char>)
    requires
        forall|i: int| 0 <= i < line.len() ==> (#[trigger] line[i]).look.is_plain(),
    ensures
        depicts(line, shown) <==> shown == line.map_values(|span: SpanView| span.text).flatten(),
{
    let texts = line.map_values(|span: SpanView| span.text);
    if depicts(line, shown) {
        let parts = choose|parts: Seq<Seq<char>>| #[trigger]
            depicts_by(line, parts) && shown == parts.flatten();
        assert forall|i: int| 0 <= i < line.len() implies parts[i] == texts[i] by {
            assert(line[i].look.shows(line[i].text, parts[i]));
        }
        assert(parts == texts);
    }
    if shown == texts.flatten() {
        assert(depicts_by(line, texts));
    }
}

/// The colour type of the `colored` crate, carried through unopened.
#[verifier::external_type_specification]
#[verifier::external_body]
pub struct ExColor(colored::Color);

/// The `colored` crate's name for `hue`: the variant of `colored::Color`
/// that is spelled the same.
#[verifier::external_body]
fn outside_color(hue: Hue) -> colored::Color {
    match hue {
        Hue::Black => colored::Color::Black,
        Hue::Red => colored::Color::Red,
        Hue::Green => colored::Color::Green,
        Hue::Yellow => colored::Color::Yellow,
        Hue::Blue => colored::Color::Blue,
        Hue::Cyan => colored::Color::Cyan,
        Hue::White => colored::Color::White,
    }
}

/// Shows `text` in `look` through `colored::ColoredString`'s `to_string`.
///
/// The contract claims what the formatting code of `ColoredString` does:
/// a string without colours and emphasis is written as it is; any other is
/// written as it is when colouring is switched off, and otherwise between
/// `ESC [ parameters m` and `ESC [ 0 m`, the parameters being the emphasis
/// codes, the background code and the foreground code, separated by `;`.
/// Where the text itself holds `ESC [ 0 m`, the opening sequence is written
/// again after each of them.
#[verifier::external_body]
fn paint(text: &str, look: Look) -> (shown: String)
    ensures
        look.shows(text@, shown@),
{
    let mut styled = colored::ColoredString::from(text);
    styled.fgcolor = look.fg.map(outside_color);
    styled.bgcolor = look.bg.map(outside_color);
    if look.bold {
        styled.style.add(colored::Styles::Bold);
    }
    if look.underline {
        styled.style.add(colored::Styles::Underline);
    }
    styled.to_string()
}

/// The characters to print for `line`.
pub fn render(line: &Vec<Span>) -> (shown: String)
    ensures
        depicts(line.deep_view(), shown@),
{
    let mut shown = String::new();
    let ghost mut parts: Seq<Seq<char>> = Seq::empty();
    let mut i: usize = 0;
    while i < line.len()
        invariant
            i <= line.len(),
            depicts_by(line.deep_view().take(i as int), parts),
            shown@ == parts.flatten(),
        decreases line.len() - i,
    {
        let piece = paint(line[i].text.as_str(), line[i].look);
        proof {
            let before = line.deep_view().take(i as int);
            let after = line.deep_view().take(i + 1);
            assert(after == before.push(line.deep_view()[i as int]));
            parts.lemma_flatten_push(piece@);
            parts = parts.push(piece@);
        }
        shown.append(piece.as_str());
        i += 1;
    }
    proof {
        assert(line.deep_view().take(line.len() as int) == line.deep_view());
    }
    shown
}

} // verus!
