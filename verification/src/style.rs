//! Styled text: a sequence of spans, each a piece of text with a colour and a
//! weight. Templates produce styled text; the terminal form is made from it
//! span by span.

use vstd::prelude::*;
use vstd::string::*;

verus! {

/// The terminal colours that the templates use.
#[derive(Clone, Copy, Debug, PartialEq, Eq, Structural)]
pub enum Color {
    Red,
    Green,
    Yellow,
    Blue,
    Cyan,
    BrightBlue,
    BrightGreen,
    BrightYellow,
    BrightCyan,
}

/// How a span is shown: an optional foreground colour, bold, dimmed.
#[derive(Clone, Copy, Debug, PartialEq, Eq, Structural)]
pub struct Style {
    pub color: Option<Color>,
    pub bold: bool,
    pub dimmed: bool,
}

/// A piece of text with one style.
#[derive(Clone, Debug)]
pub struct Span {
    pub text: String,
    pub style: Style,
}

/// The mathematical form of a [`Span`].
pub struct SpanView {
    pub text: Seq<char>,
    pub style: Style,
}

/// A sequence of spans.
#[derive(Clone, Debug)]
pub struct StyledText {
    pub spans: Vec<Span>,
}

/// The style without colour or weight.
pub open spec fn plain() -> Style {
    Style { color: None, bold: false, dimmed: false }
}

/// Bold, in the default colour.
pub open spec fn bold() -> Style {
    Style { color: None, bold: true, dimmed: false }
}

/// Dimmed, in the default colour.
pub open spec fn dimmed() -> Style {
    Style { color: None, bold: false, dimmed: true }
}

/// The colour `c` at normal weight.
pub open spec fn tinted(c: Color) -> Style {
    Style { color: Some(c), bold: false, dimmed: false }
}

/// The colour `c` in bold.
pub open spec fn bold_tinted(c: Color) -> Style {
    Style { color: Some(c), bold: true, dimmed: false }
}

/// The colour `c`, dimmed.
pub open spec fn dim_tinted(c: Color) -> Style {
    Style { color: Some(c), bold: false, dimmed: true }
}

/// The span of `text` in `style`.
pub open spec fn span(text: Seq<char>, style: Style) -> SpanView {
    SpanView { text, style }
}

/// The characters of all spans in order, styles left out.
pub open spec fn flattened(spans: Seq<SpanView>) -> Seq<char>
    decreases spans.len(),
{
    if spans.len() == 0 {
        Seq::empty()
    } else {
        flattened(spans.drop_last()) + spans.last().text
    }
}

/// Whether no span has a colour or a weight.
pub open spec fn all_plain(spans: Seq<SpanView>) -> bool {
    forall|i: int| 0 <= i < spans.len() ==> (#[trigger] spans[i]).style == plain()
}

/// The escape sequence that ends all colours and weights on a terminal.
pub const RESET: &'static str = "\x1b[0m";

/// Whether a text holds the reset sequence somewhere.
pub open spec fn holds_reset(text: Seq<char>) -> bool {
    exists|i: int|
        0 <= i && i + RESET@.len() <= text.len() && #[trigger] text.subrange(
            i,
            i + RESET@.len(),
        ) == RESET@
}

/// Whether `out` is `text` as a terminal may be handed it in a style: the
/// text as it is, or an escape code, the text and the reset sequence. The
/// text stands unchanged between the two unless it holds a reset sequence
/// itself.
pub open spec fn painted_piece(text: Seq<char>, out: Seq<char>) -> bool {
    out == text || exists|code: Seq<char>, inner: Seq<char>|
        #[trigger] wrapped(code, inner) == out && (!holds_reset(text) ==> inner == text)
}

/// An escape code, a text and the reset sequence in a row.
pub open spec fn wrapped(code: Seq<char>, inner: Seq<char>) -> Seq<char> {
    code + inner + RESET@
}

/// Whether `out` is what a terminal may be handed for one span: the text
/// itself for a plain span, and for any other what [`painted_piece`] allows.
pub open spec fn span_painted(span: SpanView, out: Seq<char>) -> bool {
    if span.style == plain() {
        out == span.text
    } else {
        painted_piece(span.text, out)
    }
}

/// Whether `out` is what a terminal may be handed for a styled text: the
/// pieces of its spans in order, each as [`span_painted`] allows.
pub open spec fn painted(spans: Seq<SpanView>, out: Seq<char>) -> bool
    decreases spans.len(),
{
    if spans.len() == 0 {
        out == Seq::<char>::empty()
    } else {
        exists|head: Seq<char>, piece: Seq<char>|
            #[trigger] followed(head, piece) == out && painted(spans.drop_last(), head)
                && span_painted(spans.last(), piece)
    }
}

/// What was handed over so far, followed by the next piece.
pub open spec fn followed(head: Seq<char>, piece: Seq<char>) -> Seq<char> {
    head + piece
}

/// The name by which a colour is selected.
pub open spec fn color_name(c: Color) -> Seq<char> {
    match c {
        Color::Red => "red"@,
        Color::Green => "green"@,
        Color::Yellow => "yellow"@,
        Color::Blue => "blue"@,
        Color::Cyan => "cyan"@,
        Color::BrightBlue => "bright blue"@,
        Color::BrightGreen => "bright green"@,
        Color::BrightYellow => "bright yellow"@,
        Color::BrightCyan => "bright cyan"@,
    }
}

impl Color {
    /// The colour's name, in lower case.
    pub fn name(&self) -> (name: &'static str)
        ensures
            name@ == color_name(*self),
    {
        match self {
            Color::Red => "red",
            Color::Green => "green",
            Color::Yellow => "yellow",
            Color::Blue => "blue",
            Color::Cyan => "cyan",
            Color::BrightBlue => "bright blue",
            Color::BrightGreen => "bright green",
            Color::BrightYellow => "bright yellow",
            Color::BrightCyan => "bright cyan",
        }
    }
}

impl Style {
    /// The style without colour or weight.
    pub fn plain() -> (s: Style)
        ensures
            s == plain(),
    {
        Style { color: None, bold: false, dimmed: false }
    }

    /// Bold, in the default colour.
    pub fn bold() -> (s: Style)
        ensures
            s == bold(),
    {
        Style { color: None, bold: true, dimmed: false }
    }

    /// Dimmed, in the default colour.
    pub fn dimmed() -> (s: Style)
        ensures
            s == dimmed(),
    {
        Style { color: None, bold: false, dimmed: true }
    }

    /// The colour `c` at normal weight.
    pub fn tinted(c: Color) -> (s: Style)
        ensures
            s == tinted(c),
    {
        Style { color: Some(c), bold: false, dimmed: false }
    }

    /// The colour `c` in bold.
    pub fn bold_tinted(c: Color) -> (s: Style)
        ensures
            s == bold_tinted(c),
    {
        Style { color: Some(c), bold: true, dimmed: false }
    }

    /// The colour `c`, dimmed.
    pub fn dim_tinted(c: Color) -> (s: Style)
        ensures
            s == dim_tinted(c),
    {
        Style { color: Some(c), bold: false, dimmed: true }
    }

    /// Whether the style has neither colour nor weight.
    pub fn is_plain(&self) -> (b: bool)
        ensures
            b == (*self == plain()),
    {
        self.color.is_none() && !self.bold && !self.dimmed
    }
}

impl View for Span {
    type V = SpanView;

    open spec fn view(&self) -> SpanView {
        SpanView { text: self.text@, style: self.style }
    }
}

impl View for StyledText {
    type V = Seq<SpanView>;

    open spec fn view(&self) -> Seq<SpanView> {
        self.spans@.map_values(|s: Span| s@)
    }
}

impl StyledText {
    /// The empty text.
    pub fn new() -> (out: StyledText)
        ensures
            out@ == Seq::<SpanView>::empty(),
    {
        let out = StyledText { spans: Vec::new() };
        assert(out@ =~= Seq::<SpanView>::empty());
        out
    }

    /// Adds the span of `text` in `style` at the end.
    pub fn push(&mut self, text: &str, style: Style)
        ensures
            final(self)@ == old(self)@.push(span(text@, style)),
    {
        self.spans.push(Span { text: String::from_str(text), style });
        assert(self@ =~= old(self)@.push(span(text@, style)));
    }

    /// Adds the span of `first` followed by `second` and `third`, in `style`,
    /// at the end.
    pub fn push_joined(&mut self, first: &str, second: &str, third: &str, style: Style)
        ensures
            final(self)@ == old(self)@.push(span(first@ + second@ + third@, style)),
    {
        let mut text = String::from_str(first);
        text.append(second);
        text.append(third);
        self.push(text.as_str(), style);
    }

    /// Adds all spans of `other` at the end.
    pub fn append(&mut self, other: StyledText)
        ensures
            final(self)@ == old(self)@ + other@,
    {
        let mut rest = other.spans;
        self.spans.append(&mut rest);
        assert(self@ =~= old(self)@ + other@);
    }

    /// The number of spans.
    pub fn len(&self) -> (n: usize)
        ensures
            n == self@.len(),
    {
        self.spans.len()
    }

    /// The text with the styles left out.
    pub fn plain_text(&self) -> (out: String)
        ensures
            out@ == flattened(self@),
    {
        let mut out = String::new();
        let n: usize = self.spans.len();
        let mut i: usize = 0;
        while i < n
            invariant
                i <= n,
                n == self.spans@.len(),
                out@ == flattened(self@.take(i as int)),
            decreases n - i,
        {
            proof {
                let next = self@.take(i + 1);
                assert(next.drop_last() =~= self@.take(i as int));
                assert(next.last() == self.spans@[i as int]@);
            }
            out.append(self.spans[i].text.as_str());
            i = i + 1;
        }
        assert(self@.take(n as int) =~= self@);
        out
    }

    /// The text for a terminal: the pieces of the spans in order. The piece
    /// of a plain span is its text; that of a styled span is its text as it
    /// is, or between an escape code and the reset sequence, whichever the
    /// `colored` crate writes where the program runs. A text of plain spans
    /// only is returned as [`StyledText::plain_text`] returns it.
    pub fn colorize(&self) -> (out: String)
        ensures
            painted(self@, out@),
            all_plain(self@) ==> out@ == flattened(self@),
    {
        let mut out = String::new();
        let n: usize = self.spans.len();
        let mut i: usize = 0;
        assert(self@.take(0) =~= Seq::<SpanView>::empty());
        while i < n
            invariant
                i <= n,
                n == self.spans@.len(),
                painted(self@.take(i as int), out@),
                all_plain(self@) ==> out@ == flattened(self@.take(i as int)),
            decreases n - i,
        {
            let ghost before = out@;
            let piece = paint(self.spans[i].text.as_str(), self.spans[i].style);
            out.append(piece.as_str());
            proof {
                let next = self@.take(i + 1);
                assert(next.drop_last() =~= self@.take(i as int));
                assert(next.last() == self.spans@[i as int]@);
                assert(self@[i as int] == self.spans@[i as int]@);
                assert(out@ == before + piece@);
                lemma_painted_push(self@.take(i as int), before, self@[i as int], piece@);
                assert(self@.take(i as int).push(self@[i as int]) =~= next);
            }
            i = i + 1;
        }
        assert(self@.take(n as int) =~= self@);
        out
    }
}

/// `text` as a terminal is handed it in `style`. A plain style leaves the
/// text as it is. For any other style the `colored` crate decides by the
/// place the program runs in: the result is the text as it is, or the text
/// between an escape code and the reset sequence.
pub fn paint(text: &str, style: Style) -> (out: String)
    ensures
        span_painted(span(text@, style), out@),
{
    if style.is_plain() {
        return String::from_str(text);
    }
    let mut piece = unstyled_piece(text);
    match style.color {
        Some(c) => {
            piece = with_color(piece, c.name());
        },
        None => {},
    }
    if style.bold {
        piece = with_bold(piece);
    }
    if style.dimmed {
        piece = with_dimmed(piece);
    }
    piece_text(&piece)
}

/// A text that carries its colour and weight, as the `colored` crate holds
/// it. Of its contents only the text is spoken of here, under the name
/// [`piece_input`].
#[verifier::external_type_specification]
#[verifier::external_body]
pub struct ExColoredString(colored::ColoredString);

/// The text that a piece of the `colored` crate holds: its field `input`.
pub uninterp spec fn piece_input(piece: colored::ColoredString) -> Seq<char>;

/// `ColoredString::from` of the `colored` crate: a piece with no colour and
/// no weight. The piece holds `text`.
#[verifier::external_body]
fn unstyled_piece(text: &str) -> (piece: colored::ColoredString)
    ensures
        piece_input(piece) == text@,
{
    colored::ColoredString::from(text)
}

/// `Colorize::color` of the `colored` crate with a colour given by name. It
/// sets the colour of the piece and leaves the text that it holds.
#[verifier::external_body]
fn with_color(piece: colored::ColoredString, name: &str) -> (tinted: colored::ColoredString)
    ensures
        piece_input(tinted) == piece_input(piece),
{
    colored::Colorize::color(piece, name)
}

/// `Colorize::bold` of the `colored` crate. It adds to the weights of the
/// piece and leaves the text that it holds.
#[verifier::external_body]
fn with_bold(piece: colored::ColoredString) -> (heavy: colored::ColoredString)
    ensures
        piece_input(heavy) == piece_input(piece),
{
    colored::Colorize::bold(piece)
}

/// `Colorize::dimmed` of the `colored` crate. It adds to the weights of the
/// piece and leaves the text that it holds.
#[verifier::external_body]
fn with_dimmed(piece: colored::ColoredString) -> (faint: colored::ColoredString)
    ensures
        piece_input(faint) == piece_input(piece),
{
    colored::Colorize::dimmed(piece)
}

/// `ToString::to_string` on a piece of the `colored` crate. Where colours are
/// switched off, or the piece has neither colour nor weight, it writes the
/// text that the piece holds. Else it writes an escape code, the text and
/// the reset sequence, and between the two the text stands unchanged unless
/// it holds a reset sequence itself. Which of the two it is depends on the
/// environment and is not claimed.
#[verifier::external_body]
fn piece_text(piece: &colored::ColoredString) -> (out: String)
    ensures
        painted_piece(piece_input(*piece), out@),
{
    piece.to_string()
}

/// Adding a span at the end adds its characters at the end.
pub proof fn lemma_flattened_push(spans: Seq<SpanView>, last: SpanView)
    ensures
        flattened(spans.push(last)) == flattened(spans) + last.text,
{
    assert(spans.push(last).drop_last() =~= spans);
}

/// Flattening a text and then another gives the two flattened texts in a row.
pub proof fn lemma_flattened_concat(a: Seq<SpanView>, b: Seq<SpanView>)
    ensures
        flattened(a + b) == flattened(a) + flattened(b),
    decreases b.len(),
{
    if b.len() == 0 {
        assert(a + b =~= a);
        assert(flattened(a) + flattened(b) =~= flattened(a));
    } else {
        lemma_flattened_concat(a, b.drop_last());
        assert((a + b).drop_last() =~= a + b.drop_last());
        assert((a + b).last() == b.last());
        assert((flattened(a) + flattened(b.drop_last())) + b.last().text =~= flattened(a) + (
        flattened(b.drop_last()) + b.last().text));
    }
}

/// The characters of a text do not depend on the styles of its spans.
pub proof fn lemma_flattened_ignores_style(a: Seq<SpanView>, b: Seq<SpanView>)
    requires
        a.len() == b.len(),
        forall|i: int| 0 <= i < a.len() ==> (#[trigger] a[i]).text == b[i].text,
    ensures
        flattened(a) == flattened(b),
    decreases a.len(),
{
    if a.len() > 0 {
        lemma_flattened_ignores_style(a.drop_last(), b.drop_last());
        assert(a.last().text == a[a.len() - 1].text);
    }
}

/// A span that is handed to a terminal keeps all its characters unless it
/// holds a reset sequence: the piece is never shorter than the text.
pub proof fn lemma_painted_piece_holds_the_text(span: SpanView, out: Seq<char>)
    requires
        span_painted(span, out),
        !holds_reset(span.text),
    ensures
        out.len() >= span.text.len(),
{
    if span.style != plain() && out != span.text {
        let (code, inner) = choose|code: Seq<char>, inner: Seq<char>|
            #[trigger] wrapped(code, inner) == out && (!holds_reset(span.text) ==> inner
                == span.text);
        assert(out.len() == code.len() + inner.len() + RESET@.len());
    }
}

/// A text that is handed to a terminal keeps all characters of its spans
/// where none of them holds a reset sequence: it is never shorter than the
/// plain text.
pub proof fn lemma_painted_holds_the_text(spans: Seq<SpanView>, out: Seq<char>)
    requires
        painted(spans, out),
        forall|i: int| 0 <= i < spans.len() ==> !holds_reset(#[trigger] spans[i].text),
    ensures
        out.len() >= flattened(spans).len(),
    decreases spans.len(),
{
    if spans.len() > 0 {
        let (head, piece) = choose|head: Seq<char>, piece: Seq<char>|
            #[trigger] followed(head, piece) == out && painted(spans.drop_last(), head)
                && span_painted(spans.last(), piece);
        assert forall|i: int| 0 <= i < spans.drop_last().len() implies !holds_reset(
            #[trigger] spans.drop_last()[i].text,
        ) by {
            assert(spans.drop_last()[i] == spans[i]);
        }
        lemma_painted_holds_the_text(spans.drop_last(), head);
        assert(spans.last() == spans[spans.len() - 1]);
        lemma_painted_piece_holds_the_text(spans.last(), piece);
    }
}

/// A text for a terminal grows span by span: what was handed over for the
/// spans so far, then the piece of the next span.
pub proof fn lemma_painted_push(
    spans: Seq<SpanView>,
    head: Seq<char>,
    last: SpanView,
    piece: Seq<char>,
)
    requires
        painted(spans, head),
        span_painted(last, piece),
    ensures
        painted(spans.push(last), head + piece),
{
    let longer = spans.push(last);
    assert(longer.drop_last() =~= spans);
    assert(longer.last() == last);
    assert(painted(longer.drop_last(), head));
    assert(span_painted(longer.last(), piece));
    assert(followed(head, piece) == head + piece);
}

/// The plain text of a styled text is one of the texts that a terminal may be
/// handed for it: the one where colours are switched off.
pub proof fn lemma_plain_text_is_painted(spans: Seq<SpanView>)
    ensures
        painted(spans, flattened(spans)),
    decreases spans.len(),
{
    if spans.len() > 0 {
        lemma_plain_text_is_painted(spans.drop_last());
        assert(span_painted(spans.last(), spans.last().text));
        lemma_painted_push(spans.drop_last(), flattened(spans.drop_last()), spans.last(), spans.last().text);
        assert(spans.drop_last().push(spans.last()) =~= spans);
    }
}

} // verus!
