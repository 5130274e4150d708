//! Rendering of decoded rich-text event streams as markup.
//!
//! The external decoder turns an encoded string blob into a sequence of
//! events: plain text runs, style toggles, and color push/pop events. The
//! writer here folds that sequence into a single markup string: bold and
//! italic toggles become `<b>`/`</b>` and `<i>`/`</i>` tags, a foreground
//! color push becomes an opening `<b>` tag, and a color pop whose usage is
//! not foreground becomes a closing `</b>` tag; everything else is a no-op.
//! Color hue is discarded: only "some foreground color is active" is kept,
//! as emphasis. A style close with no matching open emits nothing, so a
//! stream of unmatched disables leaves the buffer untouched.

use vstd::prelude::*;

verus! {

/// The style addressed by a style toggle event. Styles other than bold
/// and italic are ignored.
#[derive(Debug, Clone, Copy, PartialEq, Eq, Structural)]
pub enum StyleKind {
    Bold,
    Italic,
    Other,
}

/// What a pushed or popped color is used for. Only the foreground usage
/// is rendered; everything else is grouped as `Other`.
#[derive(Debug, Clone, Copy, PartialEq, Eq, Structural)]
pub enum ColorUsage {
    Foreground,
    Other,
}

/// One decoded rich-text event.
#[derive(Debug, Clone, PartialEq, Eq)]
pub enum TextEvent {
    Text(String),
    Style(StyleKind, bool),
    ColorPush(ColorUsage),
    ColorPop(ColorUsage),
}

/// Ghost state of the writer: the accumulated output and, per counted
/// style, how many opens are outstanding.
pub struct FmtState {
    pub buffer: Seq<char>,
    pub bold: nat,
    pub italic: nat,
}

/// The state of a fresh writer: empty output, no open styles.
pub open spec fn fmt_init() -> FmtState {
    FmtState { buffer: Seq::empty(), bold: 0, italic: 0 }
}

/// A text run is appended verbatim.
pub open spec fn fmt_text(st: FmtState, text: Seq<char>) -> FmtState {
    FmtState { buffer: st.buffer + text, ..st }
}

/// A style toggle: enabling appends the opening tag and counts the open;
/// disabling appends the closing tag only while an open is outstanding.
/// Styles other than bold and italic are no-ops. The open counters
/// saturate instead of wrapping.
pub open spec fn fmt_style(st: FmtState, style: StyleKind, enabled: bool) -> FmtState {
    match style {
        StyleKind::Bold => if enabled {
            FmtState {
                buffer: st.buffer + "<b>"@,
                bold: if st.bold < usize::MAX as nat { st.bold + 1 } else { st.bold },
                ..st
            }
        } else if st.bold > 0 {
            FmtState { buffer: st.buffer + "</b>"@, bold: (st.bold - 1) as nat, ..st }
        } else {
            st
        },
        StyleKind::Italic => if enabled {
            FmtState {
                buffer: st.buffer + "<i>"@,
                italic: if st.italic < usize::MAX as nat { st.italic + 1 } else { st.italic },
                ..st
            }
        } else if st.italic > 0 {
            FmtState { buffer: st.buffer + "</i>"@, italic: (st.italic - 1) as nat, ..st }
        } else {
            st
        },
        StyleKind::Other => st,
    }
}

/// A color push whose usage is the foreground appends an opening
/// bold-equivalent tag; any other push is a no-op.
pub open spec fn fmt_push_color(st: FmtState, usage: ColorUsage) -> FmtState {
    match usage {
        ColorUsage::Foreground => FmtState { buffer: st.buffer + "<b>"@, ..st },
        ColorUsage::Other => st,
    }
}

/// A color pop whose usage is not the foreground appends the closing
/// bold-equivalent tag; a foreground pop is a no-op.
pub open spec fn fmt_pop_color(st: FmtState, usage: ColorUsage) -> FmtState {
    match usage {
        ColorUsage::Foreground => st,
        ColorUsage::Other => FmtState { buffer: st.buffer + "</b>"@, ..st },
    }
}

/// The effect of one event on the writer state.
pub open spec fn fmt_step(st: FmtState, event: TextEvent) -> FmtState {
    match event {
        TextEvent::Text(text) => fmt_text(st, text@),
        TextEvent::Style(style, enabled) => fmt_style(st, style, enabled),
        TextEvent::ColorPush(usage) => fmt_push_color(st, usage),
        TextEvent::ColorPop(usage) => fmt_pop_color(st, usage),
    }
}

/// The state after folding a whole event sequence over a fresh writer.
pub open spec fn fmt_run(events: Seq<TextEvent>) -> FmtState
    decreases events.len(),
{
    if events.len() == 0 {
        fmt_init()
    } else {
        fmt_step(fmt_run(events.drop_last()), events.last())
    }
}

/// The markup writer: an output buffer plus one open-tag counter per
/// counted style.
#[derive(Debug)]
pub struct TagWriter {
    pub buffer: String,
    pub bold_open: usize,
    pub italic_open: usize,
}

impl View for TagWriter {
    type V = FmtState;

    open spec fn view(&self) -> FmtState {
        FmtState {
            buffer: self.buffer@,
            bold: self.bold_open as nat,
            italic: self.italic_open as nat,
        }
    }
}

impl TagWriter {
    /// A fresh writer with an empty buffer.
    pub fn new() -> (r: Self)
        ensures
            r@ == fmt_init(),
    {
        let r = TagWriter { buffer: String::new(), bold_open: 0, italic_open: 0 };
        proof {
            assert(r@.buffer =~= fmt_init().buffer);
        }
        r
    }

    /// Appends a plain text run verbatim.
    pub fn write_str(&mut self, text: &str)
        ensures
            final(self)@ == fmt_text(old(self)@, text@),
    {
        self.buffer.append(text);
    }

    /// Applies a style toggle: an opening tag on enable, a closing tag on
    /// disable while that style has an outstanding open, nothing else.
    pub fn set_style(&mut self, style: StyleKind, enabled: bool)
        ensures
            final(self)@ == fmt_style(old(self)@, style, enabled),
    {
        match style {
            StyleKind::Bold => {
                if enabled {
                    self.buffer.append("<b>");
                    if self.bold_open < usize::MAX {
                        self.bold_open = self.bold_open + 1;
                    }
                } else if self.bold_open > 0 {
                    self.buffer.append("</b>");
                    self.bold_open = self.bold_open - 1;
                }
            },
            StyleKind::Italic => {
                if enabled {
                    self.buffer.append("<i>");
                    if self.italic_open < usize::MAX {
                        self.italic_open = self.italic_open + 1;
                    }
                } else if self.italic_open > 0 {
                    self.buffer.append("</i>");
                    self.italic_open = self.italic_open - 1;
                }
            },
            StyleKind::Other => {},
        }
    }

    /// Applies a color push: an opening bold-equivalent tag when the usage
    /// is the foreground.
    pub fn push_color(&mut self, usage: ColorUsage)
        ensures
            final(self)@ == fmt_push_color(old(self)@, usage),
    {
        match usage {
            ColorUsage::Foreground => self.buffer.append("<b>"),
            ColorUsage::Other => {},
        }
    }

    /// Applies a color pop: a closing bold-equivalent tag when the usage
    /// is not the foreground.
    pub fn pop_color(&mut self, usage: ColorUsage)
        ensures
            final(self)@ == fmt_pop_color(old(self)@, usage),
    {
        match usage {
            ColorUsage::Foreground => {},
            ColorUsage::Other => self.buffer.append("</b>"),
        }
    }
}

/// Renders a decoded event sequence as a markup string.
pub fn format_string(events: &Vec<TextEvent>) -> (r: String)
    ensures
        r@ == fmt_run(events@).buffer,
{
    let mut writer = TagWriter::new();
    let mut i: usize = 0;
    while i < events.len()
        invariant
            i <= events@.len(),
            writer@ == fmt_run(events@.take(i as int)),
        decreases events@.len() - i,
    {
        match &events[i] {
            TextEvent::Text(text) => writer.write_str(text.as_str()),
            TextEvent::Style(style, enabled) => writer.set_style(*style, *enabled),
            TextEvent::ColorPush(usage) => writer.push_color(*usage),
            TextEvent::ColorPop(usage) => writer.pop_color(*usage),
        }
        proof {
            assert(events@.take(i + 1).drop_last() =~= events@.take(i as int));
            assert(events@.take(i + 1).last() == events@[i as int]);
        }
        i = i + 1;
    }
    proof {
        assert(events@.take(i as int) =~= events@);
    }
    writer.buffer
}

/// A style disable for a style with no outstanding open changes nothing:
/// in particular it appends no output.
pub proof fn lemma_unmatched_disable_no_output(st: FmtState, style: StyleKind)
    requires
        style == StyleKind::Bold ==> st.bold == 0,
        style == StyleKind::Italic ==> st.italic == 0,
    ensures
        fmt_style(st, style, false) == st,
{
}

/// One event never shortens the buffer: the prior output is always a
/// prefix of the new output.
pub proof fn lemma_step_extends_buffer(st: FmtState, event: TextEvent)
    ensures
        fmt_step(st, event).buffer.len() >= st.buffer.len(),
        fmt_step(st, event).buffer.take(st.buffer.len() as int) == st.buffer,
{
    let post = fmt_step(st, event);
    assert(post.buffer.take(st.buffer.len() as int) =~= st.buffer);
}

} // verus!
