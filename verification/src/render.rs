//! The frame renderer: a pure function from the UI state and the available
//! drawing area to an ordered list of draw commands. The hosting surface
//! turns the commands into pixels; this module only decides what is drawn
//! where and in which style.

use vstd::prelude::*;
use vstd::string::StringExecFns;

use crate::layout::{
    hsplit_percent, inset, psum, spec_hsplit_band, spec_inset, spec_vsplit_bands, vsplit_bands,
    Rect,
};
use crate::state::{labels_view, App, UiModel};

verus! {

/// A foreground or background tone: the host's default, plain white, or an
/// explicit RGB value.
#[derive(Clone, Copy, Debug, PartialEq, Eq, Structural)]
pub enum Color {
    Default,
    White,
    Rgb(u8, u8, u8),
}

/// How a run of text is drawn.
#[derive(Clone, Copy, Debug, PartialEq, Eq, Structural)]
pub struct Style {
    pub fg: Color,
    pub bold: bool,
}

/// A run of text with one style.
#[derive(Debug, PartialEq)]
pub struct Span {
    pub text: String,
    pub style: Style,
}

/// Model of a span: its text as a character sequence.
pub struct SpanModel {
    pub text: Seq<char>,
    pub style: Style,
}

impl View for Span {
    type V = SpanModel;

    open spec fn view(&self) -> SpanModel {
        SpanModel { text: self.text@, style: self.style }
    }
}

/// The spans of a line, as span models.
pub open spec fn spans_view(v: Seq<Span>) -> Seq<SpanModel> {
    v.map_values(|sp: Span| sp@)
}

/// One instruction to the drawing surface.
#[derive(Debug, PartialEq)]
pub enum DrawCmd {
    /// A background fill with an enclosing border: the base canvas.
    Canvas { area: Rect, bg: Color },
    /// A plain region claim; when `bordered`, a frame is drawn around it.
    Panel { area: Rect, bordered: bool },
    /// The tab strip: the labels joined by the divider, the selected one
    /// drawn in the highlight style, all others in the base style.
    TabStrip {
        area: Rect,
        labels: Vec<String>,
        divider: String,
        base: Style,
        highlight: Style,
        selected: usize,
    },
    /// A single line of styled text spans, optionally centered.
    Text { area: Rect, spans: Vec<Span>, centered: bool },
}

/// Model of a draw command, with text as character sequences.
pub enum CmdModel {
    Canvas { area: Rect, bg: Color },
    Panel { area: Rect, bordered: bool },
    TabStrip {
        area: Rect,
        labels: Seq<Seq<char>>,
        divider: Seq<char>,
        base: Style,
        highlight: Style,
        selected: int,
    },
    Text { area: Rect, spans: Seq<SpanModel>, centered: bool },
}

impl View for DrawCmd {
    type V = CmdModel;

    open spec fn view(&self) -> CmdModel {
        match self {
            DrawCmd::Canvas { area, bg } => CmdModel::Canvas { area: *area, bg: *bg },
            DrawCmd::Panel { area, bordered } => CmdModel::Panel {
                area: *area,
                bordered: *bordered,
            },
            DrawCmd::TabStrip { area, labels, divider, base, highlight, selected } => {
                CmdModel::TabStrip {
                    area: *area,
                    labels: labels_view(labels@),
                    divider: divider@,
                    base: *base,
                    highlight: *highlight,
                    selected: *selected as int,
                }
            },
            DrawCmd::Text { area, spans, centered } => CmdModel::Text {
                area: *area,
                spans: spans_view(spans@),
                centered: *centered,
            },
        }
    }
}

/// The commands of a frame, as command models.
pub open spec fn cmds_view(v: Seq<DrawCmd>) -> Seq<CmdModel> {
    v.map_values(|c: DrawCmd| c@)
}

/// The canvas background tone.
pub open spec fn canvas_bg() -> Color {
    Color::Rgb(7, 54, 66)
}

/// The style of unselected tab labels.
pub open spec fn base_tab_style() -> Style {
    Style { fg: Color::White, bold: false }
}

/// The accent style of the selected tab label.
pub open spec fn highlight_tab_style() -> Style {
    Style { fg: Color::Rgb(181, 137, 0), bold: true }
}

/// The style of the plain footer text segments.
pub open spec fn plain_style() -> Style {
    Style { fg: Color::Default, bold: false }
}

/// The style of the emphasized footer phrases: bold, in the same accent
/// color as the selected-tab highlight.
pub open spec fn emph_style() -> Style {
    Style { fg: Color::Rgb(181, 137, 0), bold: true }
}

/// The footer instruction line: plain segments interleaved with emphasized
/// key names.
pub open spec fn instruction_spans() -> Seq<SpanModel> {
    seq![
        SpanModel { text: "Use "@, style: plain_style() },
        SpanModel { text: "left and right "@, style: emph_style() },
        SpanModel { text: "to switch tabs, "@, style: plain_style() },
        SpanModel { text: "up and down "@, style: emph_style() },
        SpanModel { text: "to scroll, "@, style: plain_style() },
        SpanModel { text: "enter "@, style: emph_style() },
        SpanModel { text: "to select, and "@, style: plain_style() },
        SpanModel { text: "esc "@, style: emph_style() },
        SpanModel { text: "to go back."@, style: plain_style() },
    ]
}

/// The draw commands of one frame, in paint order: the full-area canvas;
/// the header box (the right 95% of the header band) with the tab strip
/// inside it; the body placeholder; the bordered footer box (the middle
/// 60% of the footer band) with the centered instruction line inside it.
pub open spec fn spec_render(s: UiModel, area: Rect) -> Seq<CmdModel> {
    let bands = spec_vsplit_bands(area, 3, 3);
    let header_box = spec_hsplit_band(bands.0, seq![5u16, 95u16], 1);
    let footer_box = spec_hsplit_band(bands.2, seq![20u16, 60u16, 20u16], 1);
    seq![
        CmdModel::Canvas { area, bg: canvas_bg() },
        CmdModel::Panel { area: header_box, bordered: false },
        CmdModel::TabStrip {
            area: header_box,
            labels: s.tabs,
            divider: " | "@,
            base: base_tab_style(),
            highlight: highlight_tab_style(),
            selected: s.current_tab,
        },
        CmdModel::Panel { area: bands.1, bordered: false },
        CmdModel::Panel { area: footer_box, bordered: true },
        CmdModel::Text {
            area: spec_inset(footer_box, 1),
            spans: instruction_spans(),
            centered: true,
        },
    ]
}

/// Build the footer instruction line.
fn instruction_line() -> (spans: Vec<Span>)
    ensures
        spans_view(spans@) == instruction_spans(),
{
    let plain = Style { fg: Color::Default, bold: false };
    let emph = Style { fg: Color::Rgb(181, 137, 0), bold: true };
    let mut spans: Vec<Span> = Vec::new();
    spans.push(Span { text: String::from_str("Use "), style: plain });
    spans.push(Span { text: String::from_str("left and right "), style: emph });
    spans.push(Span { text: String::from_str("to switch tabs, "), style: plain });
    spans.push(Span { text: String::from_str("up and down "), style: emph });
    spans.push(Span { text: String::from_str("to scroll, "), style: plain });
    spans.push(Span { text: String::from_str("enter "), style: emph });
    spans.push(Span { text: String::from_str("to select, and "), style: plain });
    spans.push(Span { text: String::from_str("esc "), style: emph });
    spans.push(Span { text: String::from_str("to go back."), style: plain });
    proof {
        assert(spans_view(spans@) =~= instruction_spans());
    }
    spans
}

/// Copy the tab labels out of the state.
fn clone_labels(tabs: &Vec<String>) -> (labels: Vec<String>)
    ensures
        labels_view(labels@) == labels_view(tabs@),
{
    let mut labels: Vec<String> = Vec::new();
    let mut i: usize = 0;
    while i < tabs.len()
        invariant
            i <= tabs@.len(),
            labels@.len() == i,
            forall|j: int| 0 <= j < i ==> labels@[j]@ == tabs@[j]@,
        decreases tabs@.len() - i,
    {
        labels.push(tabs[i].clone());
        i = i + 1;
    }
    proof {
        assert(labels_view(labels@) =~= labels_view(tabs@));
    }
    labels
}

/// Compute the draw commands of one frame. Pure in its inputs: the result
/// is exactly `spec_render` of the state's model and the area, whatever
/// the area's size — undersized areas only shrink or empty the bands.
pub fn render(app: &App, area: Rect) -> (cmds: Vec<DrawCmd>)
    requires
        area.wf(),
    ensures
        cmds_view(cmds@) == spec_render(app@, area),
{
    let (header, body, footer) = vsplit_bands(area, 3, 3);

    let mut header_percents: Vec<u16> = Vec::new();
    header_percents.push(5);
    header_percents.push(95);
    proof {
        assert(header_percents@ =~= seq![5u16, 95u16]);
        assert(psum(header_percents@, 0) == 0);
        assert(psum(header_percents@, 1) == 5);
        assert(psum(header_percents@, 2) == 100);
    }
    let header_cols = hsplit_percent(header, &header_percents);
    let header_box = header_cols[1];

    let mut footer_percents: Vec<u16> = Vec::new();
    footer_percents.push(20);
    footer_percents.push(60);
    footer_percents.push(20);
    proof {
        assert(footer_percents@ =~= seq![20u16, 60u16, 20u16]);
        assert(psum(footer_percents@, 0) == 0);
        assert(psum(footer_percents@, 1) == 20);
        assert(psum(footer_percents@, 2) == 80);
        assert(psum(footer_percents@, 3) == 100);
    }
    let footer_cols = hsplit_percent(footer, &footer_percents);
    let footer_box = footer_cols[1];
    let footer_inner = inset(footer_box, 1);

    let mut cmds: Vec<DrawCmd> = Vec::new();
    cmds.push(DrawCmd::Canvas { area, bg: Color::Rgb(7, 54, 66) });
    cmds.push(DrawCmd::Panel { area: header_box, bordered: false });
    cmds.push(DrawCmd::TabStrip {
        area: header_box,
        labels: clone_labels(&app.tabs),
        divider: String::from_str(" | "),
        base: Style { fg: Color::White, bold: false },
        highlight: Style { fg: Color::Rgb(181, 137, 0), bold: true },
        selected: app.current_tab,
    });
    cmds.push(DrawCmd::Panel { area: body, bordered: false });
    cmds.push(DrawCmd::Panel { area: footer_box, bordered: true });
    cmds.push(DrawCmd::Text { area: footer_inner, spans: instruction_line(), centered: true });
    proof {
        assert(cmds_view(cmds@) =~= spec_render(app@, area));
    }
    cmds
}

/// Rendering is deterministic: two command lists computed from the same
/// state model and the same area are identical.
pub proof fn lemma_render_deterministic(c1: Seq<CmdModel>, c2: Seq<CmdModel>, s: UiModel, area: Rect)
    requires
        c1 == spec_render(s, area),
        c2 == spec_render(s, area),
    ensures
        c1 == c2,
{
}

} // verus!
