//! The render tree: a plain data description of what the bar displays,
//! produced by the registry's `view` and drawn by the host toolkit.
//! Interactive nodes carry the message the host must feed back when the
//! user acts on them.

use vstd::prelude::*;

use crate::config::ModuleWidgetGroupStyle;
use crate::events::AppMsg;
use crate::ids::WidgetId;
use crate::module::audio::AudioGlyph;
use crate::module::battery::BatteryGlyph;
use crate::module::ModuleKind;

verus! {

/// A screen region of the bar.
#[derive(Clone, Copy, Debug, PartialEq, Eq, Structural)]
pub enum Region {
    Left,
    Center,
    Right,
}

/// An icon drawn in a glyph span.
#[derive(Clone, Copy, Debug, PartialEq, Eq, Structural)]
pub enum Icon {
    Battery(BatteryGlyph),
    Audio(AudioGlyph),
}

/// An icon with the text drawn after it.
#[derive(Clone, Debug)]
pub struct GlyphSpan {
    pub icon: Icon,
    pub text: String,
}

/// What one widget renders.
#[derive(Clone, Debug)]
pub enum RenderNode {
    /// A clickable text button; pressing it makes the host deliver the
    /// message.
    Button { text: String, on_press: AppMsg },
    /// A row of icon-and-text spans.
    Glyphs(Vec<GlyphSpan>),
}

/// One widget's rendering, keyed by the widget's id.
#[derive(Clone, Debug)]
pub struct WidgetRender {
    pub kind: ModuleKind,
    pub id: WidgetId,
    pub node: RenderNode,
}

/// One rendered region group.
#[derive(Clone, Debug)]
pub struct RenderGroup {
    pub region: Region,
    pub style: ModuleWidgetGroupStyle,
    pub widgets: Vec<WidgetRender>,
}

/// The whole bar: the non-empty regions, in left, center, right order.
#[derive(Clone, Debug)]
pub struct RenderTree {
    pub groups: Vec<RenderGroup>,
}

/// Mathematical value of a [`GlyphSpan`].
#[verifier::ext_equal]
pub struct GlyphSpanV {
    pub icon: Icon,
    pub text: Seq<char>,
}

/// Mathematical value of a [`RenderNode`].
#[verifier::ext_equal]
pub enum RenderNodeV {
    Button { text: Seq<char>, on_press: AppMsg },
    Glyphs(Seq<GlyphSpanV>),
}

/// Mathematical value of a [`WidgetRender`].
#[verifier::ext_equal]
pub struct WidgetRenderV {
    pub kind: ModuleKind,
    pub id: WidgetId,
    pub node: RenderNodeV,
}

/// Mathematical value of a [`RenderGroup`].
#[verifier::ext_equal]
pub struct RenderGroupV {
    pub region: Region,
    pub style: ModuleWidgetGroupStyle,
    pub widgets: Seq<WidgetRenderV>,
}

/// Mathematical value of a [`RenderTree`].
#[verifier::ext_equal]
pub struct RenderTreeV {
    pub groups: Seq<RenderGroupV>,
}

/// The views of a sequence of glyph spans.
pub open spec fn span_views(spans: Seq<GlyphSpan>) -> Seq<GlyphSpanV> {
    spans.map_values(|s: GlyphSpan| s@)
}

/// The views of a sequence of widget renderings.
pub open spec fn widget_render_views(ws: Seq<WidgetRender>) -> Seq<WidgetRenderV> {
    ws.map_values(|w: WidgetRender| w@)
}

/// The views of a sequence of render groups.
pub open spec fn render_group_views(gs: Seq<RenderGroup>) -> Seq<RenderGroupV> {
    gs.map_values(|g: RenderGroup| g@)
}

impl View for GlyphSpan {
    type V = GlyphSpanV;

    open spec fn view(&self) -> GlyphSpanV {
        GlyphSpanV { icon: self.icon, text: self.text@ }
    }
}

impl View for RenderNode {
    type V = RenderNodeV;

    open spec fn view(&self) -> RenderNodeV {
        match self {
            RenderNode::Button { text, on_press } => RenderNodeV::Button {
                text: text@,
                on_press: *on_press,
            },
            RenderNode::Glyphs(spans) => RenderNodeV::Glyphs(span_views(spans@)),
        }
    }
}

impl View for WidgetRender {
    type V = WidgetRenderV;

    open spec fn view(&self) -> WidgetRenderV {
        WidgetRenderV { kind: self.kind, id: self.id, node: self.node@ }
    }
}

impl View for RenderGroup {
    type V = RenderGroupV;

    open spec fn view(&self) -> RenderGroupV {
        RenderGroupV {
            region: self.region,
            style: self.style,
            widgets: widget_render_views(self.widgets@),
        }
    }
}

impl View for RenderTree {
    type V = RenderTreeV;

    open spec fn view(&self) -> RenderTreeV {
        RenderTreeV { groups: render_group_views(self.groups@) }
    }
}

} // verus!
