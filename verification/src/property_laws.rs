//! What each property holds, what it takes, and what setting it changes.

use vstd::prelude::*;

use crate::glyphs::Real;
use crate::property::{Property, PropertyValue};
use crate::toolbox::tools_of;
use crate::view::{is_metric, title, GlyphEditView, GlyphEditViewInner, Metrics, Step};

verus! {

/// What each property holds.
pub proof fn law_readings(view: GlyphEditViewInner, value: PropertyValue)
    ensures
        view.holds(Property::Closeable, value) <==> value == PropertyValue::Flag(true),
        view.holds(Property::IsMenuVisible, value) <==> value == PropertyValue::Flag(true),
        view.holds(Property::Preview, value) <==> value == PropertyValue::Flag(
            view.preview is Some,
        ),
        view.holds(Property::UnitsPerEm, value) <==> value
            == PropertyValue::Number(view.units_per_em),
        view.holds(Property::XHeight, value) <==> value == PropertyValue::Number(view.x_height),
        view.holds(Property::Ascender, value) <==> value == PropertyValue::Number(view.ascender),
        view.holds(Property::Descender, value) <==> value == PropertyValue::Number(view.descender),
        view.holds(Property::CapHeight, value) <==> value == PropertyValue::Number(view.cap_height),
        view.holds(Property::LockGuidelines, value) <==> value == PropertyValue::Flag(
            view.lock_guidelines,
        ),
        view.holds(Property::ShowGlyphGuidelines, value) <==> value == PropertyValue::Flag(
            view.show_glyph_guidelines,
        ),
        view.holds(Property::ShowProjectGuidelines, value) <==> value == PropertyValue::Flag(
            view.show_project_guidelines,
        ),
        view.holds(Property::ShowMetricsGuidelines, value) <==> value == PropertyValue::Flag(
            view.show_metrics_guidelines,
        ),
        view.holds(Property::Menubar, value) <==> value == PropertyValue::Menubar,
        view.holds(Property::Lock, value) <==> value == PropertyValue::Bits(view.lock.1),
        view.holds(Property::Snap, value) <==> value == PropertyValue::Bits(view.snap.1),
{
}

/// The title of a view names the glyph that is edited, in italics. Without a session it
/// names none.
pub proof fn law_title(view: GlyphEditViewInner, text: String)
    ensures
        view.glyph_state is None ==> (view.holds(Property::Title, PropertyValue::Text(text))
            <==> text@ == "edit glyph"@),
        view.glyph_state matches Some(state) ==> (view.holds(
            Property::Title,
            PropertyValue::Text(text),
        ) <==> text@ == "edit <i>"@ + state.glyph.name_markup@ + "</i>"@),
        title(None) == "edit glyph"@,
{
}

/// The tools that a view has are those that are set up under the types of the active
/// tool and of the panning tool.
pub proof fn law_tools(view: GlyphEditViewInner, value: PropertyValue)
    ensures
        view.glyph_state matches Some(state) ==> (view.holds(Property::ActiveTool, value) <==> (
        value matches PropertyValue::Tool(tool) && match tool {
            Some(number) => tools_of(state.tools).dom().contains(state.active_tool) && tools_of(
                state.tools,
            )[state.active_tool] == number,
            None => !tools_of(state.tools).dom().contains(state.active_tool),
        })),
        view.glyph_state matches Some(state) ==> (view.holds(Property::PanningTool, value) <==> (
        value matches PropertyValue::Tool(tool) && match tool {
            Some(number) => tools_of(state.tools).dom().contains(state.panning_tool) && tools_of(
                state.tools,
            )[state.panning_tool] == number,
            None => !tools_of(state.tools).dom().contains(state.panning_tool),
        })),
{
}

/// What each property takes: the metrics take numbers, the flags take flags, and the
/// constraints on movement take anything, though they heed only bits. The others
/// cannot be given a value.
pub proof fn law_what_properties_take(property: Property, value: PropertyValue)
    ensures
        property is UnitsPerEm || property is XHeight || property is Ascender
            || property is Descender || property is CapHeight ==> (GlyphEditViewInner::settable(
            property,
            value,
        ) <==> value is Number),
        property is LockGuidelines || property is ShowGlyphGuidelines
            || property is ShowProjectGuidelines || property is ShowMetricsGuidelines
            || property is Preview ==> (GlyphEditViewInner::settable(property, value)
            <==> value is Flag),
        property is Lock || property is Snap ==> GlyphEditViewInner::settable(property, value),
        property is Title || property is Closeable || property is IsMenuVisible
            || property is ActiveTool || property is PanningTool || property is Menubar
            ==> !GlyphEditViewInner::settable(property, value),
{
}

/// A metric that is set is set at once, and nothing else changes.
pub proof fn law_set_metrics(view: GlyphEditViewInner, number: Real)
    ensures
        view.setting(Property::UnitsPerEm, PropertyValue::Number(number)) == (
            GlyphEditViewInner { units_per_em: number, ..view },
            Step::Done { redraw: false },
        ),
        view.setting(Property::XHeight, PropertyValue::Number(number)) == (
            GlyphEditViewInner { x_height: number, ..view },
            Step::Done { redraw: false },
        ),
        view.setting(Property::Ascender, PropertyValue::Number(number)) == (
            GlyphEditViewInner { ascender: number, ..view },
            Step::Done { redraw: false },
        ),
        view.setting(Property::Descender, PropertyValue::Number(number)) == (
            GlyphEditViewInner { descender: number, ..view },
            Step::Done { redraw: false },
        ),
        view.setting(Property::CapHeight, PropertyValue::Number(number)) == (
            GlyphEditViewInner { cap_height: number, ..view },
            Step::Done { redraw: false },
        ),
{
}

/// A flag about guidelines that is set is set at once, and nothing else changes.
pub proof fn law_set_flags(view: GlyphEditViewInner, flag: bool)
    ensures
        view.setting(Property::LockGuidelines, PropertyValue::Flag(flag)) == (
            GlyphEditViewInner { lock_guidelines: flag, ..view },
            Step::Done { redraw: false },
        ),
        view.setting(Property::ShowGlyphGuidelines, PropertyValue::Flag(flag)) == (
            GlyphEditViewInner { show_glyph_guidelines: flag, ..view },
            Step::Done { redraw: false },
        ),
        view.setting(Property::ShowProjectGuidelines, PropertyValue::Flag(flag)) == (
            GlyphEditViewInner { show_project_guidelines: flag, ..view },
            Step::Done { redraw: false },
        ),
        view.setting(Property::ShowMetricsGuidelines, PropertyValue::Flag(flag)) == (
            GlyphEditViewInner { show_metrics_guidelines: flag, ..view },
            Step::Done { redraw: false },
        ),
{
}

/// The metrics of a view are its own, each under its own name, and which they are.
pub proof fn law_metrics(view: GlyphEditViewInner, property: Property)
    ensures
        view.metrics().ascender == view.ascender,
        view.metrics().cap_height == view.cap_height,
        view.metrics().descender == view.descender,
        view.metrics().units_per_em == view.units_per_em,
        view.metrics().x_height == view.x_height,
        is_metric(property) <==> property is Ascender || property is CapHeight
            || property is Descender || property is UnitsPerEm || property is XHeight,
{
}

/// To change one metric is to leave the others.
pub proof fn law_change_a_metric(metrics: Metrics, number: Real)
    ensures
        metrics.with(Property::UnitsPerEm, number) == (Metrics { units_per_em: number, ..metrics }),
        metrics.with(Property::XHeight, number) == (Metrics { x_height: number, ..metrics }),
        metrics.with(Property::Ascender, number) == (Metrics { ascender: number, ..metrics }),
        metrics.with(Property::Descender, number) == (Metrics { descender: number, ..metrics }),
        metrics.with(Property::CapHeight, number) == (Metrics { cap_height: number, ..metrics }),
{
}

/// The contents of a view are laid out by its em.
pub proof fn law_layout(view: GlyphEditView)
    requires
        view.wf(),
    ensures
        view.layout_units_per_em == view.inner.units_per_em,
        view.inner.holds(Property::UnitsPerEm, PropertyValue::Number(view.layout_units_per_em)),
{
}

/// What a view that is in order has: a message that is remembered is one that can be
/// taken back, one about flags only if any of them is set, and of the flags only such
/// that there are.
pub proof fn law_view_in_order(view: GlyphEditViewInner)
    requires
        view.wf(),
    ensures
        view.preview is Some || view.lock.0 is Some || view.snap.0 is Some ==> view.has_app
            && view.has_glyph && view.statusbar_context_id is Some,
        view.lock.0 is Some ==> view.lock.1 != 0,
        view.snap.0 is Some ==> view.snap.1 != 0,
        view.lock.1 & !view.lock_flags == 0,
        view.snap.1 & !view.snap_flags == 0,
{
}

} // verus!
