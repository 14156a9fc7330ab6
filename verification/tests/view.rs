use std::collections::BTreeSet;

use glyph_edit::events::{
    key_pressed, key_released, pointer_handled, EnabledActions, KeyEffect, PointerEvent, ViewAction,
};
use glyph_edit::glyphs::{Glyph, Real};
use glyph_edit::guidelines::Guidelines;
use glyph_edit::property::{
    properties, Bound, Property, PropertyKind, PropertySpec, PropertyValue,
};
use glyph_edit::view::{
    layers, project_properties, GlyphEditView, GlyphEditViewInner, LayerContent, LayerPlace,
    LayerSpec, Metrics, Pending, Removal, StatusText, Step,
};

const LOCK_FLAGS: u32 = 0b1111;
const SNAP_FLAGS: u32 = 0b0111;
const ACTIVE: usize = 31;
const PANNING: usize = 77;
const REFERENCE: u64 = 5;

fn num(value: f64) -> Real {
    Real { bits: value.to_bits() }
}

fn glyph(width: Option<f64>) -> Glyph {
    Glyph {
        name_markup: "A &amp; B".to_string(),
        width: width.map(num),
        contours: vec![],
        guidelines: Guidelines::new(vec![]),
    }
}

fn project() -> Metrics {
    Metrics {
        ascender: num(750.0),
        cap_height: num(710.0),
        descender: num(-250.0),
        units_per_em: num(1024.0),
        x_height: num(505.0),
    }
}

fn open_view() -> GlyphEditViewInner {
    GlyphEditView::new(glyph(None), REFERENCE, project(), PANNING, LOCK_FLAGS, SNAP_FLAGS).inner
}

fn flag(value: PropertyValue) -> bool {
    match value {
        PropertyValue::Flag(flag) => flag,
        _ => panic!("not a flag"),
    }
}

fn number(value: PropertyValue) -> Real {
    match value {
        PropertyValue::Number(number) => number,
        _ => panic!("not a number"),
    }
}

fn bits(value: PropertyValue) -> u32 {
    match value {
        PropertyValue::Bits(bits) => bits,
        _ => panic!("not bits"),
    }
}

fn text(value: PropertyValue) -> String {
    match value {
        PropertyValue::Text(text) => text,
        _ => panic!("not a text"),
    }
}

fn tool(value: PropertyValue) -> Option<u64> {
    match value {
        PropertyValue::Tool(tool) => tool,
        _ => panic!("not a tool"),
    }
}

#[test]
fn a_new_view() {
    let view = GlyphEditView::new(glyph(Some(512.0)), REFERENCE, project(), PANNING, LOCK_FLAGS, SNAP_FLAGS);
    assert_eq!(view.content_width, num(512.0));
    let inner = view.inner;
    assert!(inner.has_app && inner.has_glyph);
    assert_eq!(inner.pending, Pending::Nothing);
    assert_eq!(inner.glyph_state.as_ref().map(|state| state.reference), Some(REFERENCE));
    assert_eq!(text(inner.property(Property::Title)), "edit <i>A &amp; B</i>");
    assert!(flag(inner.property(Property::Closeable)));
    assert!(flag(inner.property(Property::IsMenuVisible)));
    assert!(!flag(inner.property(Property::Preview)));
    assert!(flag(inner.property(Property::LockGuidelines)));
    assert!(flag(inner.property(Property::ShowGlyphGuidelines)));
    assert!(flag(inner.property(Property::ShowProjectGuidelines)));
    assert!(flag(inner.property(Property::ShowMetricsGuidelines)));
    assert_eq!(number(inner.property(Property::Ascender)), num(750.0));
    assert_eq!(number(inner.property(Property::CapHeight)), num(710.0));
    assert_eq!(number(inner.property(Property::Descender)), num(-250.0));
    assert_eq!(number(inner.property(Property::UnitsPerEm)), num(1024.0));
    assert_eq!(number(inner.property(Property::XHeight)), num(505.0));
    assert_eq!(inner.hovering, None);
    assert_eq!(bits(inner.property(Property::Lock)), 0);
    assert_eq!(bits(inner.property(Property::Snap)), 0);
    assert_eq!(tool(inner.property(Property::ActiveTool)), None);
    assert!(matches!(inner.property(Property::Menubar), PropertyValue::Menubar));
}

#[test]
fn contents_without_a_width() {
    let view = GlyphEditView::new(glyph(None), REFERENCE, project(), PANNING, LOCK_FLAGS, SNAP_FLAGS);
    assert_eq!(view.content_width, num(0.0));
}

#[test]
fn metrics_follow_the_project() {
    let mut inner = GlyphEditViewInner::new(LOCK_FLAGS, SNAP_FLAGS);
    assert_eq!(number(inner.property(Property::Ascender)), num(0.0));
    inner.follow_project(project());
    assert_eq!(number(inner.property(Property::Ascender)), num(750.0));
    assert_eq!(number(inner.property(Property::XHeight)), num(505.0));
    assert!(!flag(inner.property(Property::LockGuidelines)));
    assert_eq!(
        inner.set_property(Property::Descender, PropertyValue::Number(num(-300.0))),
        Step::Done { redraw: false }
    );
    assert_eq!(number(inner.property(Property::Descender)), num(-300.0));
    assert_eq!(number(inner.property(Property::CapHeight)), num(710.0));
    assert_eq!(project().descender, num(-250.0));
}

#[test]
fn the_layout_follows_the_em() {
    let mut view =
        GlyphEditView::new(glyph(Some(512.0)), REFERENCE, project(), PANNING, LOCK_FLAGS, SNAP_FLAGS);
    assert_eq!(view.layout_units_per_em, num(1024.0));
    view.set_property(Property::UnitsPerEm, PropertyValue::Number(num(2048.0)));
    assert_eq!(view.layout_units_per_em, num(2048.0));
    assert_eq!(number(view.inner.property(Property::UnitsPerEm)), num(2048.0));
    view.set_property(Property::XHeight, PropertyValue::Number(num(1.0)));
    assert_eq!(view.layout_units_per_em, num(2048.0));
    assert_eq!(view.content_width, num(512.0));
    assert_eq!(
        view.set_property(Property::Preview, PropertyValue::Flag(true)),
        Step::OpenContext
    );
}

#[test]
fn a_view_without_a_glyph() {
    let mut inner = GlyphEditViewInner::new(LOCK_FLAGS, SNAP_FLAGS);
    assert_eq!(text(inner.property(Property::Title)), "edit glyph");
    assert!(!flag(inner.property(Property::LockGuidelines)));
    assert!(!flag(inner.property(Property::ShowGlyphGuidelines)));
    inner.constructed();
    assert!(flag(inner.property(Property::LockGuidelines)));
    assert!(flag(inner.property(Property::ShowMetricsGuidelines)));
    assert_eq!(inner.statusbar_context_id, None);
    assert!(!inner.has_app);
}

#[test]
fn tools_are_found_by_type() {
    let mut inner = open_view();
    let state = inner.glyph_state.as_mut().unwrap();
    state.tools.insert(ACTIVE, 5);
    state.tools.insert(PANNING, 6);
    assert_eq!(tool(inner.property(Property::ActiveTool)), None);
    assert_eq!(tool(inner.property(Property::PanningTool)), Some(6));
    inner.glyph_state.as_mut().unwrap().active_tool = ACTIVE;
    assert_eq!(tool(inner.property(Property::ActiveTool)), Some(5));
}

#[test]
fn plain_properties_read_back() {
    let mut inner = open_view();
    for property in [
        Property::UnitsPerEm,
        Property::XHeight,
        Property::Ascender,
        Property::Descender,
        Property::CapHeight,
    ] {
        let step = inner.set_property(property, PropertyValue::Number(num(-12.5)));
        assert_eq!(step, Step::Done { redraw: false });
        assert_eq!(number(inner.property(property)), num(-12.5));
    }
    for property in [
        Property::LockGuidelines,
        Property::ShowGlyphGuidelines,
        Property::ShowProjectGuidelines,
        Property::ShowMetricsGuidelines,
    ] {
        let step = inner.set_property(property, PropertyValue::Flag(false));
        assert_eq!(step, Step::Done { redraw: false });
        assert!(!flag(inner.property(property)));
        inner.set_property(property, PropertyValue::Flag(true));
        assert!(flag(inner.property(property)));
    }
}

#[test]
fn metrics_do_not_mix() {
    let mut inner = open_view();
    inner.set_property(Property::Ascender, PropertyValue::Number(num(700.0)));
    inner.set_property(Property::Descender, PropertyValue::Number(num(-200.0)));
    assert_eq!(number(inner.property(Property::Ascender)), num(700.0));
    assert_eq!(number(inner.property(Property::Descender)), num(-200.0));
    assert_eq!(number(inner.property(Property::XHeight)), num(505.0));
}

#[test]
fn a_preview_begins_and_ends() {
    let mut inner = open_view();
    assert_eq!(
        inner.set_property(Property::Preview, PropertyValue::Flag(false)),
        Step::Done { redraw: false }
    );
    assert_eq!(
        inner.set_property(Property::Preview, PropertyValue::Flag(true)),
        Step::OpenContext
    );
    assert!(!flag(inner.property(Property::Preview)));
    assert_eq!(
        inner.context_opened(3),
        Step::Push { context: 3, text: StatusText::Preview }
    );
    assert_eq!(inner.message_pushed(40), Step::Done { redraw: true });
    assert!(flag(inner.property(Property::Preview)));
    assert_eq!(
        inner.set_property(Property::Preview, PropertyValue::Flag(true)),
        Step::Done { redraw: false }
    );
    assert_eq!(
        inner.set_property(Property::Preview, PropertyValue::Flag(false)),
        Step::Remove { context: 3, message: 40 }
    );
    assert_eq!(inner.removed(), Step::Done { redraw: true });
    assert!(!flag(inner.property(Property::Preview)));
    assert_eq!(inner.statusbar_context_id, Some(3));
    assert_eq!(
        inner.set_property(Property::Preview, PropertyValue::Flag(true)),
        Step::Push { context: 3, text: StatusText::Preview }
    );
}

#[test]
fn there_is_no_preview_without_an_application() {
    let mut inner = GlyphEditViewInner::new(LOCK_FLAGS, SNAP_FLAGS);
    inner.constructed();
    assert_eq!(
        inner.set_property(Property::Preview, PropertyValue::Flag(true)),
        Step::Done { redraw: true }
    );
    assert!(!flag(inner.property(Property::Preview)));
    assert_eq!(
        inner.set_property(Property::Lock, PropertyValue::Bits(1)),
        Step::Done { redraw: true }
    );
    assert_eq!(inner.lock, (None, 1));
}

#[test]
fn flags_lock_movement() {
    let mut inner = open_view();
    assert_eq!(
        inner.set_property(Property::Lock, PropertyValue::Bits(0b10000)),
        Step::Done { redraw: false }
    );
    assert_eq!(
        inner.set_property(Property::Lock, PropertyValue::Flag(true)),
        Step::Done { redraw: false }
    );
    assert_eq!(inner.lock, (None, 0));

    assert_eq!(inner.set_property(Property::Lock, PropertyValue::Bits(1)), Step::OpenContext);
    assert_eq!(
        inner.context_opened(9),
        Step::Push { context: 9, text: StatusText::Lock(1) }
    );
    assert_eq!(inner.message_pushed(100), Step::Done { redraw: true });
    assert_eq!(inner.lock, (Some(100), 1));
    assert_eq!(bits(inner.property(Property::Lock)), 1);

    assert_eq!(
        inner.set_property(Property::Lock, PropertyValue::Bits(2)),
        Step::Remove { context: 9, message: 100 }
    );
    assert_eq!(
        inner.removed(),
        Step::Push { context: 9, text: StatusText::Lock(2) }
    );
    assert_eq!(inner.message_pushed(101), Step::Done { redraw: true });
    assert_eq!(inner.lock, (Some(101), 2));

    assert_eq!(
        inner.set_property(Property::Lock, PropertyValue::Bits(0)),
        Step::Remove { context: 9, message: 101 }
    );
    assert_eq!(inner.removed(), Step::Done { redraw: true });
    assert_eq!(inner.lock, (None, 0));
    assert_eq!(
        inner.set_property(Property::Lock, PropertyValue::Bits(0)),
        Step::Done { redraw: true }
    );
}

#[test]
fn movement_snaps_by_flags() {
    let mut inner = open_view();
    assert_eq!(
        inner.set_property(Property::Snap, PropertyValue::Bits(0b1000)),
        Step::Done { redraw: false }
    );
    assert_eq!(inner.set_property(Property::Snap, PropertyValue::Bits(0b101)), Step::OpenContext);
    assert_eq!(
        inner.context_opened(9),
        Step::Push { context: 9, text: StatusText::Snap(0b101) }
    );
    inner.message_pushed(7);
    assert_eq!(inner.snap, (Some(7), 0b101));
    assert_eq!(bits(inner.property(Property::Snap)), 0b101);
    assert_eq!(bits(inner.property(Property::Lock)), 0);
    assert_eq!(
        inner.set_property(Property::Snap, PropertyValue::Bits(0)),
        Step::Remove { context: 9, message: 7 }
    );
    assert_eq!(inner.removed(), Step::Done { redraw: true });
    assert_eq!(inner.snap, (None, 0));
}

#[test]
fn messages_are_taken_off_the_status_bar() {
    let mut inner = open_view();
    assert_eq!(inner.pop_statusbar_message(Some(1)), None);
    assert_eq!(inner.pop_statusbar_message(None), None);
    assert_eq!(inner.new_statusbar_message(StatusText::Preview), Step::OpenContext);
    assert_eq!(inner.context_opened(4), Step::Push { context: 4, text: StatusText::Preview });
    assert_eq!(inner.message_pushed(8), Step::Shown { message: Some(8) });
    assert_eq!(
        inner.pop_statusbar_message(Some(1)),
        Some(Removal::Message { context: 4, message: 1 })
    );
    assert_eq!(inner.pop_statusbar_message(None), Some(Removal::Topmost { context: 4 }));
    assert_eq!(GlyphEditViewInner::new(0, 0).pop_statusbar_message(Some(1)), None);
}

#[test]
fn a_message_for_itself_stores_nothing() {
    let mut inner = open_view();
    for text in [StatusText::Preview, StatusText::Lock(3), StatusText::Snap(1), StatusText::Lock(0)]
    {
        let mut step = inner.new_statusbar_message(text);
        if step == Step::OpenContext {
            step = inner.context_opened(4);
        }
        assert_eq!(step, Step::Push { context: 4, text });
        assert_eq!(inner.message_pushed(8), Step::Shown { message: Some(8) });
        assert_eq!(inner.pending, Pending::Nothing);
        assert_eq!(inner.statusbar_context_id, Some(4));
        assert_eq!(inner.preview, None);
        assert_eq!(inner.lock, (None, 0));
        assert_eq!(inner.snap, (None, 0));
    }

    let mut unbuilt = GlyphEditViewInner::new(LOCK_FLAGS, SNAP_FLAGS);
    assert_eq!(
        unbuilt.new_statusbar_message(StatusText::Preview),
        Step::Shown { message: None }
    );
    assert_eq!(unbuilt.pending, Pending::Nothing);
    assert_eq!(unbuilt.preview, None);
    assert_eq!(unbuilt.statusbar_context_id, None);
}

/// A status bar: what is on it, by context and number.
struct Bar {
    messages: BTreeSet<(u32, u32)>,
    last: u32,
}

impl Bar {
    fn carry_out(&mut self, inner: &mut GlyphEditViewInner, mut step: Step) {
        loop {
            step = match step {
                Step::Done { .. } | Step::Shown { .. } => return,
                Step::Remove { context, message } => {
                    assert!(self.messages.remove(&(context, message)));
                    inner.removed()
                }
                Step::OpenContext => inner.context_opened(6),
                Step::Push { context, .. } => {
                    self.last += 1;
                    self.messages.insert((context, self.last));
                    inner.message_pushed(self.last)
                }
            };
        }
    }
}

#[test]
fn a_message_comes_off_and_leaves_the_others() {
    let mut inner = open_view();
    let mut bar = Bar { messages: BTreeSet::from([(1, 20)]), last: 20 };
    let step = inner.set_property(Property::Lock, PropertyValue::Bits(0b1));
    bar.carry_out(&mut inner, step);
    let before = bar.messages.clone();
    let step = inner.new_statusbar_message(StatusText::Preview);
    bar.carry_out(&mut inner, step);
    assert_eq!(bar.messages.len(), before.len() + 1);
    match inner.pop_statusbar_message(Some(bar.last)) {
        Some(Removal::Message { context, message }) => {
            assert!(bar.messages.remove(&(context, message)));
        }
        _ => panic!("no message to take off"),
    }
    assert_eq!(bar.messages, before);
}

#[test]
fn messages_on_the_status_bar_are_those_remembered() {
    let mut inner = open_view();
    let mut bar = Bar { messages: BTreeSet::new(), last: 20 };
    bar.messages.insert((1, 20));
    let calls = [
        (Property::Lock, PropertyValue::Bits(0b11)),
        (Property::Preview, PropertyValue::Flag(true)),
        (Property::Snap, PropertyValue::Bits(0b1)),
        (Property::Lock, PropertyValue::Bits(0b1)),
        (Property::Lock, PropertyValue::Bits(0b1_0000)),
        (Property::Preview, PropertyValue::Flag(true)),
        (Property::Snap, PropertyValue::Bits(0)),
        (Property::LockGuidelines, PropertyValue::Flag(false)),
        (Property::Preview, PropertyValue::Flag(false)),
        (Property::Snap, PropertyValue::Bits(0b110)),
        (Property::Lock, PropertyValue::Bits(0)),
    ];
    for (property, value) in calls {
        let step = inner.set_property(property, value);
        bar.carry_out(&mut inner, step);
        let mut expected = BTreeSet::from([(1, 20)]);
        for message in [inner.preview, inner.lock.0, inner.snap.0].into_iter().flatten() {
            expected.insert((6, message));
        }
        assert_eq!(bar.messages, expected);
    }
    assert_eq!(inner.snap, (Some(25), 0b110));
    assert_eq!(bar.messages, BTreeSet::from([(1, 20), (6, 25)]));
}

#[test]
fn how_messages_read() {
    assert_eq!(StatusText::Preview.own_text(), Some("Preview."));
    assert_eq!(StatusText::Lock(1).own_text(), None);
    assert_eq!(StatusText::Snap(1).own_text(), None);
}

#[test]
fn properties_and_what_they_take() {
    let specs = properties();
    assert_eq!(specs.len(), 18);
    assert_eq!(
        specs[0],
        PropertySpec { property: Property::Title, kind: PropertyKind::Text, writable: false }
    );
    assert_eq!(specs[0].kind.default_text(), Some("edit glyph"));
    assert_eq!(specs[1].kind.default_text(), None);
    assert_eq!(specs[2].kind, PropertyKind::Flag { default: false });
    assert!(specs[2].writable);
    let kinds: Vec<PropertyKind> = specs[4..9].iter().map(|spec| spec.kind).collect();
    assert_eq!(
        kinds,
        vec![
            PropertyKind::Number { minimum: Bound::At(1), maximum: Bound::Highest, default: 1000 },
            PropertyKind::Number { minimum: Bound::At(1), maximum: Bound::Highest, default: 1000 },
            PropertyKind::Number {
                minimum: Bound::Lowest,
                maximum: Bound::Highest,
                default: 700
            },
            PropertyKind::Number {
                minimum: Bound::Lowest,
                maximum: Bound::Highest,
                default: -200
            },
            PropertyKind::Number {
                minimum: Bound::Lowest,
                maximum: Bound::Highest,
                default: 650
            },
        ]
    );
    assert_eq!(specs[9].kind, PropertyKind::Flag { default: false });
    assert_eq!(specs[12].kind, PropertyKind::Flag { default: true });
    assert_eq!(specs[13].kind, PropertyKind::Tool);
    assert_eq!(specs[15].kind, PropertyKind::Menubar);
    assert_eq!(
        specs[17].kind,
        PropertyKind::Bits { minimum: 0, maximum: u32::MAX, default: 0 }
    );
    let fixed: Vec<Property> =
        specs.iter().filter(|spec| !spec.writable).map(|spec| spec.property).collect();
    assert_eq!(fixed, vec![Property::Title, Property::Closeable, Property::IsMenuVisible]);
}

#[test]
fn names_of_properties() {
    for spec in properties() {
        assert_eq!(Property::from_name(spec.property.name()), Some(spec.property));
    }
    assert_eq!(Property::from_name("show-glyph-guidelines"), Some(Property::ShowGlyphGuidelines));
    assert_eq!(Property::from_name("Lock"), None);
    assert_eq!(Property::from_name(""), None);
    assert_eq!(Property::Title.blurb(), "title");
    assert_eq!(Property::Lock.blurb(), "Lock transformation movement to specific axes.");
    assert_eq!(Property::Snap.blurb(), "Snap transformation movement to specific references.");
}

#[test]
fn keys_activate_enabled_actions() {
    let all = EnabledActions { preview: true, lock: true, snap: true };
    let none = EnabledActions { preview: false, lock: false, snap: false };
    assert_eq!(key_pressed(u32::from(b'`'), all), Some(KeyEffect::SetPreview(true)));
    for (key, action) in [
        (b'x', ViewAction::LockX),
        (b'y', ViewAction::LockY),
        (b'A', ViewAction::SnapAngle),
        (b'G', ViewAction::SnapGrid),
        (b'L', ViewAction::SnapGuidelines),
        (b'M', ViewAction::SnapMetrics),
    ] {
        assert_eq!(key_pressed(u32::from(key), all), Some(KeyEffect::Activate(action)));
        assert_eq!(key_pressed(u32::from(key), none), None);
        assert_eq!(key_released(u32::from(key), all), None);
    }
    let locks = EnabledActions { preview: false, lock: true, snap: false };
    assert_eq!(
        key_pressed(u32::from(b'x'), locks),
        Some(KeyEffect::Activate(ViewAction::LockX))
    );
    assert_eq!(key_pressed(u32::from(b'G'), locks), None);
    assert_eq!(key_pressed(u32::from(b'`'), locks), None);
    assert_eq!(key_pressed(u32::from(b'a'), all), None);
    assert_eq!(key_released(u32::from(b'`'), all), Some(KeyEffect::SetPreview(false)));
    assert_eq!(key_released(u32::from(b'`'), none), None);
}

#[test]
fn names_of_actions() {
    assert_eq!(ViewAction::Preview.name(), "preview");
    assert_eq!(ViewAction::ZoomIn.name(), "zoom.in");
    assert_eq!(ViewAction::LockControls.name(), "lock.controls");
    assert_eq!(ViewAction::Precision.name(), "precision");
    assert_eq!(ViewAction::SnapMetrics.name(), "snap.metrics");
}

#[test]
fn pointer_events() {
    let scroll = pointer_handled(PointerEvent::Scroll, true);
    assert!(scroll.redraw && scroll.stops && !scroll.moves_mouse);
    let motion = pointer_handled(PointerEvent::Motion, false);
    assert!(!motion.redraw && !motion.stops && motion.moves_mouse);
    assert!(pointer_handled(PointerEvent::ButtonPress, true).moves_mouse);
    assert!(pointer_handled(PointerEvent::ButtonRelease, false).moves_mouse);
}

#[test]
fn layers_of_the_canvas() {
    assert_eq!(
        layers(),
        vec![
            LayerSpec {
                content: LayerContent::Glyph,
                place: LayerPlace::Among,
                active: true,
                hidden: false
            },
            LayerSpec {
                content: LayerContent::Guidelines,
                place: LayerPlace::Below,
                active: true,
                hidden: true
            },
            LayerSpec {
                content: LayerContent::Rules,
                place: LayerPlace::Above,
                active: true,
                hidden: true
            },
        ]
    );
    assert_eq!(LayerContent::Glyph.name(), "glyph");
    assert_eq!(LayerContent::Guidelines.name(), "guidelines");
    assert_eq!(LayerContent::Rules.name(), "rules");
}

#[test]
fn properties_that_follow_the_project() {
    assert_eq!(
        project_properties(),
        vec![
            Property::Ascender,
            Property::CapHeight,
            Property::Descender,
            Property::UnitsPerEm,
            Property::XHeight
        ]
    );
}
