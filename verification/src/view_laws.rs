//! What holds of the view's properties and messages, whatever the status bar
//! answers.

use vstd::prelude::*;

use crate::glyphs::Real;
use crate::property::{Property, PropertyValue};
use crate::view::{are_flags, is_metric, GlyphEditViewInner, Metrics, Pending, Purpose, Removal};
use crate::view::{StatusText, Step};

verus! {

/// What comes of a step once the message that was to be removed, if any, is gone.
pub open spec fn cleared(begun: (GlyphEditViewInner, Step)) -> (GlyphEditViewInner, Step) {
    if begun.1 is Remove {
        begun.0.following(begun.0.pending->Removal_0)
    } else {
        begun
    }
}

/// What comes of a step once the context that was to be opened, if any, is there.
pub open spec fn opened(reached: (GlyphEditViewInner, Step), context: u32) -> (
    GlyphEditViewInner,
    Step,
) {
    if reached.1 is OpenContext {
        (
            GlyphEditViewInner {
                statusbar_context_id: Some(context),
                pending: Pending::Push(
                    reached.0.pending->Context_0,
                    reached.0.pending->Context_1,
                ),
                ..reached.0
            },
            Step::Push { context, text: reached.0.pending->Context_0 },
        )
    } else {
        reached
    }
}

/// Where the view ends up, and with which step, once the status bar did all that
/// was asked of it: a context that it opened is `context`, and a message that it
/// pushed is `message`.
pub open spec fn carried_out(begun: (GlyphEditViewInner, Step), context: u32, message: u32) -> (
    GlyphEditViewInner,
    Step,
) {
    let reached = opened(cleared(begun), context);
    if reached.1 is Push {
        reached.0.ended(reached.0.pending->Push_0, reached.0.pending->Push_1, Some(message))
    } else {
        reached
    }
}

/// What is on the status bar, by context and number, once it did all that was
/// asked of it.
pub open spec fn bar_after(
    bar: Set<(u32, u32)>,
    begun: (GlyphEditViewInner, Step),
    context: u32,
    message: u32,
) -> Set<(u32, u32)> {
    match opened(cleared(begun), context).1 {
        Step::Push { context, .. } => bar_cleared(bar, begun).insert((context, message)),
        _ => bar_cleared(bar, begun),
    }
}

/// What is on the status bar, by context and number, once the message that was to
/// be removed, if any, is gone.
pub open spec fn bar_cleared(
    bar: Set<(u32, u32)>,
    begun: (GlyphEditViewInner, Step),
) -> Set<(u32, u32)> {
    match begun.1 {
        Step::Remove { context, message } => bar.remove((context, message)),
        _ => bar,
    }
}

/// Whether the message that is pushed, if one is, gets a number that no message
/// of its context on the status bar has.
pub open spec fn is_numbered_apart(
    bar: Set<(u32, u32)>,
    begun: (GlyphEditViewInner, Step),
    context: u32,
    message: u32,
) -> bool {
    match opened(cleared(begun), context).1 {
        Step::Push { context, .. } => !bar_cleared(bar, begun).contains((context, message)),
        _ => true,
    }
}

/// Where the view ends up, and with which step, once a property was given a value
/// and the status bar did all that was asked of it.
#[verifier::opaque]
pub open spec fn run(
    view: GlyphEditViewInner,
    property: Property,
    value: PropertyValue,
    context: u32,
    message: u32,
) -> (GlyphEditViewInner, Step) {
    carried_out(view.setting(property, value), context, message)
}

/// A message that is shown for itself changes nothing of the view, but that a
/// context is open on the status bar from then on. Its number is handed back.
/// Without an application there is no message, and nothing changes at all.
pub proof fn law_notice(
    view: GlyphEditViewInner,
    text: StatusText,
    context: u32,
    message: u32,
    bar: Set<(u32, u32)>,
)
    requires
        view.wf(),
        view.pending == Pending::Nothing,
    ensures
        carried_out(view.showing(text, Purpose::Notice), context, message) == (if view.has_app {
            (
                GlyphEditViewInner {
                    statusbar_context_id: context_after(view, true, context),
                    ..view
                },
                Step::Shown { message: Some(message) },
            )
        } else {
            (view, Step::Shown { message: None })
        }),
        bar_after(bar, view.showing(text, Purpose::Notice), context, message) == (if view.has_app {
            bar.insert((context_after(view, true, context)->0, message))
        } else {
            bar
        }),
{
}

/// To show a message and then to take it off leaves every other message on the
/// status bar. By its number, it is that message that is taken off; without a
/// number, it is the topmost message of the context that the message was pushed
/// to.
pub proof fn law_message_comes_off(
    view: GlyphEditViewInner,
    text: StatusText,
    context: u32,
    message: u32,
    bar: Set<(u32, u32)>,
)
    requires
        view.wf(),
        view.pending == Pending::Nothing,
        view.has_app,
        is_numbered_apart(bar, view.showing(text, Purpose::Notice), context, message),
    ensures
        ({
            let begun = view.showing(text, Purpose::Notice);
            let shown = carried_out(begun, context, message).0;
            let at = context_after(view, true, context)->0;
            &&& bar_after(bar, begun, context, message) == bar.insert((at, message))
            &&& shown.removal(Some(message)) == Some(Removal::Message { context: at, message })
            &&& bar_after(bar, begun, context, message).remove((at, message)) == bar
            &&& shown.removal(None) == Some(Removal::Topmost { context: at })
        }),
{
    let at = context_after(view, true, context)->0;
    assert(bar.insert((at, message)).remove((at, message)) =~= bar);
}

/// The context of the view on the status bar, after a message was shown or not.
pub open spec fn context_after(view: GlyphEditViewInner, shows: bool, context: u32) -> Option<
    u32,
> {
    if shows && view.has_app && view.statusbar_context_id is None {
        Some(context)
    } else {
        view.statusbar_context_id
    }
}

/// The message that there is after one was shown or not.
pub open spec fn message_after(view: GlyphEditViewInner, shows: bool, message: u32) -> Option<
    u32,
> {
    if shows && view.has_app {
        Some(message)
    } else {
        None
    }
}

/// Whether the value changes what is on the status bar and on the canvas: a
/// preview that begins or ends, or flags that there are.
pub open spec fn is_shown(
    view: GlyphEditViewInner,
    property: Property,
    value: PropertyValue,
) -> bool {
    match property {
        Property::Preview => value != PropertyValue::Flag(view.preview is Some),
        Property::Lock => value matches PropertyValue::Bits(bits) && are_flags(
            bits,
            view.lock_flags,
        ),
        Property::Snap => value matches PropertyValue::Bits(bits) && are_flags(
            bits,
            view.snap_flags,
        ),
        _ => false,
    }
}

/// A preview that is set to what it is, and flags that there are not, change
/// nothing and ask for nothing.
pub proof fn law_no_change(view: GlyphEditViewInner, property: Property, value: PropertyValue)
    requires
        GlyphEditViewInner::settable(property, value),
        property is Preview || property is Lock || property is Snap,
        !is_shown(view, property, value),
    ensures
        view.setting(property, value) == (view, Step::Done { redraw: false }),
        forall|context: u32, message: u32| #[trigger]
            run(view, property, value, context, message) == (view, Step::Done { redraw: false }),
{
    reveal(run);
}

/// The preview: while there is an application, it is there with the message that
/// was pushed for it, and it goes with that message.
pub proof fn law_preview(view: GlyphEditViewInner, on: bool, context: u32, message: u32)
    requires
        view.wf(),
        view.pending == Pending::Nothing,
        on != (view.preview is Some),
    ensures
        run(view, Property::Preview, PropertyValue::Flag(on), context, message).1 == (Step::Done {
            redraw: true,
        }),
        run(view, Property::Preview, PropertyValue::Flag(on), context, message).0 == (
        GlyphEditViewInner {
            preview: message_after(view, on, message),
            statusbar_context_id: context_after(view, on, context),
            ..view
        }),
        !on ==> view.setting(Property::Preview, PropertyValue::Flag(on)).1 == (Step::Remove {
            context: view.statusbar_context_id->0,
            message: view.preview->0,
        }),
{
    reveal(run);
}

/// The flags that lock movement: the message about the flags before is removed,
/// and there is one about the new flags if any is set and there is an
/// application to show it.
pub proof fn law_lock(view: GlyphEditViewInner, bits: u32, context: u32, message: u32)
    requires
        view.wf(),
        view.pending == Pending::Nothing,
        are_flags(bits, view.lock_flags),
    ensures
        run(view, Property::Lock, PropertyValue::Bits(bits), context, message).1 == (Step::Done {
            redraw: true,
        }),
        run(view, Property::Lock, PropertyValue::Bits(bits), context, message).0 == (
        GlyphEditViewInner {
            lock: (message_after(view, bits != 0, message), bits),
            statusbar_context_id: context_after(view, bits != 0, context),
            ..view
        }),
        view.lock.0 is Some <==> view.setting(
            Property::Lock,
            PropertyValue::Bits(bits),
        ).1 is Remove,
        view.lock.0 matches Some(old_message) ==> view.setting(
            Property::Lock,
            PropertyValue::Bits(bits),
        ).1 == (Step::Remove { context: view.statusbar_context_id->0, message: old_message }),
{
    reveal(run);
}

/// The flags that movement snaps by: the message about the flags before is
/// removed, and there is one about the new flags if any is set and there is an
/// application to show it.
pub proof fn law_snap(view: GlyphEditViewInner, bits: u32, context: u32, message: u32)
    requires
        view.wf(),
        view.pending == Pending::Nothing,
        are_flags(bits, view.snap_flags),
    ensures
        run(view, Property::Snap, PropertyValue::Bits(bits), context, message).1 == (Step::Done {
            redraw: true,
        }),
        run(view, Property::Snap, PropertyValue::Bits(bits), context, message).0 == (
        GlyphEditViewInner {
            snap: (message_after(view, bits != 0, message), bits),
            statusbar_context_id: context_after(view, bits != 0, context),
            ..view
        }),
        view.snap.0 is Some <==> view.setting(
            Property::Snap,
            PropertyValue::Bits(bits),
        ).1 is Remove,
        view.snap.0 matches Some(old_message) ==> view.setting(
            Property::Snap,
            PropertyValue::Bits(bits),
        ).1 == (Step::Remove { context: view.statusbar_context_id->0, message: old_message }),
{
    reveal(run);
}

/// Where the view ends up once a property was given a value: a preview or flags
/// are stored with their message, any other property is set at once, and what
/// shows nothing changes nothing.
pub open spec fn settled(
    view: GlyphEditViewInner,
    property: Property,
    value: PropertyValue,
    context: u32,
    message: u32,
) -> GlyphEditViewInner {
    match (property, value) {
        (Property::Preview, PropertyValue::Flag(on)) if is_shown(view, property, value) => {
            GlyphEditViewInner {
                preview: message_after(view, on, message),
                statusbar_context_id: context_after(view, on, context),
                ..view
            }
        },
        (Property::Lock, PropertyValue::Bits(bits)) if is_shown(view, property, value) => {
            GlyphEditViewInner {
                lock: (message_after(view, bits != 0, message), bits),
                statusbar_context_id: context_after(view, bits != 0, context),
                ..view
            }
        },
        (Property::Snap, PropertyValue::Bits(bits)) if is_shown(view, property, value) => {
            GlyphEditViewInner {
                snap: (message_after(view, bits != 0, message), bits),
                statusbar_context_id: context_after(view, bits != 0, context),
                ..view
            }
        },
        _ => view.setting(property, value).0,
    }
}

/// Giving a value to a property ends where `settled` says, and draws the view
/// again where the value shows.
proof fn lemma_run(
    view: GlyphEditViewInner,
    property: Property,
    value: PropertyValue,
    context: u32,
    message: u32,
)
    requires
        view.wf(),
        view.pending == Pending::Nothing,
        GlyphEditViewInner::settable(property, value),
    ensures
        run(view, property, value, context, message) == (
            settled(view, property, value, context, message),
            Step::Done { redraw: is_shown(view, property, value) },
        ),
{
    match property {
        Property::Preview => if is_shown(view, property, value) {
            law_preview(view, value->Flag_0, context, message);
        } else {
            law_no_change(view, property, value);
        },
        Property::Lock => if is_shown(view, property, value) {
            law_lock(view, value->Bits_0, context, message);
        } else {
            law_no_change(view, property, value);
        },
        Property::Snap => if is_shown(view, property, value) {
            law_snap(view, value->Bits_0, context, message);
        } else {
            law_no_change(view, property, value);
        },
        _ => reveal(run),
    }
}

/// Giving a value to a property comes to an end, with the view in order and
/// waiting for nothing. The view is drawn again for a preview that begins or
/// ends and for flags that there are, and for nothing else.
pub proof fn law_run_ends(
    view: GlyphEditViewInner,
    property: Property,
    value: PropertyValue,
    context: u32,
    message: u32,
)
    requires
        view.wf(),
        view.pending == Pending::Nothing,
        GlyphEditViewInner::settable(property, value),
    ensures
        run(view, property, value, context, message).0.wf(),
        run(view, property, value, context, message).0.pending == Pending::Nothing,
        run(view, property, value, context, message).1 == (Step::Done {
            redraw: is_shown(view, property, value),
        }),
{
    lemma_run(view, property, value, context, message);
}

/// A property reads back as it was set, except that there is no preview without
/// an application, and that flags which there are not change nothing.
pub proof fn law_reads_back(
    view: GlyphEditViewInner,
    property: Property,
    value: PropertyValue,
    context: u32,
    message: u32,
)
    requires
        view.wf(),
        view.pending == Pending::Nothing,
        GlyphEditViewInner::settable(property, value),
        property is Preview && value == PropertyValue::Flag(true) ==> view.has_app,
        property is Lock || property is Snap ==> is_shown(view, property, value),
    ensures
        run(view, property, value, context, message).0.holds(property, value),
{
    lemma_run(view, property, value, context, message);
}

/// Setting a property leaves what the others hold.
pub proof fn law_others_keep(
    view: GlyphEditViewInner,
    property: Property,
    value: PropertyValue,
    context: u32,
    message: u32,
    other: Property,
    held: PropertyValue,
)
    requires
        view.wf(),
        view.pending == Pending::Nothing,
        GlyphEditViewInner::settable(property, value),
        other != property,
    ensures
        run(view, property, value, context, message).0.holds(other, held) == view.holds(
            other,
            held,
        ),
{
    lemma_run(view, property, value, context, message);
}

/// The messages that the view remembers, by context and number.
pub open spec fn remembered(view: GlyphEditViewInner) -> Set<(u32, u32)> {
    Set::new(
        |at: (u32, u32)|
            view.statusbar_context_id == Some(at.0) && (view.preview == Some(at.1) || view.lock.0
                == Some(at.1) || view.snap.0 == Some(at.1)),
    )
}

/// No message is remembered for two things.
pub open spec fn apart(view: GlyphEditViewInner) -> bool {
    &&& view.preview is Some ==> view.preview != view.lock.0 && view.preview != view.snap.0
    &&& view.lock.0 is Some ==> view.lock.0 != view.snap.0
}

/// What is on the status bar: the messages that the view remembers, and `others`,
/// which are none of them.
pub open spec fn bar_in_order(
    view: GlyphEditViewInner,
    bar: Set<(u32, u32)>,
    others: Set<(u32, u32)>,
) -> bool {
    &&& apart(view)
    &&& remembered(view).disjoint(others)
    &&& bar == remembered(view).union(others)
}

/// Of the messages on the status bar, those of the view are exactly those that it
/// remembers, and setting a property keeps it so: no message of the view is left
/// behind or forgotten, and no message of anybody else goes. A message that is
/// pushed gets a number that no message of its context on the status bar has.
pub proof fn law_bar(
    view: GlyphEditViewInner,
    property: Property,
    value: PropertyValue,
    context: u32,
    message: u32,
    bar: Set<(u32, u32)>,
    others: Set<(u32, u32)>,
)
    requires
        view.wf(),
        view.pending == Pending::Nothing,
        GlyphEditViewInner::settable(property, value),
        bar_in_order(view, bar, others),
        is_numbered_apart(bar, view.setting(property, value), context, message),
    ensures
        bar_in_order(
            run(view, property, value, context, message).0,
            bar_after(bar, view.setting(property, value), context, message),
            others,
        ),
{
    lemma_run(view, property, value, context, message);
    let after = settled(view, property, value, context, message);
    let new_bar = bar_after(bar, view.setting(property, value), context, message);
    assert(new_bar =~= remembered(after).union(others));
    assert(apart(after)) by {
        let at = view.statusbar_context_id->0;
        assert(view.preview is Some ==> remembered(view).contains((at, view.preview->0)));
        assert(view.lock.0 is Some ==> remembered(view).contains((at, view.lock.0->0)));
        assert(view.snap.0 is Some ==> remembered(view).contains((at, view.snap.0->0)));
    }
    assert forall|at: (u32, u32)| remembered(after).contains(at) implies !others.contains(at) by {
        if others.contains(at) {
            assert(!remembered(view).contains(at));
        }
    }
}

/// A value that is given to a property, and what the status bar answers: the
/// context that it opens, if it is asked for one, and the number of the message
/// that it pushes, if it is asked to.
pub struct Call {
    pub property: Property,
    pub value: PropertyValue,
    pub context: u32,
    pub message: u32,
}

/// The view and the status bar after calls.
pub open spec fn after_calls(
    view: GlyphEditViewInner,
    bar: Set<(u32, u32)>,
    calls: Seq<Call>,
) -> (GlyphEditViewInner, Set<(u32, u32)>)
    decreases calls.len(),
{
    if calls.len() == 0 {
        (view, bar)
    } else {
        let before = after_calls(view, bar, calls.drop_last());
        let call = calls.last();
        (
            run(before.0, call.property, call.value, call.context, call.message).0,
            bar_after(
                before.1,
                before.0.setting(call.property, call.value),
                call.context,
                call.message,
            ),
        )
    }
}

/// Whether every call gives a property a value that it takes, and every message
/// that is pushed in it gets a number that no message of its context on the
/// status bar has at that point.
pub open spec fn can_be_called(
    view: GlyphEditViewInner,
    bar: Set<(u32, u32)>,
    calls: Seq<Call>,
) -> bool
    decreases calls.len(),
{
    calls.len() > 0 ==> {
        let before = after_calls(view, bar, calls.drop_last());
        let call = calls.last();
        &&& can_be_called(view, bar, calls.drop_last())
        &&& GlyphEditViewInner::settable(call.property, call.value)
        &&& is_numbered_apart(
            before.1,
            before.0.setting(call.property, call.value),
            call.context,
            call.message,
        )
    }
}

/// However often properties are set, the view's messages on the status bar are
/// exactly those that it remembers. They are at most three, and there is one about
/// flags only if any is set.
pub proof fn law_bar_after_calls(
    view: GlyphEditViewInner,
    bar: Set<(u32, u32)>,
    others: Set<(u32, u32)>,
    calls: Seq<Call>,
)
    requires
        view.wf(),
        view.pending == Pending::Nothing,
        bar_in_order(view, bar, others),
        can_be_called(view, bar, calls),
    ensures
        ({
            let (after, new_bar) = after_calls(view, bar, calls);
            &&& after.wf()
            &&& after.pending == Pending::Nothing
            &&& bar_in_order(after, new_bar, others)
            &&& new_bar.difference(others) == remembered(after)
            &&& remembered(after).finite()
            &&& remembered(after).len() <= 3
            &&& after.lock.0 is Some ==> after.lock.1 != 0
            &&& after.snap.0 is Some ==> after.snap.1 != 0
        }),
    decreases calls.len(),
{
    let (after, new_bar) = after_calls(view, bar, calls);
    if calls.len() > 0 {
        let rest = calls.drop_last();
        let call = calls.last();
        law_bar_after_calls(view, bar, others, rest);
        let before = after_calls(view, bar, rest);
        law_run_ends(before.0, call.property, call.value, call.context, call.message);
        law_bar(
            before.0,
            call.property,
            call.value,
            call.context,
            call.message,
            before.1,
            others,
        );
    }
    assert(new_bar.difference(others) =~= remembered(after));
    lemma_at_most_three(after);
}

/// The view remembers at most three messages.
proof fn lemma_at_most_three(view: GlyphEditViewInner)
    ensures
        remembered(view).finite(),
        remembered(view).len() <= 3,
{
    let at = view.statusbar_context_id->0;
    let three = set![(at, view.preview->0), (at, view.lock.0->0), (at, view.snap.0->0)];
    assert(remembered(view).subset_of(three));
    vstd::set_lib::lemma_len_subset(remembered(view), three);
}

/// A view that was just opened has no message on the status bar and remembers
/// none, so however often its properties are set, its messages on the status bar
/// are exactly those that it remembers.
pub proof fn law_bar_of_new_view(
    view: GlyphEditViewInner,
    others: Set<(u32, u32)>,
    calls: Seq<Call>,
)
    requires
        view.wf(),
        view.pending == Pending::Nothing,
        view.preview is None,
        view.lock.0 is None,
        view.snap.0 is None,
        can_be_called(view, others, calls),
    ensures
        bar_in_order(view, others, others),
        ({
            let (after, bar) = after_calls(view, others, calls);
            &&& bar_in_order(after, bar, others)
            &&& bar.difference(others) == remembered(after)
            &&& remembered(after).len() <= 3
            &&& after.lock.0 is Some ==> after.lock.1 != 0
            &&& after.snap.0 is Some ==> after.snap.1 != 0
        }),
{
    assert(remembered(view) =~= Set::empty());
    assert(remembered(view).union(others) =~= others);
    law_bar_after_calls(view, others, others, calls);
}

/// The metrics of the view follow those of the project: a metric that changes there
/// is given to the view, which then has it, with the others as they were. To give
/// a metric to the view asks for nothing outside, so it does not reach the
/// project.
pub proof fn law_follows_project(
    view: GlyphEditViewInner,
    project: Metrics,
    property: Property,
    number: Real,
    context: u32,
    message: u32,
)
    requires
        view.metrics() == project,
        is_metric(property),
    ensures
        GlyphEditViewInner::settable(property, PropertyValue::Number(number)),
        view.setting(property, PropertyValue::Number(number)).1 == (Step::Done { redraw: false }),
        run(view, property, PropertyValue::Number(number), context, message) == view.setting(
            property,
            PropertyValue::Number(number),
        ),
        run(view, property, PropertyValue::Number(number), context, message).0.metrics()
            == project.with(property, number),
        run(view, property, PropertyValue::Number(number), context, message).0.holds(
            property,
            PropertyValue::Number(number),
        ),
{
    reveal(run);
}

} // verus!
