//! What is done to the status bar, step by step, and what the view stores for it.

use vstd::prelude::*;

use crate::property::{Property, PropertyValue};
use crate::view::{GlyphEditViewInner, Next, Pending, Purpose, Removal, StatusText, Step};

verus! {

/// Setting the flags that lock movement: first the message about the flags before is
/// removed, if there is one. Then, if a flag is set and there is an application, a
/// message is put up, and it is about the new flags; otherwise the new flags are
/// stored without one.
pub proof fn law_lock_steps(view: GlyphEditViewInner, bits: u32)
    requires
        view.wf(),
        view.pending == Pending::Nothing,
        bits & !view.lock_flags == 0,
    ensures
        ({
            let begun = view.setting(Property::Lock, PropertyValue::Bits(bits));
            let next = if begun.1 is Remove {
                begun.0.following(begun.0.pending->Removal_0)
            } else {
                begun
            };
            &&& begun.1 is Remove <==> view.lock.0 is Some
            &&& view.lock.0 matches Some(message) ==> begun.1 == (Step::Remove {
                context: view.statusbar_context_id->0,
                message,
            }) && begun.0 == (GlyphEditViewInner { pending: begun.0.pending, ..view })
                && begun.0.pending is Removal
            &&& bits == 0 || !view.has_app ==> next == (
                GlyphEditViewInner { lock: (None, bits), ..view },
                Step::Done { redraw: true },
            )
            &&& bits != 0 && view.has_app ==> (view.statusbar_context_id matches Some(
                context,
            ) ==> next == (
                GlyphEditViewInner {
                    pending: Pending::Push(StatusText::Lock(bits), Purpose::Value),
                    ..view
                },
                Step::Push { context, text: StatusText::Lock(bits) },
            ))
            &&& bits != 0 && view.has_app && view.statusbar_context_id is None ==> next == (
                GlyphEditViewInner {
                    pending: Pending::Context(StatusText::Lock(bits), Purpose::Value),
                    ..view
                },
                Step::OpenContext,
            )
        }),
{
}

/// Flags that there are not, and values that are no flags, change nothing and ask for
/// nothing.
pub proof fn law_lock_unknown(view: GlyphEditViewInner, value: PropertyValue)
    requires
        value matches PropertyValue::Bits(bits) ==> bits & !view.lock_flags != 0,
    ensures
        view.setting(Property::Lock, value) == (view, Step::Done { redraw: false }),
{
}

/// Setting the flags that movement snaps by: first the message about the flags before
/// is removed, if there is one. Then, if a flag is set and there is an application, a
/// message is put up, and it is about the new flags; otherwise the new flags are
/// stored without one.
pub proof fn law_snap_steps(view: GlyphEditViewInner, bits: u32)
    requires
        view.wf(),
        view.pending == Pending::Nothing,
        bits & !view.snap_flags == 0,
    ensures
        ({
            let begun = view.setting(Property::Snap, PropertyValue::Bits(bits));
            let next = if begun.1 is Remove {
                begun.0.following(begun.0.pending->Removal_0)
            } else {
                begun
            };
            &&& begun.1 is Remove <==> view.snap.0 is Some
            &&& view.snap.0 matches Some(message) ==> begun.1 == (Step::Remove {
                context: view.statusbar_context_id->0,
                message,
            }) && begun.0 == (GlyphEditViewInner { pending: begun.0.pending, ..view })
                && begun.0.pending is Removal
            &&& bits == 0 || !view.has_app ==> next == (
                GlyphEditViewInner { snap: (None, bits), ..view },
                Step::Done { redraw: true },
            )
            &&& bits != 0 && view.has_app ==> (view.statusbar_context_id matches Some(
                context,
            ) ==> next == (
                GlyphEditViewInner {
                    pending: Pending::Push(StatusText::Snap(bits), Purpose::Value),
                    ..view
                },
                Step::Push { context, text: StatusText::Snap(bits) },
            ))
            &&& bits != 0 && view.has_app && view.statusbar_context_id is None ==> next == (
                GlyphEditViewInner {
                    pending: Pending::Context(StatusText::Snap(bits), Purpose::Value),
                    ..view
                },
                Step::OpenContext,
            )
        }),
{
}

/// Flags that there are not, and values that are no flags, change nothing and ask for
/// nothing.
pub proof fn law_snap_unknown(view: GlyphEditViewInner, value: PropertyValue)
    requires
        value matches PropertyValue::Bits(bits) ==> bits & !view.snap_flags != 0,
    ensures
        view.setting(Property::Snap, value) == (view, Step::Done { redraw: false }),
{
}

/// Setting the preview: while there is none, a message that there is one is put up, if
/// there is an application. While there is one, its message is removed, and then
/// there is none. Setting it to what it is does nothing.
pub proof fn law_preview_steps(view: GlyphEditViewInner)
    requires
        view.wf(),
        view.pending == Pending::Nothing,
    ensures
        view.preview is Some ==> view.setting(Property::Preview, PropertyValue::Flag(true)) == (
            view,
            Step::Done { redraw: false },
        ),
        view.preview is None ==> view.setting(Property::Preview, PropertyValue::Flag(false)) == (
            view,
            Step::Done { redraw: false },
        ),
        view.preview is None && !view.has_app ==> view.setting(
            Property::Preview,
            PropertyValue::Flag(true),
        ) == (view, Step::Done { redraw: true }),
        view.preview is None && view.has_app ==> (view.statusbar_context_id matches Some(
            context,
        ) ==> view.setting(Property::Preview, PropertyValue::Flag(true)) == (
            GlyphEditViewInner {
                pending: Pending::Push(StatusText::Preview, Purpose::Value),
                ..view
            },
            Step::Push { context, text: StatusText::Preview },
        )),
        view.preview is None && view.has_app && view.statusbar_context_id is None ==> view.setting(
            Property::Preview,
            PropertyValue::Flag(true),
        ) == (
            GlyphEditViewInner {
                pending: Pending::Context(StatusText::Preview, Purpose::Value),
                ..view
            },
            Step::OpenContext,
        ),
        view.preview matches Some(message) ==> ({
            let begun = view.setting(Property::Preview, PropertyValue::Flag(false));
            &&& begun.1 == (Step::Remove { context: view.statusbar_context_id->0, message })
            &&& begun.0.pending is Removal
            &&& begun.0 == (GlyphEditViewInner { pending: begun.0.pending, ..view })
            &&& begun.0.following(begun.0.pending->Removal_0) == (
                GlyphEditViewInner { preview: None, ..view },
                Step::Done { redraw: true },
            )
        }),
{
}

/// Whatever is set, a message that is put up is about the value that is set, and it is
/// the one that the view waits to store: a preview for the preview, and the bits that
/// were given for flags.
pub proof fn law_pushed_text(
    view: GlyphEditViewInner,
    property: Property,
    value: PropertyValue,
    context: u32,
    text: StatusText,
)
    requires
        view.wf(),
        view.pending == Pending::Nothing,
        GlyphEditViewInner::settable(property, value),
        ({
            let begun = view.setting(property, value);
            let next = if begun.1 is Remove {
                begun.0.following(begun.0.pending->Removal_0)
            } else {
                begun
            };
            next.1 == (Step::Push { context, text })
        }),
    ensures
        ({
            let begun = view.setting(property, value);
            let next = if begun.1 is Remove {
                begun.0.following(begun.0.pending->Removal_0)
            } else {
                begun
            };
            next.0.pending == Pending::Push(text, Purpose::Value)
        }),
        property is Preview || property is Lock || property is Snap,
        property is Preview ==> text == StatusText::Preview && value == PropertyValue::Flag(true),
        property is Lock ==> value == PropertyValue::Bits(text->Lock_0) && text is Lock,
        property is Snap ==> value == PropertyValue::Bits(text->Snap_0) && text is Snap,
        view.statusbar_context_id == Some(context),
{
}

/// A message for itself is put up with the text that is given, and nothing is stored.
pub proof fn law_notice_steps(view: GlyphEditViewInner, text: StatusText)
    requires
        view.pending == Pending::Nothing,
    ensures
        !view.has_app ==> view.showing(text, Purpose::Notice) == (
            view,
            Step::Shown { message: None },
        ),
        view.has_app ==> (view.statusbar_context_id matches Some(context) ==> view.showing(
            text,
            Purpose::Notice,
        ) == (
            GlyphEditViewInner { pending: Pending::Push(text, Purpose::Notice), ..view },
            Step::Push { context, text },
        )),
        view.has_app && view.statusbar_context_id is None ==> view.showing(text, Purpose::Notice)
            == (
            GlyphEditViewInner { pending: Pending::Context(text, Purpose::Notice), ..view },
            Step::OpenContext,
        ),
{
}

/// What a message that was pushed leaves behind: its number, with the value that it is
/// about. One that is about no value leaves nothing behind; its number is handed
/// back.
pub proof fn law_after_push(view: GlyphEditViewInner, bits: u32, text: StatusText, message: u32)
    ensures
        view.ended(StatusText::Preview, Purpose::Value, Some(message)) == (
            GlyphEditViewInner { preview: Some(message), pending: Pending::Nothing, ..view },
            Step::Done { redraw: true },
        ),
        view.ended(StatusText::Lock(bits), Purpose::Value, Some(message)) == (
            GlyphEditViewInner { lock: (Some(message), bits), pending: Pending::Nothing, ..view },
            Step::Done { redraw: true },
        ),
        view.ended(StatusText::Snap(bits), Purpose::Value, Some(message)) == (
            GlyphEditViewInner { snap: (Some(message), bits), pending: Pending::Nothing, ..view },
            Step::Done { redraw: true },
        ),
        view.ended(text, Purpose::Notice, Some(message)) == (
            GlyphEditViewInner { pending: Pending::Nothing, ..view },
            Step::Shown { message: Some(message) },
        ),
{
}

/// What follows the removal of a message, from what the view waits for alone.
pub proof fn law_after_removal(view: GlyphEditViewInner, bits: u32, text: StatusText)
    ensures
        view.following(Next::Store(StatusText::Preview)) == (
            GlyphEditViewInner { preview: None, pending: Pending::Nothing, ..view },
            Step::Done { redraw: true },
        ),
        view.following(Next::Store(StatusText::Lock(bits))) == (
            GlyphEditViewInner { lock: (None, bits), pending: Pending::Nothing, ..view },
            Step::Done { redraw: true },
        ),
        view.following(Next::Store(StatusText::Snap(bits))) == (
            GlyphEditViewInner { snap: (None, bits), pending: Pending::Nothing, ..view },
            Step::Done { redraw: true },
        ),
        view.has_app ==> (view.statusbar_context_id matches Some(context) ==> view.following(
            Next::Show(text),
        ) == (
            GlyphEditViewInner { pending: Pending::Push(text, Purpose::Value), ..view },
            Step::Push { context, text },
        )),
        view.has_app && view.statusbar_context_id is None ==> view.following(Next::Show(text)) == (
            GlyphEditViewInner { pending: Pending::Context(text, Purpose::Value), ..view },
            Step::OpenContext,
        ),
{
}

/// What is taken off the status bar for a message: that message, in the context of the
/// view, or the topmost one there. Without an application or a context, nothing.
pub proof fn law_taken_off(view: GlyphEditViewInner, message: u32)
    ensures
        !view.has_app || view.statusbar_context_id is None ==> view.removal(Some(message)) is None
            && view.removal(None) is None,
        view.has_app ==> (view.statusbar_context_id matches Some(context) ==> view.removal(
            Some(message),
        ) == Some(Removal::Message { context, message }) && view.removal(None) == Some(
            Removal::Topmost { context },
        )),
{
}

} // verus!
