//! The view: its properties, and the messages that they put on the status bar.
//!
//! The status bar is outside. What is to be done to it comes out as a `Step`,
//! and what it answered goes back in, until the step is `Done`.

use vstd::prelude::*;

use crate::glyphs::{Glyph, GlyphPointIndex, Real};
use crate::property::{Property, PropertyValue};
use crate::range_query::insert_all;
use crate::state::GlyphState;
use crate::toolbox::{tool_for, tools_of, INVALID_TYPE};

verus! {

/// A message on the status bar.
#[derive(Clone, Copy, Debug, PartialEq, Eq, Structural)]
pub enum StatusText {
    /// There is a preview.
    Preview,
    /// Movement is locked, as the flags say.
    Lock(u32),
    /// Movement snaps, as the flags say.
    Snap(u32),
}

impl StatusText {
    /// How the message reads, where that does not depend on flags.
    pub fn own_text(self) -> (text: Option<&'static str>)
        ensures
            text is Some <==> self is Preview,
            text matches Some(words) ==> words@ == "Preview."@,
    {
        match self {
            StatusText::Preview => Some("Preview."),
            _ => None,
        }
    }
}

/// What follows once an earlier message is gone.
#[derive(Clone, Copy, Debug, PartialEq, Eq, Structural)]
pub enum Next {
    /// The new value is stored, without a message.
    Store(StatusText),
    /// The message is put up, and the new value is stored with it.
    Show(StatusText),
}

/// What a message is shown for.
#[derive(Clone, Copy, Debug, PartialEq, Eq, Structural)]
pub enum Purpose {
    /// For the value that it is about, which is stored with it.
    Value,
    /// For itself: nothing is stored, and its number is handed back.
    Notice,
}

/// What the view waits for.
#[derive(Clone, Copy, Debug, PartialEq, Eq, Structural)]
pub enum Pending {
    Nothing,
    /// A message is being removed.
    Removal(Next),
    /// A context is being opened on the status bar, to show the message in.
    Context(StatusText, Purpose),
    /// The message is being pushed.
    Push(StatusText, Purpose),
}

/// What is to be done outside.
#[derive(Clone, Copy, Debug, PartialEq, Eq, Structural)]
pub enum Step {
    /// Nothing is left to do but to draw the view again, if so.
    Done { redraw: bool },
    /// Nothing is left to do. The message that was to be shown has this number,
    /// if there was a status bar to show it on.
    Shown { message: Option<u32> },
    /// Remove a message from the status bar. `removed` goes on from there.
    Remove { context: u32, message: u32 },
    /// Open a context on the status bar. `context_opened` goes on from there.
    OpenContext,
    /// Push a message on the status bar. `message_pushed` goes on from there.
    Push { context: u32, text: StatusText },
}

/// What is to be taken off the status bar.
#[derive(Clone, Copy, Debug, PartialEq, Eq, Structural)]
pub enum Removal {
    /// This message.
    Message { context: u32, message: u32 },
    /// The topmost message of the context.
    Topmost { context: u32 },
}

/// The metrics of a project.
#[derive(Clone, Copy, Debug, PartialEq, Eq, Structural)]
pub struct Metrics {
    pub ascender: Real,
    pub cap_height: Real,
    pub descender: Real,
    pub units_per_em: Real,
    pub x_height: Real,
}

/// Whether a property follows that of the project.
pub open spec fn is_metric(property: Property) -> bool {
    property is Ascender || property is CapHeight || property is Descender
        || property is UnitsPerEm || property is XHeight
}

impl Metrics {
    /// The metrics with another number for one of them.
    pub open spec fn with(self, property: Property, number: Real) -> Metrics {
        match property {
            Property::Ascender => Metrics { ascender: number, ..self },
            Property::CapHeight => Metrics { cap_height: number, ..self },
            Property::Descender => Metrics { descender: number, ..self },
            Property::UnitsPerEm => Metrics { units_per_em: number, ..self },
            Property::XHeight => Metrics { x_height: number, ..self },
            _ => self,
        }
    }
}

/// The state of the view.
#[derive(Debug)]
pub struct GlyphEditViewInner {
    /// There is an application, and with it a status bar.
    pub has_app: bool,
    /// There is a glyph to edit.
    pub has_glyph: bool,
    pub glyph_state: Option<GlyphState>,
    pub statusbar_context_id: Option<u32>,
    /// What the pointer is over, by contour and curve.
    pub hovering: Option<(usize, usize)>,
    pub units_per_em: Real,
    pub descender: Real,
    pub x_height: Real,
    pub cap_height: Real,
    pub ascender: Real,
    pub lock_guidelines: bool,
    pub show_glyph_guidelines: bool,
    pub show_project_guidelines: bool,
    pub show_metrics_guidelines: bool,
    /// The message that says that there is a preview, while there is one.
    pub preview: Option<u32>,
    /// The flags that lock movement, and the message about them.
    pub lock: (Option<u32>, u32),
    /// The flags that movement snaps by, and the message about them.
    pub snap: (Option<u32>, u32),
    /// All the flags that lock movement.
    pub lock_flags: u32,
    /// All the flags that movement can snap by.
    pub snap_flags: u32,
    pub pending: Pending,
}

/// The title of the view: that of the glyph, given how its name is written in
/// markup, or the one that there is without a glyph.
pub open spec fn title(name_markup: Option<Seq<char>>) -> Seq<char> {
    match name_markup {
        Some(name) => "edit <i>"@ + name + "</i>"@,
        None => "edit glyph"@,
    }
}

/// Whether all of `bits` are among `flags`.
pub open spec fn are_flags(bits: u32, flags: u32) -> bool {
    bits & !flags == 0
}

impl GlyphEditViewInner {
    /// Whether a set value and its message agree: there is a message only for
    /// flags that are set, and only where it can be taken back.
    pub open spec fn message_wf(self, entry: (Option<u32>, u32), flags: u32) -> bool {
        &&& are_flags(entry.1, flags)
        &&& entry.0 is Some ==> entry.1 != 0 && self.has_app && self.statusbar_context_id is Some
    }

    /// Whether `text` says what the flags allow.
    pub open spec fn text_wf(self, text: StatusText) -> bool {
        match text {
            StatusText::Preview => true,
            StatusText::Lock(bits) => are_flags(bits, self.lock_flags),
            StatusText::Snap(bits) => are_flags(bits, self.snap_flags),
        }
    }

    /// Whether `text` is worth a message.
    pub open spec fn shows(self, text: StatusText) -> bool {
        &&& self.text_wf(text)
        &&& text != StatusText::Lock(0)
        &&& text != StatusText::Snap(0)
    }

    /// The view is in order: there is no application without a glyph, every
    /// message that is remembered can be taken back, and flags are flags.
    pub open spec fn wf(self) -> bool {
        &&& self.has_app ==> self.has_glyph
        &&& self.glyph_state matches Some(state) ==> state.wf()
        &&& self.preview is Some ==> self.has_app && self.statusbar_context_id is Some
        &&& self.message_wf(self.lock, self.lock_flags)
        &&& self.message_wf(self.snap, self.snap_flags)
        &&& match self.pending {
            Pending::Nothing => true,
            Pending::Removal(Next::Store(text)) => self.text_wf(text) && self.has_app
                && self.statusbar_context_id is Some,
            Pending::Removal(Next::Show(text)) => self.shows(text) && self.has_app
                && self.statusbar_context_id is Some,
            Pending::Context(text, purpose) => (purpose is Value ==> self.shows(text))
                && self.has_app && self.statusbar_context_id is None,
            Pending::Push(text, purpose) => (purpose is Value ==> self.shows(text))
                && self.has_app && self.statusbar_context_id is Some,
        }
    }

    /// The view with the new value stored, and with the message about it.
    pub open spec fn stored(self, text: StatusText, message: Option<u32>) -> GlyphEditViewInner {
        match text {
            StatusText::Preview => GlyphEditViewInner {
                preview: message,
                pending: Pending::Nothing,
                ..self
            },
            StatusText::Lock(bits) => GlyphEditViewInner {
                lock: (message, bits),
                pending: Pending::Nothing,
                ..self
            },
            StatusText::Snap(bits) => GlyphEditViewInner {
                snap: (message, bits),
                pending: Pending::Nothing,
                ..self
            },
        }
    }

    /// What comes of a message once it has its number, or once it is clear that
    /// it gets none: a value is stored with it, and without a value nothing is.
    pub open spec fn ended(self, text: StatusText, purpose: Purpose, message: Option<u32>) -> (
        GlyphEditViewInner,
        Step,
    ) {
        match purpose {
            Purpose::Value => (self.stored(text, message), Step::Done { redraw: true }),
            Purpose::Notice => (
                GlyphEditViewInner { pending: Pending::Nothing, ..self },
                Step::Shown { message },
            ),
        }
    }

    /// What comes of a message that is to be shown: without an application there
    /// is none; otherwise it goes to the view's context on the status bar, which
    /// is opened where there is none yet.
    pub open spec fn showing(self, text: StatusText, purpose: Purpose) -> (
        GlyphEditViewInner,
        Step,
    ) {
        if !self.has_app {
            self.ended(text, purpose, None)
        } else {
            match self.statusbar_context_id {
                None => (
                    GlyphEditViewInner { pending: Pending::Context(text, purpose), ..self },
                    Step::OpenContext,
                ),
                Some(context) => (
                    GlyphEditViewInner { pending: Pending::Push(text, purpose), ..self },
                    Step::Push { context, text },
                ),
            }
        }
    }

    /// What comes next, once an earlier message is gone.
    pub open spec fn following(self, next: Next) -> (GlyphEditViewInner, Step) {
        match next {
            Next::Store(text) => (self.stored(text, None), Step::Done { redraw: true }),
            Next::Show(text) => self.showing(text, Purpose::Value),
        }
    }

    /// What to take off the status bar for `message`: nothing where there is no
    /// application or no context, and the topmost message where none is given.
    pub open spec fn removal(self, message: Option<u32>) -> Option<Removal> {
        match self.statusbar_context_id {
            Some(context) if self.has_app => match message {
                Some(message) => Some(Removal::Message { context, message }),
                None => Some(Removal::Topmost { context }),
            },
            _ => None,
        }
    }

    /// What comes of a new value, where `message` is the message about the one
    /// before: that goes first.
    pub open spec fn replacing(self, message: Option<u32>, next: Next) -> (
        GlyphEditViewInner,
        Step,
    ) {
        match message {
            Some(m) => match self.removal(message) {
                Some(Removal::Message { context, message }) => (
                    GlyphEditViewInner { pending: Pending::Removal(next), ..self },
                    Step::Remove { context, message },
                ),
                _ => self.following(next),
            },
            None => self.following(next),
        }
    }

    /// Whether the value can be given to the property.
    pub open spec fn settable(property: Property, value: PropertyValue) -> bool {
        match property {
            Property::UnitsPerEm
            | Property::XHeight
            | Property::Ascender
            | Property::Descender
            | Property::CapHeight => value is Number,
            Property::LockGuidelines
            | Property::ShowGlyphGuidelines
            | Property::ShowProjectGuidelines
            | Property::ShowMetricsGuidelines
            | Property::Preview => value is Flag,
            Property::Lock | Property::Snap => true,
            Property::Title
            | Property::Closeable
            | Property::IsMenuVisible
            | Property::ActiveTool
            | Property::PanningTool
            | Property::Menubar => false,
        }
    }

    /// What comes of giving flags: nothing where they are none of the flags that
    /// there are; otherwise the message about the flags before goes, and there is
    /// one about the new flags if any is set.
    pub open spec fn setting_flags(
        self,
        value: PropertyValue,
        flags: u32,
        message: Option<u32>,
        text: spec_fn(u32) -> StatusText,
    ) -> (GlyphEditViewInner, Step) {
        match value {
            PropertyValue::Bits(bits) if are_flags(bits, flags) => self.replacing(
                message,
                if bits == 0 {
                    Next::Store(text(bits))
                } else {
                    Next::Show(text(bits))
                },
            ),
            _ => (self, Step::Done { redraw: false }),
        }
    }

    /// What comes of giving a value to a property.
    pub open spec fn setting(self, property: Property, value: PropertyValue) -> (
        GlyphEditViewInner,
        Step,
    ) {
        let done = Step::Done { redraw: false };
        match property {
            Property::UnitsPerEm => (
                GlyphEditViewInner { units_per_em: value->Number_0, ..self },
                done,
            ),
            Property::XHeight => (GlyphEditViewInner { x_height: value->Number_0, ..self }, done),
            Property::Ascender => (GlyphEditViewInner { ascender: value->Number_0, ..self }, done),
            Property::Descender => (
                GlyphEditViewInner { descender: value->Number_0, ..self },
                done,
            ),
            Property::CapHeight => (
                GlyphEditViewInner { cap_height: value->Number_0, ..self },
                done,
            ),
            Property::LockGuidelines => (
                GlyphEditViewInner { lock_guidelines: value->Flag_0, ..self },
                done,
            ),
            Property::ShowGlyphGuidelines => (
                GlyphEditViewInner { show_glyph_guidelines: value->Flag_0, ..self },
                done,
            ),
            Property::ShowProjectGuidelines => (
                GlyphEditViewInner { show_project_guidelines: value->Flag_0, ..self },
                done,
            ),
            Property::ShowMetricsGuidelines => (
                GlyphEditViewInner { show_metrics_guidelines: value->Flag_0, ..self },
                done,
            ),
            Property::Preview => if value->Flag_0 == (self.preview is Some) {
                (self, done)
            } else if value->Flag_0 {
                self.showing(StatusText::Preview, Purpose::Value)
            } else {
                self.replacing(self.preview, Next::Store(StatusText::Preview))
            },
            Property::Lock => self.setting_flags(
                value,
                self.lock_flags,
                self.lock.0,
                |bits: u32| StatusText::Lock(bits),
            ),
            Property::Snap => self.setting_flags(
                value,
                self.snap_flags,
                self.snap.0,
                |bits: u32| StatusText::Snap(bits),
            ),
            _ => (self, done),
        }
    }

    /// What to take off the status bar for a message.
    pub fn pop_statusbar_message(&self, msg: Option<u32>) -> (removal: Option<Removal>)
        ensures
            removal == self.removal(msg),
    {
        if !self.has_app {
            return None;
        }
        match self.statusbar_context_id {
            Some(context) => match msg {
                Some(message) => Some(Removal::Message { context, message }),
                None => Some(Removal::Topmost { context }),
            },
            None => None,
        }
    }

    fn store(&mut self, text: StatusText, message: Option<u32>)
        ensures
            *final(self) == old(self).stored(text, message),
    {
        match text {
            StatusText::Preview => {
                self.preview = message;
            },
            StatusText::Lock(bits) => {
                self.lock = (message, bits);
            },
            StatusText::Snap(bits) => {
                self.snap = (message, bits);
            },
        }
        self.pending = Pending::Nothing;
    }

    /// Starts to show a message on the status bar. Nothing of the view changes for
    /// it but the context on the status bar, which is opened where there is none
    /// yet. Without an application there is no message.
    pub fn new_statusbar_message(&mut self, text: StatusText) -> (step: Step)
        requires
            old(self).wf(),
            old(self).pending == Pending::Nothing,
        ensures
            final(self).wf(),
            (*final(self), step) == old(self).showing(text, Purpose::Notice),
            !old(self).has_app ==> *final(self) == *old(self) && step == (Step::Shown {
                message: None,
            }),
            step matches Step::Push { context, text: shown } ==> shown == text
                && old(self).statusbar_context_id == Some(context),
            *final(self) == (GlyphEditViewInner { pending: final(self).pending, ..*old(self) }),
    {
        self.show(text, Purpose::Notice)
    }

    fn end(&mut self, text: StatusText, purpose: Purpose, message: Option<u32>) -> (step: Step)
        ensures
            (*final(self), step) == old(self).ended(text, purpose, message),
    {
        match purpose {
            Purpose::Value => {
                self.store(text, message);
                Step::Done { redraw: true }
            },
            Purpose::Notice => {
                self.pending = Pending::Nothing;
                Step::Shown { message }
            },
        }
    }

    fn show(&mut self, text: StatusText, purpose: Purpose) -> (step: Step)
        ensures
            (*final(self), step) == old(self).showing(text, purpose),
    {
        if !self.has_app {
            return self.end(text, purpose, None);
        }
        match self.statusbar_context_id {
            None => {
                self.pending = Pending::Context(text, purpose);
                Step::OpenContext
            },
            Some(context) => {
                self.pending = Pending::Push(text, purpose);
                Step::Push { context, text }
            },
        }
    }

    fn follow(&mut self, next: Next) -> (step: Step)
        ensures
            (*final(self), step) == old(self).following(next),
    {
        match next {
            Next::Store(text) => {
                self.store(text, None);
                Step::Done { redraw: true }
            },
            Next::Show(text) => self.show(text, Purpose::Value),
        }
    }

    fn replace(&mut self, message: Option<u32>, next: Next) -> (step: Step)
        ensures
            (*final(self), step) == old(self).replacing(message, next),
    {
        if message.is_some() {
            if let Some(Removal::Message { context, message }) = self.pop_statusbar_message(
                message,
            ) {
                self.pending = Pending::Removal(next);
                return Step::Remove { context, message };
            }
        }
        self.follow(next)
    }

    fn set_flags(&mut self, bits: u32, message: Option<u32>, text: StatusText) -> (step: Step)
        ensures
            (*final(self), step) == old(self).replacing(
                message,
                if bits == 0 {
                    Next::Store(text)
                } else {
                    Next::Show(text)
                },
            ),
    {
        if bits == 0 {
            self.replace(message, Next::Store(text))
        } else {
            self.replace(message, Next::Show(text))
        }
    }

    /// Gives a value to a property.
    pub fn set_property(&mut self, property: Property, value: PropertyValue) -> (step: Step)
        requires
            old(self).wf(),
            old(self).pending == Pending::Nothing,
            Self::settable(property, value),
        ensures
            final(self).wf(),
            (*final(self), step) == old(self).setting(property, value),
            step matches Step::Push { context, text } ==> final(self).pending == Pending::Push(
                text,
                Purpose::Value,
            ) && old(self).statusbar_context_id == Some(context),
            match final(self).pending {
                Pending::Nothing => true,
                Pending::Push(text, _)
                | Pending::Context(text, _)
                | Pending::Removal(Next::Show(text))
                | Pending::Removal(Next::Store(text)) => {
                    &&& property is Preview || property is Lock || property is Snap
                    &&& property is Preview ==> text == StatusText::Preview
                    &&& property is Lock ==> text is Lock && value == PropertyValue::Bits(
                        text->Lock_0,
                    )
                    &&& property is Snap ==> text is Snap && value == PropertyValue::Bits(
                        text->Snap_0,
                    )
                },
            },
    {
        match (property, value) {
            (Property::UnitsPerEm, PropertyValue::Number(number)) => {
                self.units_per_em = number;
            },
            (Property::XHeight, PropertyValue::Number(number)) => {
                self.x_height = number;
            },
            (Property::Ascender, PropertyValue::Number(number)) => {
                self.ascender = number;
            },
            (Property::Descender, PropertyValue::Number(number)) => {
                self.descender = number;
            },
            (Property::CapHeight, PropertyValue::Number(number)) => {
                self.cap_height = number;
            },
            (Property::LockGuidelines, PropertyValue::Flag(flag)) => {
                self.lock_guidelines = flag;
            },
            (Property::ShowGlyphGuidelines, PropertyValue::Flag(flag)) => {
                self.show_glyph_guidelines = flag;
            },
            (Property::ShowProjectGuidelines, PropertyValue::Flag(flag)) => {
                self.show_project_guidelines = flag;
            },
            (Property::ShowMetricsGuidelines, PropertyValue::Flag(flag)) => {
                self.show_metrics_guidelines = flag;
            },
            (Property::Preview, PropertyValue::Flag(flag)) => {
                if flag != self.preview.is_some() {
                    if flag {
                        return self.show(StatusText::Preview, Purpose::Value);
                    }
                    return self.replace(self.preview, Next::Store(StatusText::Preview));
                }
            },
            (Property::Lock, PropertyValue::Bits(bits)) => {
                if bits & !self.lock_flags == 0 {
                    return self.set_flags(bits, self.lock.0, StatusText::Lock(bits));
                }
            },
            (Property::Snap, PropertyValue::Bits(bits)) => {
                if bits & !self.snap_flags == 0 {
                    return self.set_flags(bits, self.snap.0, StatusText::Snap(bits));
                }
            },
            _ => {},
        }
        Step::Done { redraw: false }
    }

    /// Goes on after a message was removed from the status bar.
    pub fn removed(&mut self) -> (step: Step)
        requires
            old(self).wf(),
            old(self).pending is Removal,
        ensures
            final(self).wf(),
            (*final(self), step) == old(self).following(old(self).pending->Removal_0),
            step matches Step::Push { context, text } ==> old(self).pending == Pending::Removal(
                Next::Show(text),
            ) && final(self).pending == Pending::Push(text, Purpose::Value)
                && old(self).statusbar_context_id == Some(context),
    {
        match self.pending {
            Pending::Removal(next) => self.follow(next),
            _ => Step::Done { redraw: false },
        }
    }

    /// Goes on after a context was opened on the status bar.
    pub fn context_opened(&mut self, context: u32) -> (step: Step)
        requires
            old(self).wf(),
            old(self).pending is Context,
        ensures
            final(self).wf(),
            *final(self) == (GlyphEditViewInner {
                statusbar_context_id: Some(context),
                pending: Pending::Push(
                    old(self).pending->Context_0,
                    old(self).pending->Context_1,
                ),
                ..*old(self)
            }),
            step == (Step::Push { context, text: old(self).pending->Context_0 }),
    {
        self.statusbar_context_id = Some(context);
        match self.pending {
            Pending::Context(text, purpose) => self.show(text, purpose),
            _ => Step::Done { redraw: false },
        }
    }

    /// Goes on after a message was pushed on the status bar, which gave it a
    /// number. A value is stored with it, if it is about one.
    pub fn message_pushed(&mut self, message: u32) -> (step: Step)
        requires
            old(self).wf(),
            old(self).pending is Push,
        ensures
            final(self).wf(),
            (*final(self), step) == old(self).ended(
                old(self).pending->Push_0,
                old(self).pending->Push_1,
                Some(message),
            ),
            match old(self).pending {
                Pending::Push(StatusText::Preview, Purpose::Value) => *final(self) == (
                GlyphEditViewInner {
                    preview: Some(message),
                    pending: Pending::Nothing,
                    ..*old(self)
                }),
                Pending::Push(StatusText::Lock(bits), Purpose::Value) => *final(self) == (
                GlyphEditViewInner {
                    lock: (Some(message), bits),
                    pending: Pending::Nothing,
                    ..*old(self)
                }),
                Pending::Push(StatusText::Snap(bits), Purpose::Value) => *final(self) == (
                GlyphEditViewInner {
                    snap: (Some(message), bits),
                    pending: Pending::Nothing,
                    ..*old(self)
                }),
                _ => true,
            },
            old(self).pending->Push_1 is Notice ==> *final(self) == (GlyphEditViewInner {
                pending: Pending::Nothing,
                ..*old(self)
            }) && step == (Step::Shown { message: Some(message) }),
            old(self).pending->Push_1 is Value ==> step == (Step::Done { redraw: true }),
    {
        match self.pending {
            Pending::Push(text, purpose) => self.end(text, purpose, Some(message)),
            _ => Step::Done { redraw: false },
        }
    }

    /// Whether `value` is what a property holds.
    pub open spec fn holds(self, property: Property, value: PropertyValue) -> bool {
        match property {
            Property::Title => value matches PropertyValue::Text(text) && text@ == title(
                self.name_markup(),
            ),
            Property::Closeable | Property::IsMenuVisible => value == PropertyValue::Flag(true),
            Property::Preview => value == PropertyValue::Flag(self.preview is Some),
            Property::UnitsPerEm => value == PropertyValue::Number(self.units_per_em),
            Property::XHeight => value == PropertyValue::Number(self.x_height),
            Property::Ascender => value == PropertyValue::Number(self.ascender),
            Property::Descender => value == PropertyValue::Number(self.descender),
            Property::CapHeight => value == PropertyValue::Number(self.cap_height),
            Property::LockGuidelines => value == PropertyValue::Flag(self.lock_guidelines),
            Property::ShowGlyphGuidelines => value == PropertyValue::Flag(
                self.show_glyph_guidelines,
            ),
            Property::ShowProjectGuidelines => value == PropertyValue::Flag(
                self.show_project_guidelines,
            ),
            Property::ShowMetricsGuidelines => value == PropertyValue::Flag(
                self.show_metrics_guidelines,
            ),
            Property::ActiveTool => self.glyph_state matches Some(state) && value
                == PropertyValue::Tool(spec_tool(state, state.active_tool)),
            Property::PanningTool => self.glyph_state matches Some(state) && value
                == PropertyValue::Tool(spec_tool(state, state.panning_tool)),
            Property::Menubar => value == PropertyValue::Menubar,
            Property::Lock => value == PropertyValue::Bits(self.lock.1),
            Property::Snap => value == PropertyValue::Bits(self.snap.1),
        }
    }

    /// The markup of the edited glyph's name, if there is a session.
    pub open spec fn name_markup(self) -> Option<Seq<char>> {
        match self.glyph_state {
            Some(state) => Some(state.glyph.name_markup@),
            None => None,
        }
    }

    /// What a property holds.
    pub fn property(&self, property: Property) -> (value: PropertyValue)
        requires
            property is ActiveTool || property is PanningTool ==> self.glyph_state is Some,
        ensures
            self.holds(property, value),
            property is Closeable || property is IsMenuVisible ==> value == PropertyValue::Flag(
                true,
            ),
            property is Preview ==> value == PropertyValue::Flag(self.preview is Some),
            property is UnitsPerEm ==> value == PropertyValue::Number(self.units_per_em),
            property is XHeight ==> value == PropertyValue::Number(self.x_height),
            property is Ascender ==> value == PropertyValue::Number(self.ascender),
            property is Descender ==> value == PropertyValue::Number(self.descender),
            property is CapHeight ==> value == PropertyValue::Number(self.cap_height),
            property is LockGuidelines ==> value == PropertyValue::Flag(
                self.lock_guidelines,
            ),
            property is ShowGlyphGuidelines ==> value == PropertyValue::Flag(
                self.show_glyph_guidelines,
            ),
            property is ShowProjectGuidelines ==> value == PropertyValue::Flag(
                self.show_project_guidelines,
            ),
            property is ShowMetricsGuidelines ==> value == PropertyValue::Flag(
                self.show_metrics_guidelines,
            ),
            property is Menubar ==> value == PropertyValue::Menubar,
            property is Lock ==> value == PropertyValue::Bits(self.lock.1),
            property is Snap ==> value == PropertyValue::Bits(self.snap.1),
            property is Title && self.glyph_state is None ==> (value matches PropertyValue::Text(
                text,
            ) && text@ == "edit glyph"@),
            property is Title ==> (self.glyph_state matches Some(state) ==> (
            value matches PropertyValue::Text(text) && text@ == "edit <i>"@
                + state.glyph.name_markup@ + "</i>"@)),
    {
        match property {
            Property::Title => match &self.glyph_state {
                Some(state) => {
                    let mut text = "edit <i>".to_owned();
                    text.append(state.glyph.name_markup.as_str());
                    text.append("</i>");
                    PropertyValue::Text(text)
                },
                None => PropertyValue::Text("edit glyph".to_owned()),
            },
            Property::Closeable => PropertyValue::Flag(true),
            Property::Preview => PropertyValue::Flag(self.preview.is_some()),
            Property::IsMenuVisible => PropertyValue::Flag(true),
            Property::UnitsPerEm => PropertyValue::Number(self.units_per_em),
            Property::XHeight => PropertyValue::Number(self.x_height),
            Property::Ascender => PropertyValue::Number(self.ascender),
            Property::Descender => PropertyValue::Number(self.descender),
            Property::CapHeight => PropertyValue::Number(self.cap_height),
            Property::LockGuidelines => PropertyValue::Flag(self.lock_guidelines),
            Property::ShowGlyphGuidelines => PropertyValue::Flag(self.show_glyph_guidelines),
            Property::ShowProjectGuidelines => PropertyValue::Flag(self.show_project_guidelines),
            Property::ShowMetricsGuidelines => PropertyValue::Flag(self.show_metrics_guidelines),
            Property::ActiveTool => match &self.glyph_state {
                Some(state) => PropertyValue::Tool(tool_for(&state.tools, state.active_tool)),
                None => PropertyValue::Tool(None),
            },
            Property::PanningTool => match &self.glyph_state {
                Some(state) => PropertyValue::Tool(tool_for(&state.tools, state.panning_tool)),
                None => PropertyValue::Tool(None),
            },
            Property::Menubar => PropertyValue::Menubar,
            Property::Lock => PropertyValue::Bits(self.lock.1),
            Property::Snap => PropertyValue::Bits(self.snap.1),
        }
    }

    /// A view that was not built yet. The flags are those that there are to lock
    /// movement and to snap it by.
    pub fn new(lock_flags: u32, snap_flags: u32) -> (view: GlyphEditViewInner)
        ensures
            view.wf(),
            view.pending == Pending::Nothing,
            !view.has_app,
            !view.has_glyph,
            view.glyph_state is None,
            view.statusbar_context_id is None,
            view.hovering is None,
            view.units_per_em == (Real { bits: 0 }),
            view.descender == (Real { bits: 0 }),
            view.x_height == (Real { bits: 0 }),
            view.cap_height == (Real { bits: 0 }),
            view.ascender == (Real { bits: 0 }),
            !view.lock_guidelines,
            !view.show_glyph_guidelines,
            !view.show_project_guidelines,
            !view.show_metrics_guidelines,
            view.preview is None,
            view.lock == (None::<u32>, 0u32),
            view.snap == (None::<u32>, 0u32),
            view.lock_flags == lock_flags,
            view.snap_flags == snap_flags,
    {
        assert(0u32 & !lock_flags == 0) by (bit_vector);
        assert(0u32 & !snap_flags == 0) by (bit_vector);
        let zero = Real { bits: 0 };
        GlyphEditViewInner {
            has_app: false,
            has_glyph: false,
            glyph_state: None,
            statusbar_context_id: None,
            hovering: None,
            units_per_em: zero,
            descender: zero,
            x_height: zero,
            cap_height: zero,
            ascender: zero,
            lock_guidelines: false,
            show_glyph_guidelines: false,
            show_project_guidelines: false,
            show_metrics_guidelines: false,
            preview: None,
            lock: (None, 0),
            snap: (None, 0),
            lock_flags,
            snap_flags,
            pending: Pending::Nothing,
        }
    }

    /// Builds the view: guidelines are locked and shown, and there is no context
    /// on the status bar.
    pub fn constructed(&mut self)
        ensures
            *final(self) == (GlyphEditViewInner {
                lock_guidelines: true,
                show_glyph_guidelines: true,
                show_project_guidelines: true,
                show_metrics_guidelines: true,
                statusbar_context_id: None,
                ..*old(self)
            }),
            old(self).wf() && old(self).statusbar_context_id is None ==> final(self).wf(),
    {
        self.lock_guidelines = true;
        self.show_glyph_guidelines = true;
        self.show_project_guidelines = true;
        self.show_metrics_guidelines = true;
        self.statusbar_context_id = None;
    }

    /// The metrics that the view has.
    pub open spec fn metrics(self) -> Metrics {
        Metrics {
            ascender: self.ascender,
            cap_height: self.cap_height,
            descender: self.descender,
            units_per_em: self.units_per_em,
            x_height: self.x_height,
        }
    }

    /// Gives the view the metrics of the project.
    pub fn follow_project(&mut self, project: Metrics)
        ensures
            *final(self) == (GlyphEditViewInner {
                ascender: project.ascender,
                cap_height: project.cap_height,
                descender: project.descender,
                units_per_em: project.units_per_em,
                x_height: project.x_height,
                ..*old(self)
            }),
            final(self).metrics() == project,
            old(self).wf() ==> final(self).wf(),
    {
        self.ascender = project.ascender;
        self.cap_height = project.cap_height;
        self.descender = project.descender;
        self.units_per_em = project.units_per_em;
        self.x_height = project.x_height;
    }
}

/// The tool that a session has for a type.
pub open spec fn spec_tool(state: GlyphState, tool_type: usize) -> Option<u64> {
    if tools_of(state.tools).contains_key(tool_type) {
        Some(tools_of(state.tools)[tool_type])
    } else {
        None
    }
}

/// A view on a glyph, and how its contents are laid out: how wide they are, and
/// by which em.
#[derive(Debug)]
pub struct GlyphEditView {
    pub inner: GlyphEditViewInner,
    pub content_width: Real,
    pub layout_units_per_em: Real,
}

impl GlyphEditView {
    /// The view is in order, and its contents are laid out by its em.
    pub open spec fn wf(self) -> bool {
        &&& self.inner.wf()
        &&& self.layout_units_per_em == self.inner.units_per_em
    }

    /// Gives a value to a property. The layout follows the em.
    pub fn set_property(&mut self, property: Property, value: PropertyValue) -> (step: Step)
        requires
            old(self).wf(),
            old(self).inner.pending == Pending::Nothing,
            GlyphEditViewInner::settable(property, value),
        ensures
            final(self).wf(),
            (final(self).inner, step) == old(self).inner.setting(property, value),
            final(self).content_width == old(self).content_width,
            final(self).layout_units_per_em == (if property is UnitsPerEm {
                value->Number_0
            } else {
                old(self).layout_units_per_em
            }),
    {
        let step = self.inner.set_property(property, value);
        self.layout_units_per_em = self.inner.units_per_em;
        step
    }

    /// A view to edit `glyph` in, which is a copy of the one that is kept under the
    /// number `reference`. Its contents are as wide as the glyph; where the glyph
    /// has no width, they are as wide as the em, which nothing has set at that
    /// point. Then the view gets the metrics of the project.
    pub fn new(
        glyph: Glyph,
        reference: u64,
        project: Metrics,
        panning_tool: usize,
        lock_flags: u32,
        snap_flags: u32,
    ) -> (view: GlyphEditView)
        requires
            glyph.guidelines.wf(),
        ensures
            view.wf(),
            view.inner.pending == Pending::Nothing,
            view.inner.has_app,
            view.inner.has_glyph,
            view.inner.glyph_state matches Some(state) && {
                &&& state.glyph == glyph
                &&& state.reference == reference
                &&& state.kd_tree@ == insert_all(Map::empty(), glyph.entries())
                &&& state.selection.selected() == Seq::<GlyphPointIndex>::empty()
                &&& state.selection.marked() == Set::<u128>::empty()
                &&& tools_of(state.tools) == Map::<usize, u64>::empty()
                &&& state.active_tool == INVALID_TYPE
                &&& state.panning_tool == panning_tool
            },
            view.inner.statusbar_context_id is None,
            view.inner.hovering is None,
            view.inner.metrics() == project,
            view.layout_units_per_em == project.units_per_em,
            view.inner.lock_guidelines,
            view.inner.show_glyph_guidelines,
            view.inner.show_project_guidelines,
            view.inner.show_metrics_guidelines,
            view.inner.preview is None,
            view.inner.lock == (None::<u32>, 0u32),
            view.inner.snap == (None::<u32>, 0u32),
            view.inner.lock_flags == lock_flags,
            view.inner.snap_flags == snap_flags,
            view.content_width == (match glyph.width {
                Some(width) => width,
                None => Real { bits: 0 },
            }),
    {
        let mut inner = GlyphEditViewInner::new(lock_flags, snap_flags);
        inner.constructed();
        inner.has_glyph = true;
        inner.has_app = true;
        let content_width = match glyph.width {
            Some(width) => width,
            None => inner.units_per_em,
        };
        inner.follow_project(project);
        inner.glyph_state = Some(GlyphState::new(glyph, reference, panning_tool));
        GlyphEditView { inner, content_width, layout_units_per_em: project.units_per_em }
    }
}

/// Lists the properties that follow those of the project, in the order in which
/// they are bound.
pub fn project_properties() -> (properties: Vec<Property>)
    ensures
        properties@ == seq![
            Property::Ascender,
            Property::CapHeight,
            Property::Descender,
            Property::UnitsPerEm,
            Property::XHeight,
        ],
        forall|property: Property| #[trigger]
            properties@.contains(property) == is_metric(property),
{
    let properties = vec![
        Property::Ascender,
        Property::CapHeight,
        Property::Descender,
        Property::UnitsPerEm,
        Property::XHeight,
    ];
    assert(properties@ =~= seq![
        Property::Ascender,
        Property::CapHeight,
        Property::Descender,
        Property::UnitsPerEm,
        Property::XHeight,
    ]);
    assert(properties@[0] is Ascender && properties@[1] is CapHeight && properties@[2] is Descender
        && properties@[3] is UnitsPerEm && properties@[4] is XHeight);
    properties
}

/// What a layer of the canvas shows.
#[derive(Clone, Copy, Debug, PartialEq, Eq, Structural)]
pub enum LayerContent {
    Glyph,
    Guidelines,
    Rules,
}

/// Where a layer lies.
#[derive(Clone, Copy, Debug, PartialEq, Eq, Structural)]
pub enum LayerPlace {
    Below,
    Among,
    Above,
}

/// A layer of the canvas: what it shows and where it lies, whether it is active
/// and whether it is hidden.
#[derive(Clone, Copy, Debug, PartialEq, Eq, Structural)]
pub struct LayerSpec {
    pub content: LayerContent,
    pub place: LayerPlace,
    pub active: bool,
    pub hidden: bool,
}

impl LayerContent {
    /// The name of the layer.
    pub fn name(self) -> (name: &'static str)
        ensures
            self is Glyph ==> name@ == "glyph"@,
            self is Guidelines ==> name@ == "guidelines"@,
            self is Rules ==> name@ == "rules"@,
    {
        match self {
            LayerContent::Glyph => "glyph",
            LayerContent::Guidelines => "guidelines",
            LayerContent::Rules => "rules",
        }
    }
}

/// Lists the layers of the canvas: the glyph, the guidelines below it and the
/// rulers above it. All are active, and all but the first are hidden.
pub fn layers() -> (layers: Vec<LayerSpec>)
    ensures
        layers@ == seq![
            (LayerSpec {
                content: LayerContent::Glyph,
                place: LayerPlace::Among,
                active: true,
                hidden: false,
            }),
            (LayerSpec {
                content: LayerContent::Guidelines,
                place: LayerPlace::Below,
                active: true,
                hidden: true,
            }),
            (LayerSpec {
                content: LayerContent::Rules,
                place: LayerPlace::Above,
                active: true,
                hidden: true,
            }),
        ],
{
    let glyph = LayerSpec {
        content: LayerContent::Glyph,
        place: LayerPlace::Among,
        active: true,
        hidden: false,
    };
    let guidelines = LayerSpec {
        content: LayerContent::Guidelines,
        place: LayerPlace::Below,
        active: true,
        hidden: true,
    };
    let rules = LayerSpec {
        content: LayerContent::Rules,
        place: LayerPlace::Above,
        active: true,
        hidden: true,
    };
    let layers = vec![glyph, guidelines, rules];
    assert(layers@ =~= seq![glyph, guidelines, rules]);
    layers
}

} // verus!
