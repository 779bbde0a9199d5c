//! Which of a button's listeners a gesture reaches.
//!
//! The listeners themselves are held by the caller; a button records which
//! of them are registered, and answers which one a gesture is due to.
use vstd::prelude::*;

verus! {

broadcast use vstd::string::group_string_axioms;

/// The gestures that a button tells apart; every other gesture is `Other`.
#[derive(Debug, Clone, Copy, PartialEq, Eq, Structural)]
pub enum GestureKind {
    Tap,
    DoubleTap,
    LongPress,
    Other,
}

/// The listeners a button may have.
#[derive(Debug, Clone, Copy, PartialEq, Eq, Structural)]
pub enum ButtonListener {
    Click,
    DoubleTap,
    LongPress,
}

/// A labelled button and which listeners it has.
pub struct Button {
    label: String,
    click: bool,
    long_press: bool,
    double_tap: bool,
}

/// The abstract state of a [`Button`].
pub struct ButtonView {
    pub label: Seq<char>,
    pub click: bool,
    pub long_press: bool,
    pub double_tap: bool,
}

/// The listener that `gesture` reaches on a button in state `b`, if that
/// listener is registered.
pub open spec fn reached(b: ButtonView, gesture: GestureKind) -> Option<ButtonListener> {
    match gesture {
        GestureKind::Tap => if b.click { Some(ButtonListener::Click) } else { None },
        GestureKind::DoubleTap => if b.double_tap { Some(ButtonListener::DoubleTap) } else { None },
        GestureKind::LongPress => if b.long_press { Some(ButtonListener::LongPress) } else { None },
        GestureKind::Other => None,
    }
}

impl View for Button {
    type V = ButtonView;

    closed spec fn view(&self) -> ButtonView {
        ButtonView {
            label: self.label@,
            click: self.click,
            long_press: self.long_press,
            double_tap: self.double_tap,
        }
    }
}

impl Button {
    /// A button with the given label and a click listener.
    pub fn new(label: &str) -> (r: Self)
        ensures
            r@ == (ButtonView { label: label@, click: true, long_press: false, double_tap: false }),
    {
        Button { label: label.to_string(), click: true, long_press: false, double_tap: false }
    }

    /// The same button with a long-press listener.
    pub fn on_long_press(self) -> (r: Self)
        ensures
            r@ == (ButtonView { long_press: true, ..self@ }),
    {
        Button { long_press: true, ..self }
    }

    /// The same button with a double-tap listener.
    pub fn on_double_tap(self) -> (r: Self)
        ensures
            r@ == (ButtonView { double_tap: true, ..self@ }),
    {
        Button { double_tap: true, ..self }
    }

    /// The label.
    pub fn label(&self) -> (r: &str)
        ensures
            r@ == self@.label,
    {
        self.label.as_str()
    }

    /// Whether a programmatic click reaches a click listener.
    pub fn trigger_click(&self) -> (due: bool)
        ensures
            due == self@.click,
    {
        self.click
    }

    /// The listener that `gesture` reaches, if it is registered.
    pub fn process_gesture(&self, gesture: GestureKind) -> (due: Option<ButtonListener>)
        ensures
            due == reached(self@, gesture),
    {
        match gesture {
            GestureKind::Tap => if self.click {
                Some(ButtonListener::Click)
            } else {
                None
            },
            GestureKind::DoubleTap => if self.double_tap {
                Some(ButtonListener::DoubleTap)
            } else {
                None
            },
            GestureKind::LongPress => if self.long_press {
                Some(ButtonListener::LongPress)
            } else {
                None
            },
            GestureKind::Other => None,
        }
    }

    /// Hands the click listener over to the rendered output: answers whether
    /// there was one; the button has none afterwards.
    pub fn take_click(&mut self) -> (had: bool)
        ensures
            had == old(self)@.click,
            final(self)@ == (ButtonView { click: false, ..old(self)@ }),
    {
        let had = self.click;
        self.click = false;
        had
    }
}

/// A gesture reaches a listener only if that listener is registered, and
/// each of the three gestures reaches its own listener whenever it is
/// registered, whatever other listeners the button has.
pub proof fn law_gesture_reaches_own_listener(b: ButtonView, gesture: GestureKind)
    ensures
        reached(b, gesture) == Some(ButtonListener::Click) ==> gesture == GestureKind::Tap && b.click,
        reached(b, gesture) == Some(ButtonListener::DoubleTap) ==> gesture == GestureKind::DoubleTap
            && b.double_tap,
        reached(b, gesture) == Some(ButtonListener::LongPress) ==> gesture == GestureKind::LongPress
            && b.long_press,
        gesture == GestureKind::Other ==> reached(b, gesture) is None,
        b.click ==> reached(b, GestureKind::Tap) == Some(ButtonListener::Click),
        b.double_tap ==> reached(b, GestureKind::DoubleTap) == Some(ButtonListener::DoubleTap),
        b.long_press ==> reached(b, GestureKind::LongPress) == Some(ButtonListener::LongPress),
{
}

} // verus!
