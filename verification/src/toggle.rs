//! Two-state controls: checkbox, toggle and switch.
//!
//! Each control notifies its listener (held by the caller) with the new value
//! on every change of state made through it; the methods that change state
//! answer with that value.
use vstd::prelude::*;

verus! {

broadcast use vstd::string::group_string_axioms;

/// The checkbox `v` flipped: the other state, the same label.
pub open spec fn toggled(v: CheckboxView) -> CheckboxView {
    CheckboxView { checked: !v.checked, ..v }
}

/// A labelled checkbox.
pub struct Checkbox {
    checked: bool,
    label: String,
}

/// The abstract state of a [`Checkbox`].
pub struct CheckboxView {
    pub checked: bool,
    pub label: Seq<char>,
}

impl View for Checkbox {
    type V = CheckboxView;

    closed spec fn view(&self) -> CheckboxView {
        CheckboxView { checked: self.checked, label: self.label@ }
    }
}

impl Checkbox {
    /// An unchecked checkbox with the given label.
    pub fn new(label: &str) -> (r: Self)
        ensures
            r@ == (CheckboxView { checked: false, label: label@ }),
    {
        Checkbox { checked: false, label: label.to_string() }
    }

    /// The same checkbox, checked or not.
    pub fn checked(self, checked: bool) -> (r: Self)
        ensures
            r@ == (CheckboxView { checked, ..self@ }),
    {
        Checkbox { checked, ..self }
    }

    /// Whether the checkbox is checked.
    pub fn is_checked(&self) -> (r: bool)
        ensures
            r == self@.checked,
    {
        self.checked
    }

    /// The label.
    pub fn label(&self) -> (r: &str)
        ensures
            r@ == self@.label,
    {
        self.label.as_str()
    }

    /// Flips the checkbox; answers with the new value, due to the listener.
    pub fn toggle(&mut self) -> (notify: bool)
        ensures
            final(self)@ == toggled(old(self)@),
            notify == final(self)@.checked,
    {
        self.checked = !self.checked;
        self.checked
    }

    /// Sets the checkbox; answers with the new value, due to the listener.
    pub fn set_checked(&mut self, checked: bool) -> (notify: bool)
        ensures
            final(self)@ == (CheckboxView { checked, ..old(self)@ }),
            notify == checked,
    {
        self.checked = checked;
        self.checked
    }
}

/// An on/off toggle.
pub struct Toggle {
    is_on: bool,
}

impl View for Toggle {
    type V = bool;

    closed spec fn view(&self) -> bool {
        self.is_on
    }
}

impl Toggle {
    /// A toggle that is off.
    pub fn new() -> (r: Self)
        ensures
            r@ == false,
    {
        Toggle { is_on: false }
    }

    /// The same toggle, on or off.
    pub fn on(self, is_on: bool) -> (r: Self)
        ensures
            r@ == is_on,
    {
        Toggle { is_on }
    }

    /// Whether the toggle is on.
    pub fn is_on(&self) -> (r: bool)
        ensures
            r == self@,
    {
        self.is_on
    }

    /// Flips the toggle; answers with the new value, due to the listener.
    pub fn toggle(&mut self) -> (notify: bool)
        ensures
            final(self)@ == !old(self)@,
            notify == final(self)@,
    {
        self.is_on = !self.is_on;
        self.is_on
    }

    /// Sets the toggle; answers with the new value, due to the listener.
    pub fn set_on(&mut self, on: bool) -> (notify: bool)
        ensures
            final(self)@ == on,
            notify == on,
    {
        self.is_on = on;
        self.is_on
    }
}

impl Default for Toggle {
    /// A toggle that is off.
    fn default() -> (r: Self)
        ensures
            r@ == false,
    {
        Toggle::new()
    }
}

/// A switch, with the value it was given.
pub struct Switch {
    value: bool,
}

impl View for Switch {
    type V = bool;

    closed spec fn view(&self) -> bool {
        self.value
    }
}

impl Switch {
    /// A switch in the given position.
    pub fn new(value: bool) -> (r: Self)
        ensures
            r@ == value,
    {
        Switch { value }
    }

    /// Whether the switch is on.
    pub fn is_on(&self) -> (r: bool)
        ensures
            r == self@,
    {
        self.value
    }

    /// Flips the switch; answers with the new value, due to the listener.
    pub fn toggle(&mut self) -> (notify: bool)
        ensures
            final(self)@ == !old(self)@,
            notify == final(self)@,
    {
        self.value = !self.value;
        self.value
    }

    /// Sets the switch; answers with the new value, due to the listener.
    pub fn set_value(&mut self, value: bool) -> (notify: bool)
        ensures
            final(self)@ == value,
            notify == value,
    {
        self.value = value;
        self.value
    }
}

/// Flipping a checkbox twice brings it back as it was, label and all; the
/// first flip notifies the opposite value, the second the value it started
/// with.
pub proof fn law_toggle_twice_restores(start: CheckboxView)
    ensures
        toggled(toggled(start)) == start,
        toggled(start).checked == !start.checked,
        toggled(toggled(start)).checked == start.checked,
{
}

} // verus!
