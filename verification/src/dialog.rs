//! Modal dialogs, the stack that hosts them, and the backdrop overlay.
//!
//! A dialog may have one listener for its result. The listener itself is held
//! by the caller; a dialog records whether one is still waiting, and the
//! operations that close a dialog answer with the disposition that is due to
//! it. A listener is told at most once.
use vstd::prelude::*;

verus! {

broadcast use vstd::string::group_string_axioms;

/// How a dialog was closed.
#[derive(Debug, Clone, Copy, PartialEq, Eq, Structural)]
pub enum DialogDisposition {
    Confirmed,
    Cancelled,
    Dismissed,
}

/// How a dialog was closed, with the text entered into a prompt.
pub struct DialogResult {
    pub disposition: DialogDisposition,
    pub input_value: Option<String>,
}

/// The kinds of dialog.
#[derive(Debug, Clone, Copy, PartialEq, Eq, Structural)]
pub enum DialogType {
    Alert,
    Confirm,
    Prompt,
    Custom,
}

/// The bit pattern of the `f32` value 0.5, the default backdrop opacity.
pub const HALF_OPACITY_BITS: u32 = 0x3f00_0000u32;

/// What a dialog shows and how it may be closed. `backdrop_opacity` is the
/// bit pattern of an `f32` (as `f32::to_bits` gives it), carried unchanged.
pub struct DialogConfig {
    pub title: String,
    pub message: String,
    pub dialog_type: DialogType,
    pub confirm_label: String,
    pub cancel_label: String,
    pub placeholder: String,
    pub dismiss_on_backdrop: bool,
    pub backdrop_opacity: u32,
}

/// The configuration that the three constructors share, for the given kind,
/// title, message, confirm label and placeholder.
pub open spec fn config_with(
    config: DialogConfig,
    dialog_type: DialogType,
    title: Seq<char>,
    message: Seq<char>,
    confirm_label: Seq<char>,
    placeholder: Seq<char>,
    dismiss_on_backdrop: bool,
) -> bool {
    &&& config.title@ == title
    &&& config.message@ == message
    &&& config.dialog_type == dialog_type
    &&& config.confirm_label@ == confirm_label
    &&& config.cancel_label@ == "Cancel"@
    &&& config.placeholder@ == placeholder
    &&& config.dismiss_on_backdrop == dismiss_on_backdrop
    &&& config.backdrop_opacity == HALF_OPACITY_BITS
}

impl DialogConfig {
    /// An alert: one "OK" button, dismissed by a tap on the backdrop.
    pub fn alert(title: &str, message: &str) -> (r: Self)
        ensures
            config_with(r, DialogType::Alert, title@, message@, "OK"@, Seq::empty(), true),
    {
        proof {
            reveal_strlit("OK");
            reveal_strlit("Cancel");
        }
        let placeholder = String::new();
        DialogConfig {
            title: title.to_string(),
            message: message.to_string(),
            dialog_type: DialogType::Alert,
            confirm_label: "OK".to_string(),
            cancel_label: "Cancel".to_string(),
            placeholder,
            dismiss_on_backdrop: true,
            backdrop_opacity: HALF_OPACITY_BITS,
        }
    }

    /// A confirmation: "Confirm" and "Cancel", dismissed by a tap on the
    /// backdrop.
    pub fn confirm(title: &str, message: &str) -> (r: Self)
        ensures
            config_with(r, DialogType::Confirm, title@, message@, "Confirm"@, Seq::empty(), true),
    {
        proof {
            reveal_strlit("Confirm");
            reveal_strlit("Cancel");
        }
        let placeholder = String::new();
        DialogConfig {
            title: title.to_string(),
            message: message.to_string(),
            dialog_type: DialogType::Confirm,
            confirm_label: "Confirm".to_string(),
            cancel_label: "Cancel".to_string(),
            placeholder,
            dismiss_on_backdrop: true,
            backdrop_opacity: HALF_OPACITY_BITS,
        }
    }

    /// A prompt for text: "Submit" and "Cancel", not dismissed by a tap on
    /// the backdrop.
    pub fn prompt(title: &str, message: &str, placeholder: &str) -> (r: Self)
        ensures
            config_with(r, DialogType::Prompt, title@, message@, "Submit"@, placeholder@, false),
    {
        proof {
            reveal_strlit("Submit");
            reveal_strlit("Cancel");
        }
        DialogConfig {
            title: title.to_string(),
            message: message.to_string(),
            dialog_type: DialogType::Prompt,
            confirm_label: "Submit".to_string(),
            cancel_label: "Cancel".to_string(),
            placeholder: placeholder.to_string(),
            dismiss_on_backdrop: false,
            backdrop_opacity: HALF_OPACITY_BITS,
        }
    }

    /// The same configuration with another confirm label.
    pub fn confirm_label(self, label: &str) -> (r: Self)
        ensures
            r == (DialogConfig { confirm_label: r.confirm_label, ..self }),
            r.confirm_label@ == label@,
    {
        DialogConfig { confirm_label: label.to_string(), ..self }
    }

    /// The same configuration with another cancel label.
    pub fn cancel_label(self, label: &str) -> (r: Self)
        ensures
            r == (DialogConfig { cancel_label: r.cancel_label, ..self }),
            r.cancel_label@ == label@,
    {
        DialogConfig { cancel_label: label.to_string(), ..self }
    }

    /// The same configuration, dismissed by a tap on the backdrop or not.
    pub fn dismiss_on_backdrop(self, dismiss: bool) -> (r: Self)
        ensures
            r == (DialogConfig { dismiss_on_backdrop: dismiss, ..self }),
    {
        DialogConfig { dismiss_on_backdrop: dismiss, ..self }
    }

    /// The same configuration with another backdrop opacity (`f32` bits).
    pub fn backdrop_opacity(self, opacity: u32) -> (r: Self)
        ensures
            r == (DialogConfig { backdrop_opacity: opacity, ..self }),
    {
        DialogConfig { backdrop_opacity: opacity, ..self }
    }
}

impl Default for DialogConfig {
    /// An alert with empty title and message.
    fn default() -> (r: Self)
        ensures
            config_with(r, DialogType::Alert, Seq::empty(), Seq::empty(), "OK"@, Seq::empty(), true),
    {
        proof {
            reveal_strlit("");
            assert(""@ =~= Seq::<char>::empty());
        }
        DialogConfig::alert("", "")
    }
}

/// The abstract state of a [`Dialog`].
pub struct DialogView {
    pub config: DialogConfig,
    pub visible: bool,
    pub input: Seq<char>,
    pub listening: bool,
}

/// A dialog: its configuration, whether it is shown, the text typed into it,
/// and whether a listener still waits for its result.
pub struct Dialog {
    config: DialogConfig,
    visible: bool,
    input_value: String,
    listening: bool,
}

impl View for Dialog {
    type V = DialogView;

    closed spec fn view(&self) -> DialogView {
        DialogView {
            config: self.config,
            visible: self.visible,
            input: self.input_value@,
            listening: self.listening,
        }
    }
}

/// The disposition that closing a dialog in state `d` with `disposition`
/// hands to its listener, if one waits.
pub open spec fn notice(d: DialogView, disposition: DialogDisposition) -> Option<DialogDisposition> {
    if d.listening {
        Some(disposition)
    } else {
        None
    }
}

/// The state of a dialog after it is closed.
pub open spec fn closed(d: DialogView) -> DialogView {
    DialogView { visible: false, listening: false, ..d }
}

impl Dialog {
    /// A hidden dialog with the given configuration, no input and no listener.
    pub fn new(config: DialogConfig) -> (r: Self)
        ensures
            r@ == (DialogView { config, visible: false, input: Seq::empty(), listening: false }),
    {
        Dialog { config, visible: false, input_value: String::new(), listening: false }
    }

    /// The same dialog with a listener waiting for its result.
    pub fn on_result(self) -> (r: Self)
        ensures
            r@ == (DialogView { listening: true, ..self@ }),
    {
        Dialog { listening: true, ..self }
    }

    /// Shows the dialog with empty input.
    pub fn show(&mut self)
        ensures
            final(self)@ == (DialogView { visible: true, input: Seq::empty(), ..old(self)@ }),
    {
        self.visible = true;
        self.input_value = String::new();
    }

    /// Hides the dialog; answers with the disposition due to the listener,
    /// which is then no longer waiting.
    pub fn dismiss(&mut self, disposition: DialogDisposition) -> (due: Option<DialogDisposition>)
        ensures
            final(self)@ == closed(old(self)@),
            due == notice(old(self)@, disposition),
    {
        self.visible = false;
        if self.listening {
            self.listening = false;
            Some(disposition)
        } else {
            None
        }
    }

    /// Closes the dialog as confirmed.
    pub fn confirm(&mut self) -> (due: Option<DialogDisposition>)
        ensures
            final(self)@ == closed(old(self)@),
            due == notice(old(self)@, DialogDisposition::Confirmed),
    {
        self.dismiss(DialogDisposition::Confirmed)
    }

    /// Closes the dialog as cancelled.
    pub fn cancel(&mut self) -> (due: Option<DialogDisposition>)
        ensures
            final(self)@ == closed(old(self)@),
            due == notice(old(self)@, DialogDisposition::Cancelled),
    {
        self.dismiss(DialogDisposition::Cancelled)
    }

    /// Whether the dialog is shown.
    pub fn is_visible(&self) -> (r: bool)
        ensures
            r == self@.visible,
    {
        self.visible
    }

    /// The title.
    pub fn title(&self) -> (r: &str)
        ensures
            r@ == self@.config.title@,
    {
        self.config.title.as_str()
    }

    /// The message.
    pub fn message(&self) -> (r: &str)
        ensures
            r@ == self@.config.message@,
    {
        self.config.message.as_str()
    }

    /// The kind of dialog.
    pub fn dialog_type(&self) -> (r: DialogType)
        ensures
            r == self@.config.dialog_type,
    {
        self.config.dialog_type
    }

    /// The text typed into the dialog.
    pub fn input_value(&self) -> (r: &str)
        ensures
            r@ == self@.input,
    {
        self.input_value.as_str()
    }

    /// The label of the confirm button.
    pub fn confirm_label(&self) -> (r: &str)
        ensures
            r@ == self@.config.confirm_label@,
    {
        self.config.confirm_label.as_str()
    }

    /// The label of the cancel button.
    pub fn cancel_label(&self) -> (r: &str)
        ensures
            r@ == self@.config.cancel_label@,
    {
        self.config.cancel_label.as_str()
    }

    /// The backdrop opacity (`f32` bits).
    pub fn backdrop_opacity(&self) -> (r: u32)
        ensures
            r == self@.config.backdrop_opacity,
    {
        self.config.backdrop_opacity
    }

    /// Whether a tap on the backdrop dismisses the dialog.
    pub fn dismiss_on_backdrop(&self) -> (r: bool)
        ensures
            r == self@.config.dismiss_on_backdrop,
    {
        self.config.dismiss_on_backdrop
    }

    /// Replaces the text typed into the dialog.
    pub fn set_input(&mut self, value: &str)
        ensures
            final(self)@ == (DialogView { input: value@, ..old(self)@ }),
    {
        self.input_value = value.to_string();
    }
}

/// A listener is told at most once: once a dialog is closed, closing it again
/// is due to nobody.
pub proof fn law_listener_told_once(d: DialogView, first: DialogDisposition, second: DialogDisposition)
    ensures
        notice(closed(d), second) == None::<DialogDisposition>,
        notice(d, first) is Some <==> d.listening,
{
}

/// The dialogs stacked on one another, the last one on top.
pub struct DialogHost {
    dialogs: Vec<Dialog>,
}

/// The notices due, top first, when every dialog of `stack` is closed with
/// `Dismissed`.
pub open spec fn dismissal_notices(stack: Seq<DialogView>) -> Seq<Option<DialogDisposition>> {
    Seq::new(stack.len(), |i: int| notice(stack[stack.len() - 1 - i], DialogDisposition::Dismissed))
}

impl View for DialogHost {
    type V = Seq<DialogView>;

    closed spec fn view(&self) -> Seq<DialogView> {
        self.dialogs@.map_values(|d: Dialog| d@)
    }
}

impl DialogHost {
    /// A host with no dialog.
    pub fn new() -> (r: Self)
        ensures
            r@ == Seq::<DialogView>::empty(),
    {
        let r = DialogHost { dialogs: Vec::new() };
        assert(r@ =~= Seq::<DialogView>::empty());
        r
    }

    /// Shows `dialog` on top of the others.
    pub fn show(&mut self, dialog: Dialog)
        ensures
            final(self)@ == old(self)@.push(DialogView { visible: true, input: Seq::empty(), ..dialog@ }),
    {
        let mut dialog = dialog;
        dialog.show();
        self.dialogs.push(dialog);
        assert(self@ =~= old(self)@.push(dialog@));
    }

    /// Closes the top dialog, if there is one, and takes it off the stack;
    /// answers with the disposition due to its listener.
    pub fn dismiss_top(&mut self, disposition: DialogDisposition) -> (due: Option<DialogDisposition>)
        ensures
            old(self)@.len() == 0 ==> final(self)@ == old(self)@ && due is None,
            old(self)@.len() > 0 ==> final(self)@ == old(self)@.drop_last() && due == notice(
                old(self)@.last(),
                disposition,
            ),
    {
        match self.dialogs.pop() {
            Some(dialog) => {
                let mut dialog = dialog;
                assert(self@ =~= old(self)@.drop_last());
                dialog.dismiss(disposition)
            },
            None => None,
        }
    }

    /// The top dialog.
    pub fn top(&self) -> (r: Option<&Dialog>)
        ensures
            self@.len() == 0 ==> r is None,
            self@.len() > 0 ==> r is Some && r.unwrap()@ == self@.last(),
    {
        self.dialogs.as_slice().last()
    }

    /// The top dialog, to be changed in place.
    pub fn top_mut(&mut self) -> (r: Option<&mut Dialog>)
        ensures
            old(self)@.len() == 0 ==> r is None && final(self)@ == old(self)@,
            old(self)@.len() > 0 ==> r is Some && r.unwrap()@ == old(self)@.last()
                && final(self)@ == old(self)@.update(
                old(self)@.len() - 1,
                final(r.unwrap())@,
            ),
    {
        self.dialogs.as_mut_slice().last_mut()
    }

    /// Whether any dialog is shown.
    pub fn is_showing(&self) -> (r: bool)
        ensures
            r == (self@.len() > 0),
    {
        !self.dialogs.is_empty()
    }

    /// How many dialogs are stacked.
    pub fn count(&self) -> (r: usize)
        ensures
            r == self@.len(),
    {
        self.dialogs.len()
    }

    /// Closes every dialog, top first, as dismissed; answers with the
    /// notices due, in that order.
    pub fn dismiss_all(&mut self) -> (due: Vec<Option<DialogDisposition>>)
        ensures
            final(self)@ == Seq::<DialogView>::empty(),
            due@ == dismissal_notices(old(self)@),
    {
        let mut due: Vec<Option<DialogDisposition>> = Vec::new();
        let ghost stack = self@;
        while !self.dialogs.is_empty()
            invariant
                self@ == stack.take(stack.len() - due@.len()),
                due@.len() <= stack.len(),
                due@ == dismissal_notices(stack).take(due@.len() as int),
            decreases self@.len(),
        {
            let notice = self.dismiss_top(DialogDisposition::Dismissed);
            due.push(notice);
            assert(self@ =~= stack.take(stack.len() - due@.len()));
            assert(due@ =~= dismissal_notices(stack).take(due@.len() as int));
        }
        assert(due@ =~= dismissal_notices(stack));
        due
    }
}

impl Default for DialogHost {
    /// A host with no dialog.
    fn default() -> (r: Self)
        ensures
            r@ == Seq::<DialogView>::empty(),
    {
        DialogHost::new()
    }
}

/// A dialog shown and then dismissed from the top leaves the stack as it was
/// and tells that dialog's listener, if any, how it was closed.
pub proof fn law_show_then_dismiss_top(
    stack: Seq<DialogView>,
    dialog: DialogView,
    disposition: DialogDisposition,
)
    ensures
        ({
            let shown = stack.push(DialogView { visible: true, input: Seq::empty(), ..dialog });
            &&& shown.drop_last() == stack
            &&& notice(shown.last(), disposition) == notice(dialog, disposition)
        }),
{
    let shown = stack.push(DialogView { visible: true, input: Seq::empty(), ..dialog });
    assert(shown.drop_last() =~= stack);
}

/// Dismissing every dialog tells each waiting listener, and only those,
/// exactly once that its dialog was dismissed.
pub proof fn law_dismiss_all_tells_each_listener(stack: Seq<DialogView>, i: int)
    requires
        0 <= i < stack.len(),
    ensures
        dismissal_notices(stack).len() == stack.len(),
        stack[i].listening <==> dismissal_notices(stack)[stack.len() - 1 - i] == Some(
            DialogDisposition::Dismissed,
        ),
        !stack[i].listening <==> dismissal_notices(stack)[stack.len() - 1 - i] is None,
{
}

/// The backdrop behind a modal: whether it is shown, its opacity (`f32`
/// bits), whether a tap dismisses it, and whether a listener waits for its
/// dismissal.
pub struct Overlay {
    visible: bool,
    opacity: u32,
    dismiss_on_tap: bool,
    listening: bool,
}

/// The abstract state of an [`Overlay`].
pub struct OverlayView {
    pub visible: bool,
    pub opacity: u32,
    pub dismiss_on_tap: bool,
    pub listening: bool,
}

impl View for Overlay {
    type V = OverlayView;

    closed spec fn view(&self) -> OverlayView {
        OverlayView {
            visible: self.visible,
            opacity: self.opacity,
            dismiss_on_tap: self.dismiss_on_tap,
            listening: self.listening,
        }
    }
}

impl Overlay {
    /// A hidden, half-opaque overlay that a tap dismisses, with no listener.
    pub fn new() -> (r: Self)
        ensures
            r@ == (OverlayView {
                visible: false,
                opacity: HALF_OPACITY_BITS,
                dismiss_on_tap: true,
                listening: false,
            }),
    {
        Overlay { visible: false, opacity: HALF_OPACITY_BITS, dismiss_on_tap: true, listening: false }
    }

    /// The same overlay with another opacity (`f32` bits).
    pub fn with_opacity(self, opacity: u32) -> (r: Self)
        ensures
            r@ == (OverlayView { opacity, ..self@ }),
    {
        Overlay { opacity, ..self }
    }

    /// The same overlay, dismissed by a tap or not.
    pub fn with_dismiss_on_tap(self, dismiss: bool) -> (r: Self)
        ensures
            r@ == (OverlayView { dismiss_on_tap: dismiss, ..self@ }),
    {
        Overlay { dismiss_on_tap: dismiss, ..self }
    }

    /// The same overlay with a listener waiting for its dismissal.
    pub fn on_dismiss(self) -> (r: Self)
        ensures
            r@ == (OverlayView { listening: true, ..self@ }),
    {
        Overlay { listening: true, ..self }
    }

    /// Shows the overlay.
    pub fn show(&mut self)
        ensures
            final(self)@ == (OverlayView { visible: true, ..old(self)@ }),
    {
        self.visible = true;
    }

    /// Hides the overlay; answers whether a listener is due, which is then no
    /// longer waiting.
    pub fn dismiss(&mut self) -> (due: bool)
        ensures
            final(self)@ == (OverlayView { visible: false, listening: false, ..old(self)@ }),
            due == old(self)@.listening,
    {
        self.visible = false;
        let due = self.listening;
        self.listening = false;
        due
    }

    /// Whether the overlay is shown.
    pub fn is_visible(&self) -> (r: bool)
        ensures
            r == self@.visible,
    {
        self.visible
    }

    /// The opacity (`f32` bits).
    pub fn opacity(&self) -> (r: u32)
        ensures
            r == self@.opacity,
    {
        self.opacity
    }

    /// Whether a tap dismisses the overlay.
    pub fn dismiss_on_tap(&self) -> (r: bool)
        ensures
            r == self@.dismiss_on_tap,
    {
        self.dismiss_on_tap
    }
}

impl Default for Overlay {
    /// A hidden, half-opaque overlay that a tap dismisses.
    fn default() -> (r: Self)
        ensures
            r@ == (OverlayView {
                visible: false,
                opacity: HALF_OPACITY_BITS,
                dismiss_on_tap: true,
                listening: false,
            }),
    {
        Overlay::new()
    }
}

} // verus!
