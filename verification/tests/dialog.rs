use frame::dialog::{
    Dialog, DialogConfig, DialogDisposition, DialogHost, DialogResult, DialogType, Overlay,
};

#[test]
fn dialog_alert_config() {
    let config = DialogConfig::alert("Error", "Something went wrong");
    assert_eq!(config.title, "Error");
    assert_eq!(config.dialog_type, DialogType::Alert);
}

#[test]
fn dialog_confirm_config() {
    let config = DialogConfig::confirm("Delete?", "Are you sure?").confirm_label("Delete");
    assert_eq!(config.dialog_type, DialogType::Confirm);
    assert_eq!(config.confirm_label, "Delete");
}

#[test]
fn dialog_prompt_config() {
    let config = DialogConfig::prompt("Name", "Enter name", "John");
    assert_eq!(config.dialog_type, DialogType::Prompt);
    assert_eq!(config.placeholder, "John");
}

#[test]
fn dialog_show_dismiss() {
    let mut dialog = Dialog::new(DialogConfig::alert("Test", "Message"));
    assert!(!dialog.is_visible());
    dialog.show();
    assert!(dialog.is_visible());
    dialog.dismiss(DialogDisposition::Confirmed);
    assert!(!dialog.is_visible());
}

#[test]
fn dialog_callback_fires() {
    let mut result = None;
    let mut dialog = Dialog::new(DialogConfig::confirm("?", "Sure?")).on_result();
    dialog.show();
    if let Some(d) = dialog.confirm() {
        result = Some(d);
    }
    assert_eq!(result, Some(DialogDisposition::Confirmed));
}

#[test]
fn dialog_cancel_callback() {
    let mut result = None;
    let mut dialog = Dialog::new(DialogConfig::confirm("?", "?")).on_result();
    dialog.show();
    if let Some(d) = dialog.cancel() {
        result = Some(d);
    }
    assert_eq!(result, Some(DialogDisposition::Cancelled));
}

#[test]
fn dialog_host_stack() {
    let mut host = DialogHost::new();
    assert!(!host.is_showing());

    host.show(Dialog::new(DialogConfig::alert("A", "a")));
    host.show(Dialog::new(DialogConfig::alert("B", "b")));
    assert_eq!(host.count(), 2);
    assert_eq!(host.top().unwrap().title(), "B");

    host.dismiss_top(DialogDisposition::Dismissed);
    assert_eq!(host.count(), 1);
    assert_eq!(host.top().unwrap().title(), "A");
}

#[test]
fn dialog_host_dismiss_all() {
    let mut host = DialogHost::new();
    host.show(Dialog::new(DialogConfig::alert("A", "a")));
    host.show(Dialog::new(DialogConfig::alert("B", "b")));
    host.dismiss_all();
    assert!(!host.is_showing());
}

#[test]
fn dialog_prompt_input() {
    let mut dialog = Dialog::new(DialogConfig::prompt("Name", "Enter", "Type here"));
    dialog.show();
    dialog.set_input("Hello World");
    assert_eq!(dialog.input_value(), "Hello World");
}

#[test]
fn overlay_show_dismiss() {
    let mut overlay = Overlay::new().with_opacity(0.7f32.to_bits());
    assert!(!overlay.is_visible());
    overlay.show();
    assert!(overlay.is_visible());
    assert_eq!(f32::from_bits(overlay.opacity()), 0.7);
    overlay.dismiss();
    assert!(!overlay.is_visible());
}

#[test]
fn overlay_dismiss_on_tap() {
    let overlay = Overlay::new().with_dismiss_on_tap(false);
    assert!(!overlay.dismiss_on_tap());
    let overlay = Overlay::new();
    assert!(overlay.dismiss_on_tap());
}

#[test]
fn dialog_config_builder() {
    let config = DialogConfig::alert("Title", "Msg")
        .confirm_label("Got it")
        .backdrop_opacity(0.8f32.to_bits())
        .dismiss_on_backdrop(false);
    assert_eq!(config.confirm_label, "Got it");
    assert_eq!(f32::from_bits(config.backdrop_opacity), 0.8);
    assert!(!config.dismiss_on_backdrop);
}

#[test]
fn dialog_config_defaults() {
    let alert = DialogConfig::default();
    assert_eq!(alert.title, "");
    assert_eq!(alert.confirm_label, "OK");
    assert_eq!(alert.cancel_label, "Cancel");
    assert!(alert.dismiss_on_backdrop);
    assert_eq!(f32::from_bits(alert.backdrop_opacity), 0.5);
    let prompt = DialogConfig::prompt("t", "m", "p").cancel_label("No");
    assert_eq!(prompt.confirm_label, "Submit");
    assert_eq!(prompt.cancel_label, "No");
    assert!(!prompt.dismiss_on_backdrop);
    assert_eq!(DialogConfig::confirm("t", "m").confirm_label, "Confirm");
}

#[test]
fn dialog_listener_told_once() {
    let mut dialog = Dialog::new(DialogConfig::alert("A", "a")).on_result();
    dialog.show();
    assert_eq!(dialog.dismiss(DialogDisposition::Dismissed), Some(DialogDisposition::Dismissed));
    dialog.show();
    assert_eq!(dialog.confirm(), None);
}

#[test]
fn dialog_without_listener_tells_nobody() {
    let mut dialog = Dialog::new(DialogConfig::alert("A", "a"));
    assert_eq!(dialog.confirm(), None);
}

#[test]
fn dialog_show_clears_input() {
    let mut dialog = Dialog::new(DialogConfig::prompt("N", "E", "P"));
    dialog.set_input("typed");
    dialog.show();
    assert_eq!(dialog.input_value(), "");
    assert_eq!(dialog.message(), "E");
    assert_eq!(dialog.dialog_type(), DialogType::Prompt);
    assert_eq!(dialog.confirm_label(), "Submit");
    assert_eq!(dialog.cancel_label(), "Cancel");
    assert!(!dialog.dismiss_on_backdrop());
    assert_eq!(f32::from_bits(dialog.backdrop_opacity()), 0.5);
}

#[test]
fn dialog_host_dismiss_all_notices() {
    let mut host = DialogHost::default();
    host.show(Dialog::new(DialogConfig::alert("A", "a")).on_result());
    host.show(Dialog::new(DialogConfig::alert("B", "b")));
    host.show(Dialog::new(DialogConfig::alert("C", "c")).on_result());
    let due = host.dismiss_all();
    assert_eq!(
        due,
        vec![Some(DialogDisposition::Dismissed), None, Some(DialogDisposition::Dismissed)]
    );
    assert_eq!(host.count(), 0);
}

#[test]
fn dialog_host_dismiss_top_empty_and_listener() {
    let mut host = DialogHost::new();
    assert_eq!(host.dismiss_top(DialogDisposition::Confirmed), None);
    host.show(Dialog::new(DialogConfig::confirm("A", "a")).on_result());
    assert!(host.top().unwrap().is_visible());
    assert_eq!(host.dismiss_top(DialogDisposition::Confirmed), Some(DialogDisposition::Confirmed));
    assert!(host.top().is_none());
}

#[test]
fn dialog_host_top_mut_edits_top() {
    let mut host = DialogHost::new();
    host.show(Dialog::new(DialogConfig::prompt("A", "a", "p")));
    host.show(Dialog::new(DialogConfig::prompt("B", "b", "p")));
    host.top_mut().unwrap().set_input("typed");
    assert_eq!(host.top().unwrap().input_value(), "typed");
    host.dismiss_top(DialogDisposition::Confirmed);
    assert_eq!(host.top().unwrap().input_value(), "");
}

#[test]
fn overlay_listener_told_once() {
    let mut overlay = Overlay::default().on_dismiss();
    overlay.show();
    assert!(overlay.dismiss());
    assert!(!overlay.dismiss());
}

#[test]
fn dialog_result_holds_input() {
    let r = DialogResult {
        disposition: DialogDisposition::Confirmed,
        input_value: Some("x".to_string()),
    };
    assert_eq!(r.disposition, DialogDisposition::Confirmed);
    assert_eq!(r.input_value.as_deref(), Some("x"));
}
