use frame::window::{WindowConfig, WindowHandle, WindowManager};

fn config(title: &str) -> WindowConfig {
    WindowConfig {
        title: title.to_string(),
        width: 800.0f32.to_bits(),
        height: 600.0f32.to_bits(),
        resizable: true,
    }
}

#[test]
fn create_window() {
    let mut wm = WindowManager::new();
    let handle = wm.create_window(config(""));
    wm.set_title(handle, "Test");
    assert_eq!(wm.get(handle).unwrap().title, "Test");
}

#[test]
fn window_manager_resize_and_unknown_handle() {
    let mut wm = WindowManager::new();
    let a = wm.create_window(config("a"));
    let b = wm.create_native_window(config("b"), Some(7));
    assert_ne!(a, b);
    assert_eq!(wm.len(), 2);
    assert!(wm.resize(a, 100.0f32.to_bits(), 50.0f32.to_bits()));
    let entry = wm.get(a).unwrap();
    assert_eq!(f32::from_bits(entry.width), 100.0);
    assert_eq!(f32::from_bits(entry.height), 50.0);
    assert_eq!(entry.title, "a");
    assert_eq!(wm.get(b).unwrap().native, Some(7));
    let natives = wm.on_destroy();
    assert_eq!(natives.len(), 2);
    assert!(natives.contains(&None) && natives.contains(&Some(7)));
    assert_eq!(wm.len(), 0);
    assert!(!wm.set_title(a, "gone"));
    assert!(wm.get(b).is_none());
    assert!(!wm.set_title(WindowHandle { id: 12345 }, "never"));
}

#[test]
fn on_destroy_gives_each_handle_once_per_window() {
    let mut wm = WindowManager::new();
    wm.create_window(config("a"));
    wm.create_native_window(config("b"), Some(3));
    wm.create_window(config("c"));
    wm.create_native_window(config("d"), Some(3));
    wm.create_native_window(config("e"), Some(9));
    let natives = wm.on_destroy();
    assert_eq!(natives.len(), 5);
    assert_eq!(natives.iter().filter(|h| **h == None).count(), 2);
    assert_eq!(natives.iter().filter(|h| **h == Some(3)).count(), 2);
    assert_eq!(natives.iter().filter(|h| **h == Some(9)).count(), 1);
    assert_eq!(wm.len(), 0);
}
