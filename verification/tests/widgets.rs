use frame::deep_link::{handle_deep_link, register_protocol_scheme, set_deep_link_handler, DeepLinkHandlers};
use frame::dropdown::Dropdown;
use frame::icon::IconKind;
use frame::layout::{
    gap_count, grid_columns, grid_row_of, grid_rows, list_row_count, FontWeight, ScrollDirection,
};
use frame::native_view::{NativeViewManager, ViewHandle};
use frame::platform::{WindowsPlatform, WindowsPlatformContext};
use std::cell::RefCell;
use std::rc::Rc;

#[test]
fn icon_symbols() {
    assert_eq!(IconKind::ArrowLeft.symbol(), "←");
    assert_eq!(IconKind::Check.symbol(), "✓");
    assert_eq!(IconKind::Plus.symbol(), "+");
    assert_eq!(IconKind::Minus.symbol(), "−");
    assert_eq!(IconKind::Forward.symbol(), "►");
    assert_eq!(IconKind::Menu.symbol().chars().count(), 1);
}

#[test]
fn grid_arithmetic() {
    assert_eq!(grid_columns(0), 1);
    assert_eq!(grid_columns(3), 3);
    assert_eq!(grid_rows(7, 3), 3);
    assert_eq!(grid_rows(6, 3), 2);
    assert_eq!(grid_rows(0, 3), 0);
    assert_eq!(grid_row_of(5, 3), 1);
    assert_eq!(gap_count(0), 0);
    assert_eq!(gap_count(4), 3);
    assert_eq!(list_row_count(2, 5), 5);
    assert_eq!(list_row_count(9, 5), 9);
}

#[test]
fn scroll_direction_axes() {
    assert!(ScrollDirection::Vertical.scrolls_vertically());
    assert!(!ScrollDirection::Vertical.scrolls_horizontally());
    assert!(ScrollDirection::Horizontal.scrolls_horizontally());
    assert!(!ScrollDirection::Horizontal.scrolls_vertically());
    assert!(ScrollDirection::Both.scrolls_horizontally() && ScrollDirection::Both.scrolls_vertically());
    assert_eq!(FontWeight::default(), FontWeight::Normal);
}

#[test]
fn dropdown_display_text() {
    let options = vec!["One".to_string(), "Three".to_string()];
    let d = Dropdown::new(options.clone());
    assert_eq!(d.display_text(), "Select...");
    let d = Dropdown::new(options.clone()).placeholder("Pick");
    assert_eq!(d.display_text(), "Pick");
    let d = Dropdown::new(options.clone()).selected(1);
    assert_eq!(d.display_text(), "Three");
    let d = Dropdown::new(options.clone()).selected(5).placeholder("Pick");
    assert_eq!(d.display_text(), "Pick");
    assert_eq!(d.selected_index(), Some(5));
}

#[test]
fn dropdown_longest_option() {
    let d = Dropdown::new(vec!["ab".to_string(), "abcd".to_string()]);
    assert_eq!(d.longest_option_len(), 4);
    let d = Dropdown::new(vec!["ab".to_string()]).placeholder("Choose one");
    assert_eq!(d.longest_option_len(), 10);
    assert_eq!(Dropdown::new(Vec::new()).longest_option_len(), 0);
}

#[test]
fn deep_link_delivery() {
    let seen = Rc::new(RefCell::new(Vec::new()));
    let mut handlers = DeepLinkHandlers::new();
    assert!(!handle_deep_link(&handlers, "app://early".to_string()));
    let s = seen.clone();
    set_deep_link_handler(&mut handlers, move |url: String| s.borrow_mut().push(url));
    assert!(handle_deep_link(&handlers, "app://home".to_string()));
    assert_eq!(*seen.borrow(), vec!["app://home".to_string()]);
    register_protocol_scheme("app");
}

#[test]
fn native_view_ids_are_fresh() {
    let mut m: NativeViewManager<(i32, i32), &str> = NativeViewManager::new();
    let a = m.embed((0, 0), "web");
    let b = m.embed((1, 1), "video");
    assert_eq!(a, ViewHandle { id: 1 });
    assert_eq!(b, ViewHandle { id: 2 });
    assert!(m.update_rect(&a, (5, 5)));
    assert_eq!(m.get(&a).unwrap().rect, (5, 5));
    assert_eq!(m.get(&a).unwrap().kind, "web");
    let removed = m.remove(&a).unwrap();
    assert_eq!(removed.rect, (5, 5));
    assert!(!m.update_rect(&a, (9, 9)));
    assert!(m.remove(&a).is_none());
    let c = m.embed((2, 2), "map");
    assert_eq!(c.id, 3);
    assert_eq!(m.len(), 2);
}

#[test]
fn windows_platform_life_cycle() {
    let mut p = WindowsPlatform::new();
    assert!(!p.is_initialized());
    p.init();
    p.on_pause();
    p.on_resume();
    assert!(p.is_initialized());
    p.on_destroy();
    assert!(!p.is_initialized());
    assert!(!WindowsPlatform::default().is_initialized());
}

#[test]
fn windows_platform_context_views() {
    let mut ctx: WindowsPlatformContext<u32, u8> = WindowsPlatformContext::new();
    let h = ctx.embed_native_view(10, 1);
    assert_eq!(h.id, 1);
    assert!(ctx.update_native_view_rect(&h, 20));
    let v = ctx.remove_native_view(&h).unwrap();
    assert_eq!((v.rect, v.kind), (20, 1));
    assert!(ctx.remove_native_view(&h).is_none());
}
