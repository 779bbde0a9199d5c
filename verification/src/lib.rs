//! Widget state, dialogs, text editing and window bookkeeping of the Frame UI
//! framework, with their behaviour stated in contracts and proved.

pub mod button;
pub mod deep_link;
pub mod dialog;
pub mod dropdown;
pub mod icon;
pub mod keyboard;
pub mod layout;
pub mod native_view;
pub mod platform;
pub mod text_field;
pub mod toggle;
pub mod window;
pub mod window_events;

pub use button::{Button, ButtonListener, GestureKind};
pub use deep_link::{handle_deep_link, register_protocol_scheme, set_deep_link_handler, DeepLinkHandlers};
pub use dialog::{
    Dialog, DialogConfig, DialogDisposition, DialogHost, DialogResult, DialogType, Overlay,
};
pub use dropdown::Dropdown;
pub use icon::IconKind;
pub use layout::{
    BlendMode, CrossAxisAlignment, FlexDirection, FontWeight, ImageFit, MainAxisAlignment,
    ScrollDirection,
};
pub use native_view::{ManagedView, NativeViewManager, ViewHandle};
pub use platform::{WindowsPlatform, WindowsPlatformContext};
pub use text_field::{InputState, TextField};
pub use toggle::{Checkbox, Switch, Toggle};
pub use window::{WindowConfig, WindowEntry, WindowHandle, WindowManager};
