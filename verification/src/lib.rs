//! Core of a Caps Lock layout switcher.
//!
//! Pressed alone, Caps Lock switches the active keyboard layout; pressed
//! together with Shift it performs the original Caps Lock toggle. This crate
//! holds the part of that system with real decision logic: the classification
//! of incoming key events, the mode-dependent algorithm that picks the layout
//! to move to, and the state store shared between the event-processing path
//! and the tray-menu path. Installing the OS hook, synthesizing input,
//! querying and requesting layouts, the tray icon and the autoload registry
//! entry are left to the surrounding process, which feeds this crate plain
//! values and carries out the actions it decides on.

pub mod autoload;
pub mod classifier;
pub mod engine;
pub mod layout;
pub mod state;
pub mod store;

pub use classifier::Classification;
pub use classifier::KeyEvent;
pub use engine::SwitchAction;
pub use layout::LayoutId;
pub use state::SwitchMode;
pub use state::SwitchState;
pub use store::AppState;
