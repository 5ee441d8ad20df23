//! Verified core of a desktop environment: virtual desktops, window tiling,
//! the settings store and the small protocols around them.
pub mod desktop;
pub mod json;
pub mod layout;
pub mod shell;
pub mod store;
pub mod text;
pub mod tiling;
pub mod wallpaper;
pub mod weather;
pub mod widgets;
pub mod windows;
