//! Discrete core of the vitusOS shell: window stacking and focus, virtual
//! desktops, the global menu bar's keyboard navigation, the first-boot
//! wizard, shell modes, caches and the small policies behind them.
#![allow(unused_imports)]

pub mod personality;
pub mod keysym;
pub mod text;
pub mod chars;
pub mod keyed;
pub mod app_index;
pub mod context_menu;
pub mod dropdown;
pub mod popover;
pub mod sheet;
pub mod surface;
pub mod tooltip;
pub mod button;
pub mod text_field;
pub mod tint_cache;
pub mod snapshot_cache;
pub mod icon_cache;
pub mod glyph_cache;
pub mod shader_cache;
pub mod cache_keepr;
pub mod workspace;
pub mod wayland;
pub mod ae_shell;
pub mod backend;
pub mod xdg_shell;
pub mod login_manager;
pub mod global_menu;
pub mod panel;
pub mod window;
pub mod window_manager;
pub mod events;
pub mod welcome;
pub mod lock_screen;
pub mod cockpit;
pub mod dock;
pub mod screens;
pub mod notifications;
pub mod shell_controller;
