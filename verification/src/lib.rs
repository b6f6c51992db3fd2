//! Input, keybinding, configuration and child-process logic of the Strata
//! Wayland compositor, with contracts proved by Verus.

pub mod modifier;
pub mod lua_value;
pub mod ordered_map;
pub mod keyboard;
pub mod config;
pub mod process;
pub mod compositor;
