//! A platform-independent model of an application menu bar: menu items with
//! process-unique identifiers, keyboard accelerators with a textual and a
//! native table encoding, and the dispatch rules that turn a native
//! activation notification into either a built-in action or a menu event.

pub mod counter;
pub mod events;
pub mod keycode;
pub mod label;
pub mod accel;
pub mod native_item;
pub mod menu;
pub mod dispatch;
