//! The decision logic of a menu-bar utility that lists mounted volumes and
//! unmounts a removable one on request.
//!
//! The crate holds no I/O. A host program enumerates the volumes, shows the
//! menu that [`menu::build_menu`] returns, feeds timer ticks and selections to
//! [`tray::Tray::step`], and carries out the [`tray::Action`] it gets back.

pub mod units;
pub mod volume;
pub mod menu;
pub mod tray;
pub mod laws;
pub mod icon;
