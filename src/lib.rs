//! Input translation, key remapping and device lifecycle decisions for
//! Ajazz / Mirabox style stream controllers.
pub mod faults;
pub mod images;
pub mod inputs;
pub mod keymap;
pub mod mappings;
pub mod registry;
pub mod report;
pub mod session;
pub mod supervisor;
pub mod watcher;
