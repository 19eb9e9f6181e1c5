//! Core logic of a freedesktop StatusNotifier tray: the watcher-side item
//! registry, the registration-string codec shared by watcher and host, the
//! host-side resolution of registered items into typed remote-object
//! references, and the one-shot readiness gate that orders watcher and host
//! startup. All bus transport lives outside this crate; everything here is
//! plain data and is verified.

pub mod display;
pub mod errors;
pub mod gate;
pub mod host;
pub mod kinds;
pub mod protocol;
pub mod proxy;
pub mod registration;
pub mod text;
pub mod watcher;
