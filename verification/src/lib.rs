//! Decision logic of a pan/tilt/zoom camera controller.
//!
//! The crate holds the parts of the controller that compute: the catalog of
//! the three adjustable controls, the resolution of a control name against
//! the names a device reports, the record of the selected device, the
//! labels of the enumerated cameras, the steps of one control command, and
//! the values the settings store is seeded with. Opening devices, talking
//! to the driver and persisting the store are left to the caller.

pub mod catalog;
pub mod device;
pub mod json;
pub mod listing;
pub mod resolver;
pub mod session;
pub mod settings;
