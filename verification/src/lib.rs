//! Live state of a paired wireless-earbud accessory: reading its broadcasts,
//! reconciling them with the attached peripheral, and deciding when to pause
//! media and when to warn about a low battery.
pub mod apple_cp;
pub mod backend_service;
pub mod device;
pub mod invariants;
pub mod policy;
pub mod utils;
