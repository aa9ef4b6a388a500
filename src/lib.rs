//! The decision logic of a daemon that keeps USB-PD PPS fast charging enabled on Android
//! devices: parsing kernel uevents and inotify records, the per-platform charging
//! engines, the module's control-file state, and the status tag of `module.prop`.

pub mod engine;
pub mod error;
pub mod manager;
pub mod mode;
pub mod mtk;
pub mod prop;
pub mod qcom;
pub mod sysfs;
pub mod text;
pub mod timestamp;
pub mod uevent;
pub mod usb_type;
pub mod watch;
