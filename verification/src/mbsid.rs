pub mod bank_import;
pub mod control;
pub mod cv;
pub mod fat;
pub mod frame;
pub mod mbsid_sys;
pub mod menu;
pub mod nor_store;
pub mod params;
pub mod partition;
pub mod patch_store;
pub mod regdiff;
pub mod settings_store;
pub mod status;
pub mod sysex_capture;
pub mod uptime;
pub mod usb_msc;
pub mod usb_patch;
