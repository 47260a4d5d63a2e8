pub mod bootstrap;
pub mod controls;
pub mod cvmod;
pub mod fat;
pub mod player;
pub mod psid;
pub mod usb_msc;
