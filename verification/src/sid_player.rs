pub mod controls;
pub mod fat;
pub mod pac;
pub mod psid;
pub mod sid_scan;
