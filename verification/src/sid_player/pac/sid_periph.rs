pub mod midi_read;
pub mod midi_write;
pub mod transaction_data;
pub mod usb_midi_host;
