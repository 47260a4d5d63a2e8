pub mod generic;
pub mod blit;
pub mod framebuffer_periph;
pub mod i2c0;
pub mod line;
pub mod palette_periph;
pub mod pixel_plot;
pub mod play_timer;
pub mod pmod0_periph;
pub mod psram_csr;
pub mod sid_periph;
pub mod usb_msc;
