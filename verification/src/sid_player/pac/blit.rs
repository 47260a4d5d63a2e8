pub mod blit;
pub mod src;
