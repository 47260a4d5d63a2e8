pub mod palette;
pub mod palette_busy;
