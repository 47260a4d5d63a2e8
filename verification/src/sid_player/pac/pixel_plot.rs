pub mod plot;
pub mod status;
