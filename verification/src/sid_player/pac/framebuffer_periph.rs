pub mod h_timing;
pub mod h_timing2;
pub mod hv_timing;
pub mod v_timing;
