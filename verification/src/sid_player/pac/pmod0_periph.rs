pub mod cal_b;
pub mod cal_reg;
pub mod info;
