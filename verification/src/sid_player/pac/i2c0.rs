pub mod transaction_reg;
