pub mod block_size;
pub mod resp;
