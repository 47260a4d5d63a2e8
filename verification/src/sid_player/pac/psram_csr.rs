pub mod stats1;
