pub mod num_ext;
pub mod rng;
pub mod text;
