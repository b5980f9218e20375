pub mod mapper0;
pub mod mapper1;
pub mod mapper2;
