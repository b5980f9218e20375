pub mod arguments;
