pub mod address;
pub mod coordinator;
pub mod probe;
pub mod resolver;
pub mod text;
