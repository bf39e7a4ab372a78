pub mod decoder;
pub mod instruction;
pub mod laws;
pub mod machine;
