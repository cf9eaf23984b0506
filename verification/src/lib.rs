pub mod machine;
pub mod text;
pub mod numtext;
pub mod assembler;
pub mod devices;
pub mod cli;
pub mod wasm;
