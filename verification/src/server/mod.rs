pub mod errors;
pub mod registry;
pub mod state;
