pub mod bridge;
pub mod text;
