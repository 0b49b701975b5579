pub mod crop;
pub mod encode;
pub mod error;
pub mod pipeline;
pub mod text;
pub mod video;
