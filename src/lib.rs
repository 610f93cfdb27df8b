pub mod pipeline;
pub mod wizard;
