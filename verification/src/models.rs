pub mod data;
pub mod groups;
pub mod indicator;
