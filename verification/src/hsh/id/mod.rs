pub mod any_id;
pub mod num_id;
