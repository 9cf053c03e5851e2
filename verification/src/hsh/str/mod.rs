pub mod str_alg;
pub mod str_id;
pub mod str_obj;
