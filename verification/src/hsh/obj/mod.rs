pub mod sub_hsh_obj;
