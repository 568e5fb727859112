pub mod profiles;
pub mod regroup;
pub mod tree_laws;
pub mod validate;
