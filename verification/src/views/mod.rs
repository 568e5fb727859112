pub mod profiles;
