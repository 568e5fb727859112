pub mod profiles;
pub mod round_trip;
