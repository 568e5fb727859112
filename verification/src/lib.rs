use vstd::prelude::*;

pub mod model;
pub mod encode;
pub mod error;
pub mod otlp;
pub mod otap;
pub mod testing;
pub mod views;
