//! Venue bindings.  Only the computations a binding performs are here;
//! the HTTP calls themselves belong to the host program.

pub mod binance;
