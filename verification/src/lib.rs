//! The ordinary Signal contract of the router: its typed wire vocabulary,
//! the structural wire encoding of every contract value, the routing codes
//! of the request and reply roots, and the meaning of a received frame.

pub mod contract;
pub mod document;
pub mod frame;
pub mod layout;
pub mod projection;
pub mod refusal;
pub mod routes;
pub mod seats;
pub mod wire;
