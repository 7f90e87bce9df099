pub mod info;
pub mod negotiation;
pub mod probe;
