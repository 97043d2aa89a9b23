pub mod channel;
pub mod controller;
pub mod transfer;
pub mod worker;
