pub mod contract;
pub mod lemmas;
pub mod msg;
pub mod state;
