pub mod instruction;
pub mod cost_model;
pub mod sha1_guest;
pub mod driver;
pub mod bench;
pub mod laws;
pub mod nes_guest;
pub mod names_order;
