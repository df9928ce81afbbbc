pub mod address;
pub mod laws;
pub mod make_offer;
pub mod state;
pub mod take_offer;
