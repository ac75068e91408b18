//! What is shown on screen: areas, components and the listing.

pub mod components;
pub mod layout;
pub mod listing;
