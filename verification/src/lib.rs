//! A sealed-bid procurement auction library.
//!
//! A creator posts a tender with a bidding deadline and a later reveal
//! deadline. Bidders commit to a hidden amount before the bidding deadline,
//! disclose it during the reveal window, and the lowest valid disclosed bid
//! wins once the tender is closed by its creator or the admin.

pub mod api;
pub mod contract;
pub mod encryption;
pub mod errors;
pub mod model;
