//! A passive which-key hint overlay for Zellij: the labels, the ordering of
//! the key rows, the layout arithmetic, the text of the overlay and the
//! plugin's reaction to Zellij's events, each with its contract.

pub mod text;
pub mod model;
pub mod labels;
pub mod order;
pub mod rows;
pub mod layout;
pub mod render;
pub mod plugin;
