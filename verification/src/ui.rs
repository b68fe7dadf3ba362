pub mod layout;
pub mod menu;
pub mod navbar;
