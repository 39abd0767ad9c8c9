pub mod crypto_handler;
pub mod editor;
pub mod explorer;
pub mod key_events;
pub mod listing;
pub mod paths;
pub mod permissions;
pub mod ui;
