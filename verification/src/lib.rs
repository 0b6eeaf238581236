pub mod backup;
pub mod collection;
pub mod cover;
pub mod cover_upload;
pub mod date;
pub mod error;
pub mod input;
pub mod isbn;
pub mod label_order;
pub mod listing;
pub mod models;
pub mod rotation;
pub mod search;
pub mod text;
pub mod update_backup;
pub mod volume_label;
