//! Verified core of the BZOD URL management platform: request validation,
//! routing decisions, pagination, CSV/metrics rendering and the rules that
//! the web handlers apply before and after they touch storage.

pub mod analytics;
pub mod api;
pub mod audit;
pub mod auth;
pub mod backups;
pub mod bulk;
pub mod cookies;
pub mod create_page;
pub mod create_page_form;
pub mod create_url;
pub mod create_user_url;
pub mod csv;
pub mod deletion;
pub mod export;
pub mod images;
pub mod links;
pub mod listing;
pub mod login;
pub mod models;
pub mod moderation;
pub mod pagination;
pub mod qr;
pub mod records;
pub mod redirect;
pub mod restore;
pub mod settings;
pub mod size;
pub mod system;
pub mod text;
pub mod tokens;
pub mod transfer;
pub mod trend;
pub mod users;
pub mod validation;
