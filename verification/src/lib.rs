pub mod text;
pub mod topic;
pub mod listing;
pub mod store;
pub mod flux;
pub mod rbac;
pub mod twitter;
pub mod auth;
pub mod jwt;
pub mod format;
pub mod digest;
pub mod embedded;
pub mod shop;
