//! TwitterFlux, the reference application: its roles, requests, page
//! states and module.
pub mod module;
pub mod pages;
pub mod requests;
pub mod roles;
pub mod seed;
