//! ShopFlux, the e-commerce example application: its requests, page
//! states, the state transitions of its BFF handlers, its translations and
//! its module.
pub mod bff;
pub mod calls;
pub mod helpers;
pub mod i18n;
pub mod module;
pub mod records;
pub mod seed;
pub mod requests;
pub mod state;
pub mod steps;
