use vstd::prelude::*;

pub mod api;
pub mod auth;
pub mod collections;
pub mod command_palette;
pub mod desktop;
pub mod forms;
pub mod gateway;
pub mod model;
pub mod oauth;
pub mod notifications;
pub mod pages;
pub mod ordering;
pub mod auth_redirect;
pub mod recently_viewed;
pub mod remote;
pub mod routes;
pub mod sample_data;
pub mod stars;
pub mod server_config;
pub mod settings;
pub mod stable_sort;
pub mod text;
pub mod theme;
pub mod uploads;
pub mod urls;

verus! {

} // verus!
