//! Mail client autoconfiguration: the decisions behind the autodiscover,
//! autoconfig, mobileconfig and DNS zone endpoints of a mail domain.
#![allow(non_snake_case)]

pub mod text;
pub mod config;
pub mod resources;
pub mod clock;
pub mod routes;
