//! A configuration-driven endpoint server core: named request handlers, the
//! registry that resolves them, the compiler from endpoint declarations to a
//! route table, and the state of the log viewer that accompanies the server.

pub mod config;
pub mod custom_handlers;
pub mod dispatch;
pub mod events;
pub mod handler;
pub mod params;
pub mod registry;
pub mod routes;
pub mod screen;
pub mod startup;
pub mod text;
pub mod viewer;
