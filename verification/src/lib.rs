//! Shopdrop: the inventory rules of an outlet shop with a review workflow.

pub mod models;
pub mod store;
pub mod handlers;
pub mod db;
pub mod simulation;
pub mod websocket;
pub mod laws;
