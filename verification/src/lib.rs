pub mod config;
pub mod error;
pub mod fake_sensor;
pub mod fhir;
pub mod handlers;
pub mod models;
pub mod state;
pub mod sys;
pub mod validation;
pub mod websocket;
