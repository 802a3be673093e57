pub mod domain;
pub mod dto;
pub mod error;
pub mod json;
pub mod laws;
pub mod ports;
pub mod services;
pub mod text;
