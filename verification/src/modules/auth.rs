//! Registration, login and token verification.

pub mod controller;
pub mod dto;
pub mod password;
pub mod service;
pub mod token;
