//! Authentication and admission core: password credentials, signed session
//! tokens, the register/login decisions, bearer-token gating and a global
//! token-bucket admission controller.

pub mod config;
pub mod admission;
pub mod models;
pub mod password;
pub mod token;
pub mod service;
pub mod gate;
