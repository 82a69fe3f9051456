//! Core of an audited-entity REST backend: the audit envelope and its
//! lifecycle, the uniform response envelope, token-gate decisions and the
//! credential helpers.

pub mod entity;
pub mod audited;
pub mod response;
pub mod error;
pub mod crypto_util;
pub mod jwt_util;
pub mod user;
pub mod service;
pub mod auth;
pub mod pet_type;
pub mod pet;
pub mod data_source;
pub mod trans_task;
pub mod config;
