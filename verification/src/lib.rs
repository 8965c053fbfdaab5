//! The verified core of the Tachy agent daemon.
#![allow(unused_imports)]

pub mod text;
pub mod strmap;
pub mod parallel;
pub mod crypto;
pub mod httputil;
pub mod saas;
pub mod jwt;
pub mod marketplace;
pub mod channels;
pub mod batch;
pub mod state;
pub mod engine;
pub mod mcp;
pub mod types;
pub mod router;
pub mod policy;
