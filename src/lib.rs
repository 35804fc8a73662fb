//! Credentials and session tokens for a small user-management service:
//! password hashing, signed bearer tokens, the request gate that checks
//! them, and the decisions of the user use cases.

pub mod decimal;
pub mod entity;
pub mod gate;
pub mod hasher;
pub mod response;
pub mod token;
pub mod usecase;
