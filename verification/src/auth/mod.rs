//! Password hashing for the authentication service.

pub mod hasher;
