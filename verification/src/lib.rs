//! Core of a multi-provider OAuth2 login service.
//!
//! The crate models the authorization-code flow against GitHub, GitLab and
//! Bitbucket: resolving per-provider configuration, building the authorization
//! redirect, normalizing the heterogeneous user-profile documents, idempotent
//! find-or-create of local user rows, and the lifecycle of the login session.
//! All network and storage transports live outside; the functions here take
//! their observed outcomes as plain values and are verified against contracts
//! that pin down every step of the flow.

pub mod auth;
pub mod config;
pub mod error;
pub mod handlers;
pub mod models;
pub mod oauth;
pub mod profile;
pub mod text;
