//! Verified core of the stream roulette backend: identifiers, in-memory
//! repositories and the services over them, the weighted draw of a spin,
//! configuration validation, admin management, the CSRF ticket book of the
//! Twitch login flow, template rendering and the small text codecs
//! (cookies, CORS lists, event payloads) the HTTP layer relies on.

pub mod action;
pub mod action_store;
pub mod admin;
pub mod api;
pub mod auth;
pub mod catalog;
pub mod clock;
pub mod config;
pub mod credentials;
pub mod error;
pub mod events;
pub mod executor;
pub mod ids;
pub mod queue;
pub mod random;
pub mod rule_service;
pub mod roulette;
pub mod rules;
pub mod seqs;
pub mod session;
pub mod session_service;
pub mod store;
pub mod text;
pub mod user;
pub mod user_service;
pub mod web;
pub mod ws;
