//! A verified core for payment infrastructure: money and currency types,
//! the payment state machine, canonical events, webhook signature and
//! timestamp checks, idempotency bookkeeping for replay protection, a mock
//! payment connector, and fixtures for simulation.

// Shared building blocks.
pub mod text;
pub mod text_map;
pub mod time;

// Domain types.
pub mod currency;
pub mod error;
pub mod event;
pub mod money;
pub mod payment;
pub mod provider;
pub mod webhook;

// Core interfaces and policies.
pub mod clock;
pub mod connector;
pub mod idempotency;
pub mod retry;
pub mod secret;
pub mod webhook_verifier;

// Webhook pipeline.
pub mod hmac_verifier;
pub mod processor;
pub mod timestamp;

// Stores, connectors, simulation, observability.
pub mod cli;
pub mod event_store;
pub mod fixture;
pub mod mock;
pub mod redact;
pub mod runner;
