//! Verified core of a small payment-recording service.
//!
//! The service exposes three endpoints — a liveness check, payment
//! creation, and payment listing — over a relational store. This crate
//! holds the decision logic of those endpoints: building the row that a
//! create call inserts, turning storage outcomes into replies with their
//! HTTP status, and the laws that hold of the stored table. The
//! surrounding process performs the HTTP transport and the storage calls,
//! and hands this crate plain values.

pub mod handlers;
pub mod model;
pub mod store;
