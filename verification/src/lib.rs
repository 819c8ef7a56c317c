//! A command-routing proxy for a balance-swap service.
//!
//! Callers hand the proxy an untyped argument list. The proxy decodes it into
//! one of a closed set of typed commands, forwards the command to the swap
//! service, and performs the fund movement that must accompany it. Decoding is
//! strict and fail-fast: a malformed argument list is rejected before any call
//! or transfer is planned. The host calls themselves (directory lookup,
//! cross-service call, transfer) are outside the library; the proxy emits them
//! as actions and consumes their results as events, so every decision between
//! two host calls is a verified function of plain values.

pub mod api;
pub mod data;
pub mod decode;
pub mod dispatch;
pub mod error;
pub mod laws;
