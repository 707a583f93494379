//! Universal Commerce Protocol (UCP) plugin for the MCPG gateway.
//!
//! It lets AI agents purchase products from UCP-compatible merchants through the gateway: it reads
//! what a merchant offers, keeps the checkout sessions, and says what is to be sent to the merchant
//! and what the caller of a tool is answered.
//!
//! 1. First tool call (no session): find the merchant, open a checkout, demand payment.
//! 2. The agent returns with the session and a payment instrument: complete the checkout, and let
//!    the call through once the merchant reports it completed.
//!
//! The metadata of a call and of its answer:
//!
//! - `ucp/checkout_session`: the session that a call refers to.
//! - `ucp/payment_instrument`: what it is to be paid with.
//! - `ucp/fulfillment`: address and shipping data. It may come along and is not read; such a call is
//!   answered with the state of its checkout.
//! - `ucp/order`: the merchant's order, with a granted call.

pub mod assoc;
pub mod checkout;
pub mod clock;
pub mod config;
pub mod discovery;
pub mod error;
pub mod host;
pub mod json;
pub mod laws;
pub mod merchant;
pub mod plugin;
pub mod promises;
pub mod tables;
pub mod text;

pub use config::{UcpProtocolConfig, UcpToolConfig};
pub use plugin::UcpCommercePlugin;
