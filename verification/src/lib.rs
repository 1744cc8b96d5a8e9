//! Core of a desktop webhook relay: a verified request executor that
//! normalizes an outbound HTTP call, and a verified tunnel session manager
//! with its webhook handshake handler.  Network I/O itself stays outside;
//! every decision the system makes about requests, responses, handshakes,
//! and tunnel status is made here, under contract.

pub mod crypto;
pub mod handler;
pub mod query;
pub mod request;
pub mod session;
pub mod status;
pub mod strutil;
