//! A multi-hop value relay: a Router collects a fee and starts a chain of
//! single-use Cells, each of which forwards the value one hop further and
//! then destroys itself. This crate holds the decisions of both roles as
//! verified functions over plain values; the host runtime performs them.

pub mod params;
pub mod gas;
pub mod error;
pub mod address;
pub mod router;
pub mod cell;
pub mod chain;
pub mod word;
pub mod codec;
pub mod salt;
