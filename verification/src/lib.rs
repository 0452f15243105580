//! Verified core logic of the Tari digital-asset network layer: fixed-size
//! byte types used by templates, quorum certificates, consensus messages,
//! component invocation descriptors and the interpretation of validator
//! node RPC replies.

pub mod hash;
pub mod text;
pub mod template_crypto;
pub mod digest;
pub mod types;
pub mod quorum_certificate;
pub mod rpc;
pub mod component;
pub mod confidential;
pub mod message;
pub mod payload;
pub mod store;
pub mod error;
pub mod non_fungible;
