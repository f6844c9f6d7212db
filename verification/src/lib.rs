//! Tools for transactions: the models of addresses and manifests, and the
//! static analysis that says which instructions of a manifest move an
//! exactly known quantity of resources.

pub mod address;
pub mod bucket_id;
pub mod bucket_tracker;
pub mod decimal;
pub mod decode_address;
pub mod derive_virtual_account_address;
pub mod error;
pub mod information;
pub mod instruction;
pub mod laws;
pub mod manifest;
pub mod node_id;
pub mod resource;
pub mod sbor;
pub mod trusted_worktop;
pub mod validation;
pub mod worktop_content_tracker;
