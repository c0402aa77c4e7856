//! The protocol's message types.
pub mod snp_blockchain;
pub mod snp_client_to_client;
pub mod snp_core_types;
pub mod snp_decentralized_storage;
pub mod snp_payments;
pub mod snp_server_api;
