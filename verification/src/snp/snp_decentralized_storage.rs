//! Messages of the decentralized storage protocol.
use crate::snp::snp_core_types::ProviderNetInfo;
use vstd::prelude::*;

verus! {

#[derive(Clone, PartialEq, Eq, Debug)]
pub struct PingRequest {}

#[derive(Clone, PartialEq, Eq, Debug)]
pub struct PingResponse {
    pub provider_net_info: Option<ProviderNetInfo>,
}

/// A search for the nodes closest to a key.
#[derive(Clone, PartialEq, Eq, Debug)]
pub struct NodeLookupRequest {
    pub key: Vec<u8>,
    pub max_results: u32,
    pub net_info: Option<ProviderNetInfo>,
}

#[derive(Clone, PartialEq, Eq, Debug)]
pub struct NodeLookupResponse {
    pub provider_net_infos: Vec<ProviderNetInfo>,
}

/// A request for the data stored under a key.
#[derive(Clone, PartialEq, Eq, Debug)]
pub struct GetDataRequest {
    pub key: Vec<u8>,
    pub net_info: Option<ProviderNetInfo>,
}

#[derive(Clone, PartialEq, Eq, Debug)]
pub struct GetDataResponse {
    pub value: Vec<u8>,
}

/// A request to store an encoded value of a given type under a key.
#[derive(Clone, PartialEq, Eq, Debug)]
pub struct StoreDataRequest {
    pub key: Vec<u8>,
    /// the encoded value
    pub value: Vec<u8>,
    /// A `StoredDataType`, as its number.
    pub data_type: i32,
    pub net_info: Option<ProviderNetInfo>,
}

#[derive(Clone, PartialEq, Eq, Debug)]
pub struct StoreDataResponse {}

/// The types of data that nodes store.
#[derive(Clone, Copy, PartialEq, Eq, Debug)]
pub enum StoredDataType {
    ClientBundle,
    ProviderBundle,
}

impl StoredDataType {
    /// The number that stands for this data type on the wire.
    pub fn to_i32(self) -> (r: i32)
        ensures
            r == match self {
                StoredDataType::ClientBundle => 0i32,
                StoredDataType::ProviderBundle => 1i32,
            },
    {
        match self {
            StoredDataType::ClientBundle => 0,
            StoredDataType::ProviderBundle => 1,
        }
    }

    /// The data type that a number stands for, if any.
    pub fn from_i32(v: i32) -> (r: Option<StoredDataType>)
        ensures
            r == if v == 0 {
                Some(StoredDataType::ClientBundle)
            } else if v == 1 {
                Some(StoredDataType::ProviderBundle)
            } else {
                None::<StoredDataType>
            },
    {
        if v == 0 {
            Some(StoredDataType::ClientBundle)
        } else if v == 1 {
            Some(StoredDataType::ProviderBundle)
        } else {
            None
        }
    }
}

} // verus!
