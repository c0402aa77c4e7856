//! Checks on the data that a store request carries.
//!
//! Turning the request's encoded value into a bundle is protobuf decoding,
//! done by the caller; these functions take its outcome (`None` where the
//! bytes do not decode) and decide what the request is worth.
use crate::error::BaseError;
use crate::snp::snp_core_types::{ClientIdentityBundle, ProviderIdentityBundle};
use crate::snp::snp_decentralized_storage::{StoreDataRequest, StoredDataType};
use vstd::prelude::*;

verus! {

/// The number of the client bundle data type.
pub open spec fn client_bundle_type() -> i32 {
    0i32
}

/// The number of the provider bundle data type.
pub open spec fn provider_bundle_type() -> i32 {
    1i32
}

impl StoreDataRequest {
    /// Validates the stored value, given whether it decodes as a message of
    /// the type that `data_type` names. Returns `Ok` iff the data type is a
    /// supported one and the value decodes as it.
    pub fn validate_data(&self, value_decodes: bool) -> (r: Result<(), BaseError>)
        ensures
            self.data_type == client_bundle_type() || self.data_type == provider_bundle_type() ==> (
            if value_decodes {
                r == Ok::<(), BaseError>(())
            } else {
                r == Err::<(), BaseError>(BaseError::InvalidData)
            }),
            self.data_type != client_bundle_type() && self.data_type != provider_bundle_type() ==> r
                == Err::<(), BaseError>(BaseError::UnexpectedDataType),
    {
        if self.data_type == StoredDataType::ClientBundle.to_i32() || self.data_type
            == StoredDataType::ProviderBundle.to_i32() {
            if value_decodes {
                Ok(())
            } else {
                Err(BaseError::InvalidData)
            }
        } else {
            Err(BaseError::UnexpectedDataType)
        }
    }

    /// The client bundle that this request stores, given the outcome of
    /// decoding its value as one (`None` where the bytes do not decode).
    pub fn get_client_bundle(&self, decoded: Option<ClientIdentityBundle>) -> (r: Result<
        ClientIdentityBundle,
        BaseError,
    >)
        ensures
            self.data_type != client_bundle_type() ==> r == Err::<ClientIdentityBundle, BaseError>(
                BaseError::InvalidDataType,
            ),
            self.data_type == client_bundle_type() ==> (match decoded {
                Some(b) => r == Ok::<ClientIdentityBundle, BaseError>(b),
                None => r == Err::<ClientIdentityBundle, BaseError>(BaseError::InvalidData),
            }),
    {
        if self.data_type != StoredDataType::ClientBundle.to_i32() {
            return Err(BaseError::InvalidDataType);
        }
        match decoded {
            Some(b) => Ok(b),
            None => Err(BaseError::InvalidData),
        }
    }

    /// The provider bundle that this request stores, given the outcome of
    /// decoding its value as one (`None` where the bytes do not decode).
    pub fn get_provider_bundle(&self, decoded: Option<ProviderIdentityBundle>) -> (r: Result<
        ProviderIdentityBundle,
        BaseError,
    >)
        ensures
            self.data_type != provider_bundle_type() ==> r == Err::<
                ProviderIdentityBundle,
                BaseError,
            >(BaseError::InvalidDataType),
            self.data_type == provider_bundle_type() ==> (match decoded {
                Some(b) => r == Ok::<ProviderIdentityBundle, BaseError>(b),
                None => r == Err::<ProviderIdentityBundle, BaseError>(BaseError::InvalidData),
            }),
    {
        if self.data_type != StoredDataType::ProviderBundle.to_i32() {
            return Err(BaseError::InvalidDataType);
        }
        match decoded {
            Some(b) => Ok(b),
            None => Err(BaseError::InvalidData),
        }
    }
}

} // verus!
