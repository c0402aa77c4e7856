//! Routing of gRPC requests: the method that a request path names, for each
//! service the library serves, and the path of each method.
use crate::text::str_equal;
use vstd::prelude::*;

verus! {

/// The methods of the blockchain service.
#[derive(Clone, Copy, PartialEq, Eq, Debug)]
pub enum BlockchainServiceMethod {
    SubmitTransaction,
    SetBalance,
    GetTransaction,
    GetAccount,
    GetBlock,
    GetCurrentBlock,
    GetProviderIdentityBundle,
    GetClientIdentityBundle,
    GetClients,
    GetProviders,
    GetValidatedBlocksCountByEntity,
    GetSealedBlocksCountByEntity,
}

/// The request path of each method of the service.
pub open spec fn blockchain_service_path(m: BlockchainServiceMethod) -> Seq<char> {
    match m {
        BlockchainServiceMethod::SubmitTransaction => "/snp.blockchain.BlockchainService/SubmitTransaction"@,
        BlockchainServiceMethod::SetBalance => "/snp.blockchain.BlockchainService/SetBalance"@,
        BlockchainServiceMethod::GetTransaction => "/snp.blockchain.BlockchainService/GetTransaction"@,
        BlockchainServiceMethod::GetAccount => "/snp.blockchain.BlockchainService/GetAccount"@,
        BlockchainServiceMethod::GetBlock => "/snp.blockchain.BlockchainService/GetBlock"@,
        BlockchainServiceMethod::GetCurrentBlock => "/snp.blockchain.BlockchainService/GetCurrentBlock"@,
        BlockchainServiceMethod::GetProviderIdentityBundle => "/snp.blockchain.BlockchainService/GetProviderIdentityBundle"@,
        BlockchainServiceMethod::GetClientIdentityBundle => "/snp.blockchain.BlockchainService/GetClientIdentityBundle"@,
        BlockchainServiceMethod::GetClients => "/snp.blockchain.BlockchainService/GetClients"@,
        BlockchainServiceMethod::GetProviders => "/snp.blockchain.BlockchainService/GetProviders"@,
        BlockchainServiceMethod::GetValidatedBlocksCountByEntity => "/snp.blockchain.BlockchainService/GetValidatedBlocksCountByEntity"@,
        BlockchainServiceMethod::GetSealedBlocksCountByEntity => "/snp.blockchain.BlockchainService/GetSealedBlocksCountByEntity"@,
    }
}

/// The method that a request path names, if it names one.
pub open spec fn blockchain_service_route(path: Seq<char>) -> Option<BlockchainServiceMethod> {
    if path == "/snp.blockchain.BlockchainService/SubmitTransaction"@ {
        Some(BlockchainServiceMethod::SubmitTransaction)
    } else if path == "/snp.blockchain.BlockchainService/SetBalance"@ {
        Some(BlockchainServiceMethod::SetBalance)
    } else if path == "/snp.blockchain.BlockchainService/GetTransaction"@ {
        Some(BlockchainServiceMethod::GetTransaction)
    } else if path == "/snp.blockchain.BlockchainService/GetAccount"@ {
        Some(BlockchainServiceMethod::GetAccount)
    } else if path == "/snp.blockchain.BlockchainService/GetBlock"@ {
        Some(BlockchainServiceMethod::GetBlock)
    } else if path == "/snp.blockchain.BlockchainService/GetCurrentBlock"@ {
        Some(BlockchainServiceMethod::GetCurrentBlock)
    } else if path == "/snp.blockchain.BlockchainService/GetProviderIdentityBundle"@ {
        Some(BlockchainServiceMethod::GetProviderIdentityBundle)
    } else if path == "/snp.blockchain.BlockchainService/GetClientIdentityBundle"@ {
        Some(BlockchainServiceMethod::GetClientIdentityBundle)
    } else if path == "/snp.blockchain.BlockchainService/GetClients"@ {
        Some(BlockchainServiceMethod::GetClients)
    } else if path == "/snp.blockchain.BlockchainService/GetProviders"@ {
        Some(BlockchainServiceMethod::GetProviders)
    } else if path == "/snp.blockchain.BlockchainService/GetValidatedBlocksCountByEntity"@ {
        Some(BlockchainServiceMethod::GetValidatedBlocksCountByEntity)
    } else if path == "/snp.blockchain.BlockchainService/GetSealedBlocksCountByEntity"@ {
        Some(BlockchainServiceMethod::GetSealedBlocksCountByEntity)
    } else {
        None
    }
}

impl BlockchainServiceMethod {
    /// The method's request path.
    pub fn path(&self) -> (r: &'static str)
        ensures
            r@ == blockchain_service_path(*self),
    {
        match self {
            BlockchainServiceMethod::SubmitTransaction => "/snp.blockchain.BlockchainService/SubmitTransaction",
            BlockchainServiceMethod::SetBalance => "/snp.blockchain.BlockchainService/SetBalance",
            BlockchainServiceMethod::GetTransaction => "/snp.blockchain.BlockchainService/GetTransaction",
            BlockchainServiceMethod::GetAccount => "/snp.blockchain.BlockchainService/GetAccount",
            BlockchainServiceMethod::GetBlock => "/snp.blockchain.BlockchainService/GetBlock",
            BlockchainServiceMethod::GetCurrentBlock => "/snp.blockchain.BlockchainService/GetCurrentBlock",
            BlockchainServiceMethod::GetProviderIdentityBundle => "/snp.blockchain.BlockchainService/GetProviderIdentityBundle",
            BlockchainServiceMethod::GetClientIdentityBundle => "/snp.blockchain.BlockchainService/GetClientIdentityBundle",
            BlockchainServiceMethod::GetClients => "/snp.blockchain.BlockchainService/GetClients",
            BlockchainServiceMethod::GetProviders => "/snp.blockchain.BlockchainService/GetProviders",
            BlockchainServiceMethod::GetValidatedBlocksCountByEntity => "/snp.blockchain.BlockchainService/GetValidatedBlocksCountByEntity",
            BlockchainServiceMethod::GetSealedBlocksCountByEntity => "/snp.blockchain.BlockchainService/GetSealedBlocksCountByEntity",
        }
    }

    /// The method that the request path `path` names; `None` where it names
    /// no method of the service, which the server answers as unimplemented.
    pub fn from_path(path: &str) -> (r: Option<BlockchainServiceMethod>)
        ensures
            r == blockchain_service_route(path@),
    {
        if str_equal(path, "/snp.blockchain.BlockchainService/SubmitTransaction") {
            Some(BlockchainServiceMethod::SubmitTransaction)
        } else if str_equal(path, "/snp.blockchain.BlockchainService/SetBalance") {
            Some(BlockchainServiceMethod::SetBalance)
        } else if str_equal(path, "/snp.blockchain.BlockchainService/GetTransaction") {
            Some(BlockchainServiceMethod::GetTransaction)
        } else if str_equal(path, "/snp.blockchain.BlockchainService/GetAccount") {
            Some(BlockchainServiceMethod::GetAccount)
        } else if str_equal(path, "/snp.blockchain.BlockchainService/GetBlock") {
            Some(BlockchainServiceMethod::GetBlock)
        } else if str_equal(path, "/snp.blockchain.BlockchainService/GetCurrentBlock") {
            Some(BlockchainServiceMethod::GetCurrentBlock)
        } else if str_equal(path, "/snp.blockchain.BlockchainService/GetProviderIdentityBundle") {
            Some(BlockchainServiceMethod::GetProviderIdentityBundle)
        } else if str_equal(path, "/snp.blockchain.BlockchainService/GetClientIdentityBundle") {
            Some(BlockchainServiceMethod::GetClientIdentityBundle)
        } else if str_equal(path, "/snp.blockchain.BlockchainService/GetClients") {
            Some(BlockchainServiceMethod::GetClients)
        } else if str_equal(path, "/snp.blockchain.BlockchainService/GetProviders") {
            Some(BlockchainServiceMethod::GetProviders)
        } else if str_equal(path, "/snp.blockchain.BlockchainService/GetValidatedBlocksCountByEntity") {
            Some(BlockchainServiceMethod::GetValidatedBlocksCountByEntity)
        } else if str_equal(path, "/snp.blockchain.BlockchainService/GetSealedBlocksCountByEntity") {
            Some(BlockchainServiceMethod::GetSealedBlocksCountByEntity)
        } else {
            None
        }
    }
}

/// Each method's path routes back to that method.
pub proof fn lemma_blockchain_service_route_of_path(m: BlockchainServiceMethod)
    ensures
        blockchain_service_route(blockchain_service_path(m)) == Some(m),
{
    match m {
        BlockchainServiceMethod::SubmitTransaction => {
            reveal_strlit("/snp.blockchain.BlockchainService/SubmitTransaction");
        },
        BlockchainServiceMethod::SetBalance => {
            reveal_strlit("/snp.blockchain.BlockchainService/SetBalance");
            reveal_strlit("/snp.blockchain.BlockchainService/SubmitTransaction");
            assert("/snp.blockchain.BlockchainService/SetBalance"@.len() != "/snp.blockchain.BlockchainService/SubmitTransaction"@.len());
        },
        BlockchainServiceMethod::GetTransaction => {
            reveal_strlit("/snp.blockchain.BlockchainService/GetTransaction");
            reveal_strlit("/snp.blockchain.BlockchainService/SubmitTransaction");
            assert("/snp.blockchain.BlockchainService/GetTransaction"@.len() != "/snp.blockchain.BlockchainService/SubmitTransaction"@.len());
            reveal_strlit("/snp.blockchain.BlockchainService/SetBalance");
            assert("/snp.blockchain.BlockchainService/GetTransaction"@.len() != "/snp.blockchain.BlockchainService/SetBalance"@.len());
        },
        BlockchainServiceMethod::GetAccount => {
            reveal_strlit("/snp.blockchain.BlockchainService/GetAccount");
            reveal_strlit("/snp.blockchain.BlockchainService/SubmitTransaction");
            assert("/snp.blockchain.BlockchainService/GetAccount"@.len() != "/snp.blockchain.BlockchainService/SubmitTransaction"@.len());
            reveal_strlit("/snp.blockchain.BlockchainService/SetBalance");
            assert("/snp.blockchain.BlockchainService/GetAccount"@[34] != "/snp.blockchain.BlockchainService/SetBalance"@[34]);
            reveal_strlit("/snp.blockchain.BlockchainService/GetTransaction");
            assert("/snp.blockchain.BlockchainService/GetAccount"@.len() != "/snp.blockchain.BlockchainService/GetTransaction"@.len());
        },
        BlockchainServiceMethod::GetBlock => {
            reveal_strlit("/snp.blockchain.BlockchainService/GetBlock");
            reveal_strlit("/snp.blockchain.BlockchainService/SubmitTransaction");
            assert("/snp.blockchain.BlockchainService/GetBlock"@.len() != "/snp.blockchain.BlockchainService/SubmitTransaction"@.len());
            reveal_strlit("/snp.blockchain.BlockchainService/SetBalance");
            assert("/snp.blockchain.BlockchainService/GetBlock"@.len() != "/snp.blockchain.BlockchainService/SetBalance"@.len());
            reveal_strlit("/snp.blockchain.BlockchainService/GetTransaction");
            assert("/snp.blockchain.BlockchainService/GetBlock"@.len() != "/snp.blockchain.BlockchainService/GetTransaction"@.len());
            reveal_strlit("/snp.blockchain.BlockchainService/GetAccount");
            assert("/snp.blockchain.BlockchainService/GetBlock"@.len() != "/snp.blockchain.BlockchainService/GetAccount"@.len());
        },
        BlockchainServiceMethod::GetCurrentBlock => {
            reveal_strlit("/snp.blockchain.BlockchainService/GetCurrentBlock");
            reveal_strlit("/snp.blockchain.BlockchainService/SubmitTransaction");
            assert("/snp.blockchain.BlockchainService/GetCurrentBlock"@.len() != "/snp.blockchain.BlockchainService/SubmitTransaction"@.len());
            reveal_strlit("/snp.blockchain.BlockchainService/SetBalance");
            assert("/snp.blockchain.BlockchainService/GetCurrentBlock"@.len() != "/snp.blockchain.BlockchainService/SetBalance"@.len());
            reveal_strlit("/snp.blockchain.BlockchainService/GetTransaction");
            assert("/snp.blockchain.BlockchainService/GetCurrentBlock"@.len() != "/snp.blockchain.BlockchainService/GetTransaction"@.len());
            reveal_strlit("/snp.blockchain.BlockchainService/GetAccount");
            assert("/snp.blockchain.BlockchainService/GetCurrentBlock"@.len() != "/snp.blockchain.BlockchainService/GetAccount"@.len());
            reveal_strlit("/snp.blockchain.BlockchainService/GetBlock");
            assert("/snp.blockchain.BlockchainService/GetCurrentBlock"@.len() != "/snp.blockchain.BlockchainService/GetBlock"@.len());
        },
        BlockchainServiceMethod::GetProviderIdentityBundle => {
            reveal_strlit("/snp.blockchain.BlockchainService/GetProviderIdentityBundle");
            reveal_strlit("/snp.blockchain.BlockchainService/SubmitTransaction");
            assert("/snp.blockchain.BlockchainService/GetProviderIdentityBundle"@.len() != "/snp.blockchain.BlockchainService/SubmitTransaction"@.len());
            reveal_strlit("/snp.blockchain.BlockchainService/SetBalance");
            assert("/snp.blockchain.BlockchainService/GetProviderIdentityBundle"@.len() != "/snp.blockchain.BlockchainService/SetBalance"@.len());
            reveal_strlit("/snp.blockchain.BlockchainService/GetTransaction");
            assert("/snp.blockchain.BlockchainService/GetProviderIdentityBundle"@.len() != "/snp.blockchain.BlockchainService/GetTransaction"@.len());
            reveal_strlit("/snp.blockchain.BlockchainService/GetAccount");
            assert("/snp.blockchain.BlockchainService/GetProviderIdentityBundle"@.len() != "/snp.blockchain.BlockchainService/GetAccount"@.len());
            reveal_strlit("/snp.blockchain.BlockchainService/GetBlock");
            assert("/snp.blockchain.BlockchainService/GetProviderIdentityBundle"@.len() != "/snp.blockchain.BlockchainService/GetBlock"@.len());
            reveal_strlit("/snp.blockchain.BlockchainService/GetCurrentBlock");
            assert("/snp.blockchain.BlockchainService/GetProviderIdentityBundle"@.len() != "/snp.blockchain.BlockchainService/GetCurrentBlock"@.len());
        },
        BlockchainServiceMethod::GetClientIdentityBundle => {
            reveal_strlit("/snp.blockchain.BlockchainService/GetClientIdentityBundle");
            reveal_strlit("/snp.blockchain.BlockchainService/SubmitTransaction");
            assert("/snp.blockchain.BlockchainService/GetClientIdentityBundle"@.len() != "/snp.blockchain.BlockchainService/SubmitTransaction"@.len());
            reveal_strlit("/snp.blockchain.BlockchainService/SetBalance");
            assert("/snp.blockchain.BlockchainService/GetClientIdentityBundle"@.len() != "/snp.blockchain.BlockchainService/SetBalance"@.len());
            reveal_strlit("/snp.blockchain.BlockchainService/GetTransaction");
            assert("/snp.blockchain.BlockchainService/GetClientIdentityBundle"@.len() != "/snp.blockchain.BlockchainService/GetTransaction"@.len());
            reveal_strlit("/snp.blockchain.BlockchainService/GetAccount");
            assert("/snp.blockchain.BlockchainService/GetClientIdentityBundle"@.len() != "/snp.blockchain.BlockchainService/GetAccount"@.len());
            reveal_strlit("/snp.blockchain.BlockchainService/GetBlock");
            assert("/snp.blockchain.BlockchainService/GetClientIdentityBundle"@.len() != "/snp.blockchain.BlockchainService/GetBlock"@.len());
            reveal_strlit("/snp.blockchain.BlockchainService/GetCurrentBlock");
            assert("/snp.blockchain.BlockchainService/GetClientIdentityBundle"@.len() != "/snp.blockchain.BlockchainService/GetCurrentBlock"@.len());
            reveal_strlit("/snp.blockchain.BlockchainService/GetProviderIdentityBundle");
            assert("/snp.blockchain.BlockchainService/GetClientIdentityBundle"@.len() != "/snp.blockchain.BlockchainService/GetProviderIdentityBundle"@.len());
        },
        BlockchainServiceMethod::GetClients => {
            reveal_strlit("/snp.blockchain.BlockchainService/GetClients");
            reveal_strlit("/snp.blockchain.BlockchainService/SubmitTransaction");
            assert("/snp.blockchain.BlockchainService/GetClients"@.len() != "/snp.blockchain.BlockchainService/SubmitTransaction"@.len());
            reveal_strlit("/snp.blockchain.BlockchainService/SetBalance");
            assert("/snp.blockchain.BlockchainService/GetClients"@[34] != "/snp.blockchain.BlockchainService/SetBalance"@[34]);
            reveal_strlit("/snp.blockchain.BlockchainService/GetTransaction");
            assert("/snp.blockchain.BlockchainService/GetClients"@.len() != "/snp.blockchain.BlockchainService/GetTransaction"@.len());
            reveal_strlit("/snp.blockchain.BlockchainService/GetAccount");
            assert("/snp.blockchain.BlockchainService/GetClients"@[37] != "/snp.blockchain.BlockchainService/GetAccount"@[37]);
            reveal_strlit("/snp.blockchain.BlockchainService/GetBlock");
            assert("/snp.blockchain.BlockchainService/GetClients"@.len() != "/snp.blockchain.BlockchainService/GetBlock"@.len());
            reveal_strlit("/snp.blockchain.BlockchainService/GetCurrentBlock");
            assert("/snp.blockchain.BlockchainService/GetClients"@.len() != "/snp.blockchain.BlockchainService/GetCurrentBlock"@.len());
            reveal_strlit("/snp.blockchain.BlockchainService/GetProviderIdentityBundle");
            assert("/snp.blockchain.BlockchainService/GetClients"@.len() != "/snp.blockchain.BlockchainService/GetProviderIdentityBundle"@.len());
            reveal_strlit("/snp.blockchain.BlockchainService/GetClientIdentityBundle");
            assert("/snp.blockchain.BlockchainService/GetClients"@.len() != "/snp.blockchain.BlockchainService/GetClientIdentityBundle"@.len());
        },
        BlockchainServiceMethod::GetProviders => {
            reveal_strlit("/snp.blockchain.BlockchainService/GetProviders");
            reveal_strlit("/snp.blockchain.BlockchainService/SubmitTransaction");
            assert("/snp.blockchain.BlockchainService/GetProviders"@.len() != "/snp.blockchain.BlockchainService/SubmitTransaction"@.len());
            reveal_strlit("/snp.blockchain.BlockchainService/SetBalance");
            assert("/snp.blockchain.BlockchainService/GetProviders"@.len() != "/snp.blockchain.BlockchainService/SetBalance"@.len());
            reveal_strlit("/snp.blockchain.BlockchainService/GetTransaction");
            assert("/snp.blockchain.BlockchainService/GetProviders"@.len() != "/snp.blockchain.BlockchainService/GetTransaction"@.len());
            reveal_strlit("/snp.blockchain.BlockchainService/GetAccount");
            assert("/snp.blockchain.BlockchainService/GetProviders"@.len() != "/snp.blockchain.BlockchainService/GetAccount"@.len());
            reveal_strlit("/snp.blockchain.BlockchainService/GetBlock");
            assert("/snp.blockchain.BlockchainService/GetProviders"@.len() != "/snp.blockchain.BlockchainService/GetBlock"@.len());
            reveal_strlit("/snp.blockchain.BlockchainService/GetCurrentBlock");
            assert("/snp.blockchain.BlockchainService/GetProviders"@.len() != "/snp.blockchain.BlockchainService/GetCurrentBlock"@.len());
            reveal_strlit("/snp.blockchain.BlockchainService/GetProviderIdentityBundle");
            assert("/snp.blockchain.BlockchainService/GetProviders"@.len() != "/snp.blockchain.BlockchainService/GetProviderIdentityBundle"@.len());
            reveal_strlit("/snp.blockchain.BlockchainService/GetClientIdentityBundle");
            assert("/snp.blockchain.BlockchainService/GetProviders"@.len() != "/snp.blockchain.BlockchainService/GetClientIdentityBundle"@.len());
            reveal_strlit("/snp.blockchain.BlockchainService/GetClients");
            assert("/snp.blockchain.BlockchainService/GetProviders"@.len() != "/snp.blockchain.BlockchainService/GetClients"@.len());
        },
        BlockchainServiceMethod::GetValidatedBlocksCountByEntity => {
            reveal_strlit("/snp.blockchain.BlockchainService/GetValidatedBlocksCountByEntity");
            reveal_strlit("/snp.blockchain.BlockchainService/SubmitTransaction");
            assert("/snp.blockchain.BlockchainService/GetValidatedBlocksCountByEntity"@.len() != "/snp.blockchain.BlockchainService/SubmitTransaction"@.len());
            reveal_strlit("/snp.blockchain.BlockchainService/SetBalance");
            assert("/snp.blockchain.BlockchainService/GetValidatedBlocksCountByEntity"@.len() != "/snp.blockchain.BlockchainService/SetBalance"@.len());
            reveal_strlit("/snp.blockchain.BlockchainService/GetTransaction");
            assert("/snp.blockchain.BlockchainService/GetValidatedBlocksCountByEntity"@.len() != "/snp.blockchain.BlockchainService/GetTransaction"@.len());
            reveal_strlit("/snp.blockchain.BlockchainService/GetAccount");
            assert("/snp.blockchain.BlockchainService/GetValidatedBlocksCountByEntity"@.len() != "/snp.blockchain.BlockchainService/GetAccount"@.len());
            reveal_strlit("/snp.blockchain.BlockchainService/GetBlock");
            assert("/snp.blockchain.BlockchainService/GetValidatedBlocksCountByEntity"@.len() != "/snp.blockchain.BlockchainService/GetBlock"@.len());
            reveal_strlit("/snp.blockchain.BlockchainService/GetCurrentBlock");
            assert("/snp.blockchain.BlockchainService/GetValidatedBlocksCountByEntity"@.len() != "/snp.blockchain.BlockchainService/GetCurrentBlock"@.len());
            reveal_strlit("/snp.blockchain.BlockchainService/GetProviderIdentityBundle");
            assert("/snp.blockchain.BlockchainService/GetValidatedBlocksCountByEntity"@.len() != "/snp.blockchain.BlockchainService/GetProviderIdentityBundle"@.len());
            reveal_strlit("/snp.blockchain.BlockchainService/GetClientIdentityBundle");
            assert("/snp.blockchain.BlockchainService/GetValidatedBlocksCountByEntity"@.len() != "/snp.blockchain.BlockchainService/GetClientIdentityBundle"@.len());
            reveal_strlit("/snp.blockchain.BlockchainService/GetClients");
            assert("/snp.blockchain.BlockchainService/GetValidatedBlocksCountByEntity"@.len() != "/snp.blockchain.BlockchainService/GetClients"@.len());
            reveal_strlit("/snp.blockchain.BlockchainService/GetProviders");
            assert("/snp.blockchain.BlockchainService/GetValidatedBlocksCountByEntity"@.len() != "/snp.blockchain.BlockchainService/GetProviders"@.len());
        },
        BlockchainServiceMethod::GetSealedBlocksCountByEntity => {
            reveal_strlit("/snp.blockchain.BlockchainService/GetSealedBlocksCountByEntity");
            reveal_strlit("/snp.blockchain.BlockchainService/SubmitTransaction");
            assert("/snp.blockchain.BlockchainService/GetSealedBlocksCountByEntity"@.len() != "/snp.blockchain.BlockchainService/SubmitTransaction"@.len());
            reveal_strlit("/snp.blockchain.BlockchainService/SetBalance");
            assert("/snp.blockchain.BlockchainService/GetSealedBlocksCountByEntity"@.len() != "/snp.blockchain.BlockchainService/SetBalance"@.len());
            reveal_strlit("/snp.blockchain.BlockchainService/GetTransaction");
            assert("/snp.blockchain.BlockchainService/GetSealedBlocksCountByEntity"@.len() != "/snp.blockchain.BlockchainService/GetTransaction"@.len());
            reveal_strlit("/snp.blockchain.BlockchainService/GetAccount");
            assert("/snp.blockchain.BlockchainService/GetSealedBlocksCountByEntity"@.len() != "/snp.blockchain.BlockchainService/GetAccount"@.len());
            reveal_strlit("/snp.blockchain.BlockchainService/GetBlock");
            assert("/snp.blockchain.BlockchainService/GetSealedBlocksCountByEntity"@.len() != "/snp.blockchain.BlockchainService/GetBlock"@.len());
            reveal_strlit("/snp.blockchain.BlockchainService/GetCurrentBlock");
            assert("/snp.blockchain.BlockchainService/GetSealedBlocksCountByEntity"@.len() != "/snp.blockchain.BlockchainService/GetCurrentBlock"@.len());
            reveal_strlit("/snp.blockchain.BlockchainService/GetProviderIdentityBundle");
            assert("/snp.blockchain.BlockchainService/GetSealedBlocksCountByEntity"@.len() != "/snp.blockchain.BlockchainService/GetProviderIdentityBundle"@.len());
            reveal_strlit("/snp.blockchain.BlockchainService/GetClientIdentityBundle");
            assert("/snp.blockchain.BlockchainService/GetSealedBlocksCountByEntity"@.len() != "/snp.blockchain.BlockchainService/GetClientIdentityBundle"@.len());
            reveal_strlit("/snp.blockchain.BlockchainService/GetClients");
            assert("/snp.blockchain.BlockchainService/GetSealedBlocksCountByEntity"@.len() != "/snp.blockchain.BlockchainService/GetClients"@.len());
            reveal_strlit("/snp.blockchain.BlockchainService/GetProviders");
            assert("/snp.blockchain.BlockchainService/GetSealedBlocksCountByEntity"@.len() != "/snp.blockchain.BlockchainService/GetProviders"@.len());
            reveal_strlit("/snp.blockchain.BlockchainService/GetValidatedBlocksCountByEntity");
            assert("/snp.blockchain.BlockchainService/GetSealedBlocksCountByEntity"@.len() != "/snp.blockchain.BlockchainService/GetValidatedBlocksCountByEntity"@.len());
        },
    }
}

/// The methods of a provider's core service.
#[derive(Clone, Copy, PartialEq, Eq, Debug)]
pub enum ProviderCoreServiceMethod {
    NewSession,
    Message,
    SubscribeToClientMessages,
    GetIdentityBundle,
    GetTermsOfService,
}

/// The request path of each method of the service.
pub open spec fn provider_core_service_path(m: ProviderCoreServiceMethod) -> Seq<char> {
    match m {
        ProviderCoreServiceMethod::NewSession => "/snp.server_api.ProviderCoreService/NewSession"@,
        ProviderCoreServiceMethod::Message => "/snp.server_api.ProviderCoreService/Message"@,
        ProviderCoreServiceMethod::SubscribeToClientMessages => "/snp.server_api.ProviderCoreService/SubscribeToClientMessages"@,
        ProviderCoreServiceMethod::GetIdentityBundle => "/snp.server_api.ProviderCoreService/GetIdentityBundle"@,
        ProviderCoreServiceMethod::GetTermsOfService => "/snp.server_api.ProviderCoreService/GetTermsOfService"@,
    }
}

/// The method that a request path names, if it names one.
pub open spec fn provider_core_service_route(path: Seq<char>) -> Option<ProviderCoreServiceMethod> {
    if path == "/snp.server_api.ProviderCoreService/NewSession"@ {
        Some(ProviderCoreServiceMethod::NewSession)
    } else if path == "/snp.server_api.ProviderCoreService/Message"@ {
        Some(ProviderCoreServiceMethod::Message)
    } else if path == "/snp.server_api.ProviderCoreService/SubscribeToClientMessages"@ {
        Some(ProviderCoreServiceMethod::SubscribeToClientMessages)
    } else if path == "/snp.server_api.ProviderCoreService/GetIdentityBundle"@ {
        Some(ProviderCoreServiceMethod::GetIdentityBundle)
    } else if path == "/snp.server_api.ProviderCoreService/GetTermsOfService"@ {
        Some(ProviderCoreServiceMethod::GetTermsOfService)
    } else {
        None
    }
}

impl ProviderCoreServiceMethod {
    /// The method's request path.
    pub fn path(&self) -> (r: &'static str)
        ensures
            r@ == provider_core_service_path(*self),
    {
        match self {
            ProviderCoreServiceMethod::NewSession => "/snp.server_api.ProviderCoreService/NewSession",
            ProviderCoreServiceMethod::Message => "/snp.server_api.ProviderCoreService/Message",
            ProviderCoreServiceMethod::SubscribeToClientMessages => "/snp.server_api.ProviderCoreService/SubscribeToClientMessages",
            ProviderCoreServiceMethod::GetIdentityBundle => "/snp.server_api.ProviderCoreService/GetIdentityBundle",
            ProviderCoreServiceMethod::GetTermsOfService => "/snp.server_api.ProviderCoreService/GetTermsOfService",
        }
    }

    /// The method that the request path `path` names; `None` where it names
    /// no method of the service, which the server answers as unimplemented.
    pub fn from_path(path: &str) -> (r: Option<ProviderCoreServiceMethod>)
        ensures
            r == provider_core_service_route(path@),
    {
        if str_equal(path, "/snp.server_api.ProviderCoreService/NewSession") {
            Some(ProviderCoreServiceMethod::NewSession)
        } else if str_equal(path, "/snp.server_api.ProviderCoreService/Message") {
            Some(ProviderCoreServiceMethod::Message)
        } else if str_equal(path, "/snp.server_api.ProviderCoreService/SubscribeToClientMessages") {
            Some(ProviderCoreServiceMethod::SubscribeToClientMessages)
        } else if str_equal(path, "/snp.server_api.ProviderCoreService/GetIdentityBundle") {
            Some(ProviderCoreServiceMethod::GetIdentityBundle)
        } else if str_equal(path, "/snp.server_api.ProviderCoreService/GetTermsOfService") {
            Some(ProviderCoreServiceMethod::GetTermsOfService)
        } else {
            None
        }
    }
}

/// Each method's path routes back to that method.
pub proof fn lemma_provider_core_service_route_of_path(m: ProviderCoreServiceMethod)
    ensures
        provider_core_service_route(provider_core_service_path(m)) == Some(m),
{
    match m {
        ProviderCoreServiceMethod::NewSession => {
            reveal_strlit("/snp.server_api.ProviderCoreService/NewSession");
        },
        ProviderCoreServiceMethod::Message => {
            reveal_strlit("/snp.server_api.ProviderCoreService/Message");
            reveal_strlit("/snp.server_api.ProviderCoreService/NewSession");
            assert("/snp.server_api.ProviderCoreService/Message"@.len() != "/snp.server_api.ProviderCoreService/NewSession"@.len());
        },
        ProviderCoreServiceMethod::SubscribeToClientMessages => {
            reveal_strlit("/snp.server_api.ProviderCoreService/SubscribeToClientMessages");
            reveal_strlit("/snp.server_api.ProviderCoreService/NewSession");
            assert("/snp.server_api.ProviderCoreService/SubscribeToClientMessages"@.len() != "/snp.server_api.ProviderCoreService/NewSession"@.len());
            reveal_strlit("/snp.server_api.ProviderCoreService/Message");
            assert("/snp.server_api.ProviderCoreService/SubscribeToClientMessages"@.len() != "/snp.server_api.ProviderCoreService/Message"@.len());
        },
        ProviderCoreServiceMethod::GetIdentityBundle => {
            reveal_strlit("/snp.server_api.ProviderCoreService/GetIdentityBundle");
            reveal_strlit("/snp.server_api.ProviderCoreService/NewSession");
            assert("/snp.server_api.ProviderCoreService/GetIdentityBundle"@.len() != "/snp.server_api.ProviderCoreService/NewSession"@.len());
            reveal_strlit("/snp.server_api.ProviderCoreService/Message");
            assert("/snp.server_api.ProviderCoreService/GetIdentityBundle"@.len() != "/snp.server_api.ProviderCoreService/Message"@.len());
            reveal_strlit("/snp.server_api.ProviderCoreService/SubscribeToClientMessages");
            assert("/snp.server_api.ProviderCoreService/GetIdentityBundle"@.len() != "/snp.server_api.ProviderCoreService/SubscribeToClientMessages"@.len());
        },
        ProviderCoreServiceMethod::GetTermsOfService => {
            reveal_strlit("/snp.server_api.ProviderCoreService/GetTermsOfService");
            reveal_strlit("/snp.server_api.ProviderCoreService/NewSession");
            assert("/snp.server_api.ProviderCoreService/GetTermsOfService"@.len() != "/snp.server_api.ProviderCoreService/NewSession"@.len());
            reveal_strlit("/snp.server_api.ProviderCoreService/Message");
            assert("/snp.server_api.ProviderCoreService/GetTermsOfService"@.len() != "/snp.server_api.ProviderCoreService/Message"@.len());
            reveal_strlit("/snp.server_api.ProviderCoreService/SubscribeToClientMessages");
            assert("/snp.server_api.ProviderCoreService/GetTermsOfService"@.len() != "/snp.server_api.ProviderCoreService/SubscribeToClientMessages"@.len());
            reveal_strlit("/snp.server_api.ProviderCoreService/GetIdentityBundle");
            assert("/snp.server_api.ProviderCoreService/GetTermsOfService"@[39] != "/snp.server_api.ProviderCoreService/GetIdentityBundle"@[39]);
        },
    }
}

/// The methods of the simple client's user service.
#[derive(Clone, Copy, PartialEq, Eq, Debug)]
pub enum SimpleClientUserServiceMethod {
    UserSetProvider,
    UserAddOtherClientBundle,
    UserSendTextMessage,
    UserCreateStatusUpdateChannel,
    UserSubscribeToStatusUpdates,
    UserUnsubscribeFromStatusUpdates,
    UserNewPost,
    UserCreateGroup,
    UserJoinGroup,
    UserLeaveGroup,
    UserCreatePaidItem,
    UserBuyPaidItem,
    UserListPaidContentItems,
    SetBlockchainService,
}

/// The request path of each method of the service.
pub open spec fn simple_client_user_service_path(m: SimpleClientUserServiceMethod) -> Seq<char> {
    match m {
        SimpleClientUserServiceMethod::UserSetProvider => "/upsetter.simple_client.SimpleClientUserService/UserSetProvider"@,
        SimpleClientUserServiceMethod::UserAddOtherClientBundle => "/upsetter.simple_client.SimpleClientUserService/UserAddOtherClientBundle"@,
        SimpleClientUserServiceMethod::UserSendTextMessage => "/upsetter.simple_client.SimpleClientUserService/UserSendTextMessage"@,
        SimpleClientUserServiceMethod::UserCreateStatusUpdateChannel => "/upsetter.simple_client.SimpleClientUserService/UserCreateStatusUpdateChannel"@,
        SimpleClientUserServiceMethod::UserSubscribeToStatusUpdates => "/upsetter.simple_client.SimpleClientUserService/UserSubscribeToStatusUpdates"@,
        SimpleClientUserServiceMethod::UserUnsubscribeFromStatusUpdates => "/upsetter.simple_client.SimpleClientUserService/UserUnsubscribeFromStatusUpdates"@,
        SimpleClientUserServiceMethod::UserNewPost => "/upsetter.simple_client.SimpleClientUserService/UserNewPost"@,
        SimpleClientUserServiceMethod::UserCreateGroup => "/upsetter.simple_client.SimpleClientUserService/UserCreateGroup"@,
        SimpleClientUserServiceMethod::UserJoinGroup => "/upsetter.simple_client.SimpleClientUserService/UserJoinGroup"@,
        SimpleClientUserServiceMethod::UserLeaveGroup => "/upsetter.simple_client.SimpleClientUserService/UserLeaveGroup"@,
        SimpleClientUserServiceMethod::UserCreatePaidItem => "/upsetter.simple_client.SimpleClientUserService/UserCreatePaidItem"@,
        SimpleClientUserServiceMethod::UserBuyPaidItem => "/upsetter.simple_client.SimpleClientUserService/UserBuyPaidItem"@,
        SimpleClientUserServiceMethod::UserListPaidContentItems => "/upsetter.simple_client.SimpleClientUserService/UserListPaidContentItems"@,
        SimpleClientUserServiceMethod::SetBlockchainService => "/upsetter.simple_client.SimpleClientUserService/SetBlockchainService"@,
    }
}

/// The method that a request path names, if it names one.
pub open spec fn simple_client_user_service_route(path: Seq<char>) -> Option<SimpleClientUserServiceMethod> {
    if path == "/upsetter.simple_client.SimpleClientUserService/UserSetProvider"@ {
        Some(SimpleClientUserServiceMethod::UserSetProvider)
    } else if path == "/upsetter.simple_client.SimpleClientUserService/UserAddOtherClientBundle"@ {
        Some(SimpleClientUserServiceMethod::UserAddOtherClientBundle)
    } else if path == "/upsetter.simple_client.SimpleClientUserService/UserSendTextMessage"@ {
        Some(SimpleClientUserServiceMethod::UserSendTextMessage)
    } else if path == "/upsetter.simple_client.SimpleClientUserService/UserCreateStatusUpdateChannel"@ {
        Some(SimpleClientUserServiceMethod::UserCreateStatusUpdateChannel)
    } else if path == "/upsetter.simple_client.SimpleClientUserService/UserSubscribeToStatusUpdates"@ {
        Some(SimpleClientUserServiceMethod::UserSubscribeToStatusUpdates)
    } else if path == "/upsetter.simple_client.SimpleClientUserService/UserUnsubscribeFromStatusUpdates"@ {
        Some(SimpleClientUserServiceMethod::UserUnsubscribeFromStatusUpdates)
    } else if path == "/upsetter.simple_client.SimpleClientUserService/UserNewPost"@ {
        Some(SimpleClientUserServiceMethod::UserNewPost)
    } else if path == "/upsetter.simple_client.SimpleClientUserService/UserCreateGroup"@ {
        Some(SimpleClientUserServiceMethod::UserCreateGroup)
    } else if path == "/upsetter.simple_client.SimpleClientUserService/UserJoinGroup"@ {
        Some(SimpleClientUserServiceMethod::UserJoinGroup)
    } else if path == "/upsetter.simple_client.SimpleClientUserService/UserLeaveGroup"@ {
        Some(SimpleClientUserServiceMethod::UserLeaveGroup)
    } else if path == "/upsetter.simple_client.SimpleClientUserService/UserCreatePaidItem"@ {
        Some(SimpleClientUserServiceMethod::UserCreatePaidItem)
    } else if path == "/upsetter.simple_client.SimpleClientUserService/UserBuyPaidItem"@ {
        Some(SimpleClientUserServiceMethod::UserBuyPaidItem)
    } else if path == "/upsetter.simple_client.SimpleClientUserService/UserListPaidContentItems"@ {
        Some(SimpleClientUserServiceMethod::UserListPaidContentItems)
    } else if path == "/upsetter.simple_client.SimpleClientUserService/SetBlockchainService"@ {
        Some(SimpleClientUserServiceMethod::SetBlockchainService)
    } else {
        None
    }
}

impl SimpleClientUserServiceMethod {
    /// The method's request path.
    pub fn path(&self) -> (r: &'static str)
        ensures
            r@ == simple_client_user_service_path(*self),
    {
        match self {
            SimpleClientUserServiceMethod::UserSetProvider => "/upsetter.simple_client.SimpleClientUserService/UserSetProvider",
            SimpleClientUserServiceMethod::UserAddOtherClientBundle => "/upsetter.simple_client.SimpleClientUserService/UserAddOtherClientBundle",
            SimpleClientUserServiceMethod::UserSendTextMessage => "/upsetter.simple_client.SimpleClientUserService/UserSendTextMessage",
            SimpleClientUserServiceMethod::UserCreateStatusUpdateChannel => "/upsetter.simple_client.SimpleClientUserService/UserCreateStatusUpdateChannel",
            SimpleClientUserServiceMethod::UserSubscribeToStatusUpdates => "/upsetter.simple_client.SimpleClientUserService/UserSubscribeToStatusUpdates",
            SimpleClientUserServiceMethod::UserUnsubscribeFromStatusUpdates => "/upsetter.simple_client.SimpleClientUserService/UserUnsubscribeFromStatusUpdates",
            SimpleClientUserServiceMethod::UserNewPost => "/upsetter.simple_client.SimpleClientUserService/UserNewPost",
            SimpleClientUserServiceMethod::UserCreateGroup => "/upsetter.simple_client.SimpleClientUserService/UserCreateGroup",
            SimpleClientUserServiceMethod::UserJoinGroup => "/upsetter.simple_client.SimpleClientUserService/UserJoinGroup",
            SimpleClientUserServiceMethod::UserLeaveGroup => "/upsetter.simple_client.SimpleClientUserService/UserLeaveGroup",
            SimpleClientUserServiceMethod::UserCreatePaidItem => "/upsetter.simple_client.SimpleClientUserService/UserCreatePaidItem",
            SimpleClientUserServiceMethod::UserBuyPaidItem => "/upsetter.simple_client.SimpleClientUserService/UserBuyPaidItem",
            SimpleClientUserServiceMethod::UserListPaidContentItems => "/upsetter.simple_client.SimpleClientUserService/UserListPaidContentItems",
            SimpleClientUserServiceMethod::SetBlockchainService => "/upsetter.simple_client.SimpleClientUserService/SetBlockchainService",
        }
    }

    /// The method that the request path `path` names; `None` where it names
    /// no method of the service, which the server answers as unimplemented.
    pub fn from_path(path: &str) -> (r: Option<SimpleClientUserServiceMethod>)
        ensures
            r == simple_client_user_service_route(path@),
    {
        if str_equal(path, "/upsetter.simple_client.SimpleClientUserService/UserSetProvider") {
            Some(SimpleClientUserServiceMethod::UserSetProvider)
        } else if str_equal(path, "/upsetter.simple_client.SimpleClientUserService/UserAddOtherClientBundle") {
            Some(SimpleClientUserServiceMethod::UserAddOtherClientBundle)
        } else if str_equal(path, "/upsetter.simple_client.SimpleClientUserService/UserSendTextMessage") {
            Some(SimpleClientUserServiceMethod::UserSendTextMessage)
        } else if str_equal(path, "/upsetter.simple_client.SimpleClientUserService/UserCreateStatusUpdateChannel") {
            Some(SimpleClientUserServiceMethod::UserCreateStatusUpdateChannel)
        } else if str_equal(path, "/upsetter.simple_client.SimpleClientUserService/UserSubscribeToStatusUpdates") {
            Some(SimpleClientUserServiceMethod::UserSubscribeToStatusUpdates)
        } else if str_equal(path, "/upsetter.simple_client.SimpleClientUserService/UserUnsubscribeFromStatusUpdates") {
            Some(SimpleClientUserServiceMethod::UserUnsubscribeFromStatusUpdates)
        } else if str_equal(path, "/upsetter.simple_client.SimpleClientUserService/UserNewPost") {
            Some(SimpleClientUserServiceMethod::UserNewPost)
        } else if str_equal(path, "/upsetter.simple_client.SimpleClientUserService/UserCreateGroup") {
            Some(SimpleClientUserServiceMethod::UserCreateGroup)
        } else if str_equal(path, "/upsetter.simple_client.SimpleClientUserService/UserJoinGroup") {
            Some(SimpleClientUserServiceMethod::UserJoinGroup)
        } else if str_equal(path, "/upsetter.simple_client.SimpleClientUserService/UserLeaveGroup") {
            Some(SimpleClientUserServiceMethod::UserLeaveGroup)
        } else if str_equal(path, "/upsetter.simple_client.SimpleClientUserService/UserCreatePaidItem") {
            Some(SimpleClientUserServiceMethod::UserCreatePaidItem)
        } else if str_equal(path, "/upsetter.simple_client.SimpleClientUserService/UserBuyPaidItem") {
            Some(SimpleClientUserServiceMethod::UserBuyPaidItem)
        } else if str_equal(path, "/upsetter.simple_client.SimpleClientUserService/UserListPaidContentItems") {
            Some(SimpleClientUserServiceMethod::UserListPaidContentItems)
        } else if str_equal(path, "/upsetter.simple_client.SimpleClientUserService/SetBlockchainService") {
            Some(SimpleClientUserServiceMethod::SetBlockchainService)
        } else {
            None
        }
    }
}

/// Each method's path routes back to that method.
pub proof fn lemma_simple_client_user_service_route_of_path(m: SimpleClientUserServiceMethod)
    ensures
        simple_client_user_service_route(simple_client_user_service_path(m)) == Some(m),
{
    match m {
        SimpleClientUserServiceMethod::UserSetProvider => {
            reveal_strlit("/upsetter.simple_client.SimpleClientUserService/UserSetProvider");
        },
        SimpleClientUserServiceMethod::UserAddOtherClientBundle => {
            reveal_strlit("/upsetter.simple_client.SimpleClientUserService/UserAddOtherClientBundle");
            reveal_strlit("/upsetter.simple_client.SimpleClientUserService/UserSetProvider");
            assert("/upsetter.simple_client.SimpleClientUserService/UserAddOtherClientBundle"@.len() != "/upsetter.simple_client.SimpleClientUserService/UserSetProvider"@.len());
        },
        SimpleClientUserServiceMethod::UserSendTextMessage => {
            reveal_strlit("/upsetter.simple_client.SimpleClientUserService/UserSendTextMessage");
            reveal_strlit("/upsetter.simple_client.SimpleClientUserService/UserSetProvider");
            assert("/upsetter.simple_client.SimpleClientUserService/UserSendTextMessage"@.len() != "/upsetter.simple_client.SimpleClientUserService/UserSetProvider"@.len());
            reveal_strlit("/upsetter.simple_client.SimpleClientUserService/UserAddOtherClientBundle");
            assert("/upsetter.simple_client.SimpleClientUserService/UserSendTextMessage"@.len() != "/upsetter.simple_client.SimpleClientUserService/UserAddOtherClientBundle"@.len());
        },
        SimpleClientUserServiceMethod::UserCreateStatusUpdateChannel => {
            reveal_strlit("/upsetter.simple_client.SimpleClientUserService/UserCreateStatusUpdateChannel");
            reveal_strlit("/upsetter.simple_client.SimpleClientUserService/UserSetProvider");
            assert("/upsetter.simple_client.SimpleClientUserService/UserCreateStatusUpdateChannel"@.len() != "/upsetter.simple_client.SimpleClientUserService/UserSetProvider"@.len());
            reveal_strlit("/upsetter.simple_client.SimpleClientUserService/UserAddOtherClientBundle");
            assert("/upsetter.simple_client.SimpleClientUserService/UserCreateStatusUpdateChannel"@.len() != "/upsetter.simple_client.SimpleClientUserService/UserAddOtherClientBundle"@.len());
            reveal_strlit("/upsetter.simple_client.SimpleClientUserService/UserSendTextMessage");
            assert("/upsetter.simple_client.SimpleClientUserService/UserCreateStatusUpdateChannel"@.len() != "/upsetter.simple_client.SimpleClientUserService/UserSendTextMessage"@.len());
        },
        SimpleClientUserServiceMethod::UserSubscribeToStatusUpdates => {
            reveal_strlit("/upsetter.simple_client.SimpleClientUserService/UserSubscribeToStatusUpdates");
            reveal_strlit("/upsetter.simple_client.SimpleClientUserService/UserSetProvider");
            assert("/upsetter.simple_client.SimpleClientUserService/UserSubscribeToStatusUpdates"@.len() != "/upsetter.simple_client.SimpleClientUserService/UserSetProvider"@.len());
            reveal_strlit("/upsetter.simple_client.SimpleClientUserService/UserAddOtherClientBundle");
            assert("/upsetter.simple_client.SimpleClientUserService/UserSubscribeToStatusUpdates"@.len() != "/upsetter.simple_client.SimpleClientUserService/UserAddOtherClientBundle"@.len());
            reveal_strlit("/upsetter.simple_client.SimpleClientUserService/UserSendTextMessage");
            assert("/upsetter.simple_client.SimpleClientUserService/UserSubscribeToStatusUpdates"@.len() != "/upsetter.simple_client.SimpleClientUserService/UserSendTextMessage"@.len());
            reveal_strlit("/upsetter.simple_client.SimpleClientUserService/UserCreateStatusUpdateChannel");
            assert("/upsetter.simple_client.SimpleClientUserService/UserSubscribeToStatusUpdates"@.len() != "/upsetter.simple_client.SimpleClientUserService/UserCreateStatusUpdateChannel"@.len());
        },
        SimpleClientUserServiceMethod::UserUnsubscribeFromStatusUpdates => {
            reveal_strlit("/upsetter.simple_client.SimpleClientUserService/UserUnsubscribeFromStatusUpdates");
            reveal_strlit("/upsetter.simple_client.SimpleClientUserService/UserSetProvider");
            assert("/upsetter.simple_client.SimpleClientUserService/UserUnsubscribeFromStatusUpdates"@.len() != "/upsetter.simple_client.SimpleClientUserService/UserSetProvider"@.len());
            reveal_strlit("/upsetter.simple_client.SimpleClientUserService/UserAddOtherClientBundle");
            assert("/upsetter.simple_client.SimpleClientUserService/UserUnsubscribeFromStatusUpdates"@.len() != "/upsetter.simple_client.SimpleClientUserService/UserAddOtherClientBundle"@.len());
            reveal_strlit("/upsetter.simple_client.SimpleClientUserService/UserSendTextMessage");
            assert("/upsetter.simple_client.SimpleClientUserService/UserUnsubscribeFromStatusUpdates"@.len() != "/upsetter.simple_client.SimpleClientUserService/UserSendTextMessage"@.len());
            reveal_strlit("/upsetter.simple_client.SimpleClientUserService/UserCreateStatusUpdateChannel");
            assert("/upsetter.simple_client.SimpleClientUserService/UserUnsubscribeFromStatusUpdates"@.len() != "/upsetter.simple_client.SimpleClientUserService/UserCreateStatusUpdateChannel"@.len());
            reveal_strlit("/upsetter.simple_client.SimpleClientUserService/UserSubscribeToStatusUpdates");
            assert("/upsetter.simple_client.SimpleClientUserService/UserUnsubscribeFromStatusUpdates"@.len() != "/upsetter.simple_client.SimpleClientUserService/UserSubscribeToStatusUpdates"@.len());
        },
        SimpleClientUserServiceMethod::UserNewPost => {
            reveal_strlit("/upsetter.simple_client.SimpleClientUserService/UserNewPost");
            reveal_strlit("/upsetter.simple_client.SimpleClientUserService/UserSetProvider");
            assert("/upsetter.simple_client.SimpleClientUserService/UserNewPost"@.len() != "/upsetter.simple_client.SimpleClientUserService/UserSetProvider"@.len());
            reveal_strlit("/upsetter.simple_client.SimpleClientUserService/UserAddOtherClientBundle");
            assert("/upsetter.simple_client.SimpleClientUserService/UserNewPost"@.len() != "/upsetter.simple_client.SimpleClientUserService/UserAddOtherClientBundle"@.len());
            reveal_strlit("/upsetter.simple_client.SimpleClientUserService/UserSendTextMessage");
            assert("/upsetter.simple_client.SimpleClientUserService/UserNewPost"@.len() != "/upsetter.simple_client.SimpleClientUserService/UserSendTextMessage"@.len());
            reveal_strlit("/upsetter.simple_client.SimpleClientUserService/UserCreateStatusUpdateChannel");
            assert("/upsetter.simple_client.SimpleClientUserService/UserNewPost"@.len() != "/upsetter.simple_client.SimpleClientUserService/UserCreateStatusUpdateChannel"@.len());
            reveal_strlit("/upsetter.simple_client.SimpleClientUserService/UserSubscribeToStatusUpdates");
            assert("/upsetter.simple_client.SimpleClientUserService/UserNewPost"@.len() != "/upsetter.simple_client.SimpleClientUserService/UserSubscribeToStatusUpdates"@.len());
            reveal_strlit("/upsetter.simple_client.SimpleClientUserService/UserUnsubscribeFromStatusUpdates");
            assert("/upsetter.simple_client.SimpleClientUserService/UserNewPost"@.len() != "/upsetter.simple_client.SimpleClientUserService/UserUnsubscribeFromStatusUpdates"@.len());
        },
        SimpleClientUserServiceMethod::UserCreateGroup => {
            reveal_strlit("/upsetter.simple_client.SimpleClientUserService/UserCreateGroup");
            reveal_strlit("/upsetter.simple_client.SimpleClientUserService/UserSetProvider");
            assert("/upsetter.simple_client.SimpleClientUserService/UserCreateGroup"@[52] != "/upsetter.simple_client.SimpleClientUserService/UserSetProvider"@[52]);
            reveal_strlit("/upsetter.simple_client.SimpleClientUserService/UserAddOtherClientBundle");
            assert("/upsetter.simple_client.SimpleClientUserService/UserCreateGroup"@.len() != "/upsetter.simple_client.SimpleClientUserService/UserAddOtherClientBundle"@.len());
            reveal_strlit("/upsetter.simple_client.SimpleClientUserService/UserSendTextMessage");
            assert("/upsetter.simple_client.SimpleClientUserService/UserCreateGroup"@.len() != "/upsetter.simple_client.SimpleClientUserService/UserSendTextMessage"@.len());
            reveal_strlit("/upsetter.simple_client.SimpleClientUserService/UserCreateStatusUpdateChannel");
            assert("/upsetter.simple_client.SimpleClientUserService/UserCreateGroup"@.len() != "/upsetter.simple_client.SimpleClientUserService/UserCreateStatusUpdateChannel"@.len());
            reveal_strlit("/upsetter.simple_client.SimpleClientUserService/UserSubscribeToStatusUpdates");
            assert("/upsetter.simple_client.SimpleClientUserService/UserCreateGroup"@.len() != "/upsetter.simple_client.SimpleClientUserService/UserSubscribeToStatusUpdates"@.len());
            reveal_strlit("/upsetter.simple_client.SimpleClientUserService/UserUnsubscribeFromStatusUpdates");
            assert("/upsetter.simple_client.SimpleClientUserService/UserCreateGroup"@.len() != "/upsetter.simple_client.SimpleClientUserService/UserUnsubscribeFromStatusUpdates"@.len());
            reveal_strlit("/upsetter.simple_client.SimpleClientUserService/UserNewPost");
            assert("/upsetter.simple_client.SimpleClientUserService/UserCreateGroup"@.len() != "/upsetter.simple_client.SimpleClientUserService/UserNewPost"@.len());
        },
        SimpleClientUserServiceMethod::UserJoinGroup => {
            reveal_strlit("/upsetter.simple_client.SimpleClientUserService/UserJoinGroup");
            reveal_strlit("/upsetter.simple_client.SimpleClientUserService/UserSetProvider");
            assert("/upsetter.simple_client.SimpleClientUserService/UserJoinGroup"@.len() != "/upsetter.simple_client.SimpleClientUserService/UserSetProvider"@.len());
            reveal_strlit("/upsetter.simple_client.SimpleClientUserService/UserAddOtherClientBundle");
            assert("/upsetter.simple_client.SimpleClientUserService/UserJoinGroup"@.len() != "/upsetter.simple_client.SimpleClientUserService/UserAddOtherClientBundle"@.len());
            reveal_strlit("/upsetter.simple_client.SimpleClientUserService/UserSendTextMessage");
            assert("/upsetter.simple_client.SimpleClientUserService/UserJoinGroup"@.len() != "/upsetter.simple_client.SimpleClientUserService/UserSendTextMessage"@.len());
            reveal_strlit("/upsetter.simple_client.SimpleClientUserService/UserCreateStatusUpdateChannel");
            assert("/upsetter.simple_client.SimpleClientUserService/UserJoinGroup"@.len() != "/upsetter.simple_client.SimpleClientUserService/UserCreateStatusUpdateChannel"@.len());
            reveal_strlit("/upsetter.simple_client.SimpleClientUserService/UserSubscribeToStatusUpdates");
            assert("/upsetter.simple_client.SimpleClientUserService/UserJoinGroup"@.len() != "/upsetter.simple_client.SimpleClientUserService/UserSubscribeToStatusUpdates"@.len());
            reveal_strlit("/upsetter.simple_client.SimpleClientUserService/UserUnsubscribeFromStatusUpdates");
            assert("/upsetter.simple_client.SimpleClientUserService/UserJoinGroup"@.len() != "/upsetter.simple_client.SimpleClientUserService/UserUnsubscribeFromStatusUpdates"@.len());
            reveal_strlit("/upsetter.simple_client.SimpleClientUserService/UserNewPost");
            assert("/upsetter.simple_client.SimpleClientUserService/UserJoinGroup"@.len() != "/upsetter.simple_client.SimpleClientUserService/UserNewPost"@.len());
            reveal_strlit("/upsetter.simple_client.SimpleClientUserService/UserCreateGroup");
            assert("/upsetter.simple_client.SimpleClientUserService/UserJoinGroup"@.len() != "/upsetter.simple_client.SimpleClientUserService/UserCreateGroup"@.len());
        },
        SimpleClientUserServiceMethod::UserLeaveGroup => {
            reveal_strlit("/upsetter.simple_client.SimpleClientUserService/UserLeaveGroup");
            reveal_strlit("/upsetter.simple_client.SimpleClientUserService/UserSetProvider");
            assert("/upsetter.simple_client.SimpleClientUserService/UserLeaveGroup"@.len() != "/upsetter.simple_client.SimpleClientUserService/UserSetProvider"@.len());
            reveal_strlit("/upsetter.simple_client.SimpleClientUserService/UserAddOtherClientBundle");
            assert("/upsetter.simple_client.SimpleClientUserService/UserLeaveGroup"@.len() != "/upsetter.simple_client.SimpleClientUserService/UserAddOtherClientBundle"@.len());
            reveal_strlit("/upsetter.simple_client.SimpleClientUserService/UserSendTextMessage");
            assert("/upsetter.simple_client.SimpleClientUserService/UserLeaveGroup"@.len() != "/upsetter.simple_client.SimpleClientUserService/UserSendTextMessage"@.len());
            reveal_strlit("/upsetter.simple_client.SimpleClientUserService/UserCreateStatusUpdateChannel");
            assert("/upsetter.simple_client.SimpleClientUserService/UserLeaveGroup"@.len() != "/upsetter.simple_client.SimpleClientUserService/UserCreateStatusUpdateChannel"@.len());
            reveal_strlit("/upsetter.simple_client.SimpleClientUserService/UserSubscribeToStatusUpdates");
            assert("/upsetter.simple_client.SimpleClientUserService/UserLeaveGroup"@.len() != "/upsetter.simple_client.SimpleClientUserService/UserSubscribeToStatusUpdates"@.len());
            reveal_strlit("/upsetter.simple_client.SimpleClientUserService/UserUnsubscribeFromStatusUpdates");
            assert("/upsetter.simple_client.SimpleClientUserService/UserLeaveGroup"@.len() != "/upsetter.simple_client.SimpleClientUserService/UserUnsubscribeFromStatusUpdates"@.len());
            reveal_strlit("/upsetter.simple_client.SimpleClientUserService/UserNewPost");
            assert("/upsetter.simple_client.SimpleClientUserService/UserLeaveGroup"@.len() != "/upsetter.simple_client.SimpleClientUserService/UserNewPost"@.len());
            reveal_strlit("/upsetter.simple_client.SimpleClientUserService/UserCreateGroup");
            assert("/upsetter.simple_client.SimpleClientUserService/UserLeaveGroup"@.len() != "/upsetter.simple_client.SimpleClientUserService/UserCreateGroup"@.len());
            reveal_strlit("/upsetter.simple_client.SimpleClientUserService/UserJoinGroup");
            assert("/upsetter.simple_client.SimpleClientUserService/UserLeaveGroup"@.len() != "/upsetter.simple_client.SimpleClientUserService/UserJoinGroup"@.len());
        },
        SimpleClientUserServiceMethod::UserCreatePaidItem => {
            reveal_strlit("/upsetter.simple_client.SimpleClientUserService/UserCreatePaidItem");
            reveal_strlit("/upsetter.simple_client.SimpleClientUserService/UserSetProvider");
            assert("/upsetter.simple_client.SimpleClientUserService/UserCreatePaidItem"@.len() != "/upsetter.simple_client.SimpleClientUserService/UserSetProvider"@.len());
            reveal_strlit("/upsetter.simple_client.SimpleClientUserService/UserAddOtherClientBundle");
            assert("/upsetter.simple_client.SimpleClientUserService/UserCreatePaidItem"@.len() != "/upsetter.simple_client.SimpleClientUserService/UserAddOtherClientBundle"@.len());
            reveal_strlit("/upsetter.simple_client.SimpleClientUserService/UserSendTextMessage");
            assert("/upsetter.simple_client.SimpleClientUserService/UserCreatePaidItem"@.len() != "/upsetter.simple_client.SimpleClientUserService/UserSendTextMessage"@.len());
            reveal_strlit("/upsetter.simple_client.SimpleClientUserService/UserCreateStatusUpdateChannel");
            assert("/upsetter.simple_client.SimpleClientUserService/UserCreatePaidItem"@.len() != "/upsetter.simple_client.SimpleClientUserService/UserCreateStatusUpdateChannel"@.len());
            reveal_strlit("/upsetter.simple_client.SimpleClientUserService/UserSubscribeToStatusUpdates");
            assert("/upsetter.simple_client.SimpleClientUserService/UserCreatePaidItem"@.len() != "/upsetter.simple_client.SimpleClientUserService/UserSubscribeToStatusUpdates"@.len());
            reveal_strlit("/upsetter.simple_client.SimpleClientUserService/UserUnsubscribeFromStatusUpdates");
            assert("/upsetter.simple_client.SimpleClientUserService/UserCreatePaidItem"@.len() != "/upsetter.simple_client.SimpleClientUserService/UserUnsubscribeFromStatusUpdates"@.len());
            reveal_strlit("/upsetter.simple_client.SimpleClientUserService/UserNewPost");
            assert("/upsetter.simple_client.SimpleClientUserService/UserCreatePaidItem"@.len() != "/upsetter.simple_client.SimpleClientUserService/UserNewPost"@.len());
            reveal_strlit("/upsetter.simple_client.SimpleClientUserService/UserCreateGroup");
            assert("/upsetter.simple_client.SimpleClientUserService/UserCreatePaidItem"@.len() != "/upsetter.simple_client.SimpleClientUserService/UserCreateGroup"@.len());
            reveal_strlit("/upsetter.simple_client.SimpleClientUserService/UserJoinGroup");
            assert("/upsetter.simple_client.SimpleClientUserService/UserCreatePaidItem"@.len() != "/upsetter.simple_client.SimpleClientUserService/UserJoinGroup"@.len());
            reveal_strlit("/upsetter.simple_client.SimpleClientUserService/UserLeaveGroup");
            assert("/upsetter.simple_client.SimpleClientUserService/UserCreatePaidItem"@.len() != "/upsetter.simple_client.SimpleClientUserService/UserLeaveGroup"@.len());
        },
        SimpleClientUserServiceMethod::UserBuyPaidItem => {
            reveal_strlit("/upsetter.simple_client.SimpleClientUserService/UserBuyPaidItem");
            reveal_strlit("/upsetter.simple_client.SimpleClientUserService/UserSetProvider");
            assert("/upsetter.simple_client.SimpleClientUserService/UserBuyPaidItem"@[52] != "/upsetter.simple_client.SimpleClientUserService/UserSetProvider"@[52]);
            reveal_strlit("/upsetter.simple_client.SimpleClientUserService/UserAddOtherClientBundle");
            assert("/upsetter.simple_client.SimpleClientUserService/UserBuyPaidItem"@.len() != "/upsetter.simple_client.SimpleClientUserService/UserAddOtherClientBundle"@.len());
            reveal_strlit("/upsetter.simple_client.SimpleClientUserService/UserSendTextMessage");
            assert("/upsetter.simple_client.SimpleClientUserService/UserBuyPaidItem"@.len() != "/upsetter.simple_client.SimpleClientUserService/UserSendTextMessage"@.len());
            reveal_strlit("/upsetter.simple_client.SimpleClientUserService/UserCreateStatusUpdateChannel");
            assert("/upsetter.simple_client.SimpleClientUserService/UserBuyPaidItem"@.len() != "/upsetter.simple_client.SimpleClientUserService/UserCreateStatusUpdateChannel"@.len());
            reveal_strlit("/upsetter.simple_client.SimpleClientUserService/UserSubscribeToStatusUpdates");
            assert("/upsetter.simple_client.SimpleClientUserService/UserBuyPaidItem"@.len() != "/upsetter.simple_client.SimpleClientUserService/UserSubscribeToStatusUpdates"@.len());
            reveal_strlit("/upsetter.simple_client.SimpleClientUserService/UserUnsubscribeFromStatusUpdates");
            assert("/upsetter.simple_client.SimpleClientUserService/UserBuyPaidItem"@.len() != "/upsetter.simple_client.SimpleClientUserService/UserUnsubscribeFromStatusUpdates"@.len());
            reveal_strlit("/upsetter.simple_client.SimpleClientUserService/UserNewPost");
            assert("/upsetter.simple_client.SimpleClientUserService/UserBuyPaidItem"@.len() != "/upsetter.simple_client.SimpleClientUserService/UserNewPost"@.len());
            reveal_strlit("/upsetter.simple_client.SimpleClientUserService/UserCreateGroup");
            assert("/upsetter.simple_client.SimpleClientUserService/UserBuyPaidItem"@[52] != "/upsetter.simple_client.SimpleClientUserService/UserCreateGroup"@[52]);
            reveal_strlit("/upsetter.simple_client.SimpleClientUserService/UserJoinGroup");
            assert("/upsetter.simple_client.SimpleClientUserService/UserBuyPaidItem"@.len() != "/upsetter.simple_client.SimpleClientUserService/UserJoinGroup"@.len());
            reveal_strlit("/upsetter.simple_client.SimpleClientUserService/UserLeaveGroup");
            assert("/upsetter.simple_client.SimpleClientUserService/UserBuyPaidItem"@.len() != "/upsetter.simple_client.SimpleClientUserService/UserLeaveGroup"@.len());
            reveal_strlit("/upsetter.simple_client.SimpleClientUserService/UserCreatePaidItem");
            assert("/upsetter.simple_client.SimpleClientUserService/UserBuyPaidItem"@.len() != "/upsetter.simple_client.SimpleClientUserService/UserCreatePaidItem"@.len());
        },
        SimpleClientUserServiceMethod::UserListPaidContentItems => {
            reveal_strlit("/upsetter.simple_client.SimpleClientUserService/UserListPaidContentItems");
            reveal_strlit("/upsetter.simple_client.SimpleClientUserService/UserSetProvider");
            assert("/upsetter.simple_client.SimpleClientUserService/UserListPaidContentItems"@.len() != "/upsetter.simple_client.SimpleClientUserService/UserSetProvider"@.len());
            reveal_strlit("/upsetter.simple_client.SimpleClientUserService/UserAddOtherClientBundle");
            assert("/upsetter.simple_client.SimpleClientUserService/UserListPaidContentItems"@[52] != "/upsetter.simple_client.SimpleClientUserService/UserAddOtherClientBundle"@[52]);
            reveal_strlit("/upsetter.simple_client.SimpleClientUserService/UserSendTextMessage");
            assert("/upsetter.simple_client.SimpleClientUserService/UserListPaidContentItems"@.len() != "/upsetter.simple_client.SimpleClientUserService/UserSendTextMessage"@.len());
            reveal_strlit("/upsetter.simple_client.SimpleClientUserService/UserCreateStatusUpdateChannel");
            assert("/upsetter.simple_client.SimpleClientUserService/UserListPaidContentItems"@.len() != "/upsetter.simple_client.SimpleClientUserService/UserCreateStatusUpdateChannel"@.len());
            reveal_strlit("/upsetter.simple_client.SimpleClientUserService/UserSubscribeToStatusUpdates");
            assert("/upsetter.simple_client.SimpleClientUserService/UserListPaidContentItems"@.len() != "/upsetter.simple_client.SimpleClientUserService/UserSubscribeToStatusUpdates"@.len());
            reveal_strlit("/upsetter.simple_client.SimpleClientUserService/UserUnsubscribeFromStatusUpdates");
            assert("/upsetter.simple_client.SimpleClientUserService/UserListPaidContentItems"@.len() != "/upsetter.simple_client.SimpleClientUserService/UserUnsubscribeFromStatusUpdates"@.len());
            reveal_strlit("/upsetter.simple_client.SimpleClientUserService/UserNewPost");
            assert("/upsetter.simple_client.SimpleClientUserService/UserListPaidContentItems"@.len() != "/upsetter.simple_client.SimpleClientUserService/UserNewPost"@.len());
            reveal_strlit("/upsetter.simple_client.SimpleClientUserService/UserCreateGroup");
            assert("/upsetter.simple_client.SimpleClientUserService/UserListPaidContentItems"@.len() != "/upsetter.simple_client.SimpleClientUserService/UserCreateGroup"@.len());
            reveal_strlit("/upsetter.simple_client.SimpleClientUserService/UserJoinGroup");
            assert("/upsetter.simple_client.SimpleClientUserService/UserListPaidContentItems"@.len() != "/upsetter.simple_client.SimpleClientUserService/UserJoinGroup"@.len());
            reveal_strlit("/upsetter.simple_client.SimpleClientUserService/UserLeaveGroup");
            assert("/upsetter.simple_client.SimpleClientUserService/UserListPaidContentItems"@.len() != "/upsetter.simple_client.SimpleClientUserService/UserLeaveGroup"@.len());
            reveal_strlit("/upsetter.simple_client.SimpleClientUserService/UserCreatePaidItem");
            assert("/upsetter.simple_client.SimpleClientUserService/UserListPaidContentItems"@.len() != "/upsetter.simple_client.SimpleClientUserService/UserCreatePaidItem"@.len());
            reveal_strlit("/upsetter.simple_client.SimpleClientUserService/UserBuyPaidItem");
            assert("/upsetter.simple_client.SimpleClientUserService/UserListPaidContentItems"@.len() != "/upsetter.simple_client.SimpleClientUserService/UserBuyPaidItem"@.len());
        },
        SimpleClientUserServiceMethod::SetBlockchainService => {
            reveal_strlit("/upsetter.simple_client.SimpleClientUserService/SetBlockchainService");
            reveal_strlit("/upsetter.simple_client.SimpleClientUserService/UserSetProvider");
            assert("/upsetter.simple_client.SimpleClientUserService/SetBlockchainService"@.len() != "/upsetter.simple_client.SimpleClientUserService/UserSetProvider"@.len());
            reveal_strlit("/upsetter.simple_client.SimpleClientUserService/UserAddOtherClientBundle");
            assert("/upsetter.simple_client.SimpleClientUserService/SetBlockchainService"@.len() != "/upsetter.simple_client.SimpleClientUserService/UserAddOtherClientBundle"@.len());
            reveal_strlit("/upsetter.simple_client.SimpleClientUserService/UserSendTextMessage");
            assert("/upsetter.simple_client.SimpleClientUserService/SetBlockchainService"@.len() != "/upsetter.simple_client.SimpleClientUserService/UserSendTextMessage"@.len());
            reveal_strlit("/upsetter.simple_client.SimpleClientUserService/UserCreateStatusUpdateChannel");
            assert("/upsetter.simple_client.SimpleClientUserService/SetBlockchainService"@.len() != "/upsetter.simple_client.SimpleClientUserService/UserCreateStatusUpdateChannel"@.len());
            reveal_strlit("/upsetter.simple_client.SimpleClientUserService/UserSubscribeToStatusUpdates");
            assert("/upsetter.simple_client.SimpleClientUserService/SetBlockchainService"@.len() != "/upsetter.simple_client.SimpleClientUserService/UserSubscribeToStatusUpdates"@.len());
            reveal_strlit("/upsetter.simple_client.SimpleClientUserService/UserUnsubscribeFromStatusUpdates");
            assert("/upsetter.simple_client.SimpleClientUserService/SetBlockchainService"@.len() != "/upsetter.simple_client.SimpleClientUserService/UserUnsubscribeFromStatusUpdates"@.len());
            reveal_strlit("/upsetter.simple_client.SimpleClientUserService/UserNewPost");
            assert("/upsetter.simple_client.SimpleClientUserService/SetBlockchainService"@.len() != "/upsetter.simple_client.SimpleClientUserService/UserNewPost"@.len());
            reveal_strlit("/upsetter.simple_client.SimpleClientUserService/UserCreateGroup");
            assert("/upsetter.simple_client.SimpleClientUserService/SetBlockchainService"@.len() != "/upsetter.simple_client.SimpleClientUserService/UserCreateGroup"@.len());
            reveal_strlit("/upsetter.simple_client.SimpleClientUserService/UserJoinGroup");
            assert("/upsetter.simple_client.SimpleClientUserService/SetBlockchainService"@.len() != "/upsetter.simple_client.SimpleClientUserService/UserJoinGroup"@.len());
            reveal_strlit("/upsetter.simple_client.SimpleClientUserService/UserLeaveGroup");
            assert("/upsetter.simple_client.SimpleClientUserService/SetBlockchainService"@.len() != "/upsetter.simple_client.SimpleClientUserService/UserLeaveGroup"@.len());
            reveal_strlit("/upsetter.simple_client.SimpleClientUserService/UserCreatePaidItem");
            assert("/upsetter.simple_client.SimpleClientUserService/SetBlockchainService"@.len() != "/upsetter.simple_client.SimpleClientUserService/UserCreatePaidItem"@.len());
            reveal_strlit("/upsetter.simple_client.SimpleClientUserService/UserBuyPaidItem");
            assert("/upsetter.simple_client.SimpleClientUserService/SetBlockchainService"@.len() != "/upsetter.simple_client.SimpleClientUserService/UserBuyPaidItem"@.len());
            reveal_strlit("/upsetter.simple_client.SimpleClientUserService/UserListPaidContentItems");
            assert("/upsetter.simple_client.SimpleClientUserService/SetBlockchainService"@.len() != "/upsetter.simple_client.SimpleClientUserService/UserListPaidContentItems"@.len());
        },
    }
}

/// The prefix of every request path of the service: its package and name.
pub open spec fn blockchain_service_prefix() -> Seq<char> {
    "/snp.blockchain.BlockchainService/"@
}

/// The name that the service declares for each of its methods.
pub open spec fn blockchain_service_method_name(m: BlockchainServiceMethod) -> Seq<char> {
    match m {
        BlockchainServiceMethod::SubmitTransaction => "SubmitTransaction"@,
        BlockchainServiceMethod::SetBalance => "SetBalance"@,
        BlockchainServiceMethod::GetTransaction => "GetTransaction"@,
        BlockchainServiceMethod::GetAccount => "GetAccount"@,
        BlockchainServiceMethod::GetBlock => "GetBlock"@,
        BlockchainServiceMethod::GetCurrentBlock => "GetCurrentBlock"@,
        BlockchainServiceMethod::GetProviderIdentityBundle => "GetProviderIdentityBundle"@,
        BlockchainServiceMethod::GetClientIdentityBundle => "GetClientIdentityBundle"@,
        BlockchainServiceMethod::GetClients => "GetClients"@,
        BlockchainServiceMethod::GetProviders => "GetProviders"@,
        BlockchainServiceMethod::GetValidatedBlocksCountByEntity => "GetValidatedBlocksCountByEntity"@,
        BlockchainServiceMethod::GetSealedBlocksCountByEntity => "GetSealedBlocksCountByEntity"@,
    }
}

/// A method's request path is the service's prefix followed by the name the
/// service declares for the method, and that path routes to the method.
pub proof fn lemma_blockchain_service_path_names_method(m: BlockchainServiceMethod)
    ensures
        blockchain_service_path(m) == blockchain_service_prefix() + blockchain_service_method_name(m),
        blockchain_service_route(blockchain_service_prefix() + blockchain_service_method_name(m)) == Some(m),
{
    reveal_strlit("/snp.blockchain.BlockchainService/");
    match m {
        BlockchainServiceMethod::SubmitTransaction => {
            reveal_strlit("/snp.blockchain.BlockchainService/SubmitTransaction");
            reveal_strlit("SubmitTransaction");
            assert(blockchain_service_path(m) =~= blockchain_service_prefix() + blockchain_service_method_name(m));
        },
        BlockchainServiceMethod::SetBalance => {
            reveal_strlit("/snp.blockchain.BlockchainService/SetBalance");
            reveal_strlit("SetBalance");
            assert(blockchain_service_path(m) =~= blockchain_service_prefix() + blockchain_service_method_name(m));
        },
        BlockchainServiceMethod::GetTransaction => {
            reveal_strlit("/snp.blockchain.BlockchainService/GetTransaction");
            reveal_strlit("GetTransaction");
            assert(blockchain_service_path(m) =~= blockchain_service_prefix() + blockchain_service_method_name(m));
        },
        BlockchainServiceMethod::GetAccount => {
            reveal_strlit("/snp.blockchain.BlockchainService/GetAccount");
            reveal_strlit("GetAccount");
            assert(blockchain_service_path(m) =~= blockchain_service_prefix() + blockchain_service_method_name(m));
        },
        BlockchainServiceMethod::GetBlock => {
            reveal_strlit("/snp.blockchain.BlockchainService/GetBlock");
            reveal_strlit("GetBlock");
            assert(blockchain_service_path(m) =~= blockchain_service_prefix() + blockchain_service_method_name(m));
        },
        BlockchainServiceMethod::GetCurrentBlock => {
            reveal_strlit("/snp.blockchain.BlockchainService/GetCurrentBlock");
            reveal_strlit("GetCurrentBlock");
            assert(blockchain_service_path(m) =~= blockchain_service_prefix() + blockchain_service_method_name(m));
        },
        BlockchainServiceMethod::GetProviderIdentityBundle => {
            reveal_strlit("/snp.blockchain.BlockchainService/GetProviderIdentityBundle");
            reveal_strlit("GetProviderIdentityBundle");
            assert(blockchain_service_path(m) =~= blockchain_service_prefix() + blockchain_service_method_name(m));
        },
        BlockchainServiceMethod::GetClientIdentityBundle => {
            reveal_strlit("/snp.blockchain.BlockchainService/GetClientIdentityBundle");
            reveal_strlit("GetClientIdentityBundle");
            assert(blockchain_service_path(m) =~= blockchain_service_prefix() + blockchain_service_method_name(m));
        },
        BlockchainServiceMethod::GetClients => {
            reveal_strlit("/snp.blockchain.BlockchainService/GetClients");
            reveal_strlit("GetClients");
            assert(blockchain_service_path(m) =~= blockchain_service_prefix() + blockchain_service_method_name(m));
        },
        BlockchainServiceMethod::GetProviders => {
            reveal_strlit("/snp.blockchain.BlockchainService/GetProviders");
            reveal_strlit("GetProviders");
            assert(blockchain_service_path(m) =~= blockchain_service_prefix() + blockchain_service_method_name(m));
        },
        BlockchainServiceMethod::GetValidatedBlocksCountByEntity => {
            reveal_strlit("/snp.blockchain.BlockchainService/GetValidatedBlocksCountByEntity");
            reveal_strlit("GetValidatedBlocksCountByEntity");
            assert(blockchain_service_path(m) =~= blockchain_service_prefix() + blockchain_service_method_name(m));
        },
        BlockchainServiceMethod::GetSealedBlocksCountByEntity => {
            reveal_strlit("/snp.blockchain.BlockchainService/GetSealedBlocksCountByEntity");
            reveal_strlit("GetSealedBlocksCountByEntity");
            assert(blockchain_service_path(m) =~= blockchain_service_prefix() + blockchain_service_method_name(m));
        },
    }
    lemma_blockchain_service_route_of_path(m);
}

/// The prefix of every request path of the service: its package and name.
pub open spec fn provider_core_service_prefix() -> Seq<char> {
    "/snp.server_api.ProviderCoreService/"@
}

/// The name that the service declares for each of its methods.
pub open spec fn provider_core_service_method_name(m: ProviderCoreServiceMethod) -> Seq<char> {
    match m {
        ProviderCoreServiceMethod::NewSession => "NewSession"@,
        ProviderCoreServiceMethod::Message => "Message"@,
        ProviderCoreServiceMethod::SubscribeToClientMessages => "SubscribeToClientMessages"@,
        ProviderCoreServiceMethod::GetIdentityBundle => "GetIdentityBundle"@,
        ProviderCoreServiceMethod::GetTermsOfService => "GetTermsOfService"@,
    }
}

/// A method's request path is the service's prefix followed by the name the
/// service declares for the method, and that path routes to the method.
pub proof fn lemma_provider_core_service_path_names_method(m: ProviderCoreServiceMethod)
    ensures
        provider_core_service_path(m) == provider_core_service_prefix() + provider_core_service_method_name(m),
        provider_core_service_route(provider_core_service_prefix() + provider_core_service_method_name(m)) == Some(m),
{
    reveal_strlit("/snp.server_api.ProviderCoreService/");
    match m {
        ProviderCoreServiceMethod::NewSession => {
            reveal_strlit("/snp.server_api.ProviderCoreService/NewSession");
            reveal_strlit("NewSession");
            assert(provider_core_service_path(m) =~= provider_core_service_prefix() + provider_core_service_method_name(m));
        },
        ProviderCoreServiceMethod::Message => {
            reveal_strlit("/snp.server_api.ProviderCoreService/Message");
            reveal_strlit("Message");
            assert(provider_core_service_path(m) =~= provider_core_service_prefix() + provider_core_service_method_name(m));
        },
        ProviderCoreServiceMethod::SubscribeToClientMessages => {
            reveal_strlit("/snp.server_api.ProviderCoreService/SubscribeToClientMessages");
            reveal_strlit("SubscribeToClientMessages");
            assert(provider_core_service_path(m) =~= provider_core_service_prefix() + provider_core_service_method_name(m));
        },
        ProviderCoreServiceMethod::GetIdentityBundle => {
            reveal_strlit("/snp.server_api.ProviderCoreService/GetIdentityBundle");
            reveal_strlit("GetIdentityBundle");
            assert(provider_core_service_path(m) =~= provider_core_service_prefix() + provider_core_service_method_name(m));
        },
        ProviderCoreServiceMethod::GetTermsOfService => {
            reveal_strlit("/snp.server_api.ProviderCoreService/GetTermsOfService");
            reveal_strlit("GetTermsOfService");
            assert(provider_core_service_path(m) =~= provider_core_service_prefix() + provider_core_service_method_name(m));
        },
    }
    lemma_provider_core_service_route_of_path(m);
}

/// The prefix of every request path of the service: its package and name.
pub open spec fn simple_client_user_service_prefix() -> Seq<char> {
    "/upsetter.simple_client.SimpleClientUserService/"@
}

/// The name that the service declares for each of its methods.
pub open spec fn simple_client_user_service_method_name(m: SimpleClientUserServiceMethod) -> Seq<char> {
    match m {
        SimpleClientUserServiceMethod::UserSetProvider => "UserSetProvider"@,
        SimpleClientUserServiceMethod::UserAddOtherClientBundle => "UserAddOtherClientBundle"@,
        SimpleClientUserServiceMethod::UserSendTextMessage => "UserSendTextMessage"@,
        SimpleClientUserServiceMethod::UserCreateStatusUpdateChannel => "UserCreateStatusUpdateChannel"@,
        SimpleClientUserServiceMethod::UserSubscribeToStatusUpdates => "UserSubscribeToStatusUpdates"@,
        SimpleClientUserServiceMethod::UserUnsubscribeFromStatusUpdates => "UserUnsubscribeFromStatusUpdates"@,
        SimpleClientUserServiceMethod::UserNewPost => "UserNewPost"@,
        SimpleClientUserServiceMethod::UserCreateGroup => "UserCreateGroup"@,
        SimpleClientUserServiceMethod::UserJoinGroup => "UserJoinGroup"@,
        SimpleClientUserServiceMethod::UserLeaveGroup => "UserLeaveGroup"@,
        SimpleClientUserServiceMethod::UserCreatePaidItem => "UserCreatePaidItem"@,
        SimpleClientUserServiceMethod::UserBuyPaidItem => "UserBuyPaidItem"@,
        SimpleClientUserServiceMethod::UserListPaidContentItems => "UserListPaidContentItems"@,
        SimpleClientUserServiceMethod::SetBlockchainService => "SetBlockchainService"@,
    }
}

/// A method's request path is the service's prefix followed by the name the
/// service declares for the method, and that path routes to the method.
pub proof fn lemma_simple_client_user_service_path_names_method(m: SimpleClientUserServiceMethod)
    ensures
        simple_client_user_service_path(m) == simple_client_user_service_prefix() + simple_client_user_service_method_name(m),
        simple_client_user_service_route(simple_client_user_service_prefix() + simple_client_user_service_method_name(m)) == Some(m),
{
    reveal_strlit("/upsetter.simple_client.SimpleClientUserService/");
    match m {
        SimpleClientUserServiceMethod::UserSetProvider => {
            reveal_strlit("/upsetter.simple_client.SimpleClientUserService/UserSetProvider");
            reveal_strlit("UserSetProvider");
            assert(simple_client_user_service_path(m) =~= simple_client_user_service_prefix() + simple_client_user_service_method_name(m));
        },
        SimpleClientUserServiceMethod::UserAddOtherClientBundle => {
            reveal_strlit("/upsetter.simple_client.SimpleClientUserService/UserAddOtherClientBundle");
            reveal_strlit("UserAddOtherClientBundle");
            assert(simple_client_user_service_path(m) =~= simple_client_user_service_prefix() + simple_client_user_service_method_name(m));
        },
        SimpleClientUserServiceMethod::UserSendTextMessage => {
            reveal_strlit("/upsetter.simple_client.SimpleClientUserService/UserSendTextMessage");
            reveal_strlit("UserSendTextMessage");
            assert(simple_client_user_service_path(m) =~= simple_client_user_service_prefix() + simple_client_user_service_method_name(m));
        },
        SimpleClientUserServiceMethod::UserCreateStatusUpdateChannel => {
            reveal_strlit("/upsetter.simple_client.SimpleClientUserService/UserCreateStatusUpdateChannel");
            reveal_strlit("UserCreateStatusUpdateChannel");
            assert(simple_client_user_service_path(m) =~= simple_client_user_service_prefix() + simple_client_user_service_method_name(m));
        },
        SimpleClientUserServiceMethod::UserSubscribeToStatusUpdates => {
            reveal_strlit("/upsetter.simple_client.SimpleClientUserService/UserSubscribeToStatusUpdates");
            reveal_strlit("UserSubscribeToStatusUpdates");
            assert(simple_client_user_service_path(m) =~= simple_client_user_service_prefix() + simple_client_user_service_method_name(m));
        },
        SimpleClientUserServiceMethod::UserUnsubscribeFromStatusUpdates => {
            reveal_strlit("/upsetter.simple_client.SimpleClientUserService/UserUnsubscribeFromStatusUpdates");
            reveal_strlit("UserUnsubscribeFromStatusUpdates");
            assert(simple_client_user_service_path(m) =~= simple_client_user_service_prefix() + simple_client_user_service_method_name(m));
        },
        SimpleClientUserServiceMethod::UserNewPost => {
            reveal_strlit("/upsetter.simple_client.SimpleClientUserService/UserNewPost");
            reveal_strlit("UserNewPost");
            assert(simple_client_user_service_path(m) =~= simple_client_user_service_prefix() + simple_client_user_service_method_name(m));
        },
        SimpleClientUserServiceMethod::UserCreateGroup => {
            reveal_strlit("/upsetter.simple_client.SimpleClientUserService/UserCreateGroup");
            reveal_strlit("UserCreateGroup");
            assert(simple_client_user_service_path(m) =~= simple_client_user_service_prefix() + simple_client_user_service_method_name(m));
        },
        SimpleClientUserServiceMethod::UserJoinGroup => {
            reveal_strlit("/upsetter.simple_client.SimpleClientUserService/UserJoinGroup");
            reveal_strlit("UserJoinGroup");
            assert(simple_client_user_service_path(m) =~= simple_client_user_service_prefix() + simple_client_user_service_method_name(m));
        },
        SimpleClientUserServiceMethod::UserLeaveGroup => {
            reveal_strlit("/upsetter.simple_client.SimpleClientUserService/UserLeaveGroup");
            reveal_strlit("UserLeaveGroup");
            assert(simple_client_user_service_path(m) =~= simple_client_user_service_prefix() + simple_client_user_service_method_name(m));
        },
        SimpleClientUserServiceMethod::UserCreatePaidItem => {
            reveal_strlit("/upsetter.simple_client.SimpleClientUserService/UserCreatePaidItem");
            reveal_strlit("UserCreatePaidItem");
            assert(simple_client_user_service_path(m) =~= simple_client_user_service_prefix() + simple_client_user_service_method_name(m));
        },
        SimpleClientUserServiceMethod::UserBuyPaidItem => {
            reveal_strlit("/upsetter.simple_client.SimpleClientUserService/UserBuyPaidItem");
            reveal_strlit("UserBuyPaidItem");
            assert(simple_client_user_service_path(m) =~= simple_client_user_service_prefix() + simple_client_user_service_method_name(m));
        },
        SimpleClientUserServiceMethod::UserListPaidContentItems => {
            reveal_strlit("/upsetter.simple_client.SimpleClientUserService/UserListPaidContentItems");
            reveal_strlit("UserListPaidContentItems");
            assert(simple_client_user_service_path(m) =~= simple_client_user_service_prefix() + simple_client_user_service_method_name(m));
        },
        SimpleClientUserServiceMethod::SetBlockchainService => {
            reveal_strlit("/upsetter.simple_client.SimpleClientUserService/SetBlockchainService");
            reveal_strlit("SetBlockchainService");
            assert(simple_client_user_service_path(m) =~= simple_client_user_service_prefix() + simple_client_user_service_method_name(m));
        },
    }
    lemma_simple_client_user_service_route_of_path(m);
}

} // verus!
