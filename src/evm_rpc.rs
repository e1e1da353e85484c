//! Request and response types of the EVM RPC canister interface.

use vstd::prelude::*;

verus! {

pub type ChainId = u64;
pub type ProviderId = u64;

#[derive(Clone, Debug, PartialEq, Eq)]
pub enum EthSepoliaService {
    Alchemy,
    BlockPi,
    PublicNode,
    Ankr,
    Sepolia,
}

#[derive(Clone, Debug, PartialEq, Eq)]
pub enum L2MainnetService {
    Alchemy,
    Llama,
    BlockPi,
    PublicNode,
    Ankr,
}

#[derive(Clone, Debug, PartialEq, Eq)]
pub struct HttpHeader {
    pub value: String,
    pub name: String,
}

#[derive(Clone, Debug, PartialEq, Eq)]
pub struct RpcApi {
    pub url: String,
    pub headers: Option<Vec<HttpHeader>>,
}

#[derive(Clone, Debug, PartialEq, Eq)]
pub enum EthMainnetService {
    Alchemy,
    Llama,
    BlockPi,
    Cloudflare,
    PublicNode,
    Ankr,
}

#[derive(Clone, Debug, PartialEq, Eq)]
pub enum RpcServices {
    EthSepolia(Option<Vec<EthSepoliaService>>),
    BaseMainnet(Option<Vec<L2MainnetService>>),
    Custom {
        chain_id: ChainId,
        services: Vec<RpcApi>,
    },
    OptimismMainnet(Option<Vec<L2MainnetService>>),
    ArbitrumOne(Option<Vec<L2MainnetService>>),
    EthMainnet(Option<Vec<EthMainnetService>>),
}

#[derive(Clone, Debug, PartialEq, Eq)]
pub enum ConsensusStrategy {
    Equality,
    Threshold { min: u8, total: Option<u8> },
}

#[derive(Clone, Debug, PartialEq, Eq)]
pub struct RpcConfig {
    pub response_consensus: Option<ConsensusStrategy>,
    pub response_size_estimate: Option<u64>,
}

#[derive(Clone, Debug, PartialEq, Eq)]
pub struct JsonRpcError {
    pub code: i64,
    pub message: String,
}

#[derive(Clone, Debug, PartialEq, Eq)]
pub enum ValidationError {
    Custom(String),
    InvalidHex(String),
}

#[derive(Clone, Debug, PartialEq, Eq)]
pub enum RejectionCode {
    NoError,
    CanisterError,
    SysTransient,
    DestinationInvalid,
    Unknown,
    SysFatal,
    CanisterReject,
}

#[derive(Clone, Debug, PartialEq, Eq)]
pub enum HttpOutcallError {
    IcError {
        code: RejectionCode,
        message: String,
    },
    InvalidHttpJsonRpcResponse {
        status: u16,
        body: String,
        parsing_error: Option<String>,
    },
}

#[derive(Clone, Debug, PartialEq, Eq)]
pub enum RpcService {
    EthSepolia(EthSepoliaService),
    BaseMainnet(L2MainnetService),
    Custom(RpcApi),
    OptimismMainnet(L2MainnetService),
    ArbitrumOne(L2MainnetService),
    EthMainnet(EthMainnetService),
    Provider(ProviderId),
}

#[derive(Clone, Debug, PartialEq, Eq)]
pub enum SendRawTransactionStatus {
    /// Accepted; the transaction hash, where the provider returned one.
    Accepted(Option<String>),
    NonceTooLow,
    NonceTooHigh,
    InsufficientFunds,
}

} // verus!

verus! {

/// The RPC services to query: the public Sepolia node.
pub fn rpc_services() -> (r: RpcServices)
    ensures
        r matches RpcServices::EthSepolia(Some(v)) && v@ == seq![EthSepoliaService::PublicNode],
{
    let mut v: Vec<EthSepoliaService> = Vec::new();
    v.push(EthSepoliaService::PublicNode);
    assert(v@ =~= seq![EthSepoliaService::PublicNode]);
    RpcServices::EthSepolia(Some(v))
}

} // verus!
