//! Request and response types of the Solana RPC canister interface.

#![allow(non_snake_case)]

use vstd::prelude::*;

verus! {

pub type Regex = String;
pub type Pubkey = String;
pub type Slot = u64;
pub type Timestamp = i64;
pub type Signature = String;
pub type RoundingError = u64;
pub type MicroLamport = u64;

#[derive(Clone, Debug, PartialEq, Eq)]
pub enum LogFilter {
    ShowAll,
    HideAll,
    ShowPattern(Regex),
    HidePattern(Regex),
}

#[derive(Clone, Debug, PartialEq, Eq)]
pub struct RegexSubstitution {
    pub pattern: Regex,
    pub replacement: String,
}

#[derive(Clone, Debug, PartialEq, Eq)]
pub struct OverrideProvider {
    pub overrideUrl: Option<RegexSubstitution>,
}

#[derive(Clone, Debug, PartialEq, Eq)]
pub enum SolanaCluster {
    Mainnet,
    Testnet,
    Devnet,
}

#[derive(Clone, Debug, PartialEq, Eq)]
pub struct HttpHeader {
    pub value: String,
    pub name: String,
}

#[derive(Clone, Debug, PartialEq, Eq)]
pub struct RpcEndpoint {
    pub url: String,
    pub headers: Option<Vec<HttpHeader>>,
}

#[derive(Clone, Debug, PartialEq, Eq)]
pub enum SupportedProvider {
    AnkrMainnet,
    AlchemyDevnet,
    DrpcMainnet,
    ChainstackDevnet,
    AlchemyMainnet,
    HeliusDevnet,
    AnkrDevnet,
    DrpcDevnet,
    ChainstackMainnet,
    PublicNodeMainnet,
    HeliusMainnet,
}

#[derive(Clone, Debug, PartialEq, Eq)]
pub enum RpcSource {
    Custom(RpcEndpoint),
    Supported(SupportedProvider),
}

#[derive(Clone, Debug, PartialEq, Eq)]
pub enum RpcSources {
    Default(SolanaCluster),
    Custom(Vec<RpcSource>),
}

#[derive(Clone, Debug, PartialEq, Eq)]
pub enum ConsensusStrategy {
    Equality,
    Threshold { min: u8, total: Option<u8> },
}

#[derive(Clone, Debug, PartialEq, Eq)]
pub struct RpcConfig {
    pub responseConsensus: Option<ConsensusStrategy>,
    pub responseSizeEstimate: Option<u64>,
}

#[derive(Clone, Debug, PartialEq, Eq)]
pub enum GetAccountInfoEncoding {
    /// `base64+zstd` on the wire.
    Base64Zstd,
    JsonParsed,
    Base58,
    Base64,
}

#[derive(Clone, Debug, PartialEq, Eq)]
pub struct DataSlice {
    pub offset: u32,
    pub length: u32,
}

#[derive(Clone, Debug, PartialEq, Eq)]
pub enum CommitmentLevel {
    Finalized,
    Confirmed,
    Processed,
}

#[derive(Clone, Debug, PartialEq, Eq)]
pub struct GetAccountInfoParams {
    pub encoding: Option<GetAccountInfoEncoding>,
    pub pubkey: Pubkey,
    pub dataSlice: Option<DataSlice>,
    pub minContextSlot: Option<Slot>,
    pub commitment: Option<CommitmentLevel>,
}

#[derive(Clone, Debug, PartialEq, Eq)]
pub struct ParsedAccount {
    pub space: u64,
    pub parsed: String,
    pub program: Pubkey,
}

#[derive(Clone, Debug, PartialEq, Eq)]
pub enum AccountEncoding {
    /// `base64+zstd` on the wire.
    Base64Zstd,
    JsonParsed,
    Base58,
    Base64,
    Binary,
}

#[derive(Clone, Debug, PartialEq, Eq)]
pub enum AccountData {
    Json(ParsedAccount),
    LegacyBinary(String),
    Binary(String, AccountEncoding),
}

#[derive(Clone, Debug, PartialEq, Eq)]
pub struct AccountInfo {
    pub executable: bool,
    pub owner: Pubkey,
    pub lamports: u64,
    pub data: AccountData,
    pub space: u64,
    pub rentEpoch: u64,
}

#[derive(Clone, Debug, PartialEq, Eq)]
pub struct JsonRpcError {
    pub code: i64,
    pub message: String,
}

#[derive(Clone, Debug, PartialEq, Eq)]
pub enum RejectionCode {
    NoError,
    CanisterError,
    SysTransient,
    DestinationInvalid,
    Unknown,
    SysFatal,
    CanisterReject,
}

#[derive(Clone, Debug, PartialEq, Eq)]
pub enum HttpOutcallError {
    IcError {
        code: RejectionCode,
        message: String,
    },
    InvalidHttpJsonRpcResponse {
        status: u16,
        body: String,
        parsingError: Option<String>,
    },
}

#[derive(Clone, Debug, PartialEq, Eq)]
pub struct GetBalanceParams {
    pub pubkey: Pubkey,
    pub minContextSlot: Option<Slot>,
    pub commitment: Option<CommitmentLevel>,
}

#[derive(Clone, Debug, PartialEq, Eq)]
pub enum TransactionDetails {
    /// No transaction details (`none` on the wire).
    NoDetails,
    Accounts,
    Signatures,
}

#[derive(Clone, Debug, PartialEq, Eq)]
pub enum GetBlockParamsCommitmentInner {
    Finalized,
    Confirmed,
}

#[derive(Clone, Debug, PartialEq, Eq)]
pub struct GetBlockParams {
    pub maxSupportedTransactionVersion: Option<u8>,
    pub transactionDetails: Option<TransactionDetails>,
    pub slot: Slot,
    pub rewards: Option<bool>,
    pub commitment: Option<GetBlockParamsCommitmentInner>,
}

#[derive(Clone, Debug, PartialEq, Eq)]
pub enum RewardRewardTypeInner {
    Fee,
    Staking,
    Rent,
    Voting,
}

#[derive(Clone, Debug, PartialEq, Eq)]
pub struct Reward {
    pub lamports: i64,
    pub postBalance: u64,
    pub commission: Option<u8>,
    pub pubkey: Pubkey,
    pub rewardType: Option<RewardRewardTypeInner>,
}

#[derive(Clone, Debug, PartialEq, Eq)]
pub enum InstructionError {
    ModifiedProgramId,
    CallDepth,
    Immutable,
    GenericError,
    ExecutableAccountNotRentExempt,
    IncorrectAuthority,
    PrivilegeEscalation,
    ReentrancyNotAllowed,
    InvalidInstructionData,
    RentEpochModified,
    IllegalOwner,
    ComputationalBudgetExceeded,
    ExecutableDataModified,
    ExecutableLamportChange,
    UnbalancedInstruction,
    ProgramEnvironmentSetupFailure,
    IncorrectProgramId,
    UnsupportedSysvar,
    UnsupportedProgramId,
    AccountDataTooSmall,
    NotEnoughAccountKeys,
    AccountBorrowFailed,
    InvalidRealloc,
    AccountNotExecutable,
    AccountNotRentExempt,
    Custom(u32),
    AccountDataSizeChanged,
    MaxAccountsDataAllocationsExceeded,
    ExternalAccountLamportSpend,
    ExternalAccountDataModified,
    MissingAccount,
    ProgramFailedToComplete,
    MaxInstructionTraceLengthExceeded,
    InvalidAccountData,
    ProgramFailedToCompile,
    ExecutableModified,
    InvalidAccountOwner,
    MaxSeedLengthExceeded,
    AccountAlreadyInitialized,
    AccountBorrowOutstanding,
    ReadonlyDataModified,
    UninitializedAccount,
    InvalidArgument,
    BorshIoError(String),
    BuiltinProgramsMustConsumeComputeUnits,
    MissingRequiredSignature,
    DuplicateAccountOutOfSync,
    MaxAccountsExceeded,
    ArithmeticOverflow,
    InvalidError,
    InvalidSeeds,
    DuplicateAccountIndex,
    ReadonlyLamportChange,
    InsufficientFunds,
}

#[derive(Clone, Debug, PartialEq, Eq)]
pub enum TransactionError {
    ProgramCacheHitMaxLimit,
    InvalidAccountForFee,
    AddressLookupTableNotFound,
    MissingSignatureForFee,
    WouldExceedAccountDataBlockLimit,
    AccountInUse,
    DuplicateInstruction(u8),
    AccountNotFound,
    TooManyAccountLocks,
    InvalidAccountIndex,
    AlreadyProcessed,
    WouldExceedAccountDataTotalLimit,
    InvalidAddressLookupTableIndex,
    SanitizeFailure,
    ResanitizationNeeded,
    InvalidRentPayingAccount,
    MaxLoadedAccountsDataSizeExceeded,
    InvalidAddressLookupTableData,
    InvalidWritableAccount,
    WouldExceedMaxAccountCostLimit,
    InvalidLoadedAccountsDataSizeLimit,
    InvalidProgramForExecution,
    InstructionError(u8, InstructionError),
    InsufficientFundsForRent { account_index: u8 },
    UnsupportedVersion,
    ClusterMaintenance,
    WouldExceedMaxVoteCostLimit,
    SignatureFailure,
    ProgramAccountNotFound,
    AccountLoadedTwice,
    ProgramExecutionTemporarilyRestricted { account_index: u8 },
    AccountBorrowOutstanding,
    WouldExceedMaxBlockCostLimit,
    InvalidAddressLookupTableOwner,
    InsufficientFundsForFee,
    CallChainTooDeep,
    UnbalancedTransaction,
    CommitCancelled,
    BlockhashNotFound,
}

#[derive(Clone, Debug, PartialEq, Eq)]
pub enum TransactionStatusMetaStatus {
    /// The transaction succeeded.
    Succeeded,
    /// The transaction failed with this error.
    Failed(TransactionError),
}

#[derive(Clone, Debug, PartialEq, Eq)]
pub struct LoadedAddresses {
    pub writable: Vec<Pubkey>,
    pub readonly: Vec<Pubkey>,
}

#[derive(Clone, Debug, PartialEq, Eq)]
pub struct TransactionStatusMetaReturnDataInner {
    pub data: String,
    pub programId: Pubkey,
}

#[derive(Clone, Debug, PartialEq, Eq)]
pub enum EncodedTransactionBinary1 {
    Base58,
    Base64,
}

#[derive(Clone, Debug, PartialEq, Eq)]
pub enum EncodedTransaction {
    LegacyBinary(String),
    Binary(String, EncodedTransactionBinary1),
}

#[derive(Clone, Debug, PartialEq, Eq)]
pub enum EncodedTransactionWithStatusMetaVersionInner {
    Legacy,
    Number(u8),
}

#[derive(Clone, Debug, PartialEq, Eq)]
pub enum RpcAuth {
    BearerToken { url: String },
    UrlParameter { urlPattern: String },
}

#[derive(Clone, Debug, PartialEq, Eq)]
pub enum RpcAccess {
    Authenticated {
        publicUrl: Option<String>,
        auth: RpcAuth,
    },
    Unauthenticated {
        publicUrl: String,
    },
}

#[derive(Clone, Debug, PartialEq, Eq)]
pub struct RpcProvider {
    pub access: RpcAccess,
    pub cluster: SolanaCluster,
}

#[derive(Clone, Debug, PartialEq, Eq)]
pub struct GetRecentPrioritizationFeesRpcConfig {
    pub responseConsensus: Option<ConsensusStrategy>,
    pub maxSlotRoundingError: Option<RoundingError>,
    pub responseSizeEstimate: Option<u64>,
    pub maxLength: Option<u8>,
}

#[derive(Clone, Debug, PartialEq, Eq)]
pub struct PrioritizationFee {
    pub prioritizationFee: MicroLamport,
    pub slot: Slot,
}

#[derive(Clone, Debug, PartialEq, Eq)]
pub struct GetSignatureStatusesParams {
    pub searchTransactionHistory: Option<bool>,
    pub signatures: Vec<Signature>,
}

#[derive(Clone, Debug, PartialEq, Eq)]
pub enum TransactionStatusStatus {
    /// The transaction succeeded.
    Succeeded,
    /// The transaction failed with this error.
    Failed(TransactionError),
}

#[derive(Clone, Debug, PartialEq, Eq)]
pub enum TransactionConfirmationStatus {
    Finalized,
    Confirmed,
    Processed,
}

#[derive(Clone, Debug, PartialEq, Eq)]
pub struct TransactionStatus {
    pub err: Option<TransactionError>,
    pub status: TransactionStatusStatus,
    pub confirmationStatus: Option<TransactionConfirmationStatus>,
    pub slot: Slot,
}

#[derive(Clone, Debug, PartialEq, Eq)]
pub struct GetSignaturesForAddressParams {
    pub pubkey: Pubkey,
    pub limit: Option<u32>,
    pub before: Option<Signature>,
    pub until: Option<Signature>,
    pub minContextSlot: Option<Slot>,
    pub commitment: Option<CommitmentLevel>,
}

#[derive(Clone, Debug, PartialEq, Eq)]
pub struct ConfirmedTransactionStatusWithSignature {
    pub err: Option<TransactionError>,
    pub signature: Signature,
    pub confirmationStatus: Option<TransactionConfirmationStatus>,
    pub memo: Option<String>,
    pub slot: Slot,
    pub blockTime: Option<Timestamp>,
}

#[derive(Clone, Debug, PartialEq, Eq)]
pub struct GetSlotRpcConfig {
    pub roundingError: Option<RoundingError>,
    pub responseConsensus: Option<ConsensusStrategy>,
    pub responseSizeEstimate: Option<u64>,
}

#[derive(Clone, Debug, PartialEq, Eq)]
pub struct GetSlotParams {
    pub minContextSlot: Option<Slot>,
    pub commitment: Option<CommitmentLevel>,
}

#[derive(Clone, Debug, PartialEq, Eq)]
pub struct GetTokenAccountBalanceParams {
    pub pubkey: Pubkey,
    pub commitment: Option<CommitmentLevel>,
}

#[derive(Clone, Debug, PartialEq, Eq)]
pub enum GetTransactionParamsEncodingInner {
    Base58,
    Base64,
}

#[derive(Clone, Debug, PartialEq, Eq)]
pub struct GetTransactionParams {
    pub signature: Signature,
    pub maxSupportedTransactionVersion: Option<u8>,
    pub encoding: Option<GetTransactionParamsEncodingInner>,
    pub commitment: Option<CommitmentLevel>,
}

#[derive(Clone, Debug, PartialEq, Eq)]
pub enum SendTransactionEncoding {
    Base58,
    Base64,
}

#[derive(Clone, Debug, PartialEq, Eq)]
pub struct SendTransactionParams {
    pub encoding: Option<SendTransactionEncoding>,
    pub preflightCommitment: Option<CommitmentLevel>,
    pub transaction: String,
    pub maxRetries: Option<u32>,
    pub minContextSlot: Option<Slot>,
    pub skipPreflight: Option<bool>,
}

} // verus!

verus! {

/// The RPC providers to query: the devnet cluster in test mode, mainnet in
/// production.
pub fn rpc_sources(mode: crate::config::Mode) -> (r: RpcSources)
    ensures
        mode == crate::config::Mode::Test ==> r == RpcSources::Default(SolanaCluster::Devnet),
        mode == crate::config::Mode::Production ==> r == RpcSources::Default(SolanaCluster::Mainnet),
{
    match mode {
        crate::config::Mode::Test => RpcSources::Default(SolanaCluster::Devnet),
        crate::config::Mode::Production => RpcSources::Default(SolanaCluster::Mainnet),
    }
}

} // verus!
