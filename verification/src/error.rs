//! The errors that the library's operations report.
use vstd::prelude::*;

verus! {

/// Why an operation of the library refused its input.
#[derive(Clone, Copy, PartialEq, Eq, Debug)]
pub enum BaseError {
    /// A nested field that the operation reads is absent.
    MissingData,
    MissingBundle,
    MissingClientId,
    MissingPubKey,
    MissingPublicKey,
    MissingProviderIdData,
    MissingPublicKeyData,
    MissingPrekeyData,
    MissingContent,
    /// A text item's content is not valid UTF-8.
    InvalidUtf8,
    MissingReceiverId,
    MissingReceiver,
    MissingMessageSignature,
    MissingSignature,
    MissingAuthorSignature,
    MissingAuthor,
    MissingContentItem,
    MissingChannelCreatorSignature,
    MissingUserId,
    MissingProviderId,
    MissingDialupInfo,
    MissingProviderIdKeyPair,
    MissingPrivateKey,
    MissingPublicBundle,
    MissingAddress,
    MissingClientBundle,
    MissingProviderBundle,
    MissingSender,
    MissingDrPublicKey,
    MissingMsg,
    MissingMessage,
    MissingHeader,
    MissingEphemeralKey,
    /// Bytes that should hold an ed25519 public key do not.
    InvalidPublicKey,
    /// Bytes that should hold an ed25519 signature do not.
    InvalidSignature,
    /// Bytes that should hold an ed25519 secret key do not.
    InvalidPrivateKey,
    /// A key that must be 32 bytes long is not.
    InvalidKeySize,
    /// A dr public key that must be 32 bytes long is not.
    BadDrPubKeySize,
    /// An ephemeral key that must be 32 bytes long is not.
    BadEkaSize,
    /// The client's signature does not verify.
    ClientSignatureMismatch,
    /// The provider's signature does not verify.
    ProviderSignatureMismatch,
    /// The channel creator's signature does not verify.
    ChannelCreatorSignatureMismatch,
    /// The sender's signature on a message does not verify.
    SenderSignatureMismatch,
    /// A signature does not verify.
    SignatureMismatch,
    /// Stored data does not decode as the type it claims.
    InvalidData,
    /// A store request names a data type that is not stored.
    UnexpectedDataType,
    /// Stored data is read as another type than it holds.
    InvalidDataType,
    MissingFeeData,
    MissingFeeAmount,
    /// A fee paid by a third party carries no fee signature.
    MissingFeeSignature,
    /// The fee payer of a transaction is its sender.
    SameSenderAndFeePayer,
    /// The fee was paid by the sender, so there is no fee signature to verify.
    SenderPaidFee,
    MissingExpectedFeeData,
    /// No subscriber handles a published message's type.
    NoSubscriber,
    /// A hash could not be computed.
    HashFailed,
}

} // verus!
