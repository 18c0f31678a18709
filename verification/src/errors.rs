//! The caller-side error taxonomy.

use vstd::prelude::*;

verus! {

/// Every failure the caller-side helpers can report.
#[derive(Debug, Clone, Copy, PartialEq, Eq, Structural)]
pub enum AppError {
    SerializeUrlError,
    ParseUrlError,
    InvalidToken,
    WrongCredentials,
    TokenCreation,
    MissingCredentials,
    UploadMissingFile,
    HashMismatch,
    RequestIpfsFailed,
    RequestIpfsError,
    RequestIpfsResponseNoBody,
    RequestIpfsResponseBodyDeserializeFailed,
    NoDatabaseConnection,
    CreateUserFailed,
    UserNotFound,
    UserQueryError,
    CollectionNotFound,
    CollectionQueryError,
    CreateCollectionFailed,
    NftNotFound,
    CreateNFTFailed,
    NftTraitNotFound,
    CreateNFTTraitFailed,
    CountNFTFailed,
    NotImplemented,
}

} // verus!
