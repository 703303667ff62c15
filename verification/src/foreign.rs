//! The values that the two chains' client libraries hand to this crate.
//!
//! Each of these types is defined by another crate and is opaque here: the
//! verifier sees that two values are equal or not, and nothing of what is
//! inside. What this crate needs from one of them is asked of its own library
//! through the functions below, whose contracts are taken on trust.

use clarity::Address as EthAddress;
use clarity::Error as ClarityError;
use clarity::Uint256;
use deep_space::error::AddressError as CosmosAddressError;
use deep_space::error::CosmosGrpcError;
use deep_space::Address as CosmosAddress;
use num_bigint::ParseBigIntError;
use tonic::Status;
use vstd::prelude::*;
use web30::jsonrpc::error::Web3Error;

verus! {

/// An Ethereum account address: `clarity::Address`, twenty bytes.
#[verifier::external_type_specification]
#[verifier::external_body]
pub struct ExEthAddress(clarity::Address);

/// A Cosmos account address: `deep_space::Address`, its bytes and the prefix
/// under which it is written.
#[verifier::external_type_specification]
#[verifier::external_body]
pub struct ExCosmosAddress(deep_space::Address);

/// A gRPC status as a chain node answered it: `tonic::Status`.
#[verifier::external_type_specification]
#[verifier::external_body]
pub struct ExStatus(tonic::Status);

/// Why a string was no big integer: `num_bigint::ParseBigIntError`.
#[verifier::external_type_specification]
#[verifier::external_body]
pub struct ExParseBigIntError(num_bigint::ParseBigIntError);

/// A failure of the Cosmos gRPC client: `deep_space::error::CosmosGrpcError`.
#[verifier::external_type_specification]
#[verifier::external_body]
pub struct ExCosmosGrpcError(deep_space::error::CosmosGrpcError);

/// Why a string or a byte slice was no Cosmos address:
/// `deep_space::error::AddressError`.
#[verifier::external_type_specification]
#[verifier::external_body]
pub struct ExCosmosAddressError(deep_space::error::AddressError);

/// A failure of the Ethereum JSON-RPC client:
/// `web30::jsonrpc::error::Web3Error`.
#[verifier::external_type_specification]
#[verifier::external_body]
pub struct ExWeb3Error(web30::jsonrpc::error::Web3Error);

/// A failure of the Ethereum signing and encoding library: `clarity::Error`.
#[verifier::external_type_specification]
#[verifier::external_body]
pub struct ExClarityError(clarity::Error);

/// An amount of up to 256 bits, as the Ethereum client counts gas and wei:
/// `clarity::Uint256`, which is `num256::Uint256`.
#[verifier::external_type_specification]
#[verifier::external_body]
pub struct ExUint256(clarity::Uint256);

/// The signal that a deadline passed: `tokio::time::error::Elapsed`.
#[verifier::external_type_specification]
#[verifier::external_body]
pub struct ExElapsed(tokio::time::error::Elapsed);

/// The Bech32 form of a Cosmos address under its own prefix, as
/// `deep_space::Address::to_bech32` writes it; `None` where the prefix is one
/// that Bech32 does not take.
pub uninterp spec fn bech32_text(address: CosmosAddress) -> Option<Seq<char>>;

/// `deep_space::Address::to_bech32`, called with the prefix that the address
/// itself holds (`get_prefix`). It encodes the bytes of the address under
/// that prefix, and fails where the prefix is empty, holds a character
/// outside the printable ASCII range or mixes upper and lower case. The
/// outcome depends on the address alone, so it is given the name
/// `bech32_text`.
#[verifier::external_body]
pub(crate) fn cosmos_address_bech32(address: &CosmosAddress) -> (text: Option<String>)
    ensures
        text matches Some(written) ==> bech32_text(*address) == Some(written@),
        text is None ==> bech32_text(*address) is None,
{
    address.to_bech32(address.get_prefix()).ok()
}

/// `==` on two `clarity::Address`, which compares their twenty bytes: two
/// addresses are told apart exactly where they differ.
#[verifier::external_body]
pub(crate) fn same_eth_address(left: &EthAddress, right: &EthAddress) -> (same: bool)
    ensures
        same == (*left == *right),
{
    left == right
}

/// `==` on two `deep_space::Address`, which compares their kind, their bytes
/// and their prefix: two addresses are told apart exactly where they differ.
#[verifier::external_body]
pub(crate) fn same_cosmos_address(left: &CosmosAddress, right: &CosmosAddress) -> (same: bool)
    ensures
        same == (*left == *right),
{
    left == right
}

/// The text that `num_bigint` gives a `ParseBigIntError` through `Display`:
/// one of two fixed sentences, by the kind of the error.
pub uninterp spec fn parse_big_int_error_words(error: ParseBigIntError) -> Seq<char>;

/// `to_string` on a `ParseBigIntError`, which writes it through its
/// `Display`. The text depends on the error alone, so it is given the name
/// `parse_big_int_error_words`.
#[verifier::external_body]
pub(crate) fn parse_big_int_error_text(error: &ParseBigIntError) -> (text: String)
    ensures
        text@ == parse_big_int_error_words(*error),
{
    error.to_string()
}

/// `to_string` on a `CosmosGrpcError`, which writes it through its
/// `Display`. The text may hold what the operating system said of a lost
/// connection, so nothing is claimed of it.
#[verifier::external_body]
pub(crate) fn cosmos_grpc_error_text(error: &CosmosGrpcError) -> (text: String) {
    error.to_string()
}

/// The text that `deep_space` gives an `AddressError` through `Display`: a
/// fixed word for its variant, followed by the text of what the variant
/// carries.
pub uninterp spec fn cosmos_address_error_words(error: CosmosAddressError) -> Seq<char>;

/// `to_string` on an `AddressError`, which writes it through its `Display`.
/// The text depends on the error alone, so it is given the name
/// `cosmos_address_error_words`.
#[verifier::external_body]
pub(crate) fn cosmos_address_error_text(error: &CosmosAddressError) -> (text: String)
    ensures
        text@ == cosmos_address_error_words(*error),
{
    error.to_string()
}

/// The two amounts that a `Web3Error::InsufficientGas` carries as
/// `base_gas` and `gas_required`, in that order; `None` for every other
/// variant.
pub uninterp spec fn gas_factors(error: Web3Error) -> Option<(Uint256, Uint256)>;

/// Tells `Web3Error::InsufficientGas` from the other variants of
/// `Web3Error` and hands out its fields `base_gas` and `gas_required`.
#[verifier::external_body]
pub(crate) fn insufficient_gas_factors(error: &Web3Error) -> (factors: Option<(Uint256, Uint256)>)
    ensures
        factors == gas_factors(*error),
{
    match error {
        Web3Error::InsufficientGas { base_gas, gas_required, .. } => Some(
            (*base_gas, *gas_required),
        ),
        _ => None,
    }
}

/// The product of two 256-bit amounts where it fits in 256 bits, `None`
/// where it does not.
pub uninterp spec fn checked_product(left: Uint256, right: Uint256) -> Option<Uint256>;

/// `checked_mul` on the two 256-bit integers that the amounts hold, to
/// which `CheckedMul::checked_mul` of `Uint256` forwards: the product, or
/// `None` where it overflows. It never panics.
#[verifier::external_body]
pub(crate) fn gas_product(left: &Uint256, right: &Uint256) -> (product: Option<Uint256>)
    ensures
        product == checked_product(*left, *right),
{
    left.0.checked_mul(right.0).map(Uint256)
}

/// Whether `web30` can write this error: to write an `InsufficientGas` it
/// multiplies `base_gas` by `gas_required`, and that product has to fit.
pub open spec fn web3_writable(error: Web3Error) -> bool {
    gas_factors(error) matches Some(factors) ==> checked_product(factors.0, factors.1) is Some
}

/// `to_string` on a `Web3Error`, which writes it through its `Display`.
/// For `InsufficientGas` the `Display` multiplies `base_gas` by
/// `gas_required` and panics where that overflows, so such an error is left
/// out. The text may hold what the operating system said of a request that
/// could not be sent, so nothing is claimed of it.
#[verifier::external_body]
pub(crate) fn web3_error_text(error: &Web3Error) -> (text: String)
    requires
        web3_writable(*error),
{
    error.to_string()
}

/// The text that `clarity` gives an `Error` through `Display`: a fixed
/// sentence for its variant, with the numbers that the variant carries.
pub uninterp spec fn clarity_error_words(error: ClarityError) -> Seq<char>;

/// `to_string` on a `clarity::Error`, which writes it through its
/// `Display`. The text depends on the error alone, so it is given the name
/// `clarity_error_words`.
#[verifier::external_body]
pub(crate) fn clarity_error_text(error: &ClarityError) -> (text: String)
    ensures
        text@ == clarity_error_words(*error),
{
    error.to_string()
}

/// The text that `tonic` gives a `Status` through `Display`: its code,
/// message, details and metadata, each under its label.
pub uninterp spec fn status_words(status: Status) -> Seq<char>;

/// `to_string` on a `Status`, which writes it through its `Display`. The
/// text depends on the status alone, so it is given the name
/// `status_words`.
#[verifier::external_body]
pub(crate) fn status_text(status: &Status) -> (text: String)
    ensures
        text@ == status_words(*status),
{
    status.to_string()
}

} // verus!
