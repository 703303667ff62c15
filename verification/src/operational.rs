//! Failures of operations in flight.

use crate::foreign::clarity_error_text;
use crate::foreign::clarity_error_words;
use crate::foreign::cosmos_address_error_words;
use crate::foreign::gas_product;
use crate::foreign::insufficient_gas_factors;
use crate::foreign::parse_big_int_error_words;
use crate::foreign::status_words;
use crate::foreign::web3_writable;
use crate::foreign::cosmos_address_error_text;
use crate::foreign::cosmos_grpc_error_text;
use crate::foreign::parse_big_int_error_text;
use crate::foreign::status_text;
use crate::foreign::web3_error_text;
use crate::text::contains_text;
use crate::text::lemma_joined_contains_tail;
use clarity::Error as ClarityError;
use deep_space::error::AddressError as CosmosAddressError;
use deep_space::error::CosmosGrpcError;
use num_bigint::ParseBigIntError;
use tokio::time::error::Elapsed;
use tonic::Status;
use vstd::prelude::*;
use vstd::string::StringExecFns;
use vstd::std_specs::convert::FromSpec;
use vstd::std_specs::convert::FromSpecImpl;
use web30::jsonrpc::error::Web3Error;

verus! {

/// What an operation against either chain can fail with.
///
/// A variant either wraps the error of a client library, kept as it came, or
/// names a condition that this side detected, with a description.
#[derive(Debug)]
#[allow(clippy::large_enum_variant)]
pub enum GravityError {
    InvalidBigInt(ParseBigIntError),
    CosmosGrpcError(CosmosGrpcError),
    CosmosAddressError(CosmosAddressError),
    EthereumRestError(Web3Error),
    InvalidBridgeStateError(String),
    FailedToUpdateValset,
    EthereumContractError(String),
    InvalidOptionsError(String),
    ClarityError(ClarityError),
    TimeoutError,
    InvalidEventLogError(String),
    GravityGrpcError(Status),
    InsufficientVotingPowerToPass(String),
    ParseBigIntError(ParseBigIntError),
}

impl From<CosmosGrpcError> for GravityError {
    fn from(error: CosmosGrpcError) -> (result: Self) {
        GravityError::CosmosGrpcError(error)
    }
}

impl FromSpecImpl<CosmosGrpcError> for GravityError {
    open spec fn obeys_from_spec() -> bool {
        true
    }

    open spec fn from_spec(error: CosmosGrpcError) -> Self {
        GravityError::CosmosGrpcError(error)
    }
}

impl From<Elapsed> for GravityError {
    /// Only the fact that the deadline passed is kept; the signal carries
    /// nothing else.
    fn from(_error: Elapsed) -> (result: Self) {
        GravityError::TimeoutError
    }
}

impl FromSpecImpl<Elapsed> for GravityError {
    open spec fn obeys_from_spec() -> bool {
        true
    }

    open spec fn from_spec(_error: Elapsed) -> Self {
        GravityError::TimeoutError
    }
}

impl From<ClarityError> for GravityError {
    fn from(error: ClarityError) -> (result: Self) {
        GravityError::ClarityError(error)
    }
}

impl FromSpecImpl<ClarityError> for GravityError {
    open spec fn obeys_from_spec() -> bool {
        true
    }

    open spec fn from_spec(error: ClarityError) -> Self {
        GravityError::ClarityError(error)
    }
}

impl From<Web3Error> for GravityError {
    fn from(error: Web3Error) -> (result: Self) {
        GravityError::EthereumRestError(error)
    }
}

impl FromSpecImpl<Web3Error> for GravityError {
    open spec fn obeys_from_spec() -> bool {
        true
    }

    open spec fn from_spec(error: Web3Error) -> Self {
        GravityError::EthereumRestError(error)
    }
}

impl From<Status> for GravityError {
    fn from(error: Status) -> (result: Self) {
        GravityError::GravityGrpcError(error)
    }
}

impl FromSpecImpl<Status> for GravityError {
    open spec fn obeys_from_spec() -> bool {
        true
    }

    open spec fn from_spec(error: Status) -> Self {
        GravityError::GravityGrpcError(error)
    }
}

impl From<CosmosAddressError> for GravityError {
    fn from(error: CosmosAddressError) -> (result: Self) {
        GravityError::CosmosAddressError(error)
    }
}

impl FromSpecImpl<CosmosAddressError> for GravityError {
    open spec fn obeys_from_spec() -> bool {
        true
    }

    open spec fn from_spec(error: CosmosAddressError) -> Self {
        GravityError::CosmosAddressError(error)
    }
}

impl From<ParseBigIntError> for GravityError {
    /// A big integer that did not parse is reported as `InvalidBigInt`;
    /// `ParseBigIntError` is for call sites that choose it by name.
    fn from(error: ParseBigIntError) -> (result: Self) {
        GravityError::InvalidBigInt(error)
    }
}

impl FromSpecImpl<ParseBigIntError> for GravityError {
    open spec fn obeys_from_spec() -> bool {
        true
    }

    open spec fn from_spec(error: ParseBigIntError) -> Self {
        GravityError::InvalidBigInt(error)
    }
}

impl GravityError {
    /// The variants that wrap a client library's error, as against those
    /// that name a condition found on this side.
    pub open spec fn wraps_foreign(&self) -> bool {
        match self {
            GravityError::InvalidBigInt(_) => true,
            GravityError::CosmosGrpcError(_) => true,
            GravityError::CosmosAddressError(_) => true,
            GravityError::EthereumRestError(_) => true,
            GravityError::ClarityError(_) => true,
            GravityError::GravityGrpcError(_) => true,
            GravityError::ParseBigIntError(_) => true,
            GravityError::InvalidBridgeStateError(_) => false,
            GravityError::FailedToUpdateValset => false,
            GravityError::EthereumContractError(_) => false,
            GravityError::InvalidOptionsError(_) => false,
            GravityError::TimeoutError => false,
            GravityError::InvalidEventLogError(_) => false,
            GravityError::InsufficientVotingPowerToPass(_) => false,
        }
    }

    /// The fixed words with which the message of each variant begins.
    pub open spec fn heading(&self) -> Seq<char> {
        match self {
            GravityError::InvalidBigInt(_) => "Got invalid BigInt from cosmos! "@,
            GravityError::CosmosGrpcError(_) => "Cosmos gRPC error "@,
            GravityError::CosmosAddressError(_) => "Cosmos Address error "@,
            GravityError::EthereumRestError(_) => "Ethereum REST error "@,
            GravityError::InvalidBridgeStateError(_) => "Invalid bridge state! "@,
            GravityError::FailedToUpdateValset => "ValidatorSetUpdate Failed!"@,
            GravityError::EthereumContractError(_) => "Contract operation failed: "@,
            GravityError::InvalidOptionsError(_) => "Invalid TX options for this call "@,
            GravityError::ClarityError(_) => "Clarity Error "@,
            GravityError::TimeoutError => "Operation timed out!"@,
            GravityError::InvalidEventLogError(_) => "InvalidEvent: "@,
            GravityError::GravityGrpcError(_) => "Gravity gRPC error "@,
            GravityError::InsufficientVotingPowerToPass(_) => Seq::<char>::empty(),
            GravityError::ParseBigIntError(_) => "Failed to parse big integer "@,
        }
    }

    /// The message of this error, where `payload` is the text of what it
    /// wraps: the heading, followed by the payload in a wrapping variant, by
    /// the description in one that carries a description, and by nothing in
    /// the two bare ones.
    pub open spec fn rendered(&self, payload: Seq<char>) -> Seq<char> {
        match self {
            GravityError::InvalidBridgeStateError(description) => self.heading() + description@,
            GravityError::EthereumContractError(description) => self.heading() + description@,
            GravityError::InvalidOptionsError(description) => self.heading() + description@,
            GravityError::InvalidEventLogError(description) => self.heading() + description@,
            GravityError::InsufficientVotingPowerToPass(description) => self.heading()
                + description@,
            GravityError::FailedToUpdateValset => self.heading(),
            GravityError::TimeoutError => self.heading(),
            _ => self.heading() + payload,
        }
    }

    /// Tells the wrapping variants from the others.
    pub fn is_foreign(&self) -> (wrapping: bool)
        ensures
            wrapping == self.wraps_foreign(),
    {
        match self {
            GravityError::InvalidBigInt(_) => true,
            GravityError::CosmosGrpcError(_) => true,
            GravityError::CosmosAddressError(_) => true,
            GravityError::EthereumRestError(_) => true,
            GravityError::ClarityError(_) => true,
            GravityError::GravityGrpcError(_) => true,
            GravityError::ParseBigIntError(_) => true,
            _ => false,
        }
    }

    /// Writes the message of this error around the text of what it wraps.
    /// A variant that wraps nothing leaves `payload_text` unread.
    pub fn render(&self, payload_text: &str) -> (text: String)
        ensures
            text@ == self.rendered(payload_text@),
    {
        match self {
            GravityError::InvalidBigInt(_) => String::from_str(
                "Got invalid BigInt from cosmos! ",
            ).concat(payload_text),
            GravityError::CosmosGrpcError(_) => String::from_str("Cosmos gRPC error ").concat(
                payload_text,
            ),
            GravityError::CosmosAddressError(_) => String::from_str(
                "Cosmos Address error ",
            ).concat(payload_text),
            GravityError::EthereumRestError(_) => String::from_str("Ethereum REST error ").concat(
                payload_text,
            ),
            GravityError::InvalidBridgeStateError(description) => String::from_str(
                "Invalid bridge state! ",
            ).concat(description.as_str()),
            GravityError::FailedToUpdateValset => String::from_str("ValidatorSetUpdate Failed!"),
            GravityError::EthereumContractError(description) => String::from_str(
                "Contract operation failed: ",
            ).concat(description.as_str()),
            GravityError::InvalidOptionsError(description) => String::from_str(
                "Invalid TX options for this call ",
            ).concat(description.as_str()),
            GravityError::ClarityError(_) => String::from_str("Clarity Error ").concat(
                payload_text,
            ),
            GravityError::TimeoutError => String::from_str("Operation timed out!"),
            GravityError::InvalidEventLogError(description) => String::from_str(
                "InvalidEvent: ",
            ).concat(description.as_str()),
            GravityError::GravityGrpcError(_) => String::from_str("Gravity gRPC error ").concat(
                payload_text,
            ),
            GravityError::InsufficientVotingPowerToPass(description) => {
                let text = String::new().concat(description.as_str());
                assert(text@ =~= self.rendered(payload_text@));
                text
            },
            GravityError::ParseBigIntError(_) => String::from_str(
                "Failed to parse big integer ",
            ).concat(payload_text),
        }
    }

    /// The text of the wrapped error, for the four kinds of payload whose
    /// text depends on the payload alone: a big integer that did not parse,
    /// a Cosmos address that did not parse, a failure of the Ethereum signing
    /// library and a gRPC status.
    pub open spec fn payload_words(&self) -> Option<Seq<char>> {
        match self {
            GravityError::InvalidBigInt(error) => Some(parse_big_int_error_words(*error)),
            GravityError::ParseBigIntError(error) => Some(parse_big_int_error_words(*error)),
            GravityError::CosmosAddressError(error) => Some(cosmos_address_error_words(*error)),
            GravityError::ClarityError(error) => Some(clarity_error_words(*error)),
            GravityError::GravityGrpcError(status) => Some(status_words(*status)),
            _ => None,
        }
    }

    /// Whether there is a text of the wrapped error: for every wrapping
    /// variant but an Ethereum client error that its library cannot write.
    pub open spec fn has_payload_text(&self) -> bool {
        match self {
            GravityError::EthereumRestError(error) => web3_writable(*error),
            _ => self.wraps_foreign(),
        }
    }

    /// The text that the client library gives the wrapped error. There is
    /// none for a variant that wraps nothing, nor for an Ethereum client
    /// error that its library cannot write: one of insufficient gas whose
    /// gas cost does not fit in 256 bits.
    pub fn payload_text(&self) -> (text: Option<String>)
        ensures
            text is Some <==> self.has_payload_text(),
            self.payload_words() matches Some(words) ==> (text matches Some(written) && written@
                == words),
    {
        match self {
            GravityError::InvalidBigInt(error) => Some(parse_big_int_error_text(error)),
            GravityError::CosmosGrpcError(error) => Some(cosmos_grpc_error_text(error)),
            GravityError::CosmosAddressError(error) => Some(cosmos_address_error_text(error)),
            GravityError::EthereumRestError(error) => {
                let writable = match insufficient_gas_factors(error) {
                    Some((base_gas, gas_required)) => gas_product(&base_gas, &gas_required).is_some(),
                    None => true,
                };
                if writable {
                    Some(web3_error_text(error))
                } else {
                    None
                }
            },
            GravityError::ClarityError(error) => Some(clarity_error_text(error)),
            GravityError::GravityGrpcError(status) => Some(status_text(status)),
            GravityError::ParseBigIntError(error) => Some(parse_big_int_error_text(error)),
            _ => None,
        }
    }

    /// The message of this error. A variant that wraps nothing always has
    /// one: the heading and the description. A wrapping variant has one
    /// wherever its payload has a text: the heading and that text, which is
    /// stated for the payloads whose text depends on the payload alone.
    pub fn message(&self) -> (text: Option<String>)
        ensures
            text is Some <==> (!self.wraps_foreign() || self.has_payload_text()),
            !self.wraps_foreign() ==> (text matches Some(written) && written@ == self.rendered(
                Seq::<char>::empty(),
            )),
            self.payload_words() matches Some(words) ==> (text matches Some(written) && written@
                == self.rendered(words)),
            text matches Some(written) ==> exists|payload: Seq<char>|
                written@ == #[trigger] self.rendered(payload),
    {
        if self.is_foreign() {
            match self.payload_text() {
                Some(payload) => Some(self.render(payload.as_str())),
                None => None,
            }
        } else {
            Some(self.render(""))
        }
    }
}

/// The message of a wrapping variant holds the text of what it wraps.
pub proof fn lemma_message_holds_payload(error: GravityError, payload: Seq<char>)
    requires
        error.wraps_foreign(),
    ensures
        contains_text(error.rendered(payload), payload),
{
    lemma_joined_contains_tail(error.heading(), payload);
}

/// Where the text of the wrapped error depends on the error alone, the
/// message written around that text holds it.
pub proof fn lemma_message_holds_own_text(error: GravityError)
    requires
        error.payload_words() is Some,
    ensures
        error.wraps_foreign(),
        contains_text(error.rendered(error.payload_words()->0), error.payload_words()->0),
{
    lemma_message_holds_payload(error, error.payload_words()->0);
}

/// A client library's error, lifted into `GravityError`, is found again
/// unchanged in the variant that belongs to its type.
pub proof fn lemma_lifting_keeps_payload(
    grpc: CosmosGrpcError,
    address: CosmosAddressError,
    rest: Web3Error,
    contract: ClarityError,
    number: ParseBigIntError,
    status: Status,
)
    ensures
        <GravityError as FromSpec<CosmosGrpcError>>::from_spec(grpc)
            matches GravityError::CosmosGrpcError(kept) && kept == grpc,
        <GravityError as FromSpec<CosmosAddressError>>::from_spec(address)
            matches GravityError::CosmosAddressError(kept) && kept == address,
        <GravityError as FromSpec<Web3Error>>::from_spec(rest)
            matches GravityError::EthereumRestError(kept) && kept == rest,
        <GravityError as FromSpec<ClarityError>>::from_spec(contract)
            matches GravityError::ClarityError(kept) && kept == contract,
        <GravityError as FromSpec<ParseBigIntError>>::from_spec(number)
            matches GravityError::InvalidBigInt(kept) && kept == number,
        <GravityError as FromSpec<Status>>::from_spec(status)
            matches GravityError::GravityGrpcError(kept) && kept == status,
{
}

/// Whatever the deadline signal was, lifting it gives the bare timeout.
pub proof fn lemma_timeout_keeps_nothing(signal: Elapsed)
    ensures
        <GravityError as FromSpec<Elapsed>>::from_spec(signal) == GravityError::TimeoutError,
{
}

} // verus!
