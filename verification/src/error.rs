//! The failures a request can end in, and the response each one becomes.

use vstd::prelude::*;
use vstd::string::StringExecFns;

verus! {

/// The address that a request names, by the role under which a failure
/// reports it.
#[derive(Clone, Copy, Debug, PartialEq, Eq, Structural)]
pub enum AddressField {
    MintAuthority,
    Mint,
    Destination,
    From,
    To,
}

/// The operation whose instruction could not be built.
#[derive(Clone, Copy, Debug, PartialEq, Eq, Structural)]
pub enum Operation {
    CreateMint,
    MintTo,
    TransferToken,
}

/// Why a request produced no instruction. Every one of these is the
/// caller's error and is answered with status 400.
#[derive(Debug)]
pub enum ApiError {
    /// The body could not be read as the fields the endpoint expects.
    MalformedRequest,
    /// The text given for `field` is not an address.
    InvalidAddress { field: AddressField },
    /// The instruction builder refused inputs that had passed validation.
    InstructionBuildFailed { operation: Operation, reason: String },
}

/// An `ApiError` with its text as a sequence of characters.
pub enum ApiErrorView {
    MalformedRequest,
    InvalidAddress { field: AddressField },
    InstructionBuildFailed { operation: Operation, reason: Seq<char> },
}

/// The body of an error response.
#[derive(Debug)]
pub struct ErrorResp {
    pub success: bool,
    pub error: String,
}

/// An error response: its status code and its body.
#[derive(Debug)]
pub struct ErrorResponse {
    pub status: u16,
    pub body: ErrorResp,
}

/// The status code of every error response.
pub const BAD_REQUEST: u16 = 400;

/// The message for a text that is no address, by the field it was given for.
pub open spec fn invalid_field_message(field: AddressField) -> Seq<char> {
    match field {
        AddressField::MintAuthority => "Invalid mint authority"@,
        AddressField::Mint => "Invalid mint"@,
        AddressField::Destination => "Invalid destination"@,
        AddressField::From => "Invalid from"@,
        AddressField::To => "Invalid to"@,
    }
}

/// The words that introduce the builder's reason in a message.
pub open spec fn failure_prefix(operation: Operation) -> Seq<char> {
    match operation {
        Operation::CreateMint => "Failed to create mint instruction: "@,
        Operation::MintTo => "Failed to create mint instruction: "@,
        Operation::TransferToken => "Failed to create token transfer instruction: "@,
    }
}

impl ApiErrorView {
    /// The message that the error response carries.
    pub open spec fn message(self) -> Seq<char> {
        match self {
            ApiErrorView::MalformedRequest => "Invalid JSON format or structure"@,
            ApiErrorView::InvalidAddress { field } => invalid_field_message(field),
            ApiErrorView::InstructionBuildFailed { operation, reason } => failure_prefix(operation)
                + reason,
        }
    }
}

impl View for ApiError {
    type V = ApiErrorView;

    open spec fn view(&self) -> ApiErrorView {
        match *self {
            ApiError::MalformedRequest => ApiErrorView::MalformedRequest,
            ApiError::InvalidAddress { field } => ApiErrorView::InvalidAddress { field },
            ApiError::InstructionBuildFailed { operation, reason } => {
                ApiErrorView::InstructionBuildFailed { operation, reason: reason@ }
            },
        }
    }
}

impl ApiError {
    /// The message that the error response carries.
    pub fn message(&self) -> (text: String)
        ensures
            text@ == self@.message(),
    {
        match self {
            ApiError::MalformedRequest => String::from_str("Invalid JSON format or structure"),
            ApiError::InvalidAddress { field } => match field {
                AddressField::MintAuthority => String::from_str("Invalid mint authority"),
                AddressField::Mint => String::from_str("Invalid mint"),
                AddressField::Destination => String::from_str("Invalid destination"),
                AddressField::From => String::from_str("Invalid from"),
                AddressField::To => String::from_str("Invalid to"),
            },
            ApiError::InstructionBuildFailed { operation, reason } => {
                let prefix = match operation {
                    Operation::CreateMint => String::from_str("Failed to create mint instruction: "),
                    Operation::MintTo => String::from_str("Failed to create mint instruction: "),
                    Operation::TransferToken => String::from_str(
                        "Failed to create token transfer instruction: ",
                    ),
                };
                prefix.concat(reason.as_str())
            },
        }
    }

    /// The response for this error: status 400 and a body that reports
    /// failure with the error's message.
    pub fn error_response(&self) -> (response: ErrorResponse)
        ensures
            response.status == 400,
            !response.body.success,
            response.body.error@ == self@.message(),
    {
        ErrorResponse { status: BAD_REQUEST, body: ErrorResp { success: false, error: self.message() } }
    }
}

} // verus!
