//! The error taxonomy shared by every component of the library.
use vstd::prelude::*;
use vstd::string::*;
use crate::text::{join, join_spec, views};

verus! {

/// Everything that can go wrong while talking to the provider.
#[derive(Debug, Clone)]
pub enum LambdaError {
    /// Neither a direct key nor a key command is configured.
    ApiKeyNotSet,
    /// The key command could not be run, failed, or printed nothing.
    ApiKeyCommandFailed(String),
    /// The catalog has no instance type of this name.
    InstanceTypeNotFound(String),
    /// The instance type currently has capacity nowhere.
    NoRegionsAvailable(String),
    /// The requested region has no capacity for the type; the regions that do.
    RegionNotAvailable { region: String, gpu: String, available: Vec<String> },
    /// A launch call succeeded but named no instance.
    NoInstanceIds,
    /// A request could not be made, or its answer could not be read.
    ApiError(String),
    /// The provider answered with a non-success status; the full text.
    ProviderRejected(String),
    /// An operation that needs an SSH key was given none.
    SshKeyRequired,
    /// The instance reached a state from which it cannot become ready.
    InstanceEnteredState(String),
}

/// The human-readable text of an error.
pub open spec fn message_of(e: LambdaError) -> Seq<char> {
    match e {
        LambdaError::ApiKeyNotSet =>
            "API key not set. Set LAMBDA_API_KEY or LAMBDA_API_KEY_COMMAND environment variable"@,
        LambdaError::ApiKeyCommandFailed(d) => "Failed to execute API key command: "@ + d@,
        LambdaError::InstanceTypeNotFound(g) => "Instance type '"@ + g@ + "' not found"@,
        LambdaError::NoRegionsAvailable(g) => "No regions available for instance type '"@ + g@
            + "'"@,
        LambdaError::RegionNotAvailable { region, gpu, available } => "Region '"@ + region@
            + "' is not available for instance type '"@ + gpu@ + "'. Available regions: "@
            + join_spec(views(available@), ", "@),
        LambdaError::NoInstanceIds => "No instance IDs returned from launch request"@,
        LambdaError::ApiError(m) => "API request failed: "@ + m@,
        LambdaError::ProviderRejected(m) => m@,
        LambdaError::SshKeyRequired => "SSH key is required for this operation"@,
        LambdaError::InstanceEnteredState(s) => "Instance entered "@ + s@ + " state"@,
    }
}

impl LambdaError {
    /// The message shown to a user for this error.
    pub fn to_string(&self) -> (r: String)
        ensures
            r@ == message_of(*self),
    {
        match self {
            LambdaError::ApiKeyNotSet => String::from_str(
                "API key not set. Set LAMBDA_API_KEY or LAMBDA_API_KEY_COMMAND environment variable",
            ),
            LambdaError::ApiKeyCommandFailed(d) => {
                let mut s = String::from_str("Failed to execute API key command: ");
                s.append(d.as_str());
                s
            },
            LambdaError::InstanceTypeNotFound(g) => {
                let mut s = String::from_str("Instance type '");
                s.append(g.as_str());
                s.append("' not found");
                s
            },
            LambdaError::NoRegionsAvailable(g) => {
                let mut s = String::from_str("No regions available for instance type '");
                s.append(g.as_str());
                s.append("'");
                s
            },
            LambdaError::RegionNotAvailable { region, gpu, available } => {
                let mut s = String::from_str("Region '");
                s.append(region.as_str());
                s.append("' is not available for instance type '");
                s.append(gpu.as_str());
                s.append("'. Available regions: ");
                let listed = join(available, ", ");
                s.append(listed.as_str());
                s
            },
            LambdaError::NoInstanceIds => String::from_str(
                "No instance IDs returned from launch request",
            ),
            LambdaError::ApiError(m) => {
                let mut s = String::from_str("API request failed: ");
                s.append(m.as_str());
                s
            },
            LambdaError::ProviderRejected(m) => m.clone(),
            LambdaError::SshKeyRequired => String::from_str("SSH key is required for this operation"),
            LambdaError::InstanceEnteredState(st) => {
                let mut s = String::from_str("Instance entered ");
                s.append(st.as_str());
                s.append(" state");
                s
            },
        }
    }
}

} // verus!
