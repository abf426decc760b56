//! Decisions of the command-line front end: its error texts, the
//! find-then-launch watch, and renaming.
use vstd::prelude::*;
use vstd::string::*;
use crate::api::{region_names, InstanceTypeResponse};

verus! {

/// Errors that the command-line front end reports.
#[derive(Debug, Clone)]
pub enum LambdaError {
    ApiKeyNotSet,
    InstanceTypeNotFound(String),
    NoRegionsAvailable(String),
    NoInstanceIds,
    ApiError(String),
    SshKeyRequired,
}

/// The text shown for a command-line error.
pub open spec fn cli_message(e: LambdaError) -> Seq<char> {
    match e {
        LambdaError::ApiKeyNotSet => "API key not set. Please set LAMBDA_API_KEY environment variable"@,
        LambdaError::InstanceTypeNotFound(g) => "Instance type '"@ + g@ + "' not found"@,
        LambdaError::NoRegionsAvailable(g) => "No regions available for instance type '"@ + g@
            + "'"@,
        LambdaError::NoInstanceIds => "No instance IDs returned from launch request"@,
        LambdaError::ApiError(m) => "API request failed: "@ + m@,
        LambdaError::SshKeyRequired => "SSH key is required for this operation"@,
    }
}

impl LambdaError {
    /// The message shown to a user for this error.
    pub fn to_string(&self) -> (r: String)
        ensures
            r@ == cli_message(*self),
    {
        match self {
            LambdaError::ApiKeyNotSet => String::from_str(
                "API key not set. Please set LAMBDA_API_KEY environment variable",
            ),
            LambdaError::InstanceTypeNotFound(g) => {
                let mut s = String::from_str("Instance type '");
                s.append(g.as_str());
                s.append("' not found");
                s
            },
            LambdaError::NoRegionsAvailable(g) => {
                let mut s = String::from_str("No regions available for instance type '");
                s.append(g.as_str());
                s.append("'");
                s
            },
            LambdaError::NoInstanceIds => String::from_str(
                "No instance IDs returned from launch request",
            ),
            LambdaError::ApiError(m) => {
                let mut s = String::from_str("API request failed: ");
                s.append(m.as_str());
                s
            },
            LambdaError::SshKeyRequired => String::from_str("SSH key is required for this operation"),
        }
    }
}

/// What the watch for capacity does after one check.
#[derive(Debug)]
pub enum FindStep {
    /// Capacity is there, in these regions: launch now.
    Launch(Vec<String>),
    /// The type does not exist: stop with this error.
    Stop(LambdaError),
    /// Nothing available yet, or the check failed: check again after the interval.
    KeepLooking,
}

/// Whether the watch may start: it needs an SSH key to launch with.
pub fn check_ssh_key(ssh: &str) -> (r: Result<(), LambdaError>)
    ensures
        r is Err <==> ssh@.len() == 0,
        r is Err ==> r->Err_0 is SshKeyRequired,
{
    if ssh.unicode_len() == 0 {
        Err(LambdaError::SshKeyRequired)
    } else {
        Ok(())
    }
}

/// Decides the watch's next step from one availability check: `None` when the
/// check itself failed, `Some(found)` with the provider's description of the
/// type, if any.
pub fn find_step(gpu: &str, check: Option<Option<&InstanceTypeResponse>>) -> (r: FindStep)
    ensures
        check is None ==> r is KeepLooking,
        check matches Some(None) ==> (r matches FindStep::Stop(LambdaError::InstanceTypeNotFound(g))
            && g@ == gpu@),
        check matches Some(Some(t)) ==> {
            let names = region_names(t.regions_with_capacity_available@);
            &&& names.len() == 0 ==> r is KeepLooking
            &&& names.len() > 0 ==> (r matches FindStep::Launch(v) && crate::text::views(v@)
                == names)
        },
{
    match check {
        None => FindStep::KeepLooking,
        Some(None) => FindStep::Stop(LambdaError::InstanceTypeNotFound(String::from_str(gpu))),
        Some(Some(t)) => {
            if t.regions_with_capacity_available.len() == 0 {
                FindStep::KeepLooking
            } else {
                FindStep::Launch(crate::api::capacity_regions(t))
            }
        },
    }
}

/// The text for a rename that the provider refused with `status`: renaming
/// is reported as unsupported on 404 and 405.
pub fn rename_failure(status: u16, message: &str) -> (r: String)
    ensures
        (status == 404 || status == 405) ==> r@ == RENAME_UNSUPPORTED@,
        !(status == 404 || status == 405) ==> r@ == "Failed to rename instance: "@ + message@,
{
    if status == 404 || status == 405 {
        String::from_str(RENAME_UNSUPPORTED)
    } else {
        let mut s = String::from_str("Failed to rename instance: ");
        s.append(message);
        s
    }
}

/// Why a rename cannot be done.
pub const RENAME_UNSUPPORTED: &'static str = "Instance renaming is not supported by the Lambda Labs API. You can set a name when launching with: lambda start --gpu <type> --ssh <key> --name <name>";

} // verus!
