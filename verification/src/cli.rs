//! Command model of the command-line front end: the parsed arguments and
//! the subcommand they select, free of any argument-parser machinery, plus
//! the mapping from creation arguments to an API request.

use vstd::prelude::*;

use crate::types::FirefoxEmailRelayRequest;

verus! {

/// Arguments of the relay-creation subcommand.
#[derive(Debug, Clone, PartialEq, Eq)]
pub struct CreateArgs {
    /// Description to attach to the new relay.
    pub description: String,
    /// Optional custom address, for a relay under the user's own domain.
    pub address: Option<String>,
}

impl CreateArgs {
    /// Turns the creation arguments into the API request the operation
    /// sends: the description carries over, the address carries over as
    /// given, and the relay starts enabled.
    pub fn into_request(self) -> (r: FirefoxEmailRelayRequest)
        ensures
            r.description == self.description,
            r.enabled == true,
            r.address == self.address,
    {
        FirefoxEmailRelayRequest::builder().description(self.description).maybe_address(
            self.address,
        ).build()
    }
}

/// Arguments of the subcommands addressing relays by id.
#[derive(Debug, Clone, PartialEq, Eq)]
pub struct EmailIdArgs {
    /// The ids to operate on, one independent sequential operation each.
    pub email_ids: Vec<u64>,
}

/// The subcommands the front end accepts.
#[derive(Debug, Clone, PartialEq, Eq)]
pub enum Commands {
    /// Create a new relay email.
    CreateEmail(CreateArgs),
    /// List relay emails.
    ListEmail,
    /// Delete relay emails by id.
    DeleteEmail(EmailIdArgs),
    /// Show account profiles.
    Profiles,
    /// Enable relay emails by id.
    Enable(EmailIdArgs),
    /// Disable relay emails by id.
    Disable(EmailIdArgs),
}

/// One full invocation of the front end.
#[derive(Debug, Clone, PartialEq, Eq)]
pub struct UserArgs {
    /// Whether to log verbosely.
    pub verbose: bool,
    /// A token given on the command line, taking precedence over the
    /// stored one.
    pub token: Option<String>,
    /// The subcommand to run.
    pub command: Commands,
}

/// Picks the token an invocation uses: one given on the command line wins;
/// otherwise the stored one, when there is any, is used.
pub fn choose_token(cli_token: Option<String>, stored_token: Option<String>) -> (r: Option<String>)
    ensures
        cli_token is Some ==> r == cli_token,
        cli_token is None ==> r == stored_token,
{
    match cli_token {
        Some(t) => Some(t),
        None => stored_token,
    }
}

} // verus!
