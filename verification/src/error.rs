//! One error type for the three providers.
//!
//! Each provider reports failures in a type of its own. Where such a failure
//! crosses into this library it is converted, by the `From` impls below, into
//! [`Error`]: a "not found" of any provider becomes [`Error::DoesNotExist`],
//! and every other failure is kept as it is, inside the variant of its
//! provider.
//!
//! The provider errors are opaque here. What the conversions read of them is
//! read by five small functions whose contracts are taken on trust; each says
//! what of which crate it relies on.

use ferinth::Error as ModrinthFailure;
use furse::Error as CurseForgeFailure;
use octocrab::Error as GitHubFailure;
use reqwest::Error as TransportFailure;
use vstd::prelude::*;
use vstd::std_specs::convert::FromSpecImpl;
use vstd::string::StringExecFns;
use vstd::string::to_string_from_display_ensures;

verus! {

/// The HTTP status that means "not found".
pub const NOT_FOUND: u16 = 404;

/// What is said of a project that third parties may not download.
pub const DISTRIBUTION_DENIED: &'static str =
    "The developer of this project has denied third party applications from downloading it";

/// The error of the CurseForge client, `furse::Error`.
#[verifier::external_type_specification]
#[verifier::external_body]
pub struct ExCurseForgeFailure(CurseForgeFailure);

/// The error of the Modrinth client, `ferinth::Error`.
#[verifier::external_type_specification]
#[verifier::external_body]
pub struct ExModrinthFailure(ModrinthFailure);

/// The error of the GitHub client, `octocrab::Error`.
#[verifier::external_type_specification]
#[verifier::external_body]
pub struct ExGitHubFailure(GitHubFailure);

/// The error of the HTTP client that the CurseForge and the Modrinth client
/// are built on, `reqwest::Error`.
#[verifier::external_type_specification]
#[verifier::external_body]
pub struct ExTransportFailure(TransportFailure);

/// The transport error inside a CurseForge error, if it is one
/// (`furse::Error::ReqwestError`); `None` for every other error.
pub uninterp spec fn curseforge_transport(err: CurseForgeFailure) -> Option<TransportFailure>;

/// The transport error inside a Modrinth error, if it is one
/// (`ferinth::Error::ReqwestError`); `None` for every other error.
pub uninterp spec fn modrinth_transport(err: ModrinthFailure) -> Option<TransportFailure>;

/// The HTTP status of the response that a transport error was made from;
/// `None` if it was made from no response.
pub uninterp spec fn transport_status(err: TransportFailure) -> Option<u16>;

/// Whether a Modrinth error says that the identifier was no valid project id
/// or slug (`ferinth::Error::InvalidIDorSlug`).
pub uninterp spec fn modrinth_rejects_identifier(err: ModrinthFailure) -> bool;

/// The message of GitHub's API that a GitHub error carries, if it is an answer
/// of the API (`octocrab::Error::GitHub`); `None` for every other error.
pub uninterp spec fn github_api_message(err: GitHubFailure) -> Option<Seq<char>>;

/// Why a mod could not be added.
#[derive(Debug)]
pub enum Error {
    /// The developer of the project does not let third party applications
    /// download it. The user can still download the mod by hand.
    DistributionDenied,
    /// The profile holds the project already.
    AlreadyAdded,
    /// No provider knows the project.
    DoesNotExist,
    /// The project does not fit the profile's game version or mod loader.
    Incompatible,
    /// The project is something other than a mod.
    NotAMod,
    /// The identifier is malformed.
    InvalidIdentifier,
    /// Any other failure of the GitHub client, unchanged.
    GitHubError(GitHubFailure),
    /// Any other failure of the Modrinth client, unchanged.
    ModrinthError(ModrinthFailure),
    /// Any other failure of the CurseForge client, unchanged.
    CurseForgeError(CurseForgeFailure),
}

pub type Result<T> = std::result::Result<T, Error>;

/// Takes the transport error out of a CurseForge error.
///
/// Trusted: `furse::Error` has the three variants matched here, and only
/// `ReqwestError` holds a transport error. The contract only gives the result
/// its name.
#[verifier::external_body]
fn transport_of_curseforge(err: &CurseForgeFailure) -> (transport: Option<&TransportFailure>)
    ensures
        match transport {
            Some(source) => curseforge_transport(*err) == Some(*source),
            None => curseforge_transport(*err) is None,
        },
{
    match err {
        furse::Error::ReqwestError(source) => Some(source),
        furse::Error::JsonError(_) => None,
        furse::Error::UrlParseError(_) => None,
    }
}

/// Takes the transport error out of a Modrinth error.
///
/// Trusted: of the variants of `ferinth::Error`, only `ReqwestError` holds a
/// transport error. The contract only gives the result its name.
#[verifier::external_body]
fn transport_of_modrinth(err: &ModrinthFailure) -> (transport: Option<&TransportFailure>)
    ensures
        match transport {
            Some(source) => modrinth_transport(*err) == Some(*source),
            None => modrinth_transport(*err) is None,
        },
{
    match err {
        ferinth::Error::ReqwestError(source) => Some(source),
        _ => None,
    }
}

/// Reads the HTTP status of a transport error.
///
/// Trusted: the result is what `reqwest::Error::status` returns, as the
/// number that `StatusCode::as_u16` gives for it. The contract only gives the
/// result its name.
#[verifier::external_body]
fn http_status(err: &TransportFailure) -> (status: Option<u16>)
    ensures
        status == transport_status(*err),
{
    match err.status() {
        Some(code) => Some(code.as_u16()),
        None => None,
    }
}

/// Tells `ferinth::Error::InvalidIDorSlug` from the other variants.
///
/// Trusted: the result is `true` for that variant and `false` for all others.
/// The contract only gives that result its name.
#[verifier::external_body]
fn is_invalid_id_or_slug(err: &ModrinthFailure) -> (invalid: bool)
    ensures
        invalid == modrinth_rejects_identifier(*err),
{
    match err {
        ferinth::Error::InvalidIDorSlug => true,
        _ => false,
    }
}

/// Reads the API message of a GitHub error.
///
/// Trusted: for `octocrab::Error::GitHub` the result is a copy of the field
/// `message` of its source, a `GitHubError`; every other variant has no
/// message. The contract only gives that result its name.
#[verifier::external_body]
fn api_message_of_github(err: &GitHubFailure) -> (message: Option<String>)
    ensures
        match message {
            Some(text) => github_api_message(*err) == Some(text@),
            None => github_api_message(*err) is None,
        },
{
    match err {
        octocrab::Error::GitHub { source, .. } => Some(source.message.clone()),
        _ => None,
    }
}

/// What GitHub's API answers for a repository that it does not have.
pub open spec fn github_not_found() -> Seq<char> {
    "Not Found"@
}

/// Whether a transport error was made from a response with the status "not
/// found".
pub open spec fn is_not_found(source: TransportFailure) -> bool {
    transport_status(source) == Some(NOT_FOUND)
}

/// What a CurseForge error becomes: `DoesNotExist` where it is a transport
/// error with the status "not found", else the error itself, wrapped.
pub open spec fn normalized_curseforge(err: CurseForgeFailure) -> Error {
    match curseforge_transport(err) {
        Some(source) if is_not_found(source) => Error::DoesNotExist,
        _ => Error::CurseForgeError(err),
    }
}

/// What a Modrinth error becomes: `DoesNotExist` where it is a transport error
/// with the status "not found", else the error itself, wrapped.
pub open spec fn normalized_modrinth(err: ModrinthFailure) -> Error {
    match modrinth_transport(err) {
        Some(source) if is_not_found(source) => Error::DoesNotExist,
        _ => Error::ModrinthError(err),
    }
}

/// What a GitHub error becomes: `DoesNotExist` where it carries an API message
/// that is exactly `Not Found`, else the error itself, wrapped.
pub open spec fn normalized_github(err: GitHubFailure) -> Error {
    if github_api_message(err) == Some(github_not_found()) {
        Error::DoesNotExist
    } else {
        Error::GitHubError(err)
    }
}

/// Whether `source` was made from a response with the status "not found".
fn has_status_not_found(source: &TransportFailure) -> (found: bool)
    ensures
        found == is_not_found(*source),
{
    match http_status(source) {
        Some(status) => status == NOT_FOUND,
        None => false,
    }
}

impl FromSpecImpl<CurseForgeFailure> for Error {
    open spec fn obeys_from_spec() -> bool {
        true
    }

    open spec fn from_spec(err: CurseForgeFailure) -> Error {
        normalized_curseforge(err)
    }
}

impl From<CurseForgeFailure> for Error {
    fn from(err: CurseForgeFailure) -> (ret: Error)
        ensures
            ret == normalized_curseforge(err),
    {
        let not_found = match transport_of_curseforge(&err) {
            Some(source) => has_status_not_found(source),
            None => false,
        };
        if not_found {
            Error::DoesNotExist
        } else {
            Error::CurseForgeError(err)
        }
    }
}

impl FromSpecImpl<ModrinthFailure> for Error {
    open spec fn obeys_from_spec() -> bool {
        true
    }

    open spec fn from_spec(err: ModrinthFailure) -> Error {
        normalized_modrinth(err)
    }
}

impl From<ModrinthFailure> for Error {
    fn from(err: ModrinthFailure) -> (ret: Error)
        ensures
            ret == normalized_modrinth(err),
    {
        let not_found = match transport_of_modrinth(&err) {
            Some(source) => has_status_not_found(source),
            None => false,
        };
        if not_found {
            Error::DoesNotExist
        } else {
            Error::ModrinthError(err)
        }
    }
}

impl FromSpecImpl<GitHubFailure> for Error {
    open spec fn obeys_from_spec() -> bool {
        true
    }

    open spec fn from_spec(err: GitHubFailure) -> Error {
        normalized_github(err)
    }
}

impl From<GitHubFailure> for Error {
    fn from(err: GitHubFailure) -> (ret: Error)
        ensures
            ret == normalized_github(err),
    {
        match api_message_of_github(&err) {
            Some(message) => {
                let not_found = String::from_str("Not Found");
                if message == not_found {
                    Error::DoesNotExist
                } else {
                    Error::GitHubError(err)
                }
            },
            None => Error::GitHubError(err),
        }
    }
}

impl Error {
    /// The fixed explanation of each kind that this library defines; `None`
    /// for the three kinds that wrap a provider's error.
    pub open spec fn fixed_message(&self) -> Option<Seq<char>> {
        match self {
            Error::DistributionDenied => Some(DISTRIBUTION_DENIED@),
            Error::AlreadyAdded => Some("The project has already been added"@),
            Error::DoesNotExist => Some("The project does not exist"@),
            Error::Incompatible => Some("The project is not compatible"@),
            Error::NotAMod => Some("The project is not a mod"@),
            Error::InvalidIdentifier => Some("Invalid identifier"@),
            Error::GitHubError(_) => None,
            Error::ModrinthError(_) => None,
            Error::CurseForgeError(_) => None,
        }
    }

    /// Whether `text` is what this error says of itself: its fixed explanation,
    /// or, for a wrapped error, what that error displays.
    pub open spec fn says(&self, text: String) -> bool {
        match self {
            Error::GitHubError(err) => to_string_from_display_ensures::<GitHubFailure>(err, text),
            Error::ModrinthError(err) => to_string_from_display_ensures::<ModrinthFailure>(
                err,
                text,
            ),
            Error::CurseForgeError(err) => to_string_from_display_ensures::<CurseForgeFailure>(
                err,
                text,
            ),
            _ => self.fixed_message() == Some(text@),
        }
    }

    /// How a failure is listed in the result of a batch: a Modrinth error that
    /// rejects the identifier as no valid id or slug is listed as
    /// `InvalidIdentifier`, every other failure as it is.
    pub open spec fn rekinded(self) -> Error {
        match self {
            Error::ModrinthError(err) => if modrinth_rejects_identifier(err) {
                Error::InvalidIdentifier
            } else {
                self
            },
            _ => self,
        }
    }

    /// Turns a failure into the form in which a batch lists it.
    pub fn rekind(self) -> (ret: Error)
        ensures
            ret == self.rekinded(),
    {
        match self {
            Error::ModrinthError(err) => if is_invalid_id_or_slug(&err) {
                Error::InvalidIdentifier
            } else {
                Error::ModrinthError(err)
            },
            other => other,
        }
    }

    /// The explanation to show to the user.
    pub fn message(&self) -> (text: String)
        ensures
            self.says(text),
    {
        match self {
            Error::DistributionDenied => String::from_str(DISTRIBUTION_DENIED),
            Error::AlreadyAdded => String::from_str("The project has already been added"),
            Error::DoesNotExist => String::from_str("The project does not exist"),
            Error::Incompatible => String::from_str("The project is not compatible"),
            Error::NotAMod => String::from_str("The project is not a mod"),
            Error::InvalidIdentifier => String::from_str("Invalid identifier"),
            Error::GitHubError(err) => err.to_string(),
            Error::ModrinthError(err) => err.to_string(),
            Error::CurseForgeError(err) => err.to_string(),
        }
    }
}

} // verus!
