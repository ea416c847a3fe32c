//! Setting a store up from the credentials a caller supplies.

use vstd::prelude::*;

use crate::error::NoteServiceError;
use crate::store::{slash_count, NoteService};

verus! {

/// The name that commit messages end with when the caller gives none.
pub open spec fn default_app_identifier() -> Seq<char> {
    "NoteApp"@
}

/// The credentials that a web request carries in its headers.
pub struct ApiHeaders {
    pub github_token: String,
    pub notes_repo: String,
    pub app_identifier: String,
}

/// A header that a web request must carry and did not.
#[derive(Debug, Clone, Copy, PartialEq, Eq, Structural)]
pub enum MissingHeader {
    GithubToken,
    NotesRepo,
}

impl MissingHeader {
    /// The message that the web layer answers with.
    pub fn message(&self) -> (r: String)
        ensures
            *self == MissingHeader::GithubToken ==> r@ == "GITHUB_TOKEN header is missing"@,
            *self == MissingHeader::NotesRepo ==> r@ == "NOTES_REPO header is missing"@,
    {
        match self {
            MissingHeader::GithubToken => String::from_str("GITHUB_TOKEN header is missing"),
            MissingHeader::NotesRepo => String::from_str("NOTES_REPO header is missing"),
        }
    }
}

/// The given value, or the default name where there is none.
fn app_identifier_or_default(app_identifier: Option<String>) -> (r: String)
    ensures
        r@ == match app_identifier {
            Some(a) => a@,
            None => default_app_identifier(),
        },
{
    match app_identifier {
        Some(a) => a,
        None => String::from_str("NoteApp"),
    }
}

impl ApiHeaders {
    /// The credentials of a request, from the values of its headers: the token
    /// and the repository are required, the name defaults to `NoteApp`.
    pub fn from_values(
        github_token: Option<String>,
        notes_repo: Option<String>,
        app_identifier: Option<String>,
    ) -> (r: Result<ApiHeaders, MissingHeader>)
        ensures
            github_token is None ==> r == Err::<ApiHeaders, MissingHeader>(
                MissingHeader::GithubToken,
            ),
            github_token is Some && notes_repo is None ==> r == Err::<ApiHeaders, MissingHeader>(
                MissingHeader::NotesRepo,
            ),
            github_token is Some && notes_repo is Some ==> (r matches Ok(h) && h.github_token
                == github_token->0 && h.notes_repo == notes_repo->0 && h.app_identifier@ == (
            match app_identifier {
                Some(a) => a@,
                None => default_app_identifier(),
            })),
    {
        let github_token = match github_token {
            Some(t) => t,
            None => return Err(MissingHeader::GithubToken),
        };
        let notes_repo = match notes_repo {
            Some(n) => n,
            None => return Err(MissingHeader::NotesRepo),
        };
        Ok(
            ApiHeaders {
                github_token,
                notes_repo,
                app_identifier: app_identifier_or_default(app_identifier),
            },
        )
    }
}

/// The store that a request's credentials reach.
pub fn get_note_service(headers: &ApiHeaders) -> (r: Result<NoteService, NoteServiceError>)
    ensures
        slash_count(headers.notes_repo@, headers.notes_repo@.len() as int) == 1 <==> r is Ok,
        r matches Err(e) ==> e is Configuration,
        r matches Ok(s) ==> {
            &&& s.owner@ + seq!['/'] + s.repo@ == headers.notes_repo@
            &&& s.github_token == headers.github_token
            &&& s.app_identifier == headers.app_identifier
        },
{
    NoteService::new(
        headers.github_token.clone(),
        headers.notes_repo.clone(),
        headers.app_identifier.clone(),
    )
}

/// The store that the desktop settings reach: the token and the repository
/// must have been set, the name defaults to `NoteApp`.
pub fn service_from_settings(
    github_token: Option<String>,
    notes_repo: Option<String>,
    app_identifier: Option<String>,
) -> (r: Result<NoteService, NoteServiceError>)
    ensures
        github_token is None ==> (r matches Err(e) && e is Configuration),
        notes_repo is None ==> (r matches Err(e) && e is Configuration),
        github_token is Some && notes_repo is Some ==> {
            &&& (slash_count(notes_repo->0@, notes_repo->0@.len() as int) == 1 <==> r is Ok)
            &&& r matches Err(e) ==> e is Configuration
            &&& r matches Ok(s) ==> {
                &&& s.owner@ + seq!['/'] + s.repo@ == notes_repo->0@
                &&& s.github_token == github_token->0
                &&& s.app_identifier@ == match app_identifier {
                    Some(a) => a@,
                    None => default_app_identifier(),
                }
            }
        },
{
    let github_token = match github_token {
        Some(t) => t,
        None => return Err(NoteServiceError::Configuration(String::from_str("GitHub token not set"))),
    };
    let notes_repo = match notes_repo {
        Some(n) => n,
        None => return Err(NoteServiceError::Configuration(String::from_str("Notes repo not set"))),
    };
    NoteService::new(github_token, notes_repo, app_identifier_or_default(app_identifier))
}

} // verus!
