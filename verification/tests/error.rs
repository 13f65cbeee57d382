use http_body_util::BodyExt;
use mod_add::Error;
use std::future::Future;

/// A transport error as the clients make it from a response with `status`.
fn transport_error(status: u16) -> reqwest::Error {
    let response = http::Response::builder()
        .status(status)
        .body("")
        .unwrap();
    reqwest::Response::from(response)
        .error_for_status()
        .unwrap_err()
}

/// A transport error that was made from no response.
fn transport_error_without_status() -> reqwest::Error {
    reqwest::Client::new()
        .get("this is no address")
        .build()
        .unwrap_err()
}

fn json_error() -> serde_json::Error {
    serde_json::from_str::<u32>("no number").unwrap_err()
}

/// The error that octocrab makes from an answer of GitHub's API.
fn github_error(status: u16, body: &'static str) -> octocrab::Error {
    let body = http_body_util::Full::new(bytes::Bytes::from(body))
        .map_err(|never: std::convert::Infallible| -> octocrab::Error { match never {} })
        .boxed();
    let response = http::Response::builder()
        .status(status)
        .body(body)
        .unwrap();
    let mut answer = Box::pin(octocrab::map_github_error(response));
    let mut context = std::task::Context::from_waker(std::task::Waker::noop());
    match answer.as_mut().poll(&mut context) {
        std::task::Poll::Ready(result) => result.unwrap_err(),
        std::task::Poll::Pending => panic!("the answer was at hand"),
    }
}

#[test]
fn the_helpers_make_what_they_say() {
    assert_eq!(
        transport_error(404).status(),
        Some(reqwest::StatusCode::NOT_FOUND)
    );
    assert_eq!(transport_error_without_status().status(), None);
    assert!(matches!(
        github_error(404, r#"{"message":"Not Found"}"#),
        octocrab::Error::GitHub { .. }
    ));
}

#[test]
fn curseforge_not_found_is_does_not_exist() {
    let err = furse::Error::ReqwestError(transport_error(404));
    assert!(matches!(Error::from(err), Error::DoesNotExist));
}

#[test]
fn curseforge_other_status_is_wrapped() {
    for status in [400, 401, 403, 405, 410, 429, 500, 503] {
        let err = furse::Error::ReqwestError(transport_error(status));
        match Error::from(err) {
            Error::CurseForgeError(furse::Error::ReqwestError(inner)) => {
                assert_eq!(inner.status().map(|code| code.as_u16()), Some(status));
            }
            other => panic!("{other:?}"),
        }
    }
}

#[test]
fn curseforge_transport_error_without_status_is_wrapped() {
    let err = furse::Error::ReqwestError(transport_error_without_status());
    assert!(matches!(
        Error::from(err),
        Error::CurseForgeError(furse::Error::ReqwestError(_))
    ));
}

#[test]
fn curseforge_other_error_is_wrapped_unchanged() {
    let inner = json_error();
    let text = inner.to_string();
    match Error::from(furse::Error::JsonError(inner)) {
        Error::CurseForgeError(furse::Error::JsonError(kept)) => {
            assert_eq!(kept.to_string(), text)
        }
        other => panic!("{other:?}"),
    }
}

#[test]
fn modrinth_not_found_is_does_not_exist() {
    let err = ferinth::Error::ReqwestError(transport_error(404));
    assert!(matches!(Error::from(err), Error::DoesNotExist));
}

#[test]
fn modrinth_other_status_is_wrapped() {
    for status in [400, 401, 403, 405, 410, 429, 500, 503] {
        let err = ferinth::Error::ReqwestError(transport_error(status));
        match Error::from(err) {
            Error::ModrinthError(ferinth::Error::ReqwestError(inner)) => {
                assert_eq!(inner.status().map(|code| code.as_u16()), Some(status));
            }
            other => panic!("{other:?}"),
        }
    }
}

#[test]
fn modrinth_other_errors_are_wrapped_unchanged() {
    assert!(matches!(
        Error::from(ferinth::Error::InvalidIDorSlug),
        Error::ModrinthError(ferinth::Error::InvalidIDorSlug)
    ));
    assert!(matches!(
        Error::from(ferinth::Error::InvalidSHA1),
        Error::ModrinthError(ferinth::Error::InvalidSHA1)
    ));
    assert!(matches!(
        Error::from(ferinth::Error::RateLimitExceeded(17)),
        Error::ModrinthError(ferinth::Error::RateLimitExceeded(17))
    ));
    assert!(matches!(
        Error::from(ferinth::Error::ApiDeprecated),
        Error::ModrinthError(ferinth::Error::ApiDeprecated)
    ));
    assert!(matches!(
        Error::from(ferinth::Error::JSONError(json_error())),
        Error::ModrinthError(ferinth::Error::JSONError(_))
    ));
    assert!(matches!(
        Error::from(ferinth::Error::ReqwestError(
            transport_error_without_status()
        )),
        Error::ModrinthError(ferinth::Error::ReqwestError(_))
    ));
}

#[test]
fn github_not_found_is_does_not_exist() {
    let err = github_error(
        404,
        r#"{"message":"Not Found","documentation_url":"https://docs.github.com/rest"}"#,
    );
    assert!(matches!(Error::from(err), Error::DoesNotExist));
}

#[test]
fn github_not_found_goes_by_the_message_alone() {
    let err = github_error(410, r#"{"message":"Not Found"}"#);
    assert!(matches!(Error::from(err), Error::DoesNotExist));
    let err = github_error(404, r#"{"message":"Gone"}"#);
    assert!(matches!(
        Error::from(err),
        Error::GitHubError(octocrab::Error::GitHub { .. })
    ));
}

#[test]
fn github_message_must_match_exactly() {
    for message in [
        "not found",
        "Not Found ",
        " Not Found",
        "Not Found.",
        "NotFound",
        "Not",
        "",
        "Bad credentials",
    ] {
        let body: &'static str = format!(r#"{{"message":"{message}"}}"#).leak();
        match Error::from(github_error(404, body)) {
            Error::GitHubError(octocrab::Error::GitHub { source, .. }) => {
                assert_eq!(source.message, message)
            }
            other => panic!("{other:?}"),
        }
    }
}

#[test]
fn github_other_error_is_wrapped_unchanged() {
    let err = github_error(500, "Not Found");
    assert!(matches!(err, octocrab::Error::Serde { .. }));
    assert!(matches!(
        Error::from(err),
        Error::GitHubError(octocrab::Error::Serde { .. })
    ));
}

#[test]
fn question_mark_converts() {
    fn curseforge() -> mod_add::Result<String> {
        Err(furse::Error::ReqwestError(transport_error(404)))?
    }
    fn modrinth() -> mod_add::Result<String> {
        Err(ferinth::Error::RateLimitExceeded(3))?
    }
    fn github() -> mod_add::Result<String> {
        Err(github_error(404, r#"{"message":"Not Found"}"#))?
    }
    assert!(matches!(curseforge(), Err(Error::DoesNotExist)));
    assert!(matches!(
        modrinth(),
        Err(Error::ModrinthError(ferinth::Error::RateLimitExceeded(3)))
    ));
    assert!(matches!(github(), Err(Error::DoesNotExist)));
}

#[test]
fn fixed_messages() {
    assert_eq!(
        Error::DistributionDenied.message(),
        "The developer of this project has denied third party applications from downloading it"
    );
    assert_eq!(
        Error::AlreadyAdded.message(),
        "The project has already been added"
    );
    assert_eq!(Error::DoesNotExist.message(), "The project does not exist");
    assert_eq!(
        Error::Incompatible.message(),
        "The project is not compatible"
    );
    assert_eq!(Error::NotAMod.message(), "The project is not a mod");
    assert_eq!(Error::InvalidIdentifier.message(), "Invalid identifier");
}

#[test]
fn wrapped_errors_speak_for_themselves() {
    assert_eq!(
        Error::ModrinthError(ferinth::Error::InvalidIDorSlug).message(),
        "Invalid Modrinth ID or slug"
    );
    assert_eq!(
        Error::ModrinthError(ferinth::Error::RateLimitExceeded(9)).message(),
        ferinth::Error::RateLimitExceeded(9).to_string()
    );
    assert_eq!(
        Error::CurseForgeError(furse::Error::JsonError(json_error())).message(),
        json_error().to_string()
    );
    assert_eq!(
        Error::CurseForgeError(furse::Error::ReqwestError(transport_error(500))).message(),
        transport_error(500).to_string()
    );
    assert_eq!(
        Error::GitHubError(github_error(403, r#"{"message":"Forbidden"}"#)).message(),
        github_error(403, r#"{"message":"Forbidden"}"#).to_string()
    );
}

#[test]
fn rekind_turns_an_invalid_slug_into_an_invalid_identifier() {
    assert!(matches!(
        Error::ModrinthError(ferinth::Error::InvalidIDorSlug).rekind(),
        Error::InvalidIdentifier
    ));
    let rejected = ferinth::check_id_slug(&["bad id with spaces"]).unwrap_err();
    assert!(matches!(
        Error::from(rejected).rekind(),
        Error::InvalidIdentifier
    ));
}

#[test]
fn rekind_leaves_every_other_error_alone() {
    assert!(matches!(
        Error::DistributionDenied.rekind(),
        Error::DistributionDenied
    ));
    assert!(matches!(Error::AlreadyAdded.rekind(), Error::AlreadyAdded));
    assert!(matches!(Error::DoesNotExist.rekind(), Error::DoesNotExist));
    assert!(matches!(Error::Incompatible.rekind(), Error::Incompatible));
    assert!(matches!(Error::NotAMod.rekind(), Error::NotAMod));
    assert!(matches!(
        Error::InvalidIdentifier.rekind(),
        Error::InvalidIdentifier
    ));
    assert!(matches!(
        Error::ModrinthError(ferinth::Error::InvalidSHA1).rekind(),
        Error::ModrinthError(ferinth::Error::InvalidSHA1)
    ));
    assert!(matches!(
        Error::ModrinthError(ferinth::Error::RateLimitExceeded(1)).rekind(),
        Error::ModrinthError(ferinth::Error::RateLimitExceeded(1))
    ));
    assert!(matches!(
        Error::ModrinthError(ferinth::Error::ReqwestError(transport_error(400))).rekind(),
        Error::ModrinthError(ferinth::Error::ReqwestError(_))
    ));
    assert!(matches!(
        Error::CurseForgeError(furse::Error::JsonError(json_error())).rekind(),
        Error::CurseForgeError(furse::Error::JsonError(_))
    ));
    assert!(matches!(
        Error::GitHubError(github_error(403, r#"{"message":"Forbidden"}"#)).rekind(),
        Error::GitHubError(octocrab::Error::GitHub { .. })
    ));
}
