//! Repository-identity resolution from remote URL text.

use gi::errors::GiError;
use gi::provider::{
    get_provider_enum, resolve_repository_identity, RepositoryIdentity, SupportedProviders,
};

#[test]
fn https_github_url_resolves() {
    let id: RepositoryIdentity =
        resolve_repository_identity("https://github.com/acme/widgets.git").unwrap();
    assert_eq!(id.provider, SupportedProviders::GitHub);
    assert_eq!(id.owner, "acme");
    assert_eq!(id.repo, "widgets");
}

#[test]
fn ssh_url_on_unknown_host_is_unsupported() {
    let r = resolve_repository_identity("git@gitlab.example.com:acme/widgets.git");
    assert_eq!(r.unwrap_err(), GiError::UnsupportedProvider);
}

#[test]
fn ssh_github_url_resolves() {
    let id = resolve_repository_identity("git@github.com:acme/widgets.git").unwrap();
    assert_eq!(id.provider, SupportedProviders::GitHub);
    assert_eq!(id.owner, "acme");
    assert_eq!(id.repo, "widgets");
}

#[test]
fn owner_and_repo_are_the_last_two_https_segments() {
    let id = resolve_repository_identity("https://github.example.org/group/sub/acme/widgets.git")
        .unwrap();
    assert_eq!(id.provider, SupportedProviders::GitHub);
    assert_eq!(id.owner, "acme");
    assert_eq!(id.repo, "widgets");
}

#[test]
fn only_the_first_line_of_remote_output_counts() {
    let id = resolve_repository_identity("https://github.com/acme/widgets.git\norigin stuff\n")
        .unwrap();
    assert_eq!(id.owner, "acme");
    assert_eq!(id.repo, "widgets");
}

#[test]
fn malformed_urls_are_unrecognized() {
    for url in [
        "",
        "https://github.com/acme/widgets",
        "https://github.com/widgets.git",
        "httpsmangled",
        "no-at-sign-or-scheme",
        "git@github.com:acme.git",
        "https://github.com/acme/.git",
    ] {
        let r = resolve_repository_identity(url);
        assert_eq!(r.unwrap_err(), GiError::UnrecognizedRemoteUrl, "url: {url}");
    }
}

#[test]
fn provider_hosts_map_by_prefix() {
    assert_eq!(
        get_provider_enum("github.com").unwrap(),
        SupportedProviders::GitHub
    );
    assert_eq!(
        get_provider_enum("github.enterprise.example").unwrap(),
        SupportedProviders::GitHub
    );
    assert_eq!(
        get_provider_enum("gitlab.com").unwrap_err(),
        GiError::UnsupportedProvider
    );
}

#[test]
fn provider_names_are_listed() {
    assert_eq!(SupportedProviders::get_providers(), "GitHub");
    assert_eq!(SupportedProviders::GitHub.name(), "GitHub");
}
