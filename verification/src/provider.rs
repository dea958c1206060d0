//! Hosting providers and repository-identity resolution.
//!
//! The remote URL of the checkout is parsed into a
//! (provider, owner, repository) triple. Two URL shapes are accepted: HTTPS
//! (`https://<provider-host>/.../<owner>/<repo>.git`) and SSH-like
//! (`...@<provider-host>:<owner>/<repo>.git`). The provider host is mapped
//! onto a closed set of known providers by prefix match. The module also
//! defines the provider capability interface and the credential-file format.

use vstd::prelude::*;

use crate::commitmsg::{skip_ws, trim_start_ix};
use crate::errors::GiError;
use crate::git_client::GitClient;
use crate::metadata::{
    escape_into, escaped, lemma_parse_escaped, parse_jstring_exec, parse_jstring_from,
};
use crate::text::{
    chars_to_string, copy_range, find_char_from, first_ix_from, last_ix_before, matches_at,
    push_char, rfind_char_before, str_to_chars,
};

verus! {

/// The closed set of hosting providers this library knows.
#[derive(Clone, Copy, Debug, PartialEq, Eq, Structural)]
pub enum SupportedProviders {
    GitHub,
}

impl SupportedProviders {
    /// The names of all supported providers, joined with ", ".
    pub fn get_providers() -> (r: String)
        ensures
            r@ == "GitHub"@,
    {
        String::from_str("GitHub")
    }

    /// The display name of this provider.
    pub fn name(&self) -> (r: String)
        ensures
            r@ == "GitHub"@,
    {
        match self {
            SupportedProviders::GitHub => String::from_str("GitHub"),
        }
    }
}

/// Whether a provider-host text maps to the GitHub provider: any host
/// starting with `github`.
pub open spec fn host_is_github(host: Seq<char>) -> bool {
    "github"@.len() <= host.len() && host.subrange(0, "github"@.len() as int) == "github"@
}

/// Maps a provider-host text onto the closed set of known providers by
/// prefix match; no match names an unsupported provider.
pub fn get_provider_enum(provider: &str) -> (r: Result<SupportedProviders, GiError>)
    ensures
        host_is_github(provider@) ==> r == Ok::<SupportedProviders, GiError>(
            SupportedProviders::GitHub,
        ),
        !host_is_github(provider@) ==> (r matches Err(e) && e == GiError::UnsupportedProvider),
{
    let v = str_to_chars(provider);
    if matches_at(&v, 0, "github") {
        Ok(SupportedProviders::GitHub)
    } else {
        Err(GiError::UnsupportedProvider)
    }
}

/// Where a repository lives: provider, owner, repository name. Derived
/// deterministically from the remote URL text each time it is needed.
#[derive(Clone, Debug)]
pub struct RepositoryIdentity {
    pub provider: SupportedProviders,
    pub owner: String,
    pub repo: String,
}

/// The first line of the remote listing output.
pub open spec fn url_first_line(s: Seq<char>) -> Seq<char> {
    s.subrange(0, first_ix_from(s, '\n', 0))
}

/// Whether the HTTPS shape is selected: the line starts with `https`.
pub open spec fn is_https_shape(line: Seq<char>) -> bool {
    "https"@.len() <= line.len() && line.subrange(0, "https"@.len() as int) == "https"@
}

/// Whether `t` is `<repo>.git` with a non-empty repository name.
pub open spec fn ends_with_git(t: Seq<char>) -> bool {
    ".git"@.len() < t.len() && t.subrange(t.len() - ".git"@.len(), t.len() as int) == ".git"@
}

/// `<repo>.git` without its suffix.
pub open spec fn strip_git(t: Seq<char>) -> Seq<char> {
    t.subrange(0, t.len() - ".git"@.len())
}

/// The (provider-host, owner, repo) triple of an HTTPS-shaped line:
/// `https://`, then everything up to the second-to-last slash is the host,
/// the last two segments are owner and `<repo>.git`.
pub open spec fn parse_https_line(line: Seq<char>) -> Option<(Seq<char>, Seq<char>, Seq<char>)> {
    if line.len() < "https://"@.len() || line.subrange(0, "https://"@.len() as int)
        != "https://"@ {
        None
    } else {
        let rest = line.subrange("https://"@.len() as int, line.len() as int);
        let ls = last_ix_before(rest, '/', rest.len() as int);
        let ps = last_ix_before(rest, '/', ls);
        if ls < 0 || ps < 0 {
            None
        } else {
            let host = rest.subrange(0, ps);
            let owner = rest.subrange(ps + 1, ls);
            let tail = rest.subrange(ls + 1, rest.len() as int);
            if host.len() > 0 && owner.len() > 0 && ends_with_git(tail) {
                Some((host, owner, strip_git(tail)))
            } else {
                None
            }
        }
    }
}

/// The (provider-host, owner, repo) triple of an SSH-shaped line: after the
/// first `@`, the host runs to the last colon, the owner to the last slash,
/// and `<repo>.git` follows.
pub open spec fn parse_ssh_line(line: Seq<char>) -> Option<(Seq<char>, Seq<char>, Seq<char>)> {
    let at = first_ix_from(line, '@', 0);
    if at >= line.len() {
        None
    } else {
        let rest = line.subrange(at + 1, line.len() as int);
        let co = last_ix_before(rest, ':', rest.len() as int);
        if co < 0 {
            None
        } else {
            let host = rest.subrange(0, co);
            let after = rest.subrange(co + 1, rest.len() as int);
            let sl = last_ix_before(after, '/', after.len() as int);
            if sl < 0 {
                None
            } else {
                let owner = after.subrange(0, sl);
                let tail = after.subrange(sl + 1, after.len() as int);
                if host.len() > 0 && owner.len() > 0 && ends_with_git(tail) {
                    Some((host, owner, strip_git(tail)))
                } else {
                    None
                }
            }
        }
    }
}

/// The triple the remote URL text resolves to, if its first line matches an
/// accepted shape.
pub open spec fn resolved_identity(s: Seq<char>) -> Option<(Seq<char>, Seq<char>, Seq<char>)> {
    let line = url_first_line(s);
    if is_https_shape(line) {
        parse_https_line(line)
    } else {
        parse_ssh_line(line)
    }
}

/// Parses a remote URL text into a repository identity. Malformed text is
/// `UnrecognizedRemoteUrl`; a well-shaped URL on an unknown provider host is
/// `UnsupportedProvider`. Pure: no part of the result depends on anything
/// but the text.
pub fn resolve_repository_identity(url: &str) -> (r: Result<RepositoryIdentity, GiError>)
    ensures
        resolved_identity(url@) is None ==> (r matches Err(e) && e
            == GiError::UnrecognizedRemoteUrl),
        resolved_identity(url@) matches Some((h, o, rp)) ==> (host_is_github(h) ==> (r matches Ok(
            id,
        ) && id.provider == SupportedProviders::GitHub && id.owner@ == o && id.repo@ == rp)),
        resolved_identity(url@) matches Some((h, o, rp)) ==> (!host_is_github(h) ==> (r matches Err(
            e,
        ) && e == GiError::UnsupportedProvider)),
{
    let v = str_to_chars(url);
    let nl = find_char_from(&v, '\n', 0);
    let line = copy_range(&v, 0, nl);
    if matches_at(&line, 0, "https") {
        if !matches_at(&line, 0, "https://") {
            return Err(GiError::UnrecognizedRemoteUrl);
        }
        let hlen = "https://".unicode_len();
        let rest = copy_range(&line, hlen, line.len());
        let ls = match rfind_char_before(&rest, '/', rest.len()) {
            None => {
                return Err(GiError::UnrecognizedRemoteUrl);
            },
            Some(i) => i,
        };
        let ps = match rfind_char_before(&rest, '/', ls) {
            None => {
                return Err(GiError::UnrecognizedRemoteUrl);
            },
            Some(i) => i,
        };
        let host = copy_range(&rest, 0, ps);
        let owner = copy_range(&rest, ps + 1, ls);
        let tail = copy_range(&rest, ls + 1, rest.len());
        let glen = ".git".unicode_len();
        if host.len() == 0 || owner.len() == 0 || tail.len() <= glen || !matches_at(
            &tail,
            tail.len() - glen,
            ".git",
        ) {
            return Err(GiError::UnrecognizedRemoteUrl);
        }
        let repo = copy_range(&tail, 0, tail.len() - glen);
        let host_s = chars_to_string(&host);
        let provider = match get_provider_enum(host_s.as_str()) {
            Ok(p) => p,
            Err(e) => {
                return Err(e);
            },
        };
        Ok(RepositoryIdentity {
            provider,
            owner: chars_to_string(&owner),
            repo: chars_to_string(&repo),
        })
    } else {
        let at = find_char_from(&line, '@', 0);
        if at >= line.len() {
            return Err(GiError::UnrecognizedRemoteUrl);
        }
        let rest = copy_range(&line, at + 1, line.len());
        let co = match rfind_char_before(&rest, ':', rest.len()) {
            None => {
                return Err(GiError::UnrecognizedRemoteUrl);
            },
            Some(i) => i,
        };
        let host = copy_range(&rest, 0, co);
        let after = copy_range(&rest, co + 1, rest.len());
        let sl = match rfind_char_before(&after, '/', after.len()) {
            None => {
                return Err(GiError::UnrecognizedRemoteUrl);
            },
            Some(i) => i,
        };
        let owner = copy_range(&after, 0, sl);
        let tail = copy_range(&after, sl + 1, after.len());
        let glen = ".git".unicode_len();
        if host.len() == 0 || owner.len() == 0 || tail.len() <= glen || !matches_at(
            &tail,
            tail.len() - glen,
            ".git",
        ) {
            return Err(GiError::UnrecognizedRemoteUrl);
        }
        let repo = copy_range(&tail, 0, tail.len() - glen);
        let host_s = chars_to_string(&host);
        let provider = match get_provider_enum(host_s.as_str()) {
            Ok(p) => p,
            Err(e) => {
                return Err(e);
            },
        };
        Ok(RepositoryIdentity {
            provider,
            owner: chars_to_string(&owner),
            repo: chars_to_string(&repo),
        })
    }
}

/// Reads the checkout's remote URL and resolves it into the provider, owner
/// and repository name. Succeeds exactly on a readable remote URL that
/// resolves to a known provider; a malformed URL is `UnrecognizedRemoteUrl`,
/// a well-shaped URL on an unknown host `UnsupportedProvider`, and a failed
/// read `BackendFailure`.
pub fn get_repository_info<C: GitClient>(client: &C) -> (r: Result<
    (SupportedProviders, String, String),
    GiError,
>)
    requires
        client.wf(),
    ensures
        r matches Ok(info) ==> (resolved_identity(client.model().remote_url) matches Some(
            (h, o, rp),
        ) && host_is_github(h) && info.0 == SupportedProviders::GitHub && info.1@ == o && info.2@
            == rp),
        r matches Err(e) ==> e == GiError::BackendFailure || (e == GiError::UnrecognizedRemoteUrl
            && resolved_identity(client.model().remote_url) is None) || (e
            == GiError::UnsupportedProvider && (resolved_identity(
            client.model().remote_url,
        ) matches Some((h, o, rp)) && !host_is_github(h))),
        resolved_identity(client.model().remote_url) is None ==> r is Err,
        resolved_identity(client.model().remote_url) matches Some((h, o, rp)) && !host_is_github(
            h,
        ) ==> r is Err,
{
    let url = match client.get_remote_url() {
        Ok(u) => u,
        Err(e) => {
            return Err(e);
        },
    };
    match resolve_repository_identity(url.as_str()) {
        Ok(id) => Ok((id.provider, id.owner, id.repo)),
        Err(e) => Err(e),
    }
}

/// A hosting-provider capability: credential resolution and pull-request
/// creation. The concrete REST implementation lives outside the verified
/// library; nothing is promised of these calls beyond their signatures.
pub trait GitProvider {
    /// Reads the locally stored credential, prompting the operator and
    /// persisting the answer (with owner-only permissions) when it is absent
    /// or unreadable.
    fn resolve_credential(&mut self) -> (r: Result<String, GiError>)
        ensures
            r matches Err(e) ==> e == GiError::CredentialError,
    ;

    /// Opens a pull request of `branch` against `trunk` and returns its URL.
    fn create_pull_request(
        &mut self,
        owner: &str,
        repo: &str,
        branch: &str,
        trunk: &str,
        title: &str,
        body: &str,
    ) -> (r: Result<String, GiError>)
        ensures
            r matches Err(e) ==> e == GiError::CredentialError || e
                == GiError::ForgeRequestFailed,
    ;
}

/// The GitHub provider kind. The REST client that implements `GitProvider`
/// for it lives outside the verified library.
#[derive(Clone, Copy, Debug, PartialEq, Eq, Structural)]
pub struct GitHub {}

impl GitHub {
    /// The GitHub provider marker.
    pub fn new() -> (r: Result<GitHub, GiError>)
        ensures
            r is Ok,
    {
        Ok(GitHub {  })
    }
}

/// Selects the provider marker for a resolved provider kind.
pub fn provider_factory(provider: &SupportedProviders) -> (r: Result<GitHub, GiError>)
    ensures
        provider is GitHub ==> r is Ok,
{
    match provider {
        SupportedProviders::GitHub => GitHub::new(),
    }
}

/// The key and opening quote of the credential file's one field.
pub open spec fn token_prefix() -> Seq<char> {
    "{\"accessToken\":\""@
}

/// The canonical text form of the credential file: one JSON object holding
/// the access token.
pub open spec fn serialized_token(token: Seq<char>) -> Seq<char> {
    token_prefix() + escaped(token) + seq!['"', '}']
}

/// The access token a credential-file text holds, or `None` when the text
/// is not a credential file. The shape is one JSON object with the one key;
/// whitespace between the tokens is tolerated, as in a hand-edited file.
pub open spec fn parse_token(s: Seq<char>) -> Option<Seq<char>> {
    let klen = "\"accessToken\""@.len() as int;
    let i0 = trim_start_ix(s, 0);
    if !(i0 < s.len() && s[i0] == '{') {
        None
    } else {
        let i1 = trim_start_ix(s, i0 + 1);
        if !(i1 + klen <= s.len() && s.subrange(i1, i1 + klen) == "\"accessToken\""@) {
            None
        } else {
            let i2 = trim_start_ix(s, i1 + klen);
            if !(i2 < s.len() && s[i2] == ':') {
                None
            } else {
                let i3 = trim_start_ix(s, i2 + 1);
                if !(i3 < s.len() && s[i3] == '"') {
                    None
                } else {
                    match parse_jstring_from(s, i3 + 1) {
                        None => None,
                        Some((tok, k)) => {
                            let i4 = trim_start_ix(s, k);
                            if i4 < s.len() && s[i4] == '}' && trim_start_ix(s, i4 + 1)
                                == s.len() {
                                Some(tok)
                            } else {
                                None
                            }
                        },
                    }
                }
            }
        }
    }
}

/// Parsing a serialized credential file gives the token back unchanged.
pub proof fn lemma_token_round_trip(token: Seq<char>)
    ensures
        parse_token(serialized_token(token)) == Some(token),
{
    let s = serialized_token(token);
    let plen = token_prefix().len() as int;
    let e = escaped(token);
    reveal_strlit("{\"accessToken\":\"");
    reveal_strlit("\"accessToken\"");
    assert forall|j: int| 0 <= j < plen implies s[j] == token_prefix()[j] by {
        assert(s[j] == (token_prefix() + (e + (seq!['"'] + seq!['}'])))[j]);
    }
    assert(s.subrange(1, 1 + 13int) =~= "\"accessToken\""@);
    assert(s.subrange(plen, plen + e.len() + 1) =~= e + seq!['"']);
    lemma_parse_escaped(token, s, plen);
    assert(s[plen + e.len() + 1] == '}');
}

/// The canonical credential-file text for an access token.
pub fn serialize_access_token(token: &str) -> (r: String)
    ensures
        r@ == serialized_token(token@),
{
    let mut out = String::from_str("{\"accessToken\":\"");
    escape_into(&mut out, token);
    push_char(&mut out, '"');
    push_char(&mut out, '}');
    proof {
        assert(out@ =~= serialized_token(token@));
    }
    out
}

/// Reads the access token out of a credential-file text; `None` when the
/// text is not a credential file, so that the caller re-prompts.
pub fn parse_access_token(content: &str) -> (r: Option<String>)
    ensures
        r matches Some(t) ==> parse_token(content@) == Some(t@),
        r is None ==> parse_token(content@) is None,
{
    let v = str_to_chars(content);
    let i0 = skip_ws(&v, 0);
    if !(i0 < v.len() && v[i0] == '{') {
        return None;
    }
    let key = "\"accessToken\"";
    let klen = key.unicode_len();
    let i1 = skip_ws(&v, i0 + 1);
    if !matches_at(&v, i1, key) {
        return None;
    }
    let i2 = skip_ws(&v, i1 + klen);
    if !(i2 < v.len() && v[i2] == ':') {
        return None;
    }
    let i3 = skip_ws(&v, i2 + 1);
    if !(i3 < v.len() && v[i3] == '"') {
        return None;
    }
    match parse_jstring_exec(&v, i3 + 1) {
        None => None,
        Some((tok, k)) => {
            let i4 = skip_ws(&v, k);
            if i4 < v.len() && v[i4] == '}' && skip_ws(&v, i4 + 1) == v.len() {
                Some(chars_to_string(&tok))
            } else {
                None
            }
        },
    }
}

} // verus!
