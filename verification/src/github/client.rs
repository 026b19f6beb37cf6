//! The GitHub client: which token it sends and which requests it makes.

use vstd::prelude::*;

use crate::decimal::{parse_u64, parsed_u64};
use crate::github::proxy::{api_hosts, asset_hosts, rewritten, ProxyConfig};
use crate::github::release::{Asset, Repository, Tag};
use crate::text::{same_text, trim, trimmed};

verus! {

/// An HTTP GET request, described by its URL and headers.
#[derive(Debug, Clone)]
pub struct HttpRequest {
    pub url: String,
    /// Overall timeout in seconds, if any.
    pub timeout_secs: Option<u64>,
    /// Value of the `Authorization` header, if one is sent.
    pub authorization: Option<String>,
    /// Value of the `Accept` header, if one is sent.
    pub accept: Option<String>,
}

/// Settings read from the environment by the caller.
#[derive(Debug, Clone)]
pub struct GithubEnv {
    /// `DRA_DISABLE_GITHUB_AUTHENTICATION`
    pub disable_authentication: Option<String>,
    /// `DRA_GITHUB_TOKEN`
    pub dra_github_token: Option<String>,
    /// `GITHUB_TOKEN`
    pub github_token: Option<String>,
    /// `GH_TOKEN`
    pub gh_token: Option<String>,
    /// `DRA_ASSET_PREFIX`
    pub asset_prefix: Option<String>,
    /// `DRA_ASSET_PREFIX_MODE`
    pub asset_prefix_mode: Option<String>,
    /// `DRA_API_PREFIX`
    pub api_prefix: Option<String>,
    /// `DRA_API_PREFIX_MODE`
    pub api_prefix_mode: Option<String>,
}

/// A client for the GitHub REST API.
pub struct GithubClient {
    pub token: Option<String>,
    pub proxy: ProxyConfig,
}

/// A boolean environment setting is on when it reads `true` or `1`.
pub open spec fn flag_on(value: Option<Seq<char>>) -> bool {
    match value {
        Some(v) => v == "true"@ || v == "1"@,
        None => false,
    }
}

/// Whether a boolean environment setting is on.
pub fn env_flag(value: &Option<String>) -> (b: bool)
    ensures
        b == flag_on(value.deep_view()),
{
    match value {
        Some(v) => same_text(v.as_str(), "true") || same_text(v.as_str(), "1"),
        None => false,
    }
}

/// The first token found among the environment settings, in order of precedence.
pub open spec fn env_token(
    dra_github_token: Option<String>,
    github_token: Option<String>,
    gh_token: Option<String>,
) -> Option<String> {
    if dra_github_token is Some {
        dra_github_token
    } else if github_token is Some {
        github_token
    } else {
        gh_token
    }
}

/// Resolves the GitHub token: none when authentication is disabled, otherwise
/// `DRA_GITHUB_TOKEN`, then `GITHUB_TOKEN`, then `GH_TOKEN`, and only when none of
/// them is set, what `gh_cli_token` gives (the token of the GitHub CLI).
pub fn resolve_token<F: FnOnce() -> Option<String>>(
    auth_disabled: bool,
    dra_github_token: Option<String>,
    github_token: Option<String>,
    gh_token: Option<String>,
    gh_cli_token: F,
) -> (r: Option<String>)
    requires
        !auth_disabled && env_token(dra_github_token, github_token, gh_token) is None
            ==> call_requires(gh_cli_token, ()),
    ensures
        auth_disabled ==> r is None,
        !auth_disabled && env_token(dra_github_token, github_token, gh_token) is Some ==> r
            == env_token(dra_github_token, github_token, gh_token),
        !auth_disabled && env_token(dra_github_token, github_token, gh_token) is None
            ==> call_ensures(gh_cli_token, (), r),
{
    if auth_disabled {
        return None;
    }
    if dra_github_token.is_some() {
        return dra_github_token;
    }
    if github_token.is_some() {
        return github_token;
    }
    if gh_token.is_some() {
        return gh_token;
    }
    gh_cli_token()
}

/// The token printed by `gh auth token`, given its output when the command succeeded
/// and the output was valid UTF-8: the output with surrounding white space removed.
pub fn cli_token_from_output(output: Option<String>) -> (r: Option<String>)
    ensures
        match output {
            Some(o) => r is Some && r->0@ == trimmed(o@),
            None => r is None,
        },
{
    match output {
        Some(o) => Some(trim(o.as_str())),
        None => None,
    }
}

/// The API URL of a release: the one with the given tag, or the latest.
pub open spec fn release_url(owner: Seq<char>, repo: Seq<char>, tag: Option<Seq<char>>) -> Seq<char> {
    "https://api.github.com/repos/"@ + owner + "/"@ + repo + "/releases/"@ + match tag {
        Some(t) => "tags/"@ + t,
        None => "latest"@,
    }
}

/// Builds the API URL of a release.
pub fn get_release_url(repository: &Repository, tag: Option<&Tag>) -> (u: String)
    ensures
        u@ == release_url(
            repository.owner@,
            repository.repo@,
            match tag {
                Some(t) => Some(t.0@),
                None => None,
            },
        ),
{
    let mut u = String::from_str("https://api.github.com/repos/");
    u.append(repository.owner.as_str());
    u.append("/");
    u.append(repository.repo.as_str());
    u.append("/releases/");
    match tag {
        Some(t) => {
            u.append("tags/");
            u.append(t.0.as_str());
        },
        None => {
            u.append("latest");
        },
    }
    u
}

/// The value of the `Authorization` header for a token.
pub open spec fn authorization_for(token: Option<String>) -> Option<Seq<char>> {
    match token {
        Some(t) => Some("token "@ + t@),
        None => None,
    }
}

/// The length announced by a `Content-Length` header, when it reads as a `u64`.
pub fn content_length(header: Option<String>) -> (r: Option<u64>)
    ensures
        r == match header {
            Some(h) => parsed_u64(h@),
            None => None,
        },
{
    match header {
        Some(h) => parse_u64(h.as_str()),
        None => None,
    }
}

impl GithubClient {
    /// A client with the given token and no proxy.
    pub fn new(token: Option<String>) -> (c: Self)
        ensures
            c.token == token,
            c.proxy.asset_prefix is None,
            c.proxy.asset_mode == crate::github::proxy::PrefixMode::Prepend,
            c.proxy.api_prefix is None,
            c.proxy.api_mode == crate::github::proxy::PrefixMode::Prepend,
    {
        GithubClient { token, proxy: ProxyConfig::default() }
    }

    /// A client from the environment settings; `gh_cli_token` is asked for a token
    /// only when no setting gives one and authentication is not disabled.
    pub fn from_environment<F: FnOnce() -> Option<String>>(env: GithubEnv, gh_cli_token: F) -> (c: Self)
        requires
            !flag_on(env.disable_authentication.deep_view()) && env_token(
                env.dra_github_token,
                env.github_token,
                env.gh_token,
            ) is None ==> call_requires(gh_cli_token, ()),
        ensures
            flag_on(env.disable_authentication.deep_view()) ==> c.token is None,
            !flag_on(env.disable_authentication.deep_view()) && env_token(
                env.dra_github_token,
                env.github_token,
                env.gh_token,
            ) is Some ==> c.token == env_token(env.dra_github_token, env.github_token, env.gh_token),
            !flag_on(env.disable_authentication.deep_view()) && env_token(
                env.dra_github_token,
                env.github_token,
                env.gh_token,
            ) is None ==> call_ensures(gh_cli_token, (), c.token),
            c.proxy.asset_prefix == env.asset_prefix,
            c.proxy.api_prefix == env.api_prefix,
            c.proxy.asset_mode == crate::github::proxy::parsed_mode(
                env.asset_prefix_mode.deep_view(),
            ),
            c.proxy.api_mode == crate::github::proxy::parsed_mode(
                env.api_prefix_mode.deep_view(),
            ),
    {
        let disabled = env_flag(&env.disable_authentication);
        let token = resolve_token(
            disabled,
            env.dra_github_token,
            env.github_token,
            env.gh_token,
            gh_cli_token,
        );
        let proxy = ProxyConfig::from_environment(
            env.asset_prefix,
            env.asset_prefix_mode,
            env.api_prefix,
            env.api_prefix_mode,
        );
        Self::from_token_and_proxy(token, proxy)
    }

    /// A client with the given token and proxy configuration.
    pub fn from_token_and_proxy(token: Option<String>, proxy: ProxyConfig) -> (c: Self)
        ensures
            c.token == token,
            c.proxy == proxy,
    {
        GithubClient { token, proxy }
    }

    fn authorization(&self) -> (a: Option<String>)
        ensures
            a.deep_view() == authorization_for(self.token),
    {
        match &self.token {
            Some(t) => {
                let mut h = String::from_str("token ");
                h.append(t.as_str());
                Some(h)
            },
            None => None,
        }
    }

    /// The request for a release's metadata: the release URL rewritten through the
    /// API prefix, a five second timeout, and the token if there is one.
    pub fn release_request(&self, repository: &Repository, tag: Option<&Tag>) -> (q: HttpRequest)
        ensures
            q.url@ == rewritten(
                release_url(
                    repository.owner@,
                    repository.repo@,
                    match tag {
                        Some(t) => Some(t.0@),
                        None => None,
                    },
                ),
                self.proxy.api_prefix.deep_view(),
                self.proxy.api_mode,
                api_hosts(),
            ),
            q.timeout_secs == Some(5u64),
            q.authorization.deep_view() == authorization_for(self.token),
            q.accept is None,
    {
        let url = get_release_url(repository, tag);
        HttpRequest {
            url: self.proxy.rewrite_api(url.as_str()),
            timeout_secs: Some(5),
            authorization: self.authorization(),
            accept: None,
        }
    }

    /// The request that downloads an asset: its URL rewritten through the asset
    /// prefix, no timeout, the token if there is one, and the raw content type.
    pub fn asset_request(&self, asset: &Asset) -> (q: HttpRequest)
        ensures
            q.url@ == rewritten(
                asset.download_url@,
                self.proxy.asset_prefix.deep_view(),
                self.proxy.asset_mode,
                asset_hosts(),
            ),
            q.timeout_secs is None,
            q.authorization.deep_view() == authorization_for(self.token),
            q.accept.deep_view() == Some("application/vnd.github.raw"@),
    {
        HttpRequest {
            url: self.proxy.rewrite_asset(asset.download_url.as_str()),
            timeout_secs: None,
            authorization: self.authorization(),
            accept: Some(String::from_str("application/vnd.github.raw")),
        }
    }
}

} // verus!
