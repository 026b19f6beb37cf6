//! Rewriting of GitHub URLs through a download proxy or mirror.

use vstd::prelude::*;

use crate::text::{has_prefix, same_text, starts_with, substring, trim_end_char, trim_end_matching};

verus! {

/// How a configured prefix is put in front of a URL.
#[derive(Debug, Clone, Copy, PartialEq, Eq, Structural)]
pub enum PrefixMode {
    /// Keep the whole original URL and put the prefix in front of it.
    Prepend,
    /// Strip the GitHub host from the URL, then put the prefix in front.
    ReplaceHost,
}

impl Default for PrefixMode {
    fn default() -> (m: Self)
        ensures
            m == PrefixMode::Prepend,
    {
        PrefixMode::Prepend
    }
}

/// Download prefixes for release assets and for API requests.
#[derive(Debug, Clone)]
pub struct ProxyConfig {
    pub asset_prefix: Option<String>,
    pub asset_mode: PrefixMode,
    pub api_prefix: Option<String>,
    pub api_mode: PrefixMode,
}

impl Default for ProxyConfig {
    fn default() -> (c: Self)
        ensures
            c.asset_prefix is None,
            c.asset_mode == PrefixMode::Prepend,
            c.api_prefix is None,
            c.api_mode == PrefixMode::Prepend,
    {
        ProxyConfig {
            asset_prefix: None,
            asset_mode: PrefixMode::Prepend,
            api_prefix: None,
            api_mode: PrefixMode::Prepend,
        }
    }
}

/// The prefix (trailing slashes removed), a slash, then `rest`.
pub open spec fn joined(prefix: Seq<char>, rest: Seq<char>) -> Seq<char> {
    trim_end_char(prefix, '/') + seq!['/'] + rest
}

/// The first host of `hosts` that `url` starts with is replaced by the prefix;
/// a URL that starts with none of them is kept as it is.
pub open spec fn replace_host(url: Seq<char>, prefix: Seq<char>, hosts: Seq<Seq<char>>) -> Seq<char>
    decreases hosts.len(),
{
    if hosts.len() == 0 {
        url
    } else if starts_with(url, hosts[0]) {
        joined(prefix, url.skip(hosts[0].len() as int))
    } else {
        replace_host(url, prefix, hosts.drop_first())
    }
}

/// The URL as the proxy configuration rewrites it.
pub open spec fn rewritten(
    url: Seq<char>,
    prefix: Option<Seq<char>>,
    mode: PrefixMode,
    hosts: Seq<Seq<char>>,
) -> Seq<char> {
    match prefix {
        None => url,
        Some(p) => match mode {
            PrefixMode::Prepend => joined(p, url),
            PrefixMode::ReplaceHost => replace_host(url, p, hosts),
        },
    }
}

/// The hosts that an asset prefix replaces: downloads and source archives.
pub open spec fn asset_hosts() -> Seq<Seq<char>> {
    seq!["https://github.com/"@, "https://api.github.com/"@]
}

/// The host that an API prefix replaces.
pub open spec fn api_hosts() -> Seq<Seq<char>> {
    seq!["https://api.github.com/"@]
}

/// The characters of each host.
pub open spec fn host_views(hosts: Seq<&str>) -> Seq<Seq<char>> {
    hosts.map_values(|h: &str| h@)
}

/// The mode named by an already lower-cased setting.
pub open spec fn mode_named(lower: Seq<char>) -> PrefixMode {
    if lower == "replace-host"@ || lower == "replace_host"@ {
        PrefixMode::ReplaceHost
    } else {
        PrefixMode::Prepend
    }
}

/// What `s.to_lowercase()` returns (Unicode lower-casing).
pub uninterp spec fn lowercase(s: Seq<char>) -> Seq<char>;

/// ASCII lower-casing of one character.
pub open spec fn ascii_lower(c: char) -> char {
    if 'A' <= c <= 'Z' {
        ((c as u32) + 32) as char
    } else {
        c
    }
}

/// Calls `str::to_lowercase`. Claimed: the result is `lowercase` of the input, and on a
/// string made only of ASCII characters it is the ASCII lower-casing, character by character.
#[verifier::external_body]
fn to_lowercase(s: &str) -> (r: String)
    ensures
        r@ == lowercase(s@),
        (forall|i: int| 0 <= i < s@.len() ==> (s@[i] as u32) < 128) ==> r@ == s@.map_values(
            |c: char| ascii_lower(c),
        ),
{
    s.to_lowercase()
}

/// The mode that a setting names: `replace-host` or `replace_host` in any case,
/// anything else (or no setting) means `Prepend`.
pub open spec fn parsed_mode(s: Option<Seq<char>>) -> PrefixMode {
    match s {
        Some(x) => mode_named(lowercase(x)),
        None => PrefixMode::Prepend,
    }
}

/// The mode named by a setting that has already been lower-cased.
pub fn mode_from_lowercase(lower: &str) -> (m: PrefixMode)
    ensures
        m == mode_named(lower@),
{
    if same_text(lower, "replace-host") || same_text(lower, "replace_host") {
        PrefixMode::ReplaceHost
    } else {
        PrefixMode::Prepend
    }
}

/// Parses a prefix mode setting.
pub fn parse_mode(s: Option<String>) -> (m: PrefixMode)
    ensures
        m == parsed_mode(s.deep_view()),
        s matches Some(x) ==> ((forall|i: int| 0 <= i < x@.len() ==> (x@[i] as u32) < 128) ==> m
            == mode_named(x@.map_values(|c: char| ascii_lower(c)))),
{
    match s {
        Some(x) => {
            let lower = to_lowercase(x.as_str());
            mode_from_lowercase(lower.as_str())
        },
        None => PrefixMode::Prepend,
    }
}

/// Rewrites `url` with an optional prefix.
pub fn rewrite_url(url: &str, prefix: Option<&str>, mode: PrefixMode, hosts: &[&str]) -> (r: String)
    ensures
        r@ == rewritten(url@, prefix.deep_view(), mode, host_views(hosts@)),
{
    let p = match prefix {
        None => {
            return String::from_str(url);
        },
        Some(p) => p,
    };
    let trimmed = trim_end_matching(p, '/');
    match mode {
        PrefixMode::Prepend => {
            let mut r = trimmed;
            r.append("/");
            r.append(url);
            proof {
                reveal_strlit("/");
            }
            assert(r@ =~= joined(p@, url@));
            r
        },
        PrefixMode::ReplaceHost => {
            let ghost hv = host_views(hosts@);
            let mut i: usize = 0;
            assert(hv.skip(0) =~= hv);
            while i < hosts.len()
                invariant
                    hv == host_views(hosts@),
                    prefix == Some(p),
                    mode == PrefixMode::ReplaceHost,
                    i <= hosts@.len(),
                    trimmed@ == trim_end_char(p@, '/'),
                    replace_host(url@, p@, hv) == replace_host(url@, p@, hv.skip(i as int)),
                decreases hosts@.len() - i,
            {
                let host = hosts[i];
                assert(hv.skip(i as int)[0] == host@);
                if has_prefix(url, host) {
                    let n = url.unicode_len();
                    let hn = host.unicode_len();
                    let rest = substring(url, hn, n);
                    let mut r = trimmed;
                    r.append("/");
                    r.append(rest.as_str());
                    proof {
                        reveal_strlit("/");
                    }
                    assert(url@.subrange(hn as int, n as int) =~= url@.skip(host@.len() as int));
                    assert(r@ =~= joined(p@, url@.skip(host@.len() as int)));
                    assert(replace_host(url@, p@, hv.skip(i as int)) == joined(
                        p@,
                        url@.skip(host@.len() as int),
                    ));
                    return r;
                }
                assert(hv.skip(i as int).drop_first() =~= hv.skip(i + 1));
                i = i + 1;
            }
            assert(hv.skip(i as int).len() == 0);
            String::from_str(url)
        },
    }
}

/// A command line value overrides the environment's; without it the environment's applies.
pub open spec fn overriding<T>(cli: Option<T>, env: Option<T>) -> Option<T> {
    if cli is Some {
        cli
    } else {
        env
    }
}

fn first_of(cli: Option<String>, env: Option<String>) -> (r: Option<String>)
    ensures
        r == overriding(cli, env),
{
    if cli.is_some() {
        cli
    } else {
        env
    }
}

/// Builds the proxy configuration from command line options, which override the four
/// settings read from the environment (`DRA_ASSET_PREFIX`, `DRA_ASSET_PREFIX_MODE`,
/// `DRA_API_PREFIX`, `DRA_API_PREFIX_MODE`) one by one; each setting that the command
/// line leaves out comes from the environment.
pub fn proxy_from_cli_args(
    asset_prefix: Option<String>,
    asset_prefix_mode: Option<String>,
    api_prefix: Option<String>,
    api_prefix_mode: Option<String>,
    env_asset_prefix: Option<String>,
    env_asset_prefix_mode: Option<String>,
    env_api_prefix: Option<String>,
    env_api_prefix_mode: Option<String>,
) -> (c: ProxyConfig)
    ensures
        c.asset_prefix == overriding(asset_prefix, env_asset_prefix),
        c.asset_mode == parsed_mode(overriding(asset_prefix_mode, env_asset_prefix_mode).deep_view()),
        c.api_prefix == overriding(api_prefix, env_api_prefix),
        c.api_mode == parsed_mode(overriding(api_prefix_mode, env_api_prefix_mode).deep_view()),
{
    ProxyConfig::from_environment(
        first_of(asset_prefix, env_asset_prefix),
        first_of(asset_prefix_mode, env_asset_prefix_mode),
        first_of(api_prefix, env_api_prefix),
        first_of(api_prefix_mode, env_api_prefix_mode),
    )
}

/// Without prefixes, neither asset nor API URLs are changed.
pub proof fn law_no_prefix_keeps_urls(c: ProxyConfig, url: Seq<char>)
    requires
        c.asset_prefix is None,
        c.api_prefix is None,
    ensures
        rewritten(url, c.asset_prefix.deep_view(), c.asset_mode, asset_hosts()) == url,
        rewritten(url, c.api_prefix.deep_view(), c.api_mode, api_hosts()) == url,
{
}

proof fn lemma_trim_slash_absorbs(p: Seq<char>)
    ensures
        trim_end_char(p.push('/'), '/') == trim_end_char(p, '/'),
{
    assert(p.push('/').drop_last() =~= p);
}

proof fn lemma_replace_host_slash(url: Seq<char>, p: Seq<char>, hosts: Seq<Seq<char>>)
    ensures
        replace_host(url, p.push('/'), hosts) == replace_host(url, p, hosts),
    decreases hosts.len(),
{
    lemma_trim_slash_absorbs(p);
    if hosts.len() > 0 && !starts_with(url, hosts[0]) {
        lemma_replace_host_slash(url, p, hosts.drop_first());
    }
}

/// A prefix with a trailing slash rewrites exactly as the prefix without it.
pub proof fn law_trailing_slash_ignored(
    url: Seq<char>,
    p: Seq<char>,
    mode: PrefixMode,
    hosts: Seq<Seq<char>>,
)
    ensures
        rewritten(url, Some(p.push('/')), mode, hosts) == rewritten(url, Some(p), mode, hosts),
{
    lemma_trim_slash_absorbs(p);
    lemma_replace_host_slash(url, p, hosts);
}

/// In `Prepend` mode the whole original URL follows the prefix and a slash.
pub proof fn law_prepend_keeps_url(url: Seq<char>, p: Seq<char>, hosts: Seq<Seq<char>>)
    ensures
        rewritten(url, Some(p), PrefixMode::Prepend, hosts) == trim_end_char(p, '/') + seq!['/']
            + url,
{
}

/// In `ReplaceHost` mode a URL that starts with none of the hosts is left as it is.
pub proof fn law_unknown_host_untouched(url: Seq<char>, p: Seq<char>, hosts: Seq<Seq<char>>)
    requires
        forall|i: int| 0 <= i < hosts.len() ==> !starts_with(url, #[trigger] hosts[i]),
    ensures
        rewritten(url, Some(p), PrefixMode::ReplaceHost, hosts) == url,
    decreases hosts.len(),
{
    if hosts.len() > 0 {
        assert(!starts_with(url, hosts[0]));
        assert forall|i: int| 0 <= i < hosts.drop_first().len() implies !starts_with(
            url,
            #[trigger] hosts.drop_first()[i],
        ) by {
            assert(hosts.drop_first()[i] == hosts[i + 1]);
        }
        law_unknown_host_untouched(url, p, hosts.drop_first());
    }
}

/// In `ReplaceHost` mode a URL on the first host loses that host and gets the prefix.
pub proof fn law_first_host_replaced(url: Seq<char>, p: Seq<char>, hosts: Seq<Seq<char>>)
    requires
        hosts.len() > 0,
        starts_with(url, hosts[0]),
    ensures
        rewritten(url, Some(p), PrefixMode::ReplaceHost, hosts) == trim_end_char(p, '/') + seq!['/']
            + url.skip(hosts[0].len() as int),
{
}

impl ProxyConfig {
    /// Builds the configuration from the four settings, as read from
    /// `DRA_ASSET_PREFIX`, `DRA_ASSET_PREFIX_MODE`, `DRA_API_PREFIX` and `DRA_API_PREFIX_MODE`.
    pub fn from_environment(
        asset_prefix: Option<String>,
        asset_prefix_mode: Option<String>,
        api_prefix: Option<String>,
        api_prefix_mode: Option<String>,
    ) -> (c: Self)
        ensures
            c.asset_prefix == asset_prefix,
            c.asset_mode == parsed_mode(asset_prefix_mode.deep_view()),
            c.api_prefix == api_prefix,
            c.api_mode == parsed_mode(api_prefix_mode.deep_view()),
    {
        ProxyConfig {
            asset_prefix,
            asset_mode: parse_mode(asset_prefix_mode),
            api_prefix,
            api_mode: parse_mode(api_prefix_mode),
        }
    }

    /// Rewrites an asset download URL; both `https://github.com/` and
    /// `https://api.github.com/` are replaced in `ReplaceHost` mode.
    pub fn rewrite_asset(&self, url: &str) -> (r: String)
        ensures
            r@ == rewritten(url@, self.asset_prefix.deep_view(), self.asset_mode, asset_hosts()),
    {
        let hosts: [&str; 2] = ["https://github.com/", "https://api.github.com/"];
        let prefix: Option<&str> = match &self.asset_prefix {
            Some(p) => Some(p.as_str()),
            None => None,
        };
        let r = rewrite_url(url, prefix, self.asset_mode, &hosts);
        assert(host_views(hosts@) =~= asset_hosts());
        r
    }

    /// Rewrites an API URL; only `https://api.github.com/` is replaced in `ReplaceHost` mode.
    pub fn rewrite_api(&self, url: &str) -> (r: String)
        ensures
            r@ == rewritten(url@, self.api_prefix.deep_view(), self.api_mode, api_hosts()),
    {
        let hosts: [&str; 1] = ["https://api.github.com/"];
        let prefix: Option<&str> = match &self.api_prefix {
            Some(p) => Some(p.as_str()),
            None => None,
        };
        let r = rewrite_url(url, prefix, self.api_mode, &hosts);
        assert(host_views(hosts@) =~= api_hosts());
        r
    }

    /// Whether an asset or an API prefix is configured.
    pub fn has_any_prefix(&self) -> (b: bool)
        ensures
            b == (self.asset_prefix is Some || self.api_prefix is Some),
    {
        self.asset_prefix.is_some() || self.api_prefix.is_some()
    }
}

} // verus!
