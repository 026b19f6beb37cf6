use dra::github::proxy::{parse_mode, proxy_from_cli_args, PrefixMode, ProxyConfig};

#[test]
fn prepend_mode_keeps_full_url() {
    let cfg = ProxyConfig {
        asset_prefix: Some("https://gitproxy.com".into()),
        asset_mode: PrefixMode::Prepend,
        ..Default::default()
    };
    assert_eq!(
        cfg.rewrite_asset("https://github.com/foo/bar/releases/download/v1/a.tar.gz"),
        "https://gitproxy.com/https://github.com/foo/bar/releases/download/v1/a.tar.gz"
    );
}

#[test]
fn replace_host_strips_github_prefix() {
    let cfg = ProxyConfig {
        asset_prefix: Some("https://xget.xi-xu.me/gh".into()),
        asset_mode: PrefixMode::ReplaceHost,
        ..Default::default()
    };
    assert_eq!(
        cfg.rewrite_asset("https://github.com/foo/bar/releases/download/v1/a.tar.gz"),
        "https://xget.xi-xu.me/gh/foo/bar/releases/download/v1/a.tar.gz"
    );
}

#[test]
fn no_prefix_returns_original() {
    let cfg = ProxyConfig::default();
    let url = "https://github.com/foo/bar";
    assert_eq!(cfg.rewrite_asset(url), url);
}

#[test]
fn trailing_slash_normalized() {
    let cfg = ProxyConfig {
        asset_prefix: Some("https://gitproxy.com/".into()),
        asset_mode: PrefixMode::Prepend,
        ..Default::default()
    };
    assert_eq!(
        cfg.rewrite_asset("https://github.com/foo/bar"),
        "https://gitproxy.com/https://github.com/foo/bar"
    );
}

#[test]
fn api_rewrite_only_matches_api_host() {
    let cfg = ProxyConfig {
        api_prefix: Some("https://gh.api.proxy".into()),
        api_mode: PrefixMode::ReplaceHost,
        ..Default::default()
    };
    assert_eq!(
        cfg.rewrite_api("https://api.github.com/repos/foo/bar/releases/latest"),
        "https://gh.api.proxy/repos/foo/bar/releases/latest"
    );
}

#[test]
fn replace_host_multi_host_asset_rewrite() {
    let cfg = ProxyConfig {
        asset_prefix: Some("https://xget.xi-xu.me/gh".into()),
        asset_mode: PrefixMode::ReplaceHost,
        ..Default::default()
    };
    assert_eq!(
        cfg.rewrite_asset("https://api.github.com/repos/foo/foo/tarball/v1"),
        "https://xget.xi-xu.me/gh/repos/foo/foo/tarball/v1"
    );
}

#[test]
fn replace_host_unknown_host_untouched() {
    let cfg = ProxyConfig {
        asset_prefix: Some("https://proxy".into()),
        asset_mode: PrefixMode::ReplaceHost,
        ..Default::default()
    };
    let url = "https://other.com/path";
    assert_eq!(cfg.rewrite_asset(url), url);
}

#[test]
fn parse_mode_defaults_to_prepend() {
    assert_eq!(parse_mode(None), PrefixMode::Prepend);
    assert_eq!(parse_mode(Some("invalid".into())), PrefixMode::Prepend);
}

#[test]
fn parse_mode_variants() {
    assert_eq!(parse_mode(Some("replace-host".into())), PrefixMode::ReplaceHost);
    assert_eq!(parse_mode(Some("replace_host".into())), PrefixMode::ReplaceHost);
    assert_eq!(parse_mode(Some("REPLACE-HOST".into())), PrefixMode::ReplaceHost);
}

#[test]
fn has_any_prefix_true_when_asset_set() {
    let cfg = ProxyConfig {
        asset_prefix: Some("https://proxy".into()),
        ..Default::default()
    };
    assert!(cfg.has_any_prefix());
}

#[test]
fn has_any_prefix_true_when_api_set() {
    let cfg = ProxyConfig {
        api_prefix: Some("https://proxy".into()),
        ..Default::default()
    };
    assert!(cfg.has_any_prefix());
}

#[test]
fn has_any_prefix_false_when_none() {
    let cfg = ProxyConfig::default();
    assert!(!cfg.has_any_prefix());
}

#[test]
fn api_rewrite_leaves_download_host_alone() {
    let cfg = ProxyConfig {
        api_prefix: Some("https://gh.api.proxy".into()),
        api_mode: PrefixMode::ReplaceHost,
        ..Default::default()
    };
    let url = "https://github.com/foo/bar/releases/download/v1/a.tar.gz";
    assert_eq!(cfg.rewrite_api(url), url);
}

#[test]
fn many_trailing_slashes_are_all_removed() {
    let cfg = ProxyConfig {
        api_prefix: Some("https://p///".into()),
        ..Default::default()
    };
    assert_eq!(cfg.rewrite_api("https://api.github.com/x"), "https://p/https://api.github.com/x");
}

#[test]
fn asset_prefix_does_not_touch_api_urls() {
    let cfg = ProxyConfig {
        asset_prefix: Some("https://proxy".into()),
        ..Default::default()
    };
    let url = "https://api.github.com/repos/a/b/releases/latest";
    assert_eq!(cfg.rewrite_api(url), url);
}

#[test]
fn from_environment_and_cli_parse_modes() {
    let c = ProxyConfig::from_environment(
        Some("https://a".into()),
        Some("Replace_Host".into()),
        None,
        Some("prepend".into()),
    );
    assert_eq!(c.asset_prefix.as_deref(), Some("https://a"));
    assert_eq!(c.asset_mode, PrefixMode::ReplaceHost);
    assert_eq!(c.api_prefix, None);
    assert_eq!(c.api_mode, PrefixMode::Prepend);
    let d = proxy_from_cli_args(
        None,
        None,
        Some("https://b".into()),
        Some("replace-host".into()),
        None,
        None,
        Some("https://env".into()),
        Some("prepend".into()),
    );
    assert_eq!(d.asset_mode, PrefixMode::Prepend);
    assert_eq!(d.api_mode, PrefixMode::ReplaceHost);
    assert_eq!(d.api_prefix.as_deref(), Some("https://b"));
}

#[test]
fn default_prefix_mode_is_prepend() {
    assert_eq!(PrefixMode::default(), PrefixMode::Prepend);
}

#[test]
fn cli_falls_back_to_environment() {
    let c = proxy_from_cli_args(
        None,
        None,
        None,
        Some("replace_host".into()),
        Some("https://env".into()),
        Some("replace-host".into()),
        Some("https://api-env".into()),
        None,
    );
    assert_eq!(c.asset_prefix.as_deref(), Some("https://env"));
    assert_eq!(c.asset_mode, PrefixMode::ReplaceHost);
    assert_eq!(c.api_prefix.as_deref(), Some("https://api-env"));
    assert_eq!(c.api_mode, PrefixMode::ReplaceHost);
    let d = proxy_from_cli_args(
        Some("https://cli".into()),
        Some("prepend".into()),
        None,
        None,
        Some("https://env".into()),
        Some("replace-host".into()),
        None,
        None,
    );
    assert_eq!(d.asset_prefix.as_deref(), Some("https://cli"));
    assert_eq!(d.asset_mode, PrefixMode::Prepend);
    assert_eq!(d.api_prefix, None);
}
