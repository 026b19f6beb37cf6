//! `dra install-app`: choosing the package, the asset and the application name.

use vstd::prelude::*;

use crate::github::release::{Asset, Release, Repository};
use crate::github::tagged_asset::{replace_all, tag_placeholder, version_of, TaggedAsset};
use crate::civil_time::iso_text;
use crate::installer::portable_app::{jp, with_suffix, InstallResult, PortableAppConfig};
use crate::registry::app_record::{AppRecord, InstallType};
use crate::paths::{file_name, file_name_of, join, split, split_on};

verus! {

/// The options of `dra install-app`.
pub struct InstallAppHandler {
    pub repo: Option<Repository>,
    pub pkg: Option<String>,
    pub bin: String,
    pub name: Option<String>,
    pub icon: Option<String>,
    pub cicon: Option<String>,
    pub service: bool,
    pub autostart: bool,
    pub yes: bool,
    pub select: Option<String>,
    pub automatic: bool,
    pub tag: Option<String>,
    pub app_root: Option<String>,
}

/// How the asset to install is chosen.
#[derive(Debug, Clone)]
pub enum AssetSelectionMode {
    /// Ask the user.
    Interactive,
    /// The first asset whose name matches the (untagged) pattern.
    Pattern(String),
    /// The asset that matches the operating system and architecture.
    Automatic,
}

/// Whether `name` matches the wildcard pattern `p` as a whole: `?` matches any one
/// character, `*` any run of characters (none included), every other character itself.
pub open spec fn wild_matches(p: Seq<char>, name: Seq<char>) -> bool
    decreases p.len() + name.len(),
{
    if p.len() == 0 {
        name.len() == 0
    } else if p[0] == '*' {
        wild_matches(p.drop_first(), name) || (name.len() > 0 && wild_matches(p, name.drop_first()))
    } else {
        name.len() > 0 && (p[0] == '?' || p[0] == name[0]) && wild_matches(
            p.drop_first(),
            name.drop_first(),
        )
    }
}

/// Calls `wildmatch::WildMatch::new(pattern).matches(name)`. Claimed, as the crate
/// documents it: the whole name must match; `?` matches exactly one character, `*`
/// any number of characters including none, and there are no escape characters.
#[verifier::external_body]
fn wildcard_matches(pattern: &str, name: &str) -> (b: bool)
    ensures
        b == wild_matches(pattern@, name@),
{
    wildmatch::WildMatch::new(pattern).matches(name)
}

/// The name of an application derived from a file name: what comes before the first `-`.
pub open spec fn derived_name(filename: Seq<char>) -> Seq<char> {
    split_on(filename, '-')[0]
}

/// The derived name is the beginning of the file name, up to but not including its
/// first `-`, and is the whole file name when it has no `-`.
pub proof fn law_derived_name_prefix(filename: Seq<char>)
    ensures
        derived_name(filename).len() <= filename.len(),
        filename.take(derived_name(filename).len() as int) == derived_name(filename),
        forall|i: int| 0 <= i < derived_name(filename).len() ==> derived_name(filename)[i] != '-',
        derived_name(filename).len() < filename.len() ==> filename[derived_name(filename).len() as int]
            == '-',
{
    crate::paths::lemma_first_piece(filename, '-');
    lemma_piece_followed_by_separator(filename, '-');
}

proof fn lemma_piece_followed_by_separator(s: Seq<char>, c: char)
    ensures
        split_on(s, c)[0].len() < s.len() ==> s[split_on(s, c)[0].len() as int] == c,
    decreases s.len(),
{
    crate::paths::lemma_first_piece(s, c);
    if s.len() > 0 {
        lemma_piece_followed_by_separator(s.drop_last(), c);
        crate::paths::lemma_first_piece(s.drop_last(), c);
        let init = split_on(s.drop_last(), c);
        if s.last() != c && init.len() == 1 {
            assert(split_on(s, c)[0] == init[0].push(s.last()));
        } else {
            assert(split_on(s, c)[0] == init[0]);
            if init[0].len() == s.drop_last().len() {
                assert(init.len() == 1) by {
                    if init.len() > 1 {
                        lemma_pieces_total(s.drop_last(), c);
                    }
                }
            }
        }
    }
}

/// The pieces and the separators between them make up the whole text.
proof fn lemma_pieces_total(s: Seq<char>, c: char)
    ensures
        split_on(s, c).len() >= 2 ==> split_on(s, c)[0].len() < s.len(),
    decreases s.len(),
{
    if s.len() > 0 {
        lemma_pieces_total(s.drop_last(), c);
        crate::paths::lemma_first_piece(s.drop_last(), c);
    }
}

/// Derives the application name from a file name: the part before the first `-`.
pub fn derive_name(filename: &str) -> (r: String)
    ensures
        r@ == derived_name(filename@),
{
    let mut pieces = split(filename, '-');
    assert(pieces@.len() >= 1) by {
        assert(crate::paths::views(pieces@).len() == split_on(filename@, '-').len());
        crate::paths::lemma_first_piece(filename@, '-');
    }
    let first = pieces.swap_remove(0);
    first
}

/// The first asset whose name matches the pattern, if any.
pub open spec fn first_match(assets: Seq<Asset>, pattern: Seq<char>, i: int) -> bool {
    &&& 0 <= i < assets.len()
    &&& wild_matches(pattern, assets[i].name@)
    &&& forall|j: int| 0 <= j < i ==> !wild_matches(pattern, #[trigger] assets[j].name@)
}

/// The first asset whose name matches a wildcard pattern.
pub fn find_asset_by_pattern(assets: Vec<Asset>, pattern: &str) -> (r: Option<Asset>)
    ensures
        match r {
            Some(a) => exists|i: int| first_match(assets@, pattern@, i) && a == assets@[i],
            None => forall|j: int|
                0 <= j < assets@.len() ==> !wild_matches(pattern@, #[trigger] assets@[j].name@),
        },
{
    let mut list = assets;
    let ghost all = list@;
    let mut i: usize = 0;
    while i < list.len()
        invariant
            list@ == all,
            all == assets@,
            i <= all.len(),
            forall|j: int| 0 <= j < i ==> !wild_matches(pattern@, #[trigger] all[j].name@),
        decreases all.len() - i,
    {
        if wildcard_matches(pattern, list[i].name.as_str()) {
            let a = list.swap_remove(i);
            assert(a == all[i as int]);
            assert(first_match(all, pattern@, i as int));
            return Some(a);
        }
        i = i + 1;
    }
    None
}

/// The name pattern of a release: the selection with `{tag}` replaced by its version.
pub open spec fn tagged_selection(tag: Seq<char>, selection: Seq<char>) -> Seq<char> {
    replace_all(selection, tag_placeholder(), version_of(tag))
}

/// The error reported when no asset matches the selection.
pub open spec fn no_asset_error(selection: Seq<char>) -> Seq<char> {
    "No asset found for "@ + selection
}

/// Picks the first asset of a release whose name matches the selection pattern,
/// after `{tag}` in it is replaced by the release's version.
pub fn select_by_pattern(release: Release, selection: &str) -> (r: Result<Asset, String>)
    ensures
        match r {
            Ok(a) => exists|i: int|
                first_match(release.assets@, tagged_selection(release.tag.0@, selection@), i) && a
                    == release.assets@[i],
            Err(e) => e@ == no_asset_error(selection@) && forall|j: int|
                0 <= j < release.assets@.len() ==> !wild_matches(
                    tagged_selection(release.tag.0@, selection@),
                    #[trigger] release.assets@[j].name@,
                ),
        },
{
    let pattern = TaggedAsset::tag(&release.tag, selection);
    match find_asset_by_pattern(release.assets, pattern.as_str()) {
        Some(a) => Ok(a),
        None => Err(with_suffix("No asset found for ", selection)),
    }
}

/// Where the package comes from.
#[derive(Debug, Clone, Copy, PartialEq, Eq, Structural)]
pub enum PackageSource {
    /// The local file given with `--pkg`.
    Local,
    /// A release asset of the given repository.
    Download,
}

/// The error reported when neither a package nor a repository is given.
pub open spec fn no_source_error() -> Seq<char> {
    "Either --pkg or a repository is required"@
}

/// The name of the installed application: the one given, else the part before the
/// first `-` of the package's file name, else `app`.
pub open spec fn app_name_of(name: Option<Seq<char>>, pkg_path: Seq<char>) -> Seq<char> {
    match name {
        Some(n) => n,
        None => match file_name_of(pkg_path) {
            Some(f) => derived_name(f),
            None => "app"@,
        },
    }
}

/// How a repository is written in the registry: `owner/repo`, or nothing for a local package.
pub open spec fn repo_text(repo: Option<Repository>) -> Seq<char> {
    match repo {
        Some(r) => r.owner@ + "/"@ + r.repo@,
        None => Seq::<char>::empty(),
    }
}

/// The directory of a portable application under the default application root.
pub open spec fn default_app_dir(home: Seq<char>, name: Seq<char>) -> Seq<char> {
    jp(jp(jp(home, ".local"@), "app"@), name)
}

impl InstallAppHandler {
    /// Collects the options.
    #[allow(clippy::too_many_arguments)]
    pub fn new(
        repo: Option<Repository>,
        pkg: Option<String>,
        bin: String,
        name: Option<String>,
        icon: Option<String>,
        cicon: Option<String>,
        service: bool,
        autostart: bool,
        yes: bool,
        select: Option<String>,
        automatic: bool,
        tag: Option<String>,
        app_root: Option<String>,
    ) -> (h: Self)
        ensures
            h.repo == repo,
            h.pkg == pkg,
            h.bin == bin,
            h.name == name,
            h.icon == icon,
            h.cicon == cicon,
            h.service == service,
            h.autostart == autostart,
            h.yes == yes,
            h.select == select,
            h.automatic == automatic,
            h.tag == tag,
            h.app_root == app_root,
    {
        InstallAppHandler {
            repo,
            pkg,
            bin,
            name,
            icon,
            cicon,
            service,
            autostart,
            yes,
            select,
            automatic,
            tag,
            app_root,
        }
    }

    /// A local package wins over a repository; one of them is needed.
    pub fn package_source(&self) -> (r: Result<PackageSource, String>)
        ensures
            self.pkg is Some ==> r == Ok::<PackageSource, String>(PackageSource::Local),
            self.pkg is None && self.repo is Some ==> r == Ok::<PackageSource, String>(
                PackageSource::Download,
            ),
            self.pkg is None && self.repo is None ==> r is Err && r->Err_0@ == no_source_error(),
    {
        if self.pkg.is_some() {
            Ok(PackageSource::Local)
        } else if self.repo.is_some() {
            Ok(PackageSource::Download)
        } else {
            Err(String::from_str("Either --pkg or a repository is required"))
        }
    }

    /// A pattern wins over `--automatic`; with neither, the user is asked.
    pub fn selection_mode(&self) -> (m: AssetSelectionMode)
        ensures
            match self.select {
                Some(s) => m matches AssetSelectionMode::Pattern(p) && p@ == s@,
                None => if self.automatic {
                    m matches AssetSelectionMode::Automatic
                } else {
                    m matches AssetSelectionMode::Interactive
                },
            },
    {
        match &self.select {
            Some(s) => AssetSelectionMode::Pattern(s.clone()),
            None => if self.automatic {
                AssetSelectionMode::Automatic
            } else {
                AssetSelectionMode::Interactive
            },
        }
    }

    /// The application name for a package at `pkg_path`.
    pub fn app_name(&self, pkg_path: &str) -> (r: String)
        ensures
            r@ == app_name_of(self.name.deep_view(), pkg_path@),
    {
        match &self.name {
            Some(n) => n.clone(),
            None => match file_name(pkg_path) {
                Some(f) => derive_name(f.as_str()),
                None => String::from_str("app"),
            },
        }
    }

    /// The registry record of a finished installation: a portable application named
    /// `app_name`, from the handler's repository, at `version`, installed in the
    /// result's application directory, with its one link in `~/.local/bin`.
    pub fn installed_record(&self, app_name: String, version: String, result: &InstallResult) -> (r: AppRecord)
        ensures
            r.name@ == app_name@,
            r.repo@ == repo_text(self.repo),
            r.installed_version == version,
            r.install_type == InstallType::PortableApp,
            r.installed_path@ == result.app_dir@,
            r.executables@.map_values(|x: String| x@) == seq![app_name@],
            exists|secs: u64| r.installed_at@ == iso_text(secs as nat),
    {
        let repo = match &self.repo {
            Some(rp) => {
                let mut t = with_suffix(rp.owner.as_str(), "/");
                t.append(rp.repo.as_str());
                t
            },
            None => String::new(),
        };
        let mut executables: Vec<String> = Vec::new();
        executables.push(app_name.clone());
        assert(executables@.map_values(|x: String| x@) =~= seq![app_name@]);
        AppRecord::new(
            app_name,
            repo,
            version,
            InstallType::PortableApp,
            result.app_dir.clone(),
            executables,
        )
    }

    /// The installer configuration for the given application name.
    pub fn portable_config(&self, app_name: String) -> (c: PortableAppConfig)
        ensures
            c.app_name == app_name,
            c.bin_rel_path@ == self.bin@,
            c.icon_rel_path.deep_view() == self.icon.deep_view(),
            c.cicon_path.deep_view() == self.cicon.deep_view(),
            c.service == self.service,
            c.autostart == self.autostart,
            c.yes == self.yes,
            c.app_root.deep_view() == self.app_root.deep_view(),
    {
        PortableAppConfig {
            app_name,
            bin_rel_path: self.bin.clone(),
            icon_rel_path: clone_opt(&self.icon),
            cicon_path: clone_opt(&self.cicon),
            service: self.service,
            autostart: self.autostart,
            yes: self.yes,
            app_root: clone_opt(&self.app_root),
        }
    }
}

fn clone_opt(o: &Option<String>) -> (r: Option<String>)
    ensures
        r.deep_view() == o.deep_view(),
{
    match o {
        Some(s) => Some(s.clone()),
        None => None,
    }
}

/// The error reported when the local package does not exist.
pub fn package_not_found_error(pkg: &str) -> (e: String)
    ensures
        e@ == "Package not found: "@ + pkg@,
{
    with_suffix("Package not found: ", pkg)
}

/// Where `dra uninstall-app` looks for an application.
pub fn uninstall_app_dir(home: &str, name: &str) -> (d: String)
    ensures
        d@ == default_app_dir(home@, name@),
{
    let local = join(home, ".local");
    let apps = join(local.as_str(), "app");
    join(apps.as_str(), name)
}

/// The error of `dra uninstall-app` when the application's directory does not exist.
pub fn app_not_found_error(name: &str, app_dir: &str) -> (e: String)
    ensures
        e@ == "App '"@ + name@ + "' not found at "@ + app_dir@,
{
    let mut e = with_suffix("App '", name);
    e.append("' not found at ");
    e.append(app_dir);
    e
}

} // verus!
