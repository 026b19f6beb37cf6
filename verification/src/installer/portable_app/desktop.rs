//! The `.desktop` shortcut of a portable application.

use vstd::prelude::*;

use crate::installer::portable_app::{jp, with_suffix};
use crate::paths::{extension, extension_of, file_name, file_name_of, join, joined_path};
use crate::text::{join as join_lines, join_with};

verus! {

/// The extension an external icon keeps when copied: its own, or `png`.
pub open spec fn icon_extension(cicon: Seq<char>) -> Seq<char> {
    match file_name_of(cicon) {
        Some(f) => match extension_of(f) {
            Some(e) => e,
            None => "png"@,
        },
        None => "png"@,
    }
}

/// The directory external icons are copied into.
pub open spec fn icons_dir_of(app_dir: Seq<char>) -> Seq<char> {
    jp(jp(app_dir, "share"@), "icons"@)
}

/// The icon of the shortcut: a copied external icon, else an icon inside the package.
pub open spec fn icon_target_of(
    app_dir: Seq<char>,
    app_name: Seq<char>,
    icon_rel: Option<Seq<char>>,
    cicon: Option<Seq<char>>,
) -> Option<Seq<char>> {
    match cicon {
        Some(c) => Some(jp(icons_dir_of(app_dir), app_name + "."@ + icon_extension(c))),
        None => match icon_rel {
            Some(r) => Some(jp(app_dir, r)),
            None => None,
        },
    }
}

/// The lines of the shortcut; the icon line appears only for an icon that exists.
pub open spec fn desktop_lines(
    app_dir: Seq<char>,
    app_name: Seq<char>,
    bin_rel: Seq<char>,
    icon: Option<Seq<char>>,
) -> Seq<Seq<char>> {
    seq![
        "[Desktop Entry]"@,
        "Type=Application"@,
        "Name="@ + app_name,
        "Exec="@ + jp(app_dir, bin_rel),
        "Path="@ + app_dir,
        "Terminal=false"@,
    ] + match icon {
        Some(i) => seq!["Icon="@ + i],
        None => Seq::<Seq<char>>::empty(),
    }
}

/// The directory external icons are copied into.
pub fn icons_dir(app_dir: &str) -> (d: String)
    ensures
        d@ == icons_dir_of(app_dir@),
{
    let share = join(app_dir, "share");
    join(share.as_str(), "icons")
}

fn icon_ext(cicon: &str) -> (e: String)
    ensures
        e@ == icon_extension(cicon@),
{
    match file_name(cicon) {
        Some(f) => match extension(f.as_str()) {
            Some(e) => e,
            None => String::from_str("png"),
        },
        None => String::from_str("png"),
    }
}

/// Where the shortcut's icon is, if it has one.
pub fn icon_target(
    app_dir: &str,
    app_name: &str,
    icon_rel: Option<&str>,
    cicon: Option<&str>,
) -> (r: Option<String>)
    ensures
        r.deep_view() == icon_target_of(app_dir@, app_name@, icon_rel.deep_view(), cicon.deep_view()),
{
    match cicon {
        Some(c) => {
            let mut file = with_suffix(app_name, ".");
            let ext = icon_ext(c);
            file.append(ext.as_str());
            let dir = icons_dir(app_dir);
            Some(join(dir.as_str(), file.as_str()))
        },
        None => match icon_rel {
            Some(r) => Some(join(app_dir, r)),
            None => None,
        },
    }
}

fn line(label: &str, value: &str) -> (s: String)
    ensures
        s@ == label@ + value@,
{
    with_suffix(label, value)
}

/// The content of the `.desktop` file: its lines, each ended by a newline.
pub fn desktop_entry(app_dir: &str, app_name: &str, bin_rel_path: &str, icon: Option<&str>) -> (s: String)
    ensures
        s@ == join_with(desktop_lines(app_dir@, app_name@, bin_rel_path@, icon.deep_view()), "\n"@)
            + "\n"@,
{
    let exec_path = join(app_dir, bin_rel_path);
    let mut lines: Vec<String> = Vec::new();
    lines.push(String::from_str("[Desktop Entry]"));
    lines.push(String::from_str("Type=Application"));
    lines.push(line("Name=", app_name));
    lines.push(line("Exec=", exec_path.as_str()));
    lines.push(line("Path=", app_dir));
    lines.push(String::from_str("Terminal=false"));
    match icon {
        Some(i) => {
            lines.push(line("Icon=", i));
        },
        None => {},
    }
    assert(lines@.map_values(|x: String| x@) =~= desktop_lines(
        app_dir@,
        app_name@,
        bin_rel_path@,
        icon.deep_view(),
    ));
    let mut s = join_lines(&lines, "\n");
    s.append("\n");
    s
}

/// The shortcut runs the executable at its full path, the application directory
/// joined with the executable's relative path, and works in the application
/// directory, whatever the icon; the icon only adds a last `Icon=` line.
pub proof fn law_desktop_exec_is_full_path(
    app_dir: Seq<char>,
    app_name: Seq<char>,
    bin_rel: Seq<char>,
    icon: Option<Seq<char>>,
)
    ensures
        ({
            let lines = desktop_lines(app_dir, app_name, bin_rel, icon);
            &&& lines.len() == if icon is Some { 7int } else { 6int }
            &&& lines[0] == "[Desktop Entry]"@
            &&& lines[1] == "Type=Application"@
            &&& lines[2] == "Name="@ + app_name
            &&& lines[3] == "Exec="@ + joined_path(app_dir, bin_rel)
            &&& lines[4] == "Path="@ + app_dir
            &&& lines[5] == "Terminal=false"@
            &&& lines.take(6) == desktop_lines(app_dir, app_name, bin_rel, None)
            &&& (icon matches Some(i) ==> lines[6] == "Icon="@ + i)
        }),
{
    let lines = desktop_lines(app_dir, app_name, bin_rel, icon);
    assert(lines.take(6) =~= desktop_lines(app_dir, app_name, bin_rel, None));
}

} // verus!
