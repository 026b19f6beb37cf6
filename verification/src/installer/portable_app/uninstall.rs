//! The `uninstall.sh` script written into a portable application's directory.

use vstd::prelude::*;

use crate::installer::portable_app::with_suffix;
use crate::text::{join as join_lines, join_with};

verus! {

/// The line that removes one link.
pub open spec fn rm_link_line(link: Seq<char>) -> Seq<char> {
    "rm -f \""@ + link + "\""@
}

/// The lines that stop and disable the service, when there is one.
pub open spec fn service_lines(app_name: Seq<char>) -> Seq<Seq<char>> {
    seq![
        "echo \"[+] Stopping and disabling service: "@ + app_name + ".service\""@,
        "systemctl --user stop "@ + app_name + ".service 2>/dev/null || true"@,
        "systemctl --user disable "@ + app_name + ".service 2>/dev/null || true"@,
        "systemctl --user daemon-reload 2>/dev/null || true"@,
        Seq::<char>::empty(),
    ]
}

/// The lines of the script: stop the service, remove the links, remove the directory.
pub open spec fn uninstall_lines(
    app_dir: Seq<char>,
    app_name: Seq<char>,
    links: Seq<Seq<char>>,
    has_service: bool,
) -> Seq<Seq<char>> {
    seq!["#!/usr/bin/env bash"@, "set -e"@, Seq::<char>::empty()] + (if has_service {
        service_lines(app_name)
    } else {
        Seq::empty()
    }) + seq!["echo \"[+] Removing symlinks...\""@] + links.map_values(|l: Seq<char>| rm_link_line(l))
        + seq![
        Seq::<char>::empty(),
        "echo \"[+] Removing app directory: "@ + app_dir + "\""@,
        "rm -rf \""@ + app_dir + "\""@,
        Seq::<char>::empty(),
        "echo \"[+] Uninstallation completed successfully.\""@,
    ]
}

fn three(a: &str, b: &str, c: &str) -> (s: String)
    ensures
        s@ == a@ + b@ + c@,
{
    let mut s = with_suffix(a, b);
    s.append(c);
    s
}

/// The content of the uninstall script: its lines joined by newlines.
pub fn uninstall_script(app_dir: &str, app_name: &str, symlink_paths: &Vec<String>, has_service: bool) -> (s: String)
    ensures
        s@ == join_with(
            uninstall_lines(app_dir@, app_name@, symlink_paths@.map_values(|x: String| x@), has_service),
            "\n"@,
        ),
{
    let ghost links = symlink_paths@.map_values(|x: String| x@);
    let mut lines: Vec<String> = Vec::new();
    lines.push(String::from_str("#!/usr/bin/env bash"));
    lines.push(String::from_str("set -e"));
    lines.push(String::new());
    if has_service {
        lines.push(three("echo \"[+] Stopping and disabling service: ", app_name, ".service\""));
        lines.push(three("systemctl --user stop ", app_name, ".service 2>/dev/null || true"));
        lines.push(three("systemctl --user disable ", app_name, ".service 2>/dev/null || true"));
        lines.push(String::from_str("systemctl --user daemon-reload 2>/dev/null || true"));
        lines.push(String::new());
    }
    lines.push(String::from_str("echo \"[+] Removing symlinks...\""));
    let ghost head = lines@.map_values(|x: String| x@);
    assert(head =~= seq!["#!/usr/bin/env bash"@, "set -e"@, Seq::<char>::empty()] + (if has_service {
        service_lines(app_name@)
    } else {
        Seq::empty()
    }) + seq!["echo \"[+] Removing symlinks...\""@]);
    let mut i: usize = 0;
    while i < symlink_paths.len()
        invariant
            links == symlink_paths@.map_values(|x: String| x@),
            i <= symlink_paths@.len(),
            lines@.map_values(|x: String| x@) == head + links.take(i as int).map_values(
                |l: Seq<char>| rm_link_line(l),
            ),
        decreases symlink_paths@.len() - i,
    {
        let ghost before = lines@.map_values(|x: String| x@);
        lines.push(three("rm -f \"", symlink_paths[i].as_str(), "\""));
        assert(links.take(i + 1).map_values(|l: Seq<char>| rm_link_line(l)) =~= links.take(
            i as int,
        ).map_values(|l: Seq<char>| rm_link_line(l)).push(rm_link_line(links[i as int])));
        assert(lines@.map_values(|x: String| x@) =~= before.push(rm_link_line(links[i as int])));
        i = i + 1;
    }
    assert(links.take(symlink_paths@.len() as int) =~= links);
    lines.push(String::new());
    lines.push(three("echo \"[+] Removing app directory: ", app_dir, "\""));
    lines.push(three("rm -rf \"", app_dir, "\""));
    lines.push(String::new());
    lines.push(String::from_str("echo \"[+] Uninstallation completed successfully.\""));
    assert(lines@.map_values(|x: String| x@) =~= uninstall_lines(
        app_dir@,
        app_name@,
        links,
        has_service,
    ));
    join_lines(&lines, "\n")
}

/// Whatever the links and whether there is a service, the script ends by announcing
/// the removal of the application directory, removing it with `rm -rf`, and
/// reporting success; it removes every link, in order, after the optional service
/// block.
pub proof fn law_uninstall_removes_everything(
    app_dir: Seq<char>,
    app_name: Seq<char>,
    links: Seq<Seq<char>>,
    has_service: bool,
)
    ensures
        ({
            let lines = uninstall_lines(app_dir, app_name, links, has_service);
            let n = lines.len();
            let head: int = if has_service { 9 } else { 4 };
            &&& n == head + links.len() + 5
            &&& lines[0] == "#!/usr/bin/env bash"@
            &&& lines[1] == "set -e"@
            &&& lines[2] == Seq::<char>::empty()
            &&& lines[head - 1] == "echo \"[+] Removing symlinks...\""@
            &&& forall|i: int| 0 <= i < links.len() ==> #[trigger] lines[head + i] == "rm -f \""@ + links[i] + "\""@
            &&& lines[n - 5] == Seq::<char>::empty()
            &&& lines[n - 2] == Seq::<char>::empty()
            &&& lines[n - 4] == "echo \"[+] Removing app directory: "@ + app_dir + "\""@
            &&& lines[n - 3] == "rm -rf \""@ + app_dir + "\""@
            &&& lines[n - 1] == "echo \"[+] Uninstallation completed successfully.\""@
        }),
{
    let lines = uninstall_lines(app_dir, app_name, links, has_service);
    let head: int = if has_service { 9 } else { 4 };
    assert forall|i: int| 0 <= i < links.len() implies #[trigger] lines[head + i] == "rm -f \""@
        + links[i] + "\""@ by {
        assert(links.map_values(|l: Seq<char>| rm_link_line(l))[i] == rm_link_line(links[i]));
    }
}

/// A service only adds its block after the first three lines: the rest of the
/// script is the same with or without a service.
pub proof fn law_service_block_only(app_dir: Seq<char>, app_name: Seq<char>, links: Seq<Seq<char>>)
    ensures
        uninstall_lines(app_dir, app_name, links, true) == uninstall_lines(
            app_dir,
            app_name,
            links,
            false,
        ).take(3) + seq![
            "echo \"[+] Stopping and disabling service: "@ + app_name + ".service\""@,
            "systemctl --user stop "@ + app_name + ".service 2>/dev/null || true"@,
            "systemctl --user disable "@ + app_name + ".service 2>/dev/null || true"@,
            "systemctl --user daemon-reload 2>/dev/null || true"@,
            Seq::<char>::empty(),
        ] + uninstall_lines(app_dir, app_name, links, false).skip(3),
{
    let with = uninstall_lines(app_dir, app_name, links, true);
    let without = uninstall_lines(app_dir, app_name, links, false);
    assert(with =~= without.take(3) + service_lines(app_name) + without.skip(3));
}

} // verus!
