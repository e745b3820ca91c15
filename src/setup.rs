use crate::profiles::{join, joined};
use crate::scripts::executor_dir_spec;
use crate::text::{concat, lower_of, owned, starts_with, starts_with_spec, to_lowercase};
use crate::scripts::get_auto_execute_dir_name;
use vstd::prelude::*;
use vstd::string::*;

verus! {

/// Prefix of the paths that only an administrator may remove.
pub const APPLICATIONS_DIR: &'static str = "/Applications";

/// The client's app bundle.
pub const CLIENT_BUNDLE: &'static str = "/Applications/Roblox.app";

/// Every path that uninstalling removes, in order: the executor directory
/// and its dot-directory in the home directory, the client bundle, the
/// client's data in the home directory, and the executor's app bundle.
pub open spec fn uninstall_paths_spec(home: Seq<char>, app_name: Seq<char>) -> Seq<Seq<char>> {
    let dir = executor_dir_spec(app_name);
    seq![
        joined(home, dir),
        joined(home, "."@ + lower_of(dir)),
        CLIENT_BUNDLE@,
        joined(home, "Library/Application Support/Roblox"@),
        joined(home, "Library/Caches/com.roblox.RobloxStudio"@),
        joined(home, "Library/Caches/com.roblox.Roblox"@),
        joined(home, "Library/Logs/Roblox"@),
        joined(home, "Library/Preferences/com.roblox.Roblox.plist"@),
        joined(home, "Library/Preferences/com.roblox.RobloxStudio.plist"@),
        "/Applications/"@ + dir + ".app"@,
    ]
}

/// The paths that uninstalling the executor of `app_name` removes, with
/// `home` as the home directory.
pub fn uninstall_paths(home: &str, app_name: &str) -> (r: Vec<String>)
    ensures
        r@.map_values(|s: String| s@) == uninstall_paths_spec(home@, app_name@),
{
    let dir = get_auto_execute_dir_name(app_name);
    let lower = to_lowercase(dir.as_str());
    let dot = concat(".", lower.as_str());
    let mut bundle = concat("/Applications/", dir.as_str());
    bundle.append(".app");
    let mut paths: Vec<String> = Vec::new();
    paths.push(join(home, dir.as_str()));
    paths.push(join(home, dot.as_str()));
    paths.push(owned(CLIENT_BUNDLE));
    paths.push(join(home, "Library/Application Support/Roblox"));
    paths.push(join(home, "Library/Caches/com.roblox.RobloxStudio"));
    paths.push(join(home, "Library/Caches/com.roblox.Roblox"));
    paths.push(join(home, "Library/Logs/Roblox"));
    paths.push(join(home, "Library/Preferences/com.roblox.Roblox.plist"));
    paths.push(join(home, "Library/Preferences/com.roblox.RobloxStudio.plist"));
    paths.push(bundle);
    assert(paths@.map_values(|s: String| s@) =~= uninstall_paths_spec(home@, app_name@));
    paths
}

/// Whether removing `path` needs administrator rights.
pub fn needs_admin_removal(path: &str) -> (r: bool)
    ensures
        r == starts_with_spec(path@, APPLICATIONS_DIR@),
{
    starts_with(path, APPLICATIONS_DIR)
}

/// First part of the installer script, before the installer's URL.
pub const INSTALLER_HEAD: &'static str = "#!/bin/bash\nset -e\n\ncurl -fsSL ";

/// Rest of the installer script: run the downloaded installer quietly, then
/// remove it and the script itself.
pub const INSTALLER_TAIL: &'static str = " > /tmp/install.sh\nchmod +x /tmp/install.sh\n\n/tmp/install.sh > /dev/null 2>&1\n\nrm -f /tmp/install.sh\n\nrm -f \"$0\"\nexit 0";

/// The shell script that downloads and runs the installer at `install_url`.
pub fn installer_script(install_url: &str) -> (r: String)
    ensures
        r@ == INSTALLER_HEAD@ + install_url@ + INSTALLER_TAIL@,
{
    let mut r = concat(INSTALLER_HEAD, install_url);
    r.append(INSTALLER_TAIL);
    r
}

} // verus!
