use crate::text::{concat, ends_with, ends_with_spec, owned};
use vstd::prelude::*;
use vstd::string::*;

verus! {

/// File, under the app data directory, that names the active profile.
pub const ACTIVE_PROFILE_FILE: &'static str = "active_profile.json";

/// The client's settings file that holds the fast flags.
pub const FAST_FLAGS_PATH: &'static str = "/Applications/Roblox.app/Contents/MacOS/ClientSettings/ClientAppSettings.json";

/// Directory of the client's settings file.
pub const CLIENT_SETTINGS_DIR: &'static str = "/Applications/Roblox.app/Contents/MacOS/ClientSettings";

/// `dir` joined with `name`.
pub open spec fn joined(dir: Seq<char>, name: Seq<char>) -> Seq<char> {
    dir + "/"@ + name
}

/// `dir` joined with `name`.
pub(crate) fn join(dir: &str, name: &str) -> (r: String)
    ensures
        r@ == joined(dir@, name@),
{
    let mut r = concat(dir, "/");
    r.append(name);
    r
}

/// Keeps the identifier of the active profile in a file of its own.
#[derive(Debug)]
pub struct ActiveProfileManager {
    pub state_file: String,
}

impl ActiveProfileManager {
    /// A manager whose state file lies in `app_data_dir`.
    pub fn new(app_data_dir: &str) -> (r: ActiveProfileManager)
        ensures
            r.state_file@ == joined(app_data_dir@, ACTIVE_PROFILE_FILE@),
    {
        ActiveProfileManager { state_file: join(app_data_dir, ACTIVE_PROFILE_FILE) }
    }
}

/// Stores each fast-flags profile as `<id>.json` in one directory.
#[derive(Debug)]
pub struct FastFlagsProfileManager {
    pub profiles_dir: String,
}

impl FastFlagsProfileManager {
    pub fn new(profiles_dir: String) -> (r: FastFlagsProfileManager)
        ensures
            r.profiles_dir == profiles_dir,
    {
        FastFlagsProfileManager { profiles_dir }
    }

    /// The file that holds profile `id`.
    pub fn profile_path(&self, id: &str) -> (r: String)
        ensures
            r@ == joined(self.profiles_dir@, id@ + ".json"@),
    {
        let name = concat(id, ".json");
        join(self.profiles_dir.as_str(), name.as_str())
    }

    /// The file that names the active profile.
    pub fn active_profile_file(&self) -> (r: String)
        ensures
            r@ == joined(self.profiles_dir@, ACTIVE_PROFILE_FILE@),
    {
        join(self.profiles_dir.as_str(), ACTIVE_PROFILE_FILE)
    }

    /// Whether a file of the profiles directory holds a profile: a `.json`
    /// file other than the active-profile file.
    pub fn is_profile_file(file_name: &str) -> (r: bool)
        ensures
            r == (ends_with_spec(file_name@, ".json"@) && file_name@ != ACTIVE_PROFILE_FILE@),
    {
        ends_with(file_name, ".json") && owned(file_name) != owned(ACTIVE_PROFILE_FILE)
    }
}

/// The path of the client's fast-flags settings file.
pub fn get_fast_flags_path() -> (r: String)
    ensures
        r@ == FAST_FLAGS_PATH@,
{
    owned(FAST_FLAGS_PATH)
}

} // verus!
