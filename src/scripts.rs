use crate::text::{concat, ends_with, ends_with_spec, lower_of, owned, push_char, starts_with, starts_with_spec, to_lowercase};
use vstd::prelude::*;
use vstd::string::*;

verus! {

/// Extension given to script names that carry none of the accepted ones.
pub const LUA_EXTENSION: &'static str = ".lua";

/// Accepted script extension for Luau sources.
pub const LUAU_EXTENSION: &'static str = ".luau";

/// Accepted script extension for plain text.
pub const TXT_EXTENSION: &'static str = ".txt";

/// Directory name shared by the official app and its executor.
pub const DEFAULT_EXECUTOR_DIR: &'static str = "Hydrogen";

/// A script file of the auto-execute folder.
#[derive(Debug)]
pub struct AutoExecuteFile {
    pub name: String,
    pub content: String,
    pub path: String,
}

/// Whether `name` ends with one of the accepted script extensions.
pub open spec fn has_valid_extension(name: Seq<char>) -> bool {
    ends_with_spec(name, LUA_EXTENSION@) || ends_with_spec(name, LUAU_EXTENSION@)
        || ends_with_spec(name, TXT_EXTENSION@)
}

/// Whether a character may stay in a tab's file name.
pub open spec fn keeps_char(c: char) -> bool {
    is_alphanumeric_char(c) || c == '.' || c == '_' || c == '-'
}

/// What `char::is_alphanumeric` answers for a character.
pub uninterp spec fn is_alphanumeric_char(c: char) -> bool;

/// Relies on `char::is_alphanumeric`: alphabetic or numeric in Unicode's sense.
#[verifier::external_body]
fn alphanumeric(c: char) -> (r: bool)
    ensures
        r == is_alphanumeric_char(c),
{
    c.is_alphanumeric()
}

/// Whether `name` ends with `.lua`, `.luau` or `.txt`.
pub fn has_script_extension(name: &str) -> (r: bool)
    ensures
        r == has_valid_extension(name@),
{
    ends_with(name, LUA_EXTENSION) || ends_with(name, LUAU_EXTENSION) || ends_with(
        name,
        TXT_EXTENSION,
    )
}

/// `name` when it already has an accepted extension, else `name` + `.lua`.
pub fn ensure_valid_extension(name: &str) -> (r: String)
    ensures
        r@ == (if has_valid_extension(name@) {
            name@
        } else {
            name@ + LUA_EXTENSION@
        }),
{
    if has_script_extension(name) {
        owned(name)
    } else {
        concat(name, LUA_EXTENSION)
    }
}

/// Whether a file of this name is listed as a script: not hidden (no
/// leading dot) and with an accepted extension.
pub fn is_valid_script_file(file_name: &str) -> (r: bool)
    ensures
        r == (!starts_with_spec(file_name@, "."@) && has_valid_extension(file_name@)),
{
    if starts_with(file_name, ".") {
        return false;
    }
    has_script_extension(file_name)
}

/// A tab title with every character other than letters, digits, `.`, `_`
/// and `-` replaced by `_`.
pub open spec fn sanitized_chars(name: Seq<char>) -> Seq<char> {
    name.map_values(|c: char| if keeps_char(c) { c } else { '_' })
}

/// The file name a tab is stored under: the title sanitized, with `.lua`
/// appended unless it already ends so.
pub open spec fn sanitized_file_name(name: Seq<char>) -> Seq<char> {
    if ends_with_spec(sanitized_chars(name), LUA_EXTENSION@) {
        sanitized_chars(name)
    } else {
        sanitized_chars(name) + LUA_EXTENSION@
    }
}

pub fn sanitize_filename(name: &str) -> (r: String)
    ensures
        r@ == sanitized_file_name(name@),
{
    let n = name.unicode_len();
    let mut out = String::new();
    let mut i: usize = 0;
    while i < n
        invariant
            n == name@.len(),
            0 <= i <= n,
            out@ =~= sanitized_chars(name@.subrange(0, i as int)),
        decreases n - i,
    {
        let c = name.get_char(i);
        let keep = alphanumeric(c) || c == '.' || c == '_' || c == '-';
        if keep {
            push_char(&mut out, c);
        } else {
            push_char(&mut out, '_');
        }
        assert(name@.subrange(0, i + 1) =~= name@.subrange(0, i as int).push(c));
        i = i + 1;
    }
    assert(name@.subrange(0, n as int) =~= name@);
    if !ends_with(out.as_str(), LUA_EXTENSION) {
        out.append(LUA_EXTENSION);
    }
    out
}

/// The executor directory that belongs to an app name: the official app
/// and the executor itself share the default directory.
pub open spec fn executor_dir_spec(app_name: Seq<char>) -> Seq<char> {
    if lower_of(app_name) == "comet"@ || lower_of(app_name) == "hydrogen"@ {
        DEFAULT_EXECUTOR_DIR@
    } else {
        app_name
    }
}

/// Name of the executor directory (home of the auto-execute folder) for an
/// app name.
pub fn get_auto_execute_dir_name(app_name: &str) -> (r: String)
    ensures
        r@ == executor_dir_spec(app_name@),
{
    let lower = to_lowercase(app_name);
    let comet = owned("comet");
    let hydrogen = owned("hydrogen");
    if lower == comet || lower == hydrogen {
        owned(DEFAULT_EXECUTOR_DIR)
    } else {
        owned(app_name)
    }
}

/// Installer URL of the default executor.
pub const DEFAULT_INSTALL_URL: &'static str = "https://www.hydrogen.lat/install";

/// Name of the alternative executor.
pub const ALTERNATIVE_EXECUTOR: &'static str = "Ronix";

/// Installer URL of the alternative executor.
pub const ALTERNATIVE_INSTALL_URL: &'static str = "https://www.ronixmac.lol/install";

/// The executor that an app installs, and the URL of its installer.
pub fn get_app_info(app_name: &str) -> (r: (String, String))
    ensures
        (lower_of(app_name@) == "comet"@ || lower_of(app_name@) == "hydrogen"@) ==> (r.0@
            == DEFAULT_EXECUTOR_DIR@ && r.1@ == DEFAULT_INSTALL_URL@),
        !(lower_of(app_name@) == "comet"@ || lower_of(app_name@) == "hydrogen"@) ==> (r.0@
            == ALTERNATIVE_EXECUTOR@ && r.1@ == ALTERNATIVE_INSTALL_URL@),
{
    let lower = to_lowercase(app_name);
    let comet = owned("comet");
    let hydrogen = owned("hydrogen");
    if lower == comet || lower == hydrogen {
        (owned(DEFAULT_EXECUTOR_DIR), owned(DEFAULT_INSTALL_URL))
    } else {
        (owned(ALTERNATIVE_EXECUTOR), owned(ALTERNATIVE_INSTALL_URL))
    }
}

/// Path of an executor's dynamic library inside its app bundle.
pub fn get_dylib_path(app_name: &str) -> (r: String)
    ensures
        r@ == "/Applications/"@ + app_name@ + ".app/Contents/MacOS/"@ + app_name@ + ".dylib"@,
{
    let mut r = owned("/Applications/");
    r.append(app_name);
    r.append(".app/Contents/MacOS/");
    r.append(app_name);
    r.append(".dylib");
    r
}

} // verus!
