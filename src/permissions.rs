use crate::text::push_char;
use vstd::prelude::*;
use vstd::string::*;

verus! {

/// Whether the app can write to one directory.
#[derive(Debug)]
pub struct PathPermissionStatus {
    pub path: String,
    pub has_permission: bool,
}

/// The result of checking every directory the app writes to.
#[derive(Debug)]
pub struct PermissionsCheckResult {
    pub paths: Vec<PathPermissionStatus>,
    pub all_permitted: bool,
}

impl PermissionsCheckResult {
    /// Gathers the per-directory results.
    pub fn from_statuses(paths: Vec<PathPermissionStatus>) -> (r: PermissionsCheckResult)
        ensures
            r.paths == paths,
            r.all_permitted == forall|i: int| 0 <= i < paths@.len() ==> (#[trigger] paths@[i]).has_permission,
    {
        let mut all = true;
        let mut i: usize = 0;
        while i < paths.len()
            invariant
                0 <= i <= paths@.len(),
                all == forall|k: int| 0 <= k < i ==> (#[trigger] paths@[k]).has_permission,
            decreases paths@.len() - i,
        {
            if !paths[i].has_permission {
                all = false;
            }
            i = i + 1;
        }
        PermissionsCheckResult { paths, all_permitted: all }
    }
}

/// `path` with every `~` replaced by `home`.
pub open spec fn expand_tilde(path: Seq<char>, home: Seq<char>) -> Seq<char>
    decreases path.len(),
{
    if path.len() == 0 {
        path
    } else if path.last() == '~' {
        expand_tilde(path.drop_last(), home) + home
    } else {
        expand_tilde(path.drop_last(), home).push(path.last())
    }
}

/// `path` with every `~` replaced by the home directory.
pub fn expand_path(path: &str, home: &str) -> (r: String)
    ensures
        r@ == expand_tilde(path@, home@),
{
    let n = path.unicode_len();
    let mut out = String::new();
    let mut i: usize = 0;
    while i < n
        invariant
            n == path@.len(),
            0 <= i <= n,
            out@ == expand_tilde(path@.subrange(0, i as int), home@),
        decreases n - i,
    {
        assert(path@.subrange(0, i + 1).drop_last() =~= path@.subrange(0, i as int));
        let c = path.get_char(i);
        if c == '~' {
            out.append(home);
        } else {
            push_char(&mut out, c);
        }
        i = i + 1;
    }
    assert(path@.subrange(0, n as int) =~= path@);
    out
}

} // verus!
