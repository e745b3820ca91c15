use crate::text::{concat, lower_of, owned, push_char, to_lowercase};
use vstd::prelude::*;
use vstd::string::*;

verus! {

/// Identifier, display name and tab directory of the workspace that always
/// exists at first start.
pub const DEFAULT_WORKSPACE_ID: &'static str = "default";

pub const DEFAULT_WORKSPACE_NAME: &'static str = "Default";

/// A named set of tabs stored under its own directory.
#[derive(Debug)]
pub struct Workspace {
    pub id: String,
    pub name: String,
    pub path: String,
}

/// All workspaces and the active one.
#[derive(Debug)]
pub struct WorkspaceState {
    pub active_workspace: Option<String>,
    pub workspaces: Vec<Workspace>,
}

/// Why a workspace operation was refused.
#[derive(Debug, PartialEq, Eq)]
pub enum WorkspaceError {
    /// A workspace with this name (or the identifier derived from it) exists.
    AlreadyExists(String),
    /// The only workspace cannot be deleted.
    LastWorkspace,
    /// The active workspace cannot be deleted.
    ActiveWorkspace,
    /// No workspace has this identifier.
    NotFound(String),
}

impl WorkspaceError {
    /// The message shown to the user.
    pub fn message(&self) -> (r: String)
        ensures
            r@ == (match self {
                WorkspaceError::AlreadyExists(n) => "Workspace with name '"@ + n@
                    + "' already exists"@,
                WorkspaceError::LastWorkspace => "Cannot delete the last workspace"@,
                WorkspaceError::ActiveWorkspace => "Cannot delete the active workspace"@,
                WorkspaceError::NotFound(id) => "Workspace '"@ + id@ + "' not found"@,
            }),
    {
        match self {
            WorkspaceError::AlreadyExists(n) => {
                let mut r = concat("Workspace with name '", n.as_str());
                r.append("' already exists");
                r
            },
            WorkspaceError::LastWorkspace => owned("Cannot delete the last workspace"),
            WorkspaceError::ActiveWorkspace => owned("Cannot delete the active workspace"),
            WorkspaceError::NotFound(id) => {
                let mut r = concat("Workspace '", id.as_str());
                r.append("' not found");
                r
            },
        }
    }
}

/// The identifier derived from a workspace name: lower-cased, with each
/// space turned into `-`.
pub open spec fn workspace_id_spec(name: Seq<char>) -> Seq<char> {
    lower_of(name).map_values(|c: char| if c == ' ' { '-' } else { c })
}

/// Whether some workspace of `ws` has identifier `id`.
pub open spec fn has_id(ws: Seq<Workspace>, id: Seq<char>) -> bool {
    exists|i: int| 0 <= i < ws.len() && (#[trigger] ws[i]).id@ == id
}

/// Whether a workspace other than `id` already has `name`, compared without case.
pub open spec fn name_taken(ws: Seq<Workspace>, id: Seq<char>, name: Seq<char>) -> bool {
    exists|i: int|
        0 <= i < ws.len() && lower_of((#[trigger] ws[i]).name@) == lower_of(name) && ws[i].id@
            != id
}

/// `ws` without the workspaces whose identifier is `id`, order kept.
pub open spec fn without_id(ws: Seq<Workspace>, id: Seq<char>) -> Seq<Workspace>
    decreases ws.len(),
{
    if ws.len() == 0 {
        ws
    } else if ws.last().id@ == id {
        without_id(ws.drop_last(), id)
    } else {
        without_id(ws.drop_last(), id).push(ws.last())
    }
}

/// The identifier that a workspace named `name` gets.
pub fn workspace_id(name: &str) -> (r: String)
    ensures
        r@ == workspace_id_spec(name@),
{
    let lower = to_lowercase(name);
    let s = lower.as_str();
    let n = s.unicode_len();
    let mut out = String::new();
    let mut i: usize = 0;
    while i < n
        invariant
            n == lower@.len(),
            s@ == lower@,
            lower@ == lower_of(name@),
            0 <= i <= n,
            out@ =~= lower@.subrange(0, i as int).map_values(
                |c: char| if c == ' ' { '-' } else { c },
            ),
        decreases n - i,
    {
        let c = s.get_char(i);
        if c == ' ' {
            push_char(&mut out, '-');
        } else {
            push_char(&mut out, c);
        }
        assert(lower@.subrange(0, i + 1) =~= lower@.subrange(0, i as int).push(c));
        i = i + 1;
    }
    assert(lower@.subrange(0, n as int) =~= lower@);
    out
}

impl Workspace {
    /// A field-by-field copy.
    pub fn duplicate(&self) -> (r: Workspace)
        ensures
            r == *self,
    {
        Workspace { id: self.id.clone(), name: self.name.clone(), path: self.path.clone() }
    }
}

impl WorkspaceState {
    /// The state written at first start: one workspace, `default`, active,
    /// whose tabs live under `default_path`.
    pub fn initial(default_path: String) -> (r: WorkspaceState)
        ensures
            r.workspaces@.len() == 1,
            r.workspaces@[0].id@ == DEFAULT_WORKSPACE_ID@,
            r.workspaces@[0].name@ == DEFAULT_WORKSPACE_NAME@,
            r.workspaces@[0].path == default_path,
            r.active_workspace matches Some(a) && a@ == DEFAULT_WORKSPACE_ID@,
    {
        let w = Workspace {
            id: owned(DEFAULT_WORKSPACE_ID),
            name: owned(DEFAULT_WORKSPACE_NAME),
            path: default_path,
        };
        let mut workspaces: Vec<Workspace> = Vec::new();
        workspaces.push(w);
        WorkspaceState { active_workspace: Some(owned(DEFAULT_WORKSPACE_ID)), workspaces }
    }

    /// Whether a workspace with identifier `id` exists.
    pub fn contains_id(&self, id: &str) -> (r: bool)
        ensures
            r == has_id(self.workspaces@, id@),
    {
        let target = owned(id);
        let mut i: usize = 0;
        while i < self.workspaces.len()
            invariant
                0 <= i <= self.workspaces@.len(),
                target@ == id@,
                forall|j: int| 0 <= j < i ==> (#[trigger] self.workspaces@[j]).id@ != id@,
            decreases self.workspaces@.len() - i,
        {
            if self.workspaces[i].id == target {
                return true;
            }
            i = i + 1;
        }
        false
    }

    /// Adds a workspace named `name` whose tabs live under `path`; its
    /// identifier is derived from the name. Refused when that identifier is
    /// taken.
    pub fn create_workspace(&mut self, name: &str, path: String) -> (r: Result<
        Workspace,
        WorkspaceError,
    >)
        ensures
            has_id(old(self).workspaces@, workspace_id_spec(name@)) ==> (r matches Err(
                WorkspaceError::AlreadyExists(n),
            ) && n@ == name@),
            has_id(old(self).workspaces@, workspace_id_spec(name@)) ==> *final(self) == *old(self),
            !has_id(old(self).workspaces@, workspace_id_spec(name@)) ==> (r matches Ok(w) && w.id@
                == workspace_id_spec(name@) && w.name@ == name@ && w.path == path
                && final(self).workspaces@ == old(self).workspaces@.push(w)),
            final(self).active_workspace == old(self).active_workspace,
    {
        let id = workspace_id(name);
        if self.contains_id(id.as_str()) {
            return Err(WorkspaceError::AlreadyExists(owned(name)));
        }
        let w = Workspace { id, name: owned(name), path };
        let copy = w.duplicate();
        self.workspaces.push(copy);
        Ok(w)
    }

    /// Removes the workspaces with identifier `id`. The last remaining
    /// workspace and the active one are never removed.
    pub fn delete_workspace(&mut self, id: &str) -> (r: Result<(), WorkspaceError>)
        ensures
            old(self).workspaces@.len() <= 1 ==> r == Err::<(), WorkspaceError>(
                WorkspaceError::LastWorkspace,
            ) && *final(self) == *old(self),
            old(self).workspaces@.len() > 1 && (old(self).active_workspace matches Some(a) && a@
                == id@) ==> r == Err::<(), WorkspaceError>(WorkspaceError::ActiveWorkspace)
                && *final(self) == *old(self),
            old(self).workspaces@.len() > 1 && !(old(self).active_workspace matches Some(a) && a@
                == id@) ==> r is Ok && final(self).workspaces@ == without_id(
                old(self).workspaces@,
                id@,
            ) && final(self).active_workspace == old(self).active_workspace,
    {
        if self.workspaces.len() <= 1 {
            return Err(WorkspaceError::LastWorkspace);
        }
        let target = owned(id);
        if let Some(a) = &self.active_workspace {
            if *a == target {
                return Err(WorkspaceError::ActiveWorkspace);
            }
        }
        let mut kept: Vec<Workspace> = Vec::new();
        let mut i: usize = 0;
        while i < self.workspaces.len()
            invariant
                0 <= i <= self.workspaces@.len(),
                target@ == id@,
                kept@ == without_id(self.workspaces@.subrange(0, i as int), id@),
            decreases self.workspaces@.len() - i,
        {
            let w = &self.workspaces[i];
            assert(self.workspaces@.subrange(0, i + 1).drop_last() =~= self.workspaces@.subrange(
                0,
                i as int,
            ));
            if w.id != target {
                kept.push(w.duplicate());
            }
            i = i + 1;
        }
        assert(self.workspaces@.subrange(0, self.workspaces@.len() as int) =~= self.workspaces@);
        self.workspaces = kept;
        Ok(())
    }

    /// Makes workspace `id` the active one; refused when it does not exist.
    pub fn set_active_workspace(&mut self, id: &str) -> (r: Result<(), WorkspaceError>)
        ensures
            !has_id(old(self).workspaces@, id@) ==> (r matches Err(WorkspaceError::NotFound(e))
                && e@ == id@),
            !has_id(old(self).workspaces@, id@) ==> *final(self) == *old(self),
            has_id(old(self).workspaces@, id@) ==> r is Ok,
            has_id(old(self).workspaces@, id@) ==> (final(self).active_workspace matches Some(a)
                && a@ == id@),
            final(self).workspaces == old(self).workspaces,
    {
        if !self.contains_id(id) {
            return Err(WorkspaceError::NotFound(owned(id)));
        }
        self.active_workspace = Some(owned(id));
        Ok(())
    }

    /// Gives workspace `id` the name `new_name`. Refused when another
    /// workspace already has that name (compared without case), or when no
    /// workspace has identifier `id`.
    pub fn rename_workspace(&mut self, id: &str, new_name: &str) -> (r: Result<(), WorkspaceError>)
        ensures
            name_taken(old(self).workspaces@, id@, new_name@) ==> (r matches Err(
                WorkspaceError::AlreadyExists(n),
            ) && n@ == new_name@),
            !name_taken(old(self).workspaces@, id@, new_name@) && !has_id(
                old(self).workspaces@,
                id@,
            ) ==> (r matches Err(WorkspaceError::NotFound(e)) && e@ == id@),
            r is Err ==> *final(self) == *old(self),
            !name_taken(old(self).workspaces@, id@, new_name@) && has_id(old(self).workspaces@, id@)
                ==> r is Ok && final(self).active_workspace == old(self).active_workspace && exists|
                i: int,
            |
                0 <= i < old(self).workspaces@.len() && old(self).workspaces@[i].id@ == id@ && (forall|
                    j: int,
                | 0 <= j < i ==> (#[trigger] old(self).workspaces@[j]).id@ != id@)
                    && final(self).workspaces@.len() == old(self).workspaces@.len()
                    && final(self).workspaces@[i].id == old(self).workspaces@[i].id
                    && final(self).workspaces@[i].path == old(self).workspaces@[i].path
                    && final(self).workspaces@[i].name@ == new_name@ && (forall|j: int|
                    0 <= j < old(self).workspaces@.len() && j != i ==> final(self).workspaces@[j]
                        == old(self).workspaces@[j]),
    {
        let target = owned(id);
        let wanted = to_lowercase(new_name);
        let mut i: usize = 0;
        while i < self.workspaces.len()
            invariant
                0 <= i <= self.workspaces@.len(),
                *self == *old(self),
                target@ == id@,
                wanted@ == lower_of(new_name@),
                forall|j: int|
                    0 <= j < i ==> !(lower_of((#[trigger] self.workspaces@[j]).name@) == lower_of(
                        new_name@,
                    ) && self.workspaces@[j].id@ != id@),
            decreases self.workspaces@.len() - i,
        {
            let lower = to_lowercase(self.workspaces[i].name.as_str());
            if lower == wanted && self.workspaces[i].id != target {
                return Err(WorkspaceError::AlreadyExists(owned(new_name)));
            }
            i = i + 1;
        }
        assert(!name_taken(old(self).workspaces@, id@, new_name@));
        let mut k: usize = 0;
        while k < self.workspaces.len()
            invariant
                0 <= k <= self.workspaces@.len(),
                *self == *old(self),
                !name_taken(old(self).workspaces@, id@, new_name@),
                target@ == id@,
                forall|j: int| 0 <= j < k ==> (#[trigger] self.workspaces@[j]).id@ != id@,
            decreases self.workspaces@.len() - k,
        {
            if self.workspaces[k].id == target {
                assert(has_id(old(self).workspaces@, id@));
                let w = Workspace {
                    id: self.workspaces[k].id.clone(),
                    name: owned(new_name),
                    path: self.workspaces[k].path.clone(),
                };
                self.workspaces.set(k, w);
                return Ok(());
            }
            k = k + 1;
        }
        assert(!has_id(old(self).workspaces@, id@));
        Err(WorkspaceError::NotFound(owned(id)))
    }
}

} // verus!
