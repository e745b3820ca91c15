use crate::text::{concat, owned, starts_with, starts_with_spec, suffix_from};
use vstd::prelude::*;
use vstd::string::*;

verus! {

/// A user-defined script shown in the tray menu.
#[derive(Debug)]
pub struct CustomTrayScript {
    pub id: String,
    pub name: String,
    pub content: String,
    pub order: usize,
}

/// What the tray menu shows.
#[derive(Debug)]
pub struct TrayConfig {
    pub enabled: bool,
    pub show_scripts: bool,
    pub show_last_script: bool,
    pub custom_scripts: Vec<CustomTrayScript>,
}

/// A tray operation named a custom script that does not exist.
#[derive(Debug, PartialEq, Eq)]
pub enum TrayError {
    NotFound(String),
}

impl TrayError {
    /// The message shown to the user.
    pub fn message(&self) -> (r: String)
        ensures
            r@ == (match self {
                TrayError::NotFound(id) => "Script with ID "@ + id@ + " not found"@,
            }),
    {
        match self {
            TrayError::NotFound(id) => {
                let mut r = concat("Script with ID ", id.as_str());
                r.append(" not found");
                r
            },
        }
    }
}

/// What a click on a tray menu item asks for.
#[derive(Debug, PartialEq, Eq)]
pub enum TrayAction {
    /// Headers and unknown items do nothing.
    Ignore,
    ShowWindow,
    HideWindow,
    /// Run the catalog script with this key.
    ExecuteScript(String),
    /// Run the custom script with this identifier.
    ExecuteCustom(String),
    ExecuteLastScript,
    Quit,
}

/// Whether some script of `scripts` has identifier `id`.
pub open spec fn has_script(scripts: Seq<CustomTrayScript>, id: Seq<char>) -> bool {
    exists|i: int| 0 <= i < scripts.len() && (#[trigger] scripts[i]).id@ == id
}

/// Whether script `j` is the first of `scripts` with its identifier.
pub open spec fn first_with_id(scripts: Seq<CustomTrayScript>, j: int) -> bool {
    forall|i: int| 0 <= i < j ==> (#[trigger] scripts[i]).id@ != scripts[j].id@
}

/// The largest order among `scripts`, or 0 when there are none.
pub open spec fn max_order(scripts: Seq<CustomTrayScript>) -> nat
    decreases scripts.len(),
{
    if scripts.len() == 0 {
        0
    } else {
        let m = max_order(scripts.drop_last());
        if scripts.last().order > m {
            scripts.last().order as nat
        } else {
            m
        }
    }
}

/// `scripts` without those whose identifier is `id`, order kept.
pub open spec fn without_script(scripts: Seq<CustomTrayScript>, id: Seq<char>) -> Seq<CustomTrayScript>
    decreases scripts.len(),
{
    if scripts.len() == 0 {
        scripts
    } else if scripts.last().id@ == id {
        without_script(scripts.drop_last(), id)
    } else {
        without_script(scripts.drop_last(), id).push(scripts.last())
    }
}

/// Removing scripts never adds any, and removes one whenever `id` is present;
/// when it is absent nothing changes.
proof fn lemma_without_script(scripts: Seq<CustomTrayScript>, id: Seq<char>)
    ensures
        without_script(scripts, id).len() <= scripts.len(),
        has_script(scripts, id) ==> without_script(scripts, id).len() < scripts.len(),
        !has_script(scripts, id) ==> without_script(scripts, id) == scripts,
    decreases scripts.len(),
{
    if scripts.len() > 0 {
        let d = scripts.drop_last();
        lemma_without_script(d, id);
        if has_script(scripts, id) && scripts.last().id@ != id {
            let k = choose|k: int| 0 <= k < scripts.len() && (#[trigger] scripts[k]).id@ == id;
            assert(d[k].id@ == id);
        }
        if !has_script(scripts, id) {
            assert forall|k: int| 0 <= k < d.len() implies (#[trigger] d[k]).id@ != id by {
                assert(scripts[k] == d[k]);
            }
            assert(scripts.last() == scripts[scripts.len() - 1]);
            assert(d.push(scripts.last()) =~= scripts);
        }
    }
}

/// The last position of `id` in `ids`, or -1.
pub open spec fn last_position(ids: Seq<String>, id: Seq<char>) -> int
    decreases ids.len(),
{
    if ids.len() == 0 {
        -1
    } else if ids.last()@ == id {
        ids.len() - 1
    } else {
        last_position(ids.drop_last(), id)
    }
}

proof fn lemma_last_position_bounds(ids: Seq<String>, id: Seq<char>)
    ensures
        -1 <= last_position(ids, id) < ids.len(),
    decreases ids.len(),
{
    if ids.len() > 0 {
        lemma_last_position_bounds(ids.drop_last(), id);
    }
}

/// What `Uuid::new_v4().as_simple()` writes holds: 32 characters.
pub open spec fn is_simple_uuid(s: Seq<char>) -> bool {
    s.len() == 32
}

/// Relies on `uuid::Uuid::new_v4` and its simple format: a random identifier
/// written as 32 hexadecimal digits.
#[verifier::external_body]
fn new_script_id() -> (r: String)
    ensures
        is_simple_uuid(r@),
{
    uuid::Uuid::new_v4().simple().to_string()
}

impl CustomTrayScript {
    /// A field-by-field copy.
    pub fn duplicate(&self) -> (r: CustomTrayScript)
        ensures
            r == *self,
    {
        CustomTrayScript {
            id: self.id.clone(),
            name: self.name.clone(),
            content: self.content.clone(),
            order: self.order,
        }
    }
}

impl TrayConfig {
    /// The configuration used while none was saved: everything shown, no
    /// custom scripts.
    pub fn default_config() -> (r: TrayConfig)
        ensures
            r.enabled && r.show_scripts && r.show_last_script,
            r.custom_scripts@.len() == 0,
    {
        TrayConfig {
            enabled: true,
            show_scripts: true,
            show_last_script: true,
            custom_scripts: Vec::new(),
        }
    }

    /// The order that a newly added custom script gets: one past the largest.
    pub fn next_order(&self) -> (r: usize)
        requires
            max_order(self.custom_scripts@) < usize::MAX,
        ensures
            r == max_order(self.custom_scripts@) + 1,
    {
        let mut m: usize = 0;
        let mut i: usize = 0;
        while i < self.custom_scripts.len()
            invariant
                0 <= i <= self.custom_scripts@.len(),
                m == max_order(self.custom_scripts@.subrange(0, i as int)),
            decreases self.custom_scripts@.len() - i,
        {
            assert(self.custom_scripts@.subrange(0, i + 1).drop_last()
                =~= self.custom_scripts@.subrange(0, i as int));
            if self.custom_scripts[i].order > m {
                m = self.custom_scripts[i].order;
            }
            i = i + 1;
        }
        assert(self.custom_scripts@.subrange(0, i as int) =~= self.custom_scripts@);
        m + 1
    }

    /// Appends a custom script with identifier `id`, placed after all others.
    pub fn add_custom_script(&mut self, id: String, name: String, content: String)
        requires
            max_order(old(self).custom_scripts@) < usize::MAX,
        ensures
            final(self).custom_scripts@ == old(self).custom_scripts@.push(
                CustomTrayScript { id, name, content, order: (max_order(old(self).custom_scripts@) + 1) as usize },
            ),
            final(self).enabled == old(self).enabled,
            final(self).show_scripts == old(self).show_scripts,
            final(self).show_last_script == old(self).show_last_script,
    {
        let order = self.next_order();
        self.custom_scripts.push(CustomTrayScript { id, name, content, order });
    }

    /// Appends a custom script under a fresh random identifier, which it
    /// returns; the script is placed after all others.
    pub fn add_new_custom_script(&mut self, name: String, content: String) -> (r: String)
        requires
            max_order(old(self).custom_scripts@) < usize::MAX,
        ensures
            is_simple_uuid(r@),
            final(self).custom_scripts@ == old(self).custom_scripts@.push(
                CustomTrayScript { id: r, name, content, order: (max_order(old(self).custom_scripts@) + 1) as usize },
            ),
            final(self).enabled == old(self).enabled,
            final(self).show_scripts == old(self).show_scripts,
            final(self).show_last_script == old(self).show_last_script,
    {
        let id = new_script_id();
        let copy = id.clone();
        self.add_custom_script(id, name, content);
        copy
    }

    /// Index of the first custom script with identifier `id`.
    fn find(&self, id: &str) -> (r: Option<usize>)
        ensures
            r matches Some(i) ==> i < self.custom_scripts@.len() && self.custom_scripts@[i as int].id@
                == id@ && first_with_id(self.custom_scripts@, i as int),
            r is None ==> !has_script(self.custom_scripts@, id@),
    {
        let target = owned(id);
        let mut i: usize = 0;
        while i < self.custom_scripts.len()
            invariant
                0 <= i <= self.custom_scripts@.len(),
                target@ == id@,
                forall|j: int| 0 <= j < i ==> (#[trigger] self.custom_scripts@[j]).id@ != id@,
            decreases self.custom_scripts@.len() - i,
        {
            if self.custom_scripts[i].id == target {
                return Some(i);
            }
            i = i + 1;
        }
        None
    }

    /// Changes the given fields of the first custom script with identifier
    /// `id`; refused when there is none.
    pub fn update_custom_script(
        &mut self,
        id: &str,
        name: Option<String>,
        content: Option<String>,
        order: Option<usize>,
    ) -> (r: Result<(), TrayError>)
        ensures
            !has_script(old(self).custom_scripts@, id@) ==> (r matches Err(TrayError::NotFound(e))
                && e@ == id@),
            r is Err ==> *final(self) == *old(self),
            has_script(old(self).custom_scripts@, id@) ==> (r is Ok && exists|i: int|
                0 <= i < old(self).custom_scripts@.len() && old(self).custom_scripts@[i].id@ == id@
                    && first_with_id(old(self).custom_scripts@, i)
                    && final(self).custom_scripts@ == old(self).custom_scripts@.update(
                    i,
                    CustomTrayScript {
                        id: old(self).custom_scripts@[i].id,
                        name: match name {
                            Some(n) => n,
                            None => old(self).custom_scripts@[i].name,
                        },
                        content: match content {
                            Some(c) => c,
                            None => old(self).custom_scripts@[i].content,
                        },
                        order: match order {
                            Some(o) => o,
                            None => old(self).custom_scripts@[i].order,
                        },
                    },
                )),
            final(self).enabled == old(self).enabled,
            final(self).show_scripts == old(self).show_scripts,
            final(self).show_last_script == old(self).show_last_script,
    {
        match self.find(id) {
            None => Err(TrayError::NotFound(owned(id))),
            Some(i) => {
                let old_script = self.custom_scripts[i].duplicate();
                let s = CustomTrayScript {
                    id: old_script.id,
                    name: match name {
                        Some(n) => n,
                        None => old_script.name,
                    },
                    content: match content {
                        Some(c) => c,
                        None => old_script.content,
                    },
                    order: match order {
                        Some(o) => o,
                        None => old_script.order,
                    },
                };
                self.custom_scripts.set(i, s);
                Ok(())
            },
        }
    }

    /// Removes every custom script with identifier `id`; refused when there
    /// is none.
    pub fn remove_custom_script(&mut self, id: &str) -> (r: Result<(), TrayError>)
        ensures
            !has_script(old(self).custom_scripts@, id@) ==> (r matches Err(TrayError::NotFound(e))
                && e@ == id@),
            r is Err ==> *final(self) == *old(self),
            has_script(old(self).custom_scripts@, id@) ==> r is Ok,
            final(self).custom_scripts@ == without_script(old(self).custom_scripts@, id@),
            final(self).enabled == old(self).enabled,
            final(self).show_scripts == old(self).show_scripts,
            final(self).show_last_script == old(self).show_last_script,
    {
        let target = owned(id);
        let mut kept: Vec<CustomTrayScript> = Vec::new();
        let mut i: usize = 0;
        while i < self.custom_scripts.len()
            invariant
                0 <= i <= self.custom_scripts@.len(),
                target@ == id@,
                kept@ == without_script(self.custom_scripts@.subrange(0, i as int), id@),
            decreases self.custom_scripts@.len() - i,
        {
            let s = &self.custom_scripts[i];
            assert(self.custom_scripts@.subrange(0, i + 1).drop_last() =~= self.custom_scripts@.subrange(0, i as int));
            if s.id != target {
                kept.push(s.duplicate());
            }
            i = i + 1;
        }
        assert(self.custom_scripts@.subrange(0, i as int) =~= self.custom_scripts@);
        proof { lemma_without_script(self.custom_scripts@, id@); }
        if kept.len() == self.custom_scripts.len() {
            return Err(TrayError::NotFound(owned(id)));
        }
        self.custom_scripts = kept;
        Ok(())
    }
}

/// The order of script `j` after reordering by `ids`: the last position of
/// its identifier in `ids` when it is the first script with that identifier
/// and the identifier is listed, else its old order.
pub open spec fn reordered(scripts: Seq<CustomTrayScript>, ids: Seq<String>, j: int) -> usize {
    if first_with_id(scripts, j) && last_position(ids, scripts[j].id@) >= 0 {
        last_position(ids, scripts[j].id@) as usize
    } else {
        scripts[j].order
    }
}

/// Whether every identifier of `ids` names a custom script.
pub open spec fn all_listed(scripts: Seq<CustomTrayScript>, ids: Seq<String>) -> bool {
    forall|k: int| 0 <= k < ids.len() ==> has_script(scripts, (#[trigger] ids[k])@)
}

impl TrayConfig {
    /// Gives the custom scripts the order of their identifiers in `ids`.
    /// Refused, with the first unknown identifier, when one of `ids` names no
    /// script.
    pub fn reorder_custom_scripts(&mut self, ids: &[String]) -> (r: Result<(), TrayError>)
        ensures
            r is Err <==> !all_listed(old(self).custom_scripts@, ids@),
            r matches Err(TrayError::NotFound(e)) ==> exists|k: int|
                0 <= k < ids@.len() && e == ids@[k] && !has_script(old(self).custom_scripts@, e@)
                    && (forall|m: int| 0 <= m < k ==> has_script(old(self).custom_scripts@, (#[trigger] ids@[m])@)),
            r is Err ==> *final(self) == *old(self),
            r is Ok ==> final(self).custom_scripts@.len() == old(self).custom_scripts@.len(),
            r is Ok ==> forall|j: int|
                0 <= j < old(self).custom_scripts@.len() ==> {
                    let o = #[trigger] old(self).custom_scripts@[j];
                    let n = final(self).custom_scripts@[j];
                    n.id == o.id && n.name == o.name && n.content == o.content && n.order
                        == reordered(old(self).custom_scripts@, ids@, j)
                },
            final(self).enabled == old(self).enabled,
            final(self).show_scripts == old(self).show_scripts,
            final(self).show_last_script == old(self).show_last_script,
    {
        let mut k: usize = 0;
        while k < ids.len()
            invariant
                0 <= k <= ids@.len(),
                *self == *old(self),
                forall|m: int| 0 <= m < k ==> has_script(self.custom_scripts@, (#[trigger] ids@[m])@),
            decreases ids@.len() - k,
        {
            if self.find(ids[k].as_str()).is_none() {
                return Err(TrayError::NotFound(ids[k].clone()));
            }
            k = k + 1;
        }
        let ghost before = self.custom_scripts@;
        let mut index: usize = 0;
        while index < ids.len()
            invariant
                0 <= index <= ids@.len(),
                all_listed(before, ids@),
                self.custom_scripts@.len() == before.len(),
                self.enabled == old(self).enabled,
                self.show_scripts == old(self).show_scripts,
                self.show_last_script == old(self).show_last_script,
                before == old(self).custom_scripts@,
                forall|j: int|
                    0 <= j < before.len() ==> {
                        let o = #[trigger] before[j];
                        let n = self.custom_scripts@[j];
                        n.id == o.id && n.name == o.name && n.content == o.content && n.order
                            == reordered(before, ids@.subrange(0, index as int), j)
                    },
            decreases ids@.len() - index,
        {
            let ghost pre = ids@.subrange(0, index as int);
            let ghost cur = self.custom_scripts@;
            assert(ids@.subrange(0, index + 1).drop_last() =~= pre);
            assert(has_script(before, ids@[index as int]@));
            assert forall|j: int| 0 <= j < before.len() implies #[trigger] first_with_id(cur, j) == first_with_id(before, j) by {
                assert forall|m: int| 0 <= m < j implies cur[m].id == before[m].id by {}
            }
            assert(has_script(cur, ids@[index as int]@)) by {
                let w = choose|w: int| 0 <= w < before.len() && (#[trigger] before[w]).id@ == ids@[index as int]@;
                assert(cur[w].id == before[w].id);
            }
            match self.find(ids[index].as_str()) {
                Some(i) => {
                    let old_script = self.custom_scripts[i].duplicate();
                    let s = CustomTrayScript {
                        id: old_script.id,
                        name: old_script.name,
                        content: old_script.content,
                        order: index,
                    };
                    self.custom_scripts.set(i, s);
                    proof {
                        assert forall|j: int| 0 <= j < before.len() implies {
                            let o = #[trigger] before[j];
                            let n = self.custom_scripts@[j];
                            n.id == o.id && n.name == o.name && n.content == o.content && n.order
                                == reordered(before, ids@.subrange(0, index + 1), j)
                        } by {
                            lemma_last_position_bounds(ids@.subrange(0, index + 1), before[j].id@);
                            if j != i && before[j].id@ == ids@[index as int]@ {
                                if j < i {
                                    assert(cur[j].id@ != cur[i as int].id@);
                                } else {
                                    assert(!first_with_id(cur, j));
                                }
                            }
                        }
                    }
                },
                None => {
                },
            }
            index = index + 1;
        }
        assert(ids@.subrange(0, ids@.len() as int) =~= ids@);
        Ok(())
    }
}

/// The tray action that a click on the menu item `id` asks for.
pub open spec fn tray_action_spec(id: Seq<char>) -> TrayActionKind {
    if starts_with_spec(id, "header_"@) {
        TrayActionKind::Ignore
    } else if id == "open"@ {
        TrayActionKind::ShowWindow
    } else if id == "hide"@ {
        TrayActionKind::HideWindow
    } else if starts_with_spec(id, "execute_"@) {
        TrayActionKind::ExecuteScript(id.subrange(8, id.len() as int))
    } else if starts_with_spec(id, "custom_"@) {
        TrayActionKind::ExecuteCustom(id.subrange(7, id.len() as int))
    } else if id == "last_script"@ {
        TrayActionKind::ExecuteLastScript
    } else if id == "quit"@ {
        TrayActionKind::Quit
    } else {
        TrayActionKind::Ignore
    }
}

/// A tray action with its text as a sequence of characters.
pub enum TrayActionKind {
    Ignore,
    ShowWindow,
    HideWindow,
    ExecuteScript(Seq<char>),
    ExecuteCustom(Seq<char>),
    ExecuteLastScript,
    Quit,
}

impl TrayAction {
    pub open spec fn kind_spec(self) -> TrayActionKind {
        match self {
            TrayAction::Ignore => TrayActionKind::Ignore,
            TrayAction::ShowWindow => TrayActionKind::ShowWindow,
            TrayAction::HideWindow => TrayActionKind::HideWindow,
            TrayAction::ExecuteScript(k) => TrayActionKind::ExecuteScript(k@),
            TrayAction::ExecuteCustom(k) => TrayActionKind::ExecuteCustom(k@),
            TrayAction::ExecuteLastScript => TrayActionKind::ExecuteLastScript,
            TrayAction::Quit => TrayActionKind::Quit,
        }
    }
}

/// Decides what a click on the tray menu item `id` asks for.
pub fn tray_action(id: &str) -> (r: TrayAction)
    ensures
        r.kind_spec() == tray_action_spec(id@),
{
    proof {
        reveal_strlit("header_");
        reveal_strlit("execute_");
        reveal_strlit("custom_");
    }
    let s = owned(id);
    if starts_with(id, "header_") {
        TrayAction::Ignore
    } else if s == owned("open") {
        TrayAction::ShowWindow
    } else if s == owned("hide") {
        TrayAction::HideWindow
    } else if starts_with(id, "execute_") {
        TrayAction::ExecuteScript(suffix_from(id, 8))
    } else if starts_with(id, "custom_") {
        TrayAction::ExecuteCustom(suffix_from(id, 7))
    } else if s == owned("last_script") {
        TrayAction::ExecuteLastScript
    } else if s == owned("quit") {
        TrayAction::Quit
    } else {
        TrayAction::Ignore
    }
}

} // verus!
