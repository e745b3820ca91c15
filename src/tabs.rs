use crate::text::owned;
use vstd::prelude::*;
use vstd::string::*;

verus! {

/// Title, identifier and file name of the tab shown when none exists.
pub const DEFAULT_TAB_TITLE: &'static str = "untitled.lua";

/// Content of the tab shown when none exists.
pub const DEFAULT_TAB_CONTENT: &'static str = "-- New File\n";

/// Language of every tab.
pub const TAB_LANGUAGE: &'static str = "lua";

/// An editor tab, stored as one file.
#[derive(Debug)]
pub struct Tab {
    pub id: String,
    pub title: String,
    pub content: String,
    pub language: String,
}

/// The saved arrangement of the tabs.
#[derive(Debug)]
pub struct TabState {
    pub active_tab: Option<String>,
    pub tab_order: Vec<String>,
}

/// Whether `order[p]` is the first occurrence of its identifier.
pub open spec fn first_occurrence(order: Seq<String>, p: int) -> bool {
    forall|q: int| 0 <= q < p ==> (#[trigger] order[q])@ != order[p]@
}

/// Whether identifier `id` is listed in `order`.
pub open spec fn in_order(order: Seq<String>, id: Seq<char>) -> bool {
    exists|q: int| 0 <= q < order.len() && (#[trigger] order[q])@ == id
}

/// The tabs of `tabs` with identifier `id`, order kept.
pub open spec fn tabs_with_id(tabs: Seq<Tab>, id: Seq<char>) -> Seq<Tab>
    decreases tabs.len(),
{
    if tabs.len() == 0 {
        tabs
    } else if tabs.last().id@ == id {
        tabs_with_id(tabs.drop_last(), id).push(tabs.last())
    } else {
        tabs_with_id(tabs.drop_last(), id)
    }
}

/// The tabs of `tabs` whose identifier `order` does not list, order kept.
pub open spec fn unlisted_tabs(tabs: Seq<Tab>, order: Seq<String>) -> Seq<Tab>
    decreases tabs.len(),
{
    if tabs.len() == 0 {
        tabs
    } else if !in_order(order, tabs.last().id@) {
        unlisted_tabs(tabs.drop_last(), order).push(tabs.last())
    } else {
        unlisted_tabs(tabs.drop_last(), order)
    }
}

/// The tabs placed by the first `p` entries of `order`: for each entry that
/// first names an identifier, the tabs with that identifier.
pub open spec fn placed_tabs(tabs: Seq<Tab>, order: Seq<String>, p: int) -> Seq<Tab>
    decreases p,
{
    if p <= 0 {
        Seq::empty()
    } else if first_occurrence(order, p - 1) {
        placed_tabs(tabs, order, p - 1) + tabs_with_id(tabs, order[p - 1]@)
    } else {
        placed_tabs(tabs, order, p - 1)
    }
}

/// `tabs` sorted, stably, by the first position of their identifier in
/// `order`, the unlisted ones last.
pub open spec fn ordered_tabs(tabs: Seq<Tab>, order: Seq<String>) -> Seq<Tab> {
    placed_tabs(tabs, order, order.len() as int) + unlisted_tabs(tabs, order)
}

impl Tab {
    /// A field-by-field copy.
    pub fn duplicate(&self) -> (r: Tab)
        ensures
            r == *self,
    {
        Tab {
            id: self.id.clone(),
            title: self.title.clone(),
            content: self.content.clone(),
            language: self.language.clone(),
        }
    }

    /// The tab read from the file `file_name`: identified and titled by it.
    pub fn from_file(file_name: String, content: String) -> (r: Tab)
        ensures
            r.id == file_name && r.title == file_name && r.content == content,
            r.language@ == TAB_LANGUAGE@,
    {
        Tab { id: file_name.clone(), title: file_name, content, language: owned(TAB_LANGUAGE) }
    }

    /// The tab shown when no tab exists.
    pub fn default_tab() -> (r: Tab)
        ensures
            r.id@ == DEFAULT_TAB_TITLE@ && r.title@ == DEFAULT_TAB_TITLE@,
            r.content@ == DEFAULT_TAB_CONTENT@ && r.language@ == TAB_LANGUAGE@,
    {
        Tab {
            id: owned(DEFAULT_TAB_TITLE),
            title: owned(DEFAULT_TAB_TITLE),
            content: owned(DEFAULT_TAB_CONTENT),
            language: owned(TAB_LANGUAGE),
        }
    }
}

impl TabState {
    /// The arrangement used while none was saved: the default tab alone,
    /// active.
    pub fn default_state() -> (r: TabState)
        ensures
            r.active_tab matches Some(a) && a@ == DEFAULT_TAB_TITLE@,
            r.tab_order@.len() == 1 && r.tab_order@[0]@ == DEFAULT_TAB_TITLE@,
    {
        let mut tab_order: Vec<String> = Vec::new();
        tab_order.push(owned(DEFAULT_TAB_TITLE));
        TabState { active_tab: Some(owned(DEFAULT_TAB_TITLE)), tab_order }
    }
}

/// Appends to `out` the tabs of `tabs` with identifier `id`, order kept.
fn push_with_id(tabs: &Vec<Tab>, id: &String, out: &mut Vec<Tab>)
    ensures
        final(out)@ == old(out)@ + tabs_with_id(tabs@, id@),
{
    let ghost start = out@;
    let mut i: usize = 0;
    while i < tabs.len()
        invariant
            0 <= i <= tabs@.len(),
            out@ == start + tabs_with_id(tabs@.subrange(0, i as int), id@),
        decreases tabs@.len() - i,
    {
        assert(tabs@.subrange(0, i + 1).drop_last() =~= tabs@.subrange(0, i as int));
        if tabs[i].id == *id {
            out.push(tabs[i].duplicate());
            assert(start + tabs_with_id(tabs@.subrange(0, i + 1), id@) =~= (start + tabs_with_id(tabs@.subrange(0, i as int), id@)).push(tabs@[i as int]));
        }
        i = i + 1;
    }
    assert(tabs@.subrange(0, i as int) =~= tabs@);
}

/// Whether `id` occurs among the first `end` entries of `order`.
fn listed_before(order: &Vec<String>, id: &String, end: usize) -> (r: bool)
    requires
        end <= order@.len(),
    ensures
        r == exists|q: int| 0 <= q < end && (#[trigger] order@[q])@ == id@,
{
    let mut q: usize = 0;
    while q < end
        invariant
            0 <= q <= end,
            end <= order@.len(),
            forall|k: int| 0 <= k < q ==> (#[trigger] order@[k])@ != id@,
        decreases end - q,
    {
        if order[q] == *id {
            return true;
        }
        q = q + 1;
    }
    false
}

/// The loaded tabs in display order: sorted, stably, by the first position
/// of their identifier in the saved order, unlisted tabs last; without a
/// saved order as loaded. When there is no tab at all, the default tab.
pub fn arrange_tabs(tabs: Vec<Tab>, state: Option<&TabState>) -> (r: Vec<Tab>)
    ensures
        ({
            let arranged = match state {
                Some(s) => ordered_tabs(tabs@, s.tab_order@),
                None => tabs@,
            };
            if arranged.len() == 0 {
                r@.len() == 1 && r@[0].id@ == DEFAULT_TAB_TITLE@ && r@[0].title@ == DEFAULT_TAB_TITLE@
                    && r@[0].content@ == DEFAULT_TAB_CONTENT@ && r@[0].language@ == TAB_LANGUAGE@
            } else {
                r@ == arranged
            }
        }),
{
    let mut out: Vec<Tab> = match state {
        None => tabs,
        Some(s) => {
            let order = &s.tab_order;
            let mut placed: Vec<Tab> = Vec::new();
            let mut p: usize = 0;
            while p < order.len()
                invariant
                    0 <= p <= order@.len(),
                    placed@ == placed_tabs(tabs@, order@, p as int),
                decreases order@.len() - p,
            {
                if !listed_before(order, &order[p], p) {
                    push_with_id(&tabs, &order[p], &mut placed);
                }
                p = p + 1;
            }
            let ghost before = placed@;
            let mut i: usize = 0;
            while i < tabs.len()
                invariant
                    0 <= i <= tabs@.len(),
                    before == placed_tabs(tabs@, order@, order@.len() as int),
                    placed@ == before + unlisted_tabs(tabs@.subrange(0, i as int), order@),
                decreases tabs@.len() - i,
            {
                assert(tabs@.subrange(0, i + 1).drop_last() =~= tabs@.subrange(0, i as int));
                if !listed_before(order, &tabs[i].id, order.len()) {
                    placed.push(tabs[i].duplicate());
                    assert(before + unlisted_tabs(tabs@.subrange(0, i + 1), order@) =~= (before + unlisted_tabs(tabs@.subrange(0, i as int), order@)).push(tabs@[i as int]));
                }
                i = i + 1;
            }
            assert(tabs@.subrange(0, i as int) =~= tabs@);
            placed
        },
    };
    if out.len() == 0 {
        out.push(Tab::default_tab());
    }
    out
}

} // verus!
