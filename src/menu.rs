use crate::text::{concat, owned};
use crate::tray::{CustomTrayScript, TrayConfig};
use vstd::prelude::*;
use vstd::string::*;

verus! {

/// One entry of the tray menu.
#[derive(Debug, PartialEq, Eq)]
pub enum MenuEntry {
    /// A clickable (or greyed-out) item with the identifier its click reports.
    Item { id: String, label: String, enabled: bool },
    Separator,
}

/// A menu entry with its texts as character sequences.
pub enum EntryView {
    Item(Seq<char>, Seq<char>, bool),
    Separator,
}

impl MenuEntry {
    pub open spec fn view_entry(self) -> EntryView {
        match self {
            MenuEntry::Item { id, label, enabled } => EntryView::Item(id@, label@, enabled),
            MenuEntry::Separator => EntryView::Separator,
        }
    }
}

/// The menu as character sequences.
pub open spec fn menu_view(entries: Seq<MenuEntry>) -> Seq<EntryView> {
    entries.map_values(|e: MenuEntry| e.view_entry())
}

/// A section header: greyed out, its identifier prefixed with `header_` and
/// its title set between bullets.
pub open spec fn header(id: Seq<char>, title: Seq<char>) -> EntryView {
    EntryView::Item("header_"@ + id, "• "@ + title + " •"@, false)
}

/// An enabled item.
pub open spec fn item(id: Seq<char>, label: Seq<char>) -> EntryView {
    EntryView::Item(id, label, true)
}

/// Index at which a script of order `o` goes into `s`: after every script
/// whose order is at most `o`.
pub open spec fn insert_pos(s: Seq<CustomTrayScript>, o: usize) -> int
    decreases s.len(),
{
    if s.len() == 0 {
        0
    } else if s[0].order > o {
        0
    } else {
        1 + insert_pos(s.drop_first(), o)
    }
}

/// `s` sorted by order; scripts of equal order keep their relative order.
pub open spec fn sorted_by_order(s: Seq<CustomTrayScript>) -> Seq<CustomTrayScript>
    decreases s.len(),
{
    if s.len() == 0 {
        s
    } else {
        let t = sorted_by_order(s.drop_last());
        t.insert(insert_pos(t, s.last().order), s.last())
    }
}

proof fn lemma_insert_pos(s: Seq<CustomTrayScript>, o: usize, k: int)
    requires
        0 <= k <= s.len(),
        forall|j: int| 0 <= j < k ==> (#[trigger] s[j]).order <= o,
        k == s.len() || s[k].order > o,
    ensures
        insert_pos(s, o) == k,
    decreases s.len(),
{
    if s.len() > 0 && k > 0 {
        assert(s[0].order <= o);
        let d = s.drop_first();
        assert forall|j: int| 0 <= j < k - 1 implies (#[trigger] d[j]).order <= o by {
            assert(d[j] == s[j + 1]);
        }
        if k < s.len() {
            assert(d[k - 1] == s[k]);
        }
        lemma_insert_pos(d, o, k - 1);
    }
}

/// The custom scripts sorted by order, stably.
pub fn sort_by_order(scripts: &Vec<CustomTrayScript>) -> (r: Vec<CustomTrayScript>)
    ensures
        r@ == sorted_by_order(scripts@),
{
    let mut out: Vec<CustomTrayScript> = Vec::new();
    let mut i: usize = 0;
    while i < scripts.len()
        invariant
            0 <= i <= scripts@.len(),
            out@ == sorted_by_order(scripts@.subrange(0, i as int)),
        decreases scripts@.len() - i,
    {
        let o = scripts[i].order;
        let mut k: usize = 0;
        while k < out.len() && out[k].order <= o
            invariant
                0 <= k <= out@.len(),
                forall|j: int| 0 <= j < k ==> (#[trigger] out@[j]).order <= o,
            decreases out@.len() - k,
        {
            k = k + 1;
        }
        proof {
            lemma_insert_pos(out@, o, k as int);
            assert(scripts@.subrange(0, i + 1).drop_last() =~= scripts@.subrange(0, i as int));
            assert(scripts@.subrange(0, i + 1).last() == scripts@[i as int]);
        }
        out.insert(k, scripts[i].duplicate());
        i = i + 1;
    }
    assert(scripts@.subrange(0, i as int) =~= scripts@);
    out
}

/// The items that run the custom scripts, in the given order.
pub open spec fn custom_items(s: Seq<CustomTrayScript>) -> Seq<EntryView> {
    s.map_values(|x: CustomTrayScript| item("custom_"@ + x.id@, "Execute "@ + x.name@))
}

/// The items that run the catalog scripts, keyed and named as given.
pub open spec fn catalog_items(s: Seq<(String, String)>) -> Seq<EntryView> {
    s.map_values(|x: (String, String)| item("execute_"@ + x.0@, "Execute "@ + x.1@))
}

/// The window controls section.
pub open spec fn window_section() -> Seq<EntryView> {
    seq![
        header("window"@, "Window Controls"@),
        item("open"@, "Show Window"@),
        item("hide"@, "Hide Window"@),
        EntryView::Separator,
    ]
}

/// The custom scripts section, sorted by order; empty without custom scripts.
pub open spec fn custom_section(config: TrayConfig) -> Seq<EntryView> {
    if config.custom_scripts@.len() > 0 {
        seq![header("custom"@, "Custom Scripts"@)] + custom_items(sorted_by_order(config.custom_scripts@))
            + seq![EntryView::Separator]
    } else {
        Seq::empty()
    }
}

/// The catalog part of the scripts section.
pub open spec fn catalog_part(config: TrayConfig, catalog: Option<Seq<(String, String)>>) -> Seq<EntryView> {
    if config.show_scripts {
        match catalog {
            Some(c) => catalog_items(c),
            None => seq![EntryView::Item("failed_fetch"@, "Failed to fetch scripts"@, false)],
        }
    } else {
        Seq::empty()
    }
}

/// The last-script part of the scripts section.
pub open spec fn last_part(config: TrayConfig) -> Seq<EntryView> {
    if config.show_last_script {
        seq![item("last_script"@, "Execute Last Script"@)]
    } else {
        Seq::empty()
    }
}

/// The scripts section; empty when neither part is shown.
pub open spec fn scripts_section(config: TrayConfig, catalog: Option<Seq<(String, String)>>) -> Seq<EntryView> {
    if config.show_scripts || config.show_last_script {
        seq![header("scripts"@, "Scripts"@)] + catalog_part(config, catalog) + last_part(config)
            + seq![EntryView::Separator]
    } else {
        Seq::empty()
    }
}

/// The app controls section.
pub open spec fn app_section() -> Seq<EntryView> {
    seq![header("app"@, "App Controls"@), item("quit"@, "Quit App"@)]
}

/// The tray menu for `config`: nothing when disabled; otherwise the window
/// controls, the custom scripts by order, the catalog scripts (or a
/// greyed-out notice when the catalog could not be fetched) and the last
/// script when shown, and the app controls, sections apart.
pub open spec fn menu_spec(config: TrayConfig, catalog: Option<Seq<(String, String)>>) -> Seq<EntryView> {
    if !config.enabled {
        Seq::empty()
    } else {
        window_section() + custom_section(config) + scripts_section(config, catalog) + app_section()
    }
}

fn push_entry(out: &mut Vec<MenuEntry>, id: String, label: String, enabled: bool)
    ensures
        menu_view(final(out)@) == menu_view(old(out)@).push(EntryView::Item(id@, label@, enabled)),
{
    out.push(MenuEntry::Item { id, label, enabled });
    assert(menu_view(out@) =~= menu_view(old(out)@).push(EntryView::Item(id@, label@, enabled)));
}

fn push_separator(out: &mut Vec<MenuEntry>)
    ensures
        menu_view(final(out)@) == menu_view(old(out)@).push(EntryView::Separator),
{
    out.push(MenuEntry::Separator);
    assert(menu_view(out@) =~= menu_view(old(out)@).push(EntryView::Separator));
}

fn push_header(out: &mut Vec<MenuEntry>, id: &str, title: &str)
    ensures
        menu_view(final(out)@) == menu_view(old(out)@).push(header(id@, title@)),
{
    let mut label = concat("• ", title);
    label.append(" •");
    push_entry(out, concat("header_", id), label, false);
}

fn push_item(out: &mut Vec<MenuEntry>, id: &str, label: &str)
    ensures
        menu_view(final(out)@) == menu_view(old(out)@).push(item(id@, label@)),
{
    push_entry(out, owned(id), owned(label), true);
}

fn push_custom_section(out: &mut Vec<MenuEntry>, config: &TrayConfig)
    ensures
        menu_view(final(out)@) == menu_view(old(out)@) + custom_section(*config),
{
    if config.custom_scripts.len() == 0 {
        assert(menu_view(out@) =~= menu_view(out@) + custom_section(*config));
        return;
    }
    push_header(out, "custom", "Custom Scripts");
    let sorted = sort_by_order(&config.custom_scripts);
    let ghost before = menu_view(out@);
    let mut i: usize = 0;
    while i < sorted.len()
        invariant
            0 <= i <= sorted@.len(),
            menu_view(out@) =~= before + custom_items(sorted@.subrange(0, i as int)),
        decreases sorted@.len() - i,
    {
        let id = concat("custom_", sorted[i].id.as_str());
        let label = concat("Execute ", sorted[i].name.as_str());
        push_entry(out, id, label, true);
        assert(custom_items(sorted@.subrange(0, i + 1)) =~= custom_items(sorted@.subrange(0, i as int)).push(
            item("custom_"@ + sorted@[i as int].id@, "Execute "@ + sorted@[i as int].name@),
        ));
        i = i + 1;
    }
    assert(sorted@.subrange(0, i as int) =~= sorted@);
    push_separator(out);
    assert(menu_view(out@) =~= menu_view(old(out)@) + custom_section(*config));
}

fn push_catalog_part(out: &mut Vec<MenuEntry>, config: &TrayConfig, catalog: Option<&Vec<(String, String)>>)
    ensures
        menu_view(final(out)@) == menu_view(old(out)@) + catalog_part(*config, match catalog {
            Some(c) => Some(c@),
            None => None,
        }),
{
    if !config.show_scripts {
        assert(menu_view(out@) =~= menu_view(out@) + Seq::<EntryView>::empty());
        return;
    }
    match catalog {
        Some(c) => {
            let ghost before = menu_view(out@);
            let mut i: usize = 0;
            while i < c.len()
                invariant
                    0 <= i <= c@.len(),
                    menu_view(out@) =~= before + catalog_items(c@.subrange(0, i as int)),
                decreases c@.len() - i,
            {
                let id = concat("execute_", c[i].0.as_str());
                let label = concat("Execute ", c[i].1.as_str());
                push_entry(out, id, label, true);
                assert(catalog_items(c@.subrange(0, i + 1)) =~= catalog_items(c@.subrange(0, i as int)).push(
                    item("execute_"@ + c@[i as int].0@, "Execute "@ + c@[i as int].1@),
                ));
                i = i + 1;
            }
            assert(c@.subrange(0, i as int) =~= c@);
        },
        None => {
            push_entry(out, owned("failed_fetch"), owned("Failed to fetch scripts"), false);
            assert(menu_view(out@) =~= menu_view(old(out)@) + seq![EntryView::Item("failed_fetch"@, "Failed to fetch scripts"@, false)]);
        },
    }
}

fn push_scripts_section(out: &mut Vec<MenuEntry>, config: &TrayConfig, catalog: Option<&Vec<(String, String)>>)
    ensures
        menu_view(final(out)@) == menu_view(old(out)@) + scripts_section(*config, match catalog {
            Some(c) => Some(c@),
            None => None,
        }),
{
    let ghost cat = match catalog {
        Some(c) => Some(c@),
        None => None,
    };
    if !(config.show_scripts || config.show_last_script) {
        assert(menu_view(out@) =~= menu_view(out@) + scripts_section(*config, cat));
        return;
    }
    push_header(out, "scripts", "Scripts");
    push_catalog_part(out, config, catalog);
    let ghost mid = menu_view(out@);
    if config.show_last_script {
        push_item(out, "last_script", "Execute Last Script");
    }
    assert(menu_view(out@) =~= mid + last_part(*config));
    push_separator(out);
    assert(menu_view(out@) =~= menu_view(old(out)@) + scripts_section(*config, cat));
}

/// The tray menu for `config`, with the catalog's scripts as (key, display
/// name) pairs, or `None` when the catalog could not be fetched.
pub fn tray_menu(config: &TrayConfig, catalog: Option<&Vec<(String, String)>>) -> (r: Vec<MenuEntry>)
    ensures
        menu_view(r@) == menu_spec(*config, match catalog {
            Some(c) => Some(c@),
            None => None,
        }),
{
    let mut out: Vec<MenuEntry> = Vec::new();
    assert(menu_view(out@) =~= Seq::<EntryView>::empty());
    if !config.enabled {
        return out;
    }
    push_header(&mut out, "window", "Window Controls");
    push_item(&mut out, "open", "Show Window");
    push_item(&mut out, "hide", "Hide Window");
    push_separator(&mut out);
    assert(menu_view(out@) =~= window_section());
    push_custom_section(&mut out, config);
    push_scripts_section(&mut out, config, catalog);
    let ghost before_app = menu_view(out@);
    push_header(&mut out, "app", "App Controls");
    push_item(&mut out, "quit", "Quit App");
    assert(menu_view(out@) =~= before_app + app_section());
    out
}

} // verus!
