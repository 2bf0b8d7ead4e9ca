//! The menu description: a pure projection of a snapshot into menu entries.
use vstd::prelude::*;
use crate::snapshot::{Snapshot, SnapshotView, find_usage, usage_for};
use crate::text::{decimal, push_decimal};
use crate::usage::{account_label, push_usage_suffix};

verus! {

/// One entry of the menu.
#[derive(Clone, Debug, PartialEq, Eq)]
pub enum MenuEntry {
    /// An item that runs an action when activated.
    Action { id: String, label: String, enabled: bool },
    /// A checkable item; one per account.
    Toggle { id: String, label: String, checked: bool },
    /// A separating line.
    Separator,
    /// A line of text that cannot be activated.
    Header { label: String },
}

/// The contents of a menu entry.
pub enum EntryView {
    Action { id: Seq<char>, label: Seq<char>, enabled: bool },
    Toggle { id: Seq<char>, label: Seq<char>, checked: bool },
    Separator,
    Header { label: Seq<char> },
}

impl View for MenuEntry {
    type V = EntryView;

    open spec fn view(&self) -> EntryView {
        match self {
            MenuEntry::Action { id, label, enabled } => EntryView::Action {
                id: id@,
                label: label@,
                enabled: *enabled,
            },
            MenuEntry::Toggle { id, label, checked } => EntryView::Toggle {
                id: id@,
                label: label@,
                checked: *checked,
            },
            MenuEntry::Separator => EntryView::Separator,
            MenuEntry::Header { label } => EntryView::Header { label: label@ },
        }
    }
}

pub open spec fn entries_view(v: Seq<MenuEntry>) -> Seq<EntryView> {
    v.map_values(|e: MenuEntry| e@)
}

pub open spec fn open_entry() -> EntryView {
    EntryView::Action { id: "open"@, label: "Open Manager"@, enabled: true }
}

pub open spec fn add_entry() -> EntryView {
    EntryView::Action { id: "add"@, label: "Add Account..."@, enabled: true }
}

pub open spec fn quit_entry() -> EntryView {
    EntryView::Action { id: "quit"@, label: "Quit"@, enabled: true }
}

/// The prefix of the id of an account's toggle.
pub open spec fn switch_prefix() -> Seq<char> {
    "switch:"@
}

/// The header: the active account, where one is named, and the number of accounts.
pub open spec fn header_label(s: SnapshotView) -> Seq<char> {
    match s.active {
        Some(a) => if a.len() > 0 {
            "Active: "@ + a + " ("@ + decimal(s.accounts.len()) + ")"@
        } else {
            "Accounts ("@ + decimal(s.accounts.len()) + ")"@
        },
        None => "Accounts ("@ + decimal(s.accounts.len()) + ")"@,
    }
}

/// The toggle of one account: checked exactly when it is the active account.
pub open spec fn toggle_entry(s: SnapshotView, name: Seq<char>) -> EntryView {
    EntryView::Toggle {
        id: switch_prefix() + name,
        label: account_label(name, usage_for(s.usage, name)),
        checked: s.active == Some(name),
    }
}

pub open spec fn toggles(s: SnapshotView) -> Seq<EntryView> {
    Seq::new(s.accounts.len(), |i: int| toggle_entry(s, s.accounts[i]))
}

/// The menu of a snapshot.
pub open spec fn menu_of(s: SnapshotView) -> Seq<EntryView> {
    if s.accounts.len() == 0 {
        seq![open_entry(), EntryView::Separator, add_entry(), EntryView::Separator, quit_entry()]
    } else {
        seq![
            open_entry(),
            EntryView::Separator,
            EntryView::Header { label: header_label(s) },
            add_entry(),
            EntryView::Separator,
        ] + toggles(s) + seq![EntryView::Separator, quit_entry()]
    }
}

fn action(id: &str, label: &str) -> (r: MenuEntry)
    ensures
        r@ == (EntryView::Action { id: id@, label: label@, enabled: true }),
{
    MenuEntry::Action { id: String::from_str(id), label: String::from_str(label), enabled: true }
}

fn header(s: &Snapshot) -> (r: MenuEntry)
    ensures
        r@ == (EntryView::Header { label: header_label(s@) }),
{
    let mut label = String::new();
    let named = match &s.active_account {
        Some(a) => a.unicode_len() > 0,
        None => false,
    };
    if named {
        let a = s.active_account.as_ref().unwrap();
        label.append("Active: ");
        label.append(a.as_str());
        label.append(" (");
    } else {
        label.append("Accounts (");
    }
    push_decimal(&mut label, s.accounts.len() as u128);
    label.append(")");
    assert(label@ =~= header_label(s@));
    MenuEntry::Header { label }
}

fn toggle(s: &Snapshot, name: &String) -> (r: MenuEntry)
    ensures
        r@ == toggle_entry(s@, name@),
{
    let mut id = String::from_str("switch:");
    id.append(name.as_str());
    let mut label = name.clone();
    assert(label@ == name@);
    match find_usage(&s.usage, name.as_str()) {
        Some(u) => push_usage_suffix(&mut label, &u),
        None => {},
    }
    let checked = match &s.active_account {
        Some(a) => *a == *name,
        None => false,
    };
    MenuEntry::Toggle { id, label, checked }
}

/// Projects a snapshot into its menu: "Open Manager" and a separator; where
/// there are accounts, a header, "Add Account...", a separator, one toggle per
/// account in the order of the account list and a separator; where there are
/// none, "Add Account..." and a separator; last, "Quit".
pub fn build_tray_menu(s: &Snapshot) -> (r: Vec<MenuEntry>)
    ensures
        entries_view(r@) == menu_of(s@),
{
    let mut menu: Vec<MenuEntry> = Vec::new();
    menu.push(action("open", "Open Manager"));
    menu.push(MenuEntry::Separator);
    if s.accounts.len() == 0 {
        menu.push(action("add", "Add Account..."));
        menu.push(MenuEntry::Separator);
        menu.push(action("quit", "Quit"));
        assert(entries_view(menu@) =~= menu_of(s@));
        return menu;
    }
    menu.push(header(s));
    menu.push(action("add", "Add Account..."));
    menu.push(MenuEntry::Separator);
    let ghost head = entries_view(menu@);
    assert(head =~= seq![
        open_entry(),
        EntryView::Separator,
        EntryView::Header { label: header_label(s@) },
        add_entry(),
        EntryView::Separator,
    ]);
    let mut i: usize = 0;
    while i < s.accounts.len()
        invariant
            i <= s.accounts.len(),
            menu@.len() == 5 + i,
            entries_view(menu@) == head + toggles(s@).take(i as int),
        decreases s.accounts.len() - i,
    {
        let ghost before = entries_view(menu@);
        menu.push(toggle(s, &s.accounts[i]));
        assert(entries_view(menu@) =~= before.push(toggle_entry(s@, s@.accounts[i as int])));
        assert(toggles(s@).take(i as int + 1) =~= toggles(s@).take(i as int).push(
            toggles(s@)[i as int],
        ));
        i = i + 1;
    }
    assert(toggles(s@).take(i as int) =~= toggles(s@));
    let ghost body = entries_view(menu@);
    menu.push(MenuEntry::Separator);
    menu.push(action("quit", "Quit"));
    assert(entries_view(menu@) =~= body + seq![EntryView::Separator, quit_entry()]);
    assert(entries_view(menu@) =~= menu_of(s@));
    menu
}

/// With no accounts the menu is "Open Manager", a separator, "Add Account...",
/// a separator and "Quit", whatever else the snapshot holds.
pub proof fn lemma_menu_without_accounts(s: SnapshotView)
    requires
        s.accounts.len() == 0,
    ensures
        menu_of(s) == seq![
            open_entry(),
            EntryView::Separator,
            add_entry(),
            EntryView::Separator,
            quit_entry(),
        ],
{
}

/// Where the active account is the `i`-th of a list without repeats, exactly
/// one entry of the menu is a checked toggle, and its id is the switch prefix
/// followed by that account's name.
pub proof fn lemma_one_checked_toggle(s: SnapshotView, i: int)
    requires
        crate::accounts::strictly_ascending(s.accounts),
        0 <= i < s.accounts.len(),
        s.active == Some(s.accounts[i]),
    ensures
        menu_of(s)[5 + i] matches EntryView::Toggle { id, checked, .. } && checked && id
            == switch_prefix() + s.accounts[i],
        forall|j: int|
            0 <= j < menu_of(s).len() && (#[trigger] menu_of(s)[j] matches EntryView::Toggle {
                checked,
                ..
            } && checked) ==> j == 5 + i,
{
    let m = menu_of(s);
    let n = s.accounts.len() as int;
    assert(m.len() == n + 7);
    assert forall|j: int|
        0 <= j < m.len() && (#[trigger] m[j] matches EntryView::Toggle { checked, .. }
            && checked) implies j == 5 + i by {
        if 5 <= j < 5 + n {
            assert(m[j] == toggle_entry(s, s.accounts[j - 5]));
            if j - 5 < i {
                crate::text::lemma_text_less_irreflexive(s.accounts[i]);
            } else if j - 5 > i {
                crate::text::lemma_text_less_irreflexive(s.accounts[i]);
            }
        }
    }
    assert(m[5 + i] == toggle_entry(s, s.accounts[i]));
}

/// The toggles stand in the menu in the order of the account list, one per
/// account, right after the header, "Add Account..." and a separator; so an
/// ascending account list is rendered in ascending order.
pub proof fn lemma_toggles_follow_accounts(s: SnapshotView)
    requires
        s.accounts.len() > 0,
    ensures
        menu_of(s).len() == s.accounts.len() + 7,
        forall|k: int| 0 <= k < s.accounts.len() ==> #[trigger] menu_of(s)[5 + k] == toggle_entry(s, s.accounts[k]),
{
    assert forall|k: int| 0 <= k < s.accounts.len() implies #[trigger] menu_of(s)[5 + k] == toggle_entry(s, s.accounts[k]) by {
        assert(toggles(s)[k] == toggle_entry(s, s.accounts[k]));
    }
}

/// The menu depends on the snapshot's contents alone: two snapshots with the
/// same contents, or one snapshot projected twice, give the same menu.
pub proof fn lemma_projection_deterministic(a: SnapshotView, b: SnapshotView)
    requires
        a == b,
    ensures
        menu_of(a) == menu_of(b),
{
}

} // verus!
