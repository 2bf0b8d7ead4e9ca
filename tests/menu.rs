use tray_accounts::accounts::{collect_accounts, DirEntry};
use tray_accounts::menu::{build_tray_menu, MenuEntry};
use tray_accounts::snapshot::{find_usage, load_state, AccountUsage, Snapshot};
use tray_accounts::usage::{UsageCounter, UsageStats};

fn dir(name: &str) -> DirEntry {
    DirEntry { name: Some(name.to_string()), is_dir: true }
}

fn file(name: &str) -> DirEntry {
    DirEntry { name: Some(name.to_string()), is_dir: false }
}

fn action(id: &str, label: &str) -> MenuEntry {
    MenuEntry::Action { id: id.to_string(), label: label.to_string(), enabled: true }
}

fn toggle(name: &str, label: &str, checked: bool) -> MenuEntry {
    MenuEntry::Toggle { id: format!("switch:{}", name), label: label.to_string(), checked }
}

fn header(label: &str) -> MenuEntry {
    MenuEntry::Header { label: label.to_string() }
}

fn counter(used: u64, limit: u64) -> UsageCounter {
    UsageCounter { used: Some(used), limit: Some(limit) }
}

fn empty_menu() -> Vec<MenuEntry> {
    vec![
        action("open", "Open Manager"),
        MenuEntry::Separator,
        action("add", "Add Account..."),
        MenuEntry::Separator,
        action("quit", "Quit"),
    ]
}

fn snapshot(active: Option<&str>, accounts: &[&str], usage: Vec<AccountUsage>) -> Snapshot {
    Snapshot {
        active_account: active.map(|a| a.to_string()),
        accounts: accounts.iter().map(|a| a.to_string()).collect(),
        usage,
    }
}

#[test]
fn active_work_with_two_accounts() {
    let listing = vec![dir("work"), dir("personal")];
    let s = load_state(Some("work".to_string()), &listing, vec![]);
    let menu = build_tray_menu(&s);
    assert_eq!(
        menu,
        vec![
            action("open", "Open Manager"),
            MenuEntry::Separator,
            header("Active: work (2)"),
            action("add", "Add Account..."),
            MenuEntry::Separator,
            toggle("personal", "personal", false),
            toggle("work", "work", true),
            MenuEntry::Separator,
            action("quit", "Quit"),
        ]
    );
}

#[test]
fn nothing_on_disk_gives_empty_form() {
    let s = load_state(None, &vec![], vec![]);
    assert_eq!(s.active_account, None);
    assert!(s.accounts.is_empty());
    assert_eq!(build_tray_menu(&s), empty_menu());
}

#[test]
fn no_accounts_ignores_active_and_usage() {
    let usage = vec![AccountUsage {
        account: "work".to_string(),
        stats: UsageStats { five_hour: counter(1, 2), weekly: counter(1, 4) },
    }];
    let s = snapshot(Some("work"), &[], usage);
    assert_eq!(build_tray_menu(&s), empty_menu());
}

#[test]
fn exactly_one_toggle_checked() {
    let s = snapshot(Some("b"), &["a", "b", "c"], vec![]);
    let menu = build_tray_menu(&s);
    let checked: Vec<&MenuEntry> = menu
        .iter()
        .filter(|e| matches!(e, MenuEntry::Toggle { checked: true, .. }))
        .collect();
    assert_eq!(checked.len(), 1);
    assert_eq!(*checked[0], toggle("b", "b", true));
    assert_eq!(menu[6], toggle("b", "b", true));
}

#[test]
fn header_without_active_account() {
    let s = snapshot(None, &["a", "b"], vec![]);
    let menu = build_tray_menu(&s);
    assert_eq!(menu[2], header("Accounts (2)"));
    assert!(menu.iter().all(|e| !matches!(e, MenuEntry::Toggle { checked: true, .. })));
}

#[test]
fn header_with_empty_active_name() {
    let s = snapshot(Some(""), &["a"], vec![]);
    assert_eq!(build_tray_menu(&s)[2], header("Accounts (1)"));
}

#[test]
fn header_names_unlisted_active_account() {
    let s = snapshot(Some("gone"), &["a", "b", "c", "d", "e", "f", "g", "h", "i", "j", "k"], vec![]);
    let menu = build_tray_menu(&s);
    assert_eq!(menu[2], header("Active: gone (11)"));
    assert_eq!(menu.len(), 18);
    assert!(menu.iter().all(|e| !matches!(e, MenuEntry::Toggle { checked: true, .. })));
}

#[test]
fn projection_is_repeatable() {
    let usage = vec![AccountUsage {
        account: "a".to_string(),
        stats: UsageStats { five_hour: counter(30, 60), weekly: counter(0, 10) },
    }];
    let s = snapshot(Some("a"), &["a", "b"], usage);
    let first = build_tray_menu(&s);
    let second = build_tray_menu(&s);
    assert_eq!(first, second);
    assert_eq!(build_tray_menu(&s.clone()), first);
}

#[test]
fn usage_label_on_toggle() {
    let usage = vec![AccountUsage {
        account: "work".to_string(),
        stats: UsageStats { five_hour: counter(30, 60), weekly: counter(7, 0) },
    }];
    let s = snapshot(Some("work"), &["home", "work"], usage);
    let menu = build_tray_menu(&s);
    assert_eq!(menu[5], toggle("home", "home", false));
    assert_eq!(menu[6], toggle("work", "work [5h: 50% / W: 700%]", true));
}

#[test]
fn usage_lookup_takes_first_record() {
    let first = UsageStats { five_hour: counter(1, 2), weekly: counter(3, 4) };
    let second = UsageStats { five_hour: counter(5, 6), weekly: counter(7, 8) };
    let usage = vec![
        AccountUsage { account: "x".to_string(), stats: second },
        AccountUsage { account: "a".to_string(), stats: first },
        AccountUsage { account: "a".to_string(), stats: second },
    ];
    assert_eq!(find_usage(&usage, "a"), Some(first));
    assert_eq!(find_usage(&usage, "b"), None);
}

#[test]
fn accounts_sorted_whatever_listing_order() {
    let forward = vec![dir("alpha"), dir("beta"), dir("gamma")];
    let backward = vec![dir("gamma"), dir("beta"), dir("alpha")];
    let mixed = vec![dir("beta"), dir("gamma"), dir("alpha")];
    let want = vec!["alpha".to_string(), "beta".to_string(), "gamma".to_string()];
    assert_eq!(collect_accounts(&forward), want);
    assert_eq!(collect_accounts(&backward), want);
    assert_eq!(collect_accounts(&mixed), want);
}

#[test]
fn accounts_sorted_case_sensitive() {
    let listing = vec![dir("b"), dir("B"), dir("a"), dir("ab"), dir("A"), dir("é")];
    assert_eq!(collect_accounts(&listing), vec!["A", "B", "a", "ab", "b", "é"]);
}

#[test]
fn repeated_names_listed_once() {
    let listing = vec![dir("x"), dir("y"), dir("x")];
    assert_eq!(collect_accounts(&listing), vec!["x", "y"]);
}

#[test]
fn hidden_and_plain_entries_excluded() {
    let listing = vec![
        dir(".git"),
        dir("work"),
        file("notes.txt"),
        DirEntry { name: None, is_dir: true },
        dir("."),
        dir("a.b"),
    ];
    assert_eq!(collect_accounts(&listing), vec!["a.b", "work"]);
}

#[test]
fn load_state_keeps_active_and_usage() {
    let usage = vec![AccountUsage {
        account: "w".to_string(),
        stats: UsageStats { five_hour: counter(1, 1), weekly: counter(1, 1) },
    }];
    let s = load_state(Some("w".to_string()), &vec![dir("w"), dir(".h")], usage.clone());
    assert_eq!(s.active_account, Some("w".to_string()));
    assert_eq!(s.accounts, vec!["w".to_string()]);
    assert_eq!(s.usage, usage);
}
