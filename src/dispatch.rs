//! What activating a menu entry asks for.
use vstd::prelude::*;
use crate::menu::switch_prefix;
use crate::text::{has_prefix, same_text, strip_prefix_text};

verus! {

/// What a menu activation asks the application to do.
#[derive(Clone, Debug, PartialEq, Eq)]
pub enum MenuIntent {
    /// End the process.
    Quit,
    /// Show and focus the main window.
    ShowWindow,
    /// Show and focus the main window, and ask for a new account.
    AddAccount,
    /// Ask to make `account` the active account, and show and focus the main window.
    SwitchAccount { account: String },
    /// Nothing: the id is not one of the menu's.
    Ignore,
}

/// The contents of an intent.
pub enum IntentView {
    Quit,
    ShowWindow,
    AddAccount,
    SwitchAccount { account: Seq<char> },
    Ignore,
}

impl View for MenuIntent {
    type V = IntentView;

    open spec fn view(&self) -> IntentView {
        match self {
            MenuIntent::Quit => IntentView::Quit,
            MenuIntent::ShowWindow => IntentView::ShowWindow,
            MenuIntent::AddAccount => IntentView::AddAccount,
            MenuIntent::SwitchAccount { account } => IntentView::SwitchAccount { account: account@ },
            MenuIntent::Ignore => IntentView::Ignore,
        }
    }
}

/// The intent of a menu id: `quit`, `open` and `add` by name, and
/// `switch:<name>` for the account `<name>`.
pub open spec fn intent_of(id: Seq<char>) -> IntentView {
    if id == "quit"@ {
        IntentView::Quit
    } else if id == "open"@ {
        IntentView::ShowWindow
    } else if id == "add"@ {
        IntentView::AddAccount
    } else if has_prefix(id, switch_prefix()) {
        IntentView::SwitchAccount { account: id.skip(switch_prefix().len() as int) }
    } else {
        IntentView::Ignore
    }
}

/// Maps the id of an activated menu entry to its intent.
pub fn dispatch(id: &str) -> (r: MenuIntent)
    ensures
        r@ == intent_of(id@),
{
    if same_text(id, "quit") {
        MenuIntent::Quit
    } else if same_text(id, "open") {
        MenuIntent::ShowWindow
    } else if same_text(id, "add") {
        MenuIntent::AddAccount
    } else {
        match strip_prefix_text(id, "switch:") {
            Some(account) => {
                assert(account@ =~= id@.skip(switch_prefix().len() as int));
                MenuIntent::SwitchAccount { account }
            },
            None => MenuIntent::Ignore,
        }
    }
}

/// Activating the toggle of an account asks to switch to that very account.
pub proof fn lemma_toggle_dispatch(name: Seq<char>)
    ensures
        intent_of(switch_prefix() + name) == (IntentView::SwitchAccount { account: name }),
{
    reveal_strlit("switch:");
    reveal_strlit("quit");
    reveal_strlit("open");
    reveal_strlit("add");
    let id = switch_prefix() + name;
    assert(id.len() >= 7);
    assert(id.subrange(0, 7) =~= switch_prefix());
    assert(id.skip(7) =~= name);
}

} // verus!
