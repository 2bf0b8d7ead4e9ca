//! The snapshot: what is on disk about the accounts at one instant.
use vstd::prelude::*;
use crate::accounts::{DirEntry, account_names, collect_accounts, strictly_ascending};
use crate::text::same_text;
use crate::usage::UsageStats;

verus! {

/// The usage recorded for one account.
#[derive(Clone, Debug, PartialEq, Eq)]
pub struct AccountUsage {
    pub account: String,
    pub stats: UsageStats,
}

/// The state of the accounts: the active account, the account list, and the
/// usage recorded per account name.
#[derive(Clone, Debug, PartialEq, Eq)]
pub struct Snapshot {
    pub active_account: Option<String>,
    pub accounts: Vec<String>,
    pub usage: Vec<AccountUsage>,
}

/// The contents of a snapshot.
pub struct SnapshotView {
    pub active: Option<Seq<char>>,
    pub accounts: Seq<Seq<char>>,
    pub usage: Seq<(Seq<char>, UsageStats)>,
}

impl View for AccountUsage {
    type V = (Seq<char>, UsageStats);

    open spec fn view(&self) -> (Seq<char>, UsageStats) {
        (self.account@, self.stats)
    }
}

pub open spec fn usage_view(u: Seq<AccountUsage>) -> Seq<(Seq<char>, UsageStats)> {
    u.map_values(|a: AccountUsage| a@)
}

impl View for Snapshot {
    type V = SnapshotView;

    open spec fn view(&self) -> SnapshotView {
        SnapshotView {
            active: self.active_account.deep_view(),
            accounts: self.accounts.deep_view(),
            usage: usage_view(self.usage@),
        }
    }
}

impl Snapshot {
    /// The account list is strictly ascending, so each account appears once.
    pub open spec fn wf(&self) -> bool {
        strictly_ascending(self.accounts.deep_view())
    }
}

/// The usage recorded for `name`: the first record for that name, if any.
pub open spec fn usage_for(u: Seq<(Seq<char>, UsageStats)>, name: Seq<char>) -> Option<UsageStats>
    decreases u.len(),
{
    if u.len() == 0 {
        None
    } else if u[0].0 == name {
        Some(u[0].1)
    } else {
        usage_for(u.drop_first(), name)
    }
}

/// Looks up the usage recorded for `name`.
pub fn find_usage(usage: &Vec<AccountUsage>, name: &str) -> (r: Option<UsageStats>)
    ensures
        r == usage_for(usage_view(usage@), name@),
{
    let ghost all = usage_view(usage@);
    let mut i: usize = 0;
    assert(all.skip(0) =~= all);
    while i < usage.len()
        invariant
            i <= usage.len(),
            all == usage_view(usage@),
            usage_for(all, name@) == usage_for(all.skip(i as int), name@),
        decreases usage.len() - i,
    {
        assert(all.skip(i as int)[0] == usage@[i as int]@);
        if same_text(usage[i].account.as_str(), name) {
            return Some(usage[i].stats);
        }
        assert(all.skip(i as int).drop_first() =~= all.skip(i as int + 1));
        i = i + 1;
    }
    None
}

/// Builds the snapshot from what was read: the active account named by the
/// configuration (`None` where it names none or could not be read), the
/// listing of the accounts directory (empty where it could not be read), and
/// the usage records (empty where there are none or they could not be read).
pub fn load_state(
    active_account: Option<String>,
    listing: &Vec<DirEntry>,
    usage: Vec<AccountUsage>,
) -> (r: Snapshot)
    ensures
        r.wf(),
        r@.active == active_account.deep_view(),
        r@.accounts == account_names(listing@),
        r@.usage == usage_view(usage@),
{
    let accounts = collect_accounts(listing);
    Snapshot { active_account, accounts, usage }
}

} // verus!
