//! The four operation handlers and their specification-level transitions.
//!
//! Each executable handler is specified against a pure transition function on
//! [`RegistryView`]: the handler either applies the transition exactly or
//! fails with the transition's error and leaves the record untouched.

use vstd::prelude::*;
use anchor_lang::prelude::Pubkey;
use crate::state::{
    BaseAccount, ItemStruct, ItemView, RegistryView, entry_ser_size, registry_ser_size,
    lemma_entries_size_links_only, lemma_entries_size_lower_bound, ENTRY_FIXED_BYTES,
    REGISTRY_SPACE,
};

verus! {

/// The fixed tip, in the chain's native value unit (lamports).
pub const TIP_LAMPORTS: u64 = 100000;

/// The ways an operation can fail; each handler either completes fully or
/// returns one of these with no state changed.
#[derive(Clone, Copy, Debug, PartialEq, Eq, Structural)]
pub enum RegistryError {
    /// A registry record already exists at the target address.
    AlreadyInitialized,
    /// Appending the entry would push the record past its storage budget.
    CapacityExceeded,
    /// The tip source holds less than the fixed amount.
    InsufficientBalance,
    /// The native transfer primitive failed for any other reason.
    TransferFailed,
}

/// The state of a fresh registry: both counters zero, no entries.
pub open spec fn empty_registry() -> RegistryView {
    RegistryView { total_gifs: 0, total_votes: 0, gif_list: Seq::empty() }
}

/// View of the record, if any, stored at an address.
pub open spec fn view_opt(o: Option<BaseAccount>) -> Option<RegistryView> {
    match o {
        Option::Some(a) => Option::Some(a@),
        Option::None => Option::None,
    }
}

/// Specification of initialization: creation succeeds exactly once per
/// address; a second attempt fails without touching the existing record.
pub open spec fn init_spec(existing: Option<RegistryView>) -> Result<RegistryView, RegistryError> {
    match existing {
        Option::None => Ok(empty_registry()),
        Option::Some(_) => Err(RegistryError::AlreadyInitialized),
    }
}

/// The entry a successful append produces: the caller's link and address,
/// with a zero tally.
pub open spec fn new_item(link: Seq<char>, user: Pubkey) -> ItemView {
    ItemView { gif_link: link, user_address: user, votes: 0 }
}

/// Specification of appending an entry: the new entry goes at the end and the
/// entry counter grows by one, unless the grown record would no longer fit
/// its storage budget.
pub open spec fn add_gif_spec(s: RegistryView, link: Seq<char>, user: Pubkey) -> Result<
    RegistryView,
    RegistryError,
> {
    if registry_ser_size(s) + entry_ser_size(new_item(link, user)) > REGISTRY_SPACE {
        Err(RegistryError::CapacityExceeded)
    } else {
        Ok(
            RegistryView {
                total_gifs: s.total_gifs + 1,
                total_votes: s.total_votes,
                gif_list: s.gif_list.push(new_item(link, user)),
            },
        )
    }
}

/// One entry after a vote for `link`: its tally grows by one exactly when its
/// link equals the voted link.
pub open spec fn bump_if_match(e: ItemView, link: Seq<char>) -> ItemView {
    if e.gif_link == link {
        ItemView { votes: e.votes + 1, ..e }
    } else {
        e
    }
}

/// Specification of a vote: every entry whose link equals the input is
/// credited, and the call counter grows by one whatever the number of
/// matches — zero, one, or many.
pub open spec fn vote_spec(s: RegistryView, link: Seq<char>) -> RegistryView {
    RegistryView {
        total_gifs: s.total_gifs,
        total_votes: s.total_votes + 1,
        gif_list: Seq::new(s.gif_list.len(), |i: int| bump_if_match(s.gif_list[i], link)),
    }
}

/// Specification of the snapshot-vote variant: only the call counter moves;
/// every stored entry keeps its tally (see [`vote_efficient`]).
pub open spec fn vote_efficient_spec(s: RegistryView) -> RegistryView {
    RegistryView { total_votes: s.total_votes + 1, ..s }
}

/// Specification of the tip transfer: move the fixed amount from the source
/// balance to the destination balance, all or nothing.
pub open spec fn tip_spec(from_balance: u64, to_balance: u64) -> Result<(u64, u64), RegistryError> {
    if from_balance < TIP_LAMPORTS {
        Err(RegistryError::InsufficientBalance)
    } else if to_balance + TIP_LAMPORTS > u64::MAX {
        Err(RegistryError::TransferFailed)
    } else {
        Ok(((from_balance - TIP_LAMPORTS) as u64, (to_balance + TIP_LAMPORTS) as u64))
    }
}

/// Creates the registry record at an address, rejecting re-initialization:
/// if a record already sits there the call fails and leaves it untouched.
pub fn start_stuff_off(account: &mut Option<BaseAccount>) -> (r: Result<(), RegistryError>)
    ensures
        match init_spec(view_opt(*old(account))) {
            Ok(v) => {
                &&& r == Ok::<(), RegistryError>(())
                &&& view_opt(*final(account)) == Option::Some(v)
                &&& (*final(account) matches Option::Some(acc) && acc.wf())
            },
            Err(e) => {
                &&& r == Err::<(), RegistryError>(e)
                &&& *final(account) == *old(account)
            },
        },
{
    if account.is_some() {
        return Err(RegistryError::AlreadyInitialized);
    }
    let fresh = BaseAccount { total_gifs: 0, total_votes: 0, gif_list: Vec::new() };
    proof {
        assert(fresh@.gif_list =~= Seq::<ItemView>::empty());
        assert(fresh@ =~~= empty_registry());
    }
    *account = Some(fresh);
    Ok(())
}

/// Appends an entry for `gif_link`, submitted by `user_address`: the entry
/// goes at the end with a zero tally and the entry counter grows by one.
/// Links are not deduplicated — equal links make independent entries.  If the
/// grown record would exceed the storage budget, the call fails with
/// [`RegistryError::CapacityExceeded`] and the record is left exactly as it
/// was.
pub fn add_gif(base_account: &mut BaseAccount, gif_link: String, user_address: Pubkey) -> (r:
    Result<(), RegistryError>)
    requires
        old(base_account).wf(),
    ensures
        final(base_account).wf(),
        match r {
            Ok(()) => add_gif_spec(old(base_account)@, gif_link@, user_address) == Ok::<
                RegistryView,
                RegistryError,
            >(final(base_account)@),
            Err(e) => {
                &&& add_gif_spec(old(base_account)@, gif_link@, user_address) == Err::<
                    RegistryView,
                    RegistryError,
                >(e)
                &&& *final(base_account) == *old(base_account)
            },
        },
{
    let ghost pre = *base_account;
    let cur: u64 = base_account.serialized_size();
    let blen: usize = gif_link.as_str().as_bytes().len();
    proof {
        lemma_entries_size_lower_bound(pre@.gif_list);
    }
    if blen as u64 > REGISTRY_SPACE {
        return Err(RegistryError::CapacityExceeded);
    }
    if REGISTRY_SPACE - cur < ENTRY_FIXED_BYTES + (blen as u64) {
        return Err(RegistryError::CapacityExceeded);
    }
    let item = ItemStruct { gif_link, user_address, votes: 0 };
    base_account.gif_list.push(item);
    base_account.total_gifs = base_account.total_gifs + 1;
    proof {
        assert(base_account@.gif_list =~= pre@.gif_list.push(
            new_item(gif_link@, user_address),
        ));
        assert(base_account@.gif_list.drop_last() =~= pre@.gif_list);
        assert(add_gif_spec(pre@, gif_link@, user_address) matches Ok(v) && v =~~= base_account@);
    }
    Ok(())
}

/// Credits one vote for `gif_link`: scans the entries in order and grows the
/// tally of every entry whose link equals the input, then grows the call
/// counter by one.  A call matching no entry still succeeds and still counts.
pub fn vote(base_account: &mut BaseAccount, gif_link: String) -> (r: Result<(), RegistryError>)
    requires
        old(base_account).wf(),
        old(base_account).total_votes < u64::MAX,
    ensures
        final(base_account).wf(),
        final(base_account)@ == vote_spec(old(base_account)@, gif_link@),
        r == Ok::<(), RegistryError>(()),
{
    let ghost pre = *base_account;
    let n_entries: usize = base_account.gif_list.len();
    let mut i: usize = 0;
    while i < n_entries
        invariant
            i <= n_entries,
            n_entries == base_account.gif_list.len(),
            n_entries == pre@.gif_list.len(),
            n_entries == base_account@.gif_list.len(),
            pre.wf(),
            base_account.total_gifs == pre.total_gifs,
            base_account.total_votes == pre.total_votes,
            pre.total_votes < u64::MAX,
            forall|k: int|
                0 <= k < i ==> base_account@.gif_list[k] == bump_if_match(
                    #[trigger] pre@.gif_list[k],
                    gif_link@,
                ),
            forall|k: int|
                i <= k < n_entries ==> #[trigger] base_account@.gif_list[k] == pre@.gif_list[k],
        decreases n_entries - i,
    {
        proof {
            assert(base_account@.gif_list[i as int] == base_account.gif_list@[i as int]@);
            assert(pre@.gif_list[i as int].votes <= pre@.total_votes);
        }
        if base_account.gif_list[i].gif_link == gif_link {
            let ghost before = *base_account;
            let tally: u64 = base_account.gif_list[i].votes;
            base_account.gif_list[i].votes = tally + 1;
            proof {
                assert(base_account@.gif_list[i as int] == base_account.gif_list@[i as int]@);
                assert(base_account@.gif_list[i as int] == bump_if_match(
                    pre@.gif_list[i as int],
                    gif_link@,
                ));
                assert forall|k: int| 0 <= k < n_entries && k != i as int implies #[trigger] base_account@.gif_list[k]
                    == before@.gif_list[k] by {
                    assert(base_account@.gif_list[k] == base_account.gif_list@[k]@);
                    assert(before@.gif_list[k] == before.gif_list@[k]@);
                    assert(base_account.gif_list@[k] == before.gif_list@[k]);
                }
            }
        } else {
            proof {
                assert(base_account@.gif_list[i as int] == bump_if_match(
                    pre@.gif_list[i as int],
                    gif_link@,
                ));
            }
        }
        i = i + 1;
    }
    base_account.total_votes = base_account.total_votes + 1;
    proof {
        assert(base_account@.gif_list =~= vote_spec(pre@, gif_link@).gif_list);
        assert(base_account@ =~~= vote_spec(pre@, gif_link@));
        lemma_entries_size_links_only(base_account@.gif_list, pre@.gif_list);
    }
    Ok(())
}

/// The snapshot-vote variant: it takes a full entry by value, computes the
/// incremented tally into a local that is never written back to the record,
/// and so grows only the call counter while every stored entry's tally stays
/// unchanged.  This is a known defect of the operation's design, documented
/// here rather than silently repaired; use [`vote`] to credit entries.
pub fn vote_efficient(base_account: &mut BaseAccount, item: ItemStruct) -> (r: Result<
    (),
    RegistryError,
>)
    requires
        old(base_account).wf(),
        old(base_account).total_votes < u64::MAX,
        item.votes < u64::MAX,
    ensures
        final(base_account).wf(),
        final(base_account)@ == vote_efficient_spec(old(base_account)@),
        r == Ok::<(), RegistryError>(()),
{
    let ghost pre = *base_account;
    // The defect: the incremented tally lands in a local bound to the by-value
    // snapshot and is never written back to the stored entry.
    let _snapshot_tally: u64 = item.votes + 1;
    base_account.total_votes = base_account.total_votes + 1;
    proof {
        assert(base_account@ =~~= vote_efficient_spec(pre@));
    }
    Ok(())
}

/// Moves the fixed tip between two balances, atomically: on any failure both
/// balances are left exactly as they were (no new balances are produced).
/// The host chain's transfer primitive performs the actual movement; this is
/// the verified account of its outcome.
pub fn tip_sol(from_balance: u64, to_balance: u64) -> (r: Result<(u64, u64), RegistryError>)
    ensures
        r == tip_spec(from_balance, to_balance),
{
    if from_balance < TIP_LAMPORTS {
        Err(RegistryError::InsufficientBalance)
    } else if to_balance > u64::MAX - TIP_LAMPORTS {
        Err(RegistryError::TransferFailed)
    } else {
        Ok((from_balance - TIP_LAMPORTS, to_balance + TIP_LAMPORTS))
    }
}

} // verus!
