//! Properties of the registry's transitions, stated and proved once for all
//! states and inputs.

use vstd::prelude::*;
use anchor_lang::prelude::Pubkey;
use crate::state::{
    entry_ser_size, lemma_entries_size_links_only, registry_ser_size, RegistryView,
    REGISTRY_SPACE,
};
use crate::ops::{
    add_gif_spec, empty_registry, init_spec, new_item, tip_spec, vote_efficient_spec, vote_spec,
    RegistryError, TIP_LAMPORTS,
};

verus! {

/// The registry after an append attempt: the new state on success, the old
/// state untouched on failure.
pub open spec fn apply_add_gif(s: RegistryView, link: Seq<char>, user: Pubkey) -> RegistryView {
    match add_gif_spec(s, link, user) {
        Ok(v) => v,
        Err(_) => s,
    }
}

/// One registry operation connects `pre` to `post`: an append (successful or
/// failed), a vote, or a snapshot vote.
pub open spec fn step(pre: RegistryView, post: RegistryView) -> bool {
    ||| exists|link: Seq<char>, user: Pubkey| post == apply_add_gif(pre, link, user)
    ||| exists|link: Seq<char>| post == vote_spec(pre, link)
    ||| post == vote_efficient_spec(pre)
}

/// A trace: a sequence of states whose consecutive elements are connected by
/// single operations.
pub open spec fn is_trace(t: Seq<RegistryView>) -> bool {
    forall|k: int| 0 <= k && k + 1 < t.len() ==> #[trigger] step(t[k], t[k + 1])
}

/// Monotonicity, one step: no operation decreases either counter.
pub proof fn lemma_step_monotonic(pre: RegistryView, post: RegistryView)
    requires
        step(pre, post),
    ensures
        post.total_gifs >= pre.total_gifs,
        post.total_votes >= pre.total_votes,
{
    if exists|link: Seq<char>, user: Pubkey| post == apply_add_gif(pre, link, user) {
        let (link, user) = choose|link: Seq<char>, user: Pubkey|
            post == apply_add_gif(pre, link, user);
        assert(post == apply_add_gif(pre, link, user));
    } else if exists|link: Seq<char>| post == vote_spec(pre, link) {
        let link = choose|link: Seq<char>| post == vote_spec(pre, link);
        assert(post == vote_spec(pre, link));
    } else {
        assert(post == vote_efficient_spec(pre));
    }
}

/// Monotonicity: across any sequence of operations, from any state, neither
/// the entry counter nor the vote counter ever decreases.
pub proof fn lemma_trace_monotonic(t: Seq<RegistryView>, i: int, j: int)
    requires
        is_trace(t),
        0 <= i <= j < t.len(),
    ensures
        t[j].total_gifs >= t[i].total_gifs,
        t[j].total_votes >= t[i].total_votes,
    decreases j - i,
{
    if i < j {
        lemma_trace_monotonic(t, i, j - 1);
        assert(step(t[j - 1], t[(j - 1) + 1]));
        lemma_step_monotonic(t[j - 1], t[j]);
    }
}

/// Every operation preserves well-formedness, so every state reachable from a
/// well-formed one is well-formed.
pub proof fn lemma_step_preserves_wf(pre: RegistryView, post: RegistryView)
    requires
        pre.wf(),
        step(pre, post),
    ensures
        post.wf(),
{
    if exists|link: Seq<char>, user: Pubkey| post == apply_add_gif(pre, link, user) {
        let (link, user) = choose|link: Seq<char>, user: Pubkey|
            post == apply_add_gif(pre, link, user);
        assert(post == apply_add_gif(pre, link, user));
        if add_gif_spec(pre, link, user) is Ok {
            assert(post.gif_list.drop_last() =~= pre.gif_list);
            assert(post.gif_list.last() == new_item(link, user));
        }
    } else if exists|link: Seq<char>| post == vote_spec(pre, link) {
        let link = choose|link: Seq<char>| post == vote_spec(pre, link);
        assert(post == vote_spec(pre, link));
        lemma_entries_size_links_only(post.gif_list, pre.gif_list);
    } else {
        assert(post == vote_efficient_spec(pre));
    }
}

/// Append consistency: a successful append grows the entry counter and the
/// entry sequence by exactly one, puts exactly the call's entry (with a zero
/// tally) at the end, and touches neither the earlier entries nor the vote
/// counter.
pub proof fn lemma_append_consistency(s: RegistryView, link: Seq<char>, user: Pubkey)
    requires
        add_gif_spec(s, link, user) is Ok,
    ensures
        ({
            let post = add_gif_spec(s, link, user)->Ok_0;
            &&& post.total_gifs == s.total_gifs + 1
            &&& post.gif_list.len() == s.gif_list.len() + 1
            &&& post.gif_list.last() == new_item(link, user)
            &&& forall|k: int| 0 <= k < s.gif_list.len() ==> #[trigger] post.gif_list[k]
                == s.gif_list[k]
            &&& post.total_votes == s.total_votes
        }),
{
}

/// Vote-count/entry-votes divergence: when two entries share the voted link,
/// one vote call credits both entries' tallies, while the call counter still
/// grows by one only.
pub proof fn lemma_duplicate_links_both_credited(
    s: RegistryView,
    link: Seq<char>,
    i: int,
    j: int,
)
    requires
        0 <= i < s.gif_list.len(),
        0 <= j < s.gif_list.len(),
        i != j,
        s.gif_list[i].gif_link == link,
        s.gif_list[j].gif_link == link,
    ensures
        vote_spec(s, link).total_votes == s.total_votes + 1,
        vote_spec(s, link).gif_list[i].votes == s.gif_list[i].votes + 1,
        vote_spec(s, link).gif_list[j].votes == s.gif_list[j].votes + 1,
{
}

/// A vote matching no entry still counts: the call counter grows by one and
/// the entry sequence is left exactly as it was.
pub proof fn lemma_vote_no_match(s: RegistryView, link: Seq<char>)
    requires
        forall|k: int| 0 <= k < s.gif_list.len() ==> (#[trigger] s.gif_list[k]).gif_link != link,
    ensures
        vote_spec(s, link).total_votes == s.total_votes + 1,
        vote_spec(s, link).total_gifs == s.total_gifs,
        vote_spec(s, link).gif_list == s.gif_list,
{
    assert(vote_spec(s, link).gif_list =~= s.gif_list);
}

/// Re-initialization rejected: creation succeeds exactly when no record
/// exists; against an existing record, whatever it holds, the call fails with
/// `AlreadyInitialized` (and so cannot touch it).
pub proof fn lemma_reinitialize_rejected(v: RegistryView)
    ensures
        init_spec(Option::None) == Ok::<RegistryView, RegistryError>(empty_registry()),
        init_spec(Option::Some(v)) == Err::<RegistryView, RegistryError>(
            RegistryError::AlreadyInitialized,
        ),
{
}

/// Capacity boundary: an append fails, with `CapacityExceeded`, exactly when
/// the grown record would exceed the fixed storage budget, and succeeds
/// exactly when it still fits.
pub proof fn lemma_capacity_boundary(s: RegistryView, link: Seq<char>, user: Pubkey)
    ensures
        registry_ser_size(s) + entry_ser_size(new_item(link, user)) > REGISTRY_SPACE
            <==> add_gif_spec(s, link, user) == Err::<RegistryView, RegistryError>(
            RegistryError::CapacityExceeded,
        ),
        registry_ser_size(s) + entry_ser_size(new_item(link, user)) <= REGISTRY_SPACE
            <==> add_gif_spec(s, link, user) is Ok,
{
}

/// Transfer atomicity: a source balance below the fixed tip fails with
/// `InsufficientBalance` and produces no new balances; a successful transfer
/// moves exactly the fixed amount and conserves the total.
pub proof fn lemma_transfer_atomicity(from_balance: u64, to_balance: u64)
    ensures
        from_balance < TIP_LAMPORTS ==> tip_spec(from_balance, to_balance) == Err::<
            (u64, u64),
            RegistryError,
        >(RegistryError::InsufficientBalance),
        tip_spec(from_balance, to_balance) matches Ok((new_from, new_to)) ==> {
            &&& from_balance >= TIP_LAMPORTS
            &&& new_from == from_balance - TIP_LAMPORTS
            &&& new_to == to_balance + TIP_LAMPORTS
            &&& new_from + new_to == from_balance + to_balance
        },
{
}

} // verus!
