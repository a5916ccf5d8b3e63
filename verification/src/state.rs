//! The registry record, its mathematical view, and its serialized-size model.

use vstd::prelude::*;
use vstd::utf8::encode_utf8;
use anchor_lang::prelude::Pubkey;

verus! {

/// The fixed storage budget of the registry account, in bytes: once the
/// serialized record would no longer fit, appends must fail.
pub const REGISTRY_SPACE: u64 = 9000;

/// Bytes of an entry besides its link text: a 4-byte link length prefix,
/// a 32-byte submitter address and an 8-byte vote tally.
pub const ENTRY_FIXED_BYTES: u64 = 44;

/// Bytes of the record besides its entries: the two 8-byte counters and the
/// 4-byte length prefix of the entry sequence.
pub const REGISTRY_HEADER_BYTES: u64 = 20;

/// One submitted item: a caller-supplied link (kept opaque, not validated),
/// the submitter's address, and this entry's own vote tally.
pub struct ItemStruct {
    pub gif_link: String,
    pub user_address: Pubkey,
    pub votes: u64,
}

/// The singleton registry record: the aggregate counters and the ordered,
/// append-only entry sequence.
pub struct BaseAccount {
    pub total_gifs: u64,
    pub total_votes: u64,
    pub gif_list: Vec<ItemStruct>,
}

/// Mathematical view of one entry.
#[verifier::ext_equal]
pub struct ItemView {
    pub gif_link: Seq<char>,
    pub user_address: Pubkey,
    pub votes: nat,
}

/// Mathematical view of the registry record.
#[verifier::ext_equal]
pub struct RegistryView {
    pub total_gifs: nat,
    pub total_votes: nat,
    pub gif_list: Seq<ItemView>,
}

impl View for ItemStruct {
    type V = ItemView;

    open spec fn view(&self) -> ItemView {
        ItemView {
            gif_link: self.gif_link@,
            user_address: self.user_address,
            votes: self.votes as nat,
        }
    }
}

impl View for BaseAccount {
    type V = RegistryView;

    open spec fn view(&self) -> RegistryView {
        RegistryView {
            total_gifs: self.total_gifs as nat,
            total_votes: self.total_votes as nat,
            gif_list: self.gif_list@.map_values(|e: ItemStruct| e@),
        }
    }
}

/// The UTF-8 bytes a link serializes to.
pub open spec fn link_bytes(link: Seq<char>) -> Seq<u8> {
    encode_utf8(link)
}

/// Serialized size of one entry: the fixed part plus the link's UTF-8 bytes.
pub open spec fn entry_ser_size(e: ItemView) -> int {
    ENTRY_FIXED_BYTES + link_bytes(e.gif_link).len()
}

/// Serialized size of an entry sequence.
pub open spec fn entries_ser_size(entries: Seq<ItemView>) -> int
    decreases entries.len(),
{
    if entries.len() == 0 {
        0
    } else {
        entries_ser_size(entries.drop_last()) + entry_ser_size(entries.last())
    }
}

/// Serialized size of the whole record: header plus entries.
pub open spec fn registry_ser_size(s: RegistryView) -> int {
    REGISTRY_HEADER_BYTES + entries_ser_size(s.gif_list)
}

impl RegistryView {
    /// Well-formedness of a registry state: the entry counter tracks the
    /// sequence length, the record fits its storage budget, and no entry's
    /// tally exceeds the number of vote calls ever applied.
    pub open spec fn wf(self) -> bool {
        &&& self.total_gifs == self.gif_list.len()
        &&& registry_ser_size(self) <= REGISTRY_SPACE
        &&& forall|i: int|
            0 <= i < self.gif_list.len() ==> (#[trigger] self.gif_list[i]).votes
                <= self.total_votes
    }
}

impl BaseAccount {
    /// Well-formedness of the executable record, stated on its view.
    pub open spec fn wf(self) -> bool {
        self@.wf()
    }

    /// Computes the record's serialized size in bytes.  Restricted to records
    /// within the storage budget so that the running total cannot overflow.
    pub fn serialized_size(&self) -> (n: u64)
        requires
            registry_ser_size(self@) <= REGISTRY_SPACE,
        ensures
            n == registry_ser_size(self@),
    {
        let ghost entries = self@.gif_list;
        let n_entries: usize = self.gif_list.len();
        let mut total: u64 = REGISTRY_HEADER_BYTES;
        let mut i: usize = 0;
        while i < n_entries
            invariant
                i <= n_entries,
                n_entries == self.gif_list.len(),
                entries == self@.gif_list,
                registry_ser_size(self@) <= REGISTRY_SPACE,
                total == REGISTRY_HEADER_BYTES + entries_ser_size(entries.take(i as int)),
                total <= REGISTRY_SPACE,
            decreases n_entries - i,
        {
            proof {
                lemma_entries_size_take_succ(entries, i as int);
                lemma_entries_size_prefix_le(entries, i as int + 1);
            }
            let blen: usize = self.gif_list[i].gif_link.as_str().as_bytes().len();
            total = total + ENTRY_FIXED_BYTES + (blen as u64);
            i = i + 1;
        }
        proof {
            assert(entries.take(n_entries as int) =~= entries);
        }
        total
    }

    /// Decides well-formedness of an arbitrary record, so that unverified
    /// callers can test it before handing the record to an operation.
    pub fn is_well_formed(&self) -> (b: bool)
        ensures
            b == self.wf(),
    {
        let n_entries: usize = self.gif_list.len();
        proof {
            assert(self@.gif_list.len() == self.gif_list@.len());
        }
        if self.total_gifs != n_entries as u64 {
            return false;
        }
        let mut i: usize = 0;
        while i < n_entries
            invariant
                i <= n_entries,
                n_entries == self.gif_list.len(),
                forall|k: int|
                    0 <= k < i ==> (#[trigger] self@.gif_list[k]).votes <= self.total_votes,
            decreases n_entries - i,
        {
            if self.gif_list[i].votes > self.total_votes {
                proof {
                    assert(self@.gif_list[i as int] == self.gif_list@[i as int]@);
                }
                return false;
            }
            i = i + 1;
        }
        let ghost entries = self@.gif_list;
        let mut total: u64 = REGISTRY_HEADER_BYTES;
        let mut j: usize = 0;
        while j < n_entries
            invariant
                j <= n_entries,
                n_entries == self.gif_list.len(),
                entries == self@.gif_list,
                total == REGISTRY_HEADER_BYTES + entries_ser_size(entries.take(j as int)),
                total <= REGISTRY_SPACE,
            decreases n_entries - j,
        {
            proof {
                lemma_entries_size_take_succ(entries, j as int);
                lemma_entries_size_prefix_le(entries, j as int + 1);
                lemma_entries_size_lower_bound(entries.take(j as int));
            }
            let blen: usize = self.gif_list[j].gif_link.as_str().as_bytes().len();
            if blen as u64 > REGISTRY_SPACE {
                return false;
            }
            let entry_bytes: u64 = ENTRY_FIXED_BYTES + (blen as u64);
            if REGISTRY_SPACE - total < entry_bytes {
                return false;
            }
            total = total + entry_bytes;
            j = j + 1;
        }
        proof {
            assert(entries.take(n_entries as int) =~= entries);
        }
        true
    }
}

/// Every entry takes at least its fixed bytes, so a sequence's size grows at
/// least linearly with its length.
pub proof fn lemma_entries_size_lower_bound(entries: Seq<ItemView>)
    ensures
        entries_ser_size(entries) >= ENTRY_FIXED_BYTES * entries.len(),
    decreases entries.len(),
{
    if entries.len() > 0 {
        lemma_entries_size_lower_bound(entries.drop_last());
    }
}

/// Extending a prefix by one entry adds exactly that entry's size.
pub proof fn lemma_entries_size_take_succ(entries: Seq<ItemView>, i: int)
    requires
        0 <= i < entries.len(),
    ensures
        entries_ser_size(entries.take(i + 1)) == entries_ser_size(entries.take(i))
            + entry_ser_size(entries[i]),
{
    assert(entries.take(i + 1).drop_last() =~= entries.take(i));
    assert(entries.take(i + 1).last() == entries[i]);
}

/// A prefix never serializes larger than the whole sequence.
pub proof fn lemma_entries_size_prefix_le(entries: Seq<ItemView>, i: int)
    requires
        0 <= i <= entries.len(),
    ensures
        entries_ser_size(entries.take(i)) <= entries_ser_size(entries),
    decreases entries.len() - i,
{
    if i == entries.len() {
        assert(entries.take(i) =~= entries);
    } else {
        lemma_entries_size_take_succ(entries, i);
        lemma_entries_size_prefix_le(entries, i + 1);
    }
}

/// The serialized size depends on the links alone, never on the tallies or
/// the submitters.
pub proof fn lemma_entries_size_links_only(s1: Seq<ItemView>, s2: Seq<ItemView>)
    requires
        s1.len() == s2.len(),
        forall|k: int| 0 <= k < s1.len() ==> (#[trigger] s1[k]).gif_link == s2[k].gif_link,
    ensures
        entries_ser_size(s1) == entries_ser_size(s2),
    decreases s1.len(),
{
    if s1.len() > 0 {
        lemma_entries_size_links_only(s1.drop_last(), s2.drop_last());
    }
}

} // verus!
