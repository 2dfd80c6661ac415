//! Channel tally: a single order-independent pass that counts how many
//! channels of a guild fall into each fixed bucket. Every bucket is always
//! present; a bucket no channel falls into counts zero.

use vstd::multiset::Multiset;
use vstd::prelude::*;

use crate::model::ChannelDescriptor;
use crate::model::ChannelKind;

verus! {

/// Membership of the bucket `k`.
pub open spec fn has_kind(k: ChannelKind) -> spec_fn(ChannelDescriptor) -> bool {
    |c: ChannelDescriptor| c.kind == k
}

/// The channels of bucket `k`, taken as a multiset: what remains of a
/// channel list when its order is forgotten.
pub open spec fn bucket_multiset(channels: Seq<ChannelDescriptor>, k: ChannelKind) -> Multiset<
    ChannelDescriptor,
> {
    channels.to_multiset().filter(has_kind(k))
}

/// How many of the first `channels` are classified as `k`.
pub open spec fn count_kind(channels: Seq<ChannelDescriptor>, k: ChannelKind) -> int
    decreases channels.len(),
{
    if channels.len() == 0 {
        0
    } else {
        count_kind(channels.drop_last(), k) + if channels.last().kind == k {
            1int
        } else {
            0int
        }
    }
}

/// Per-bucket channel counts. Unseen buckets are zero, never absent.
#[derive(Clone, Copy, PartialEq, Eq, Structural, Debug)]
pub struct ChannelTally {
    pub category: usize,
    pub text: usize,
    pub voice: usize,
    pub other: usize,
}

impl ChannelTally {
    /// The tally is exactly the per-bucket count of `channels`.
    pub open spec fn matches(self, channels: Seq<ChannelDescriptor>) -> bool {
        &&& self.category == count_kind(channels, ChannelKind::Category)
        &&& self.text == count_kind(channels, ChannelKind::Text)
        &&& self.voice == count_kind(channels, ChannelKind::Voice)
        &&& self.other == count_kind(channels, ChannelKind::Other)
    }

    /// The sum of all bucket counts.
    pub open spec fn total(self) -> int {
        self.category + self.text + self.voice + self.other
    }

    /// The count of one bucket.
    pub fn get(&self, k: ChannelKind) -> (r: usize)
        ensures
            k == ChannelKind::Category ==> r == self.category,
            k == ChannelKind::Text ==> r == self.text,
            k == ChannelKind::Voice ==> r == self.voice,
            k == ChannelKind::Other ==> r == self.other,
    {
        match k {
            ChannelKind::Category => self.category,
            ChannelKind::Text => self.text,
            ChannelKind::Voice => self.voice,
            ChannelKind::Other => self.other,
        }
    }
}

/// Counts the channels of each bucket in one pass. The four counts always
/// sum to the number of input channels.
#[verifier::loop_isolation(false)]
pub fn tally(channels: &Vec<ChannelDescriptor>) -> (r: ChannelTally)
    ensures
        r.matches(channels@),
        r.total() == channels@.len(),
{
    let mut category: usize = 0;
    let mut text: usize = 0;
    let mut voice: usize = 0;
    let mut other: usize = 0;
    let mut i: usize = 0;
    proof {
        assert(channels@.take(0) =~= Seq::<ChannelDescriptor>::empty());
    }
    while i < channels.len()
        invariant
            i <= channels.len(),
            category == count_kind(channels@.take(i as int), ChannelKind::Category),
            text == count_kind(channels@.take(i as int), ChannelKind::Text),
            voice == count_kind(channels@.take(i as int), ChannelKind::Voice),
            other == count_kind(channels@.take(i as int), ChannelKind::Other),
            category + text + voice + other == i,
        decreases channels.len() - i,
    {
        proof {
            assert(channels@.take(i + 1).drop_last() =~= channels@.take(i as int));
            assert(channels@.take(i + 1).last() == channels@[i as int]);
        }
        match channels[i].kind {
            ChannelKind::Category => {
                category = category + 1;
            },
            ChannelKind::Text => {
                text = text + 1;
            },
            ChannelKind::Voice => {
                voice = voice + 1;
            },
            ChannelKind::Other => {
                other = other + 1;
            },
        }
        i = i + 1;
    }
    proof {
        assert(channels@.take(channels@.len() as int) =~= channels@);
    }
    ChannelTally { category, text, voice, other }
}

proof fn lemma_filter_insert(m: Multiset<ChannelDescriptor>, k: ChannelKind, x: ChannelDescriptor)
    ensures
        m.insert(x).filter(has_kind(k)) == (if x.kind == k {
            m.filter(has_kind(k)).insert(x)
        } else {
            m.filter(has_kind(k))
        }),
{
    broadcast use vstd::multiset::group_multiset_axioms;

    if x.kind == k {
        assert(m.insert(x).filter(has_kind(k)) =~= m.filter(has_kind(k)).insert(x));
    } else {
        assert(m.insert(x).filter(has_kind(k)) =~= m.filter(has_kind(k)));
    }
}

/// Law: each bucket count is the size of the multiset of that bucket's
/// channels, so the tally depends only on which channels occur, not on
/// their order.
pub proof fn lemma_count_kind_multiset(channels: Seq<ChannelDescriptor>, k: ChannelKind)
    ensures
        count_kind(channels, k) == bucket_multiset(channels, k).len(),
    decreases channels.len(),
{
    broadcast use vstd::multiset::group_multiset_axioms;
    broadcast use vstd::multiset::group_multiset_properties;
    broadcast use vstd::seq_lib::group_to_multiset_ensures;

    if channels.len() == 0 {
        assert(channels.to_multiset().len() == 0);
        assert(bucket_multiset(channels, k) =~= Multiset::<ChannelDescriptor>::empty());
    } else {
        let d = channels.drop_last();
        let x = channels.last();
        lemma_count_kind_multiset(d, k);
        assert(channels =~= d.push(x));
        assert(d.push(x).to_multiset() =~= d.to_multiset().insert(x));
        lemma_filter_insert(d.to_multiset(), k, x);
        if x.kind == k {
            assert(bucket_multiset(channels, k).len() == bucket_multiset(d, k).len() + 1);
        }
    }
}

/// Law: the tally is order-independent — two channel lists that hold the
/// same channels in any order have the same count in every bucket.
pub proof fn lemma_tally_order_independent(
    a: Seq<ChannelDescriptor>,
    b: Seq<ChannelDescriptor>,
    k: ChannelKind,
)
    requires
        a.to_multiset() == b.to_multiset(),
    ensures
        count_kind(a, k) == count_kind(b, k),
{
    lemma_count_kind_multiset(a, k);
    lemma_count_kind_multiset(b, k);
}

} // verus!
