//! Per-channel conversation history: an ordered, size-bounded sequence of
//! prior completion texts, kept in a process-wide store keyed by channel id.

use std::collections::HashMap;
use vstd::prelude::*;

verus! {

/// Maximum number of entries retained in one channel's history.
pub const HISTORY_BOUND: usize = 100;

/// One channel's history after appending `entry`: when the append would
/// exceed `HISTORY_BOUND`, the oldest entry is evicted first, so the result
/// never exceeds the bound and the newest entry is always kept.
pub open spec fn push_bounded(h: Seq<Seq<char>>, entry: Seq<char>) -> Seq<Seq<char>> {
    if h.len() >= HISTORY_BOUND {
        h.subrange(1, h.len() as int).push(entry)
    } else {
        h.push(entry)
    }
}

/// The history that results from appending every element of `entries`, in
/// order, to an initially empty history, evicting at the bound each time.
pub open spec fn history_of(entries: Seq<Seq<char>>) -> Seq<Seq<char>>
    decreases entries.len(),
{
    if entries.len() == 0 {
        Seq::empty()
    } else {
        push_bounded(history_of(entries.drop_last()), entries.last())
    }
}

/// Append `entry` to `list`, evicting the oldest element first when the
/// append would otherwise exceed `HISTORY_BOUND`.
pub fn push_recent(list: &mut Vec<String>, entry: String)
    ensures
        final(list).deep_view() == push_bounded(old(list).deep_view(), entry@),
{
    if list.len() >= HISTORY_BOUND {
        list.remove(0);
    }
    list.push(entry);
    proof {
        assert(list.deep_view() =~= push_bounded(old(list).deep_view(), entry@));
    }
}

/// The per-channel history store: a mapping from channel id to that
/// channel's ordered history. Created empty at startup; entries appear
/// lazily on first write; nothing is ever deleted. The surrounding process
/// serializes individual `get` and `set` calls (one lock around the table),
/// but a `get` followed by a `set` is two independent critical sections:
/// concurrent handlers for one channel race last-writer-wins, an accepted
/// weak-consistency policy.
pub struct HistoryStore {
    table: HashMap<u64, Vec<String>>,
}

impl View for HistoryStore {
    type V = Map<u64, Seq<Seq<char>>>;

    closed spec fn view(&self) -> Map<u64, Seq<Seq<char>>> {
        self.table@.map_values(|v: Vec<String>| v.deep_view())
    }
}

impl HistoryStore {
    /// Create an empty store: no channel has any history yet.
    pub fn new() -> (s: Self)
        ensures
            s@ == Map::<u64, Seq<Seq<char>>>::empty(),
    {
        let s = HistoryStore { table: HashMap::new() };
        proof {
            assert(s@ =~= Map::<u64, Seq<Seq<char>>>::empty());
        }
        s
    }

    /// The current history of a channel, or the empty sequence for a channel
    /// never written. Never fails.
    pub fn get(&self, channel: u64) -> (h: Vec<String>)
        ensures
            self@.contains_key(channel) ==> h.deep_view() == self@[channel],
            !self@.contains_key(channel) ==> h.deep_view() == Seq::<Seq<char>>::empty(),
    {
        match self.table.get(&channel) {
            Some(h) => clone_history(h),
            None => {
                let empty: Vec<String> = Vec::new();
                proof {
                    assert(empty.deep_view() =~= Seq::<Seq<char>>::empty());
                }
                empty
            },
        }
    }

    /// Replace a channel's stored history wholesale, overwriting any prior
    /// value under the same key. Never fails.
    pub fn set(&mut self, channel: u64, history: Vec<String>)
        ensures
            final(self)@ == old(self)@.insert(channel, history.deep_view()),
    {
        let ghost entry = history.deep_view();
        self.table.insert(channel, history);
        proof {
            assert(self@ =~= old(self)@.insert(channel, entry));
        }
    }
}

/// Copy one channel's history, element by element.
fn clone_history(h: &Vec<String>) -> (copy: Vec<String>)
    ensures
        copy.deep_view() == h.deep_view(),
{
    let mut copy: Vec<String> = Vec::new();
    let mut i: usize = 0;
    while i < h.len()
        invariant
            i <= h.len(),
            copy@.len() == i,
            forall|j: int| 0 <= j < i ==> copy@[j]@ == h@[j]@,
        decreases h.len() - i,
    {
        let entry = h[i].clone();
        proof {
            assert(entry@ == h@[i as int]@);
        }
        copy.push(entry);
        i = i + 1;
    }
    proof {
        assert(copy.deep_view() =~= h.deep_view());
    }
    copy
}

/// Overwrite law: storing `a` then `b` under one channel leaves exactly
/// `b` there — no merge of `a`'s contents — and leaves every other channel
/// untouched.
pub proof fn lemma_set_overwrites(
    m: Map<u64, Seq<Seq<char>>>,
    channel: u64,
    a: Seq<Seq<char>>,
    b: Seq<Seq<char>>,
)
    ensures
        m.insert(channel, a).insert(channel, b)[channel] == b,
        forall|c: u64| c != channel && m.contains_key(c) ==> m.insert(channel, a).insert(
            channel,
            b,
        )[c] == m[c],
{
}

/// One more append to a modelled history is one application of the
/// bounded push, so a run of `push_recent` calls is modelled by
/// `history_of` of everything appended so far.
pub proof fn lemma_history_of_push(entries: Seq<Seq<char>>, entry: Seq<char>)
    ensures
        history_of(entries.push(entry)) == push_bounded(history_of(entries), entry),
{
    assert(entries.push(entry).drop_last() =~= entries);
}

/// Bounded-history law: appending `entries` in order to an empty history
/// retains exactly the `min(N, HISTORY_BOUND)` most recent entries, in their
/// original relative order, where `N` is the number of appends.
pub proof fn lemma_bounded_history(entries: Seq<Seq<char>>)
    ensures
        history_of(entries).len() == if entries.len() <= HISTORY_BOUND {
            entries.len()
        } else {
            HISTORY_BOUND as nat
        },
        history_of(entries) == entries.skip(
            if entries.len() <= HISTORY_BOUND {
                0
            } else {
                entries.len() - HISTORY_BOUND
            },
        ),
    decreases entries.len(),
{
    if entries.len() == 0 {
        assert(history_of(entries) =~= entries.skip(0));
    } else {
        let prefix = entries.drop_last();
        lemma_bounded_history(prefix);
        if prefix.len() < HISTORY_BOUND {
            assert(history_of(entries) =~= entries.skip(0));
        } else {
            assert(history_of(entries) =~= entries.skip(entries.len() - HISTORY_BOUND));
        }
    }
}

} // verus!
