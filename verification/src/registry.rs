//! The connection registry: which identity is reached over which channel.

use vstd::prelude::*;
use vstd::string::*;
use tokio::sync::mpsc::UnboundedSender;
use crate::channel::offer;
use crate::message::{optional_str, Outbound};
use crate::text::same_text;

verus! {

/// The channel over which one connection is reached.
pub type Channel = UnboundedSender<Outbound>;

/// One attempt to hand an item to a registered connection.
#[derive(Debug, PartialEq, Eq)]
pub struct Attempt {
    /// The identity the item was meant for.
    pub id: String,
    /// Whether the connection's channel took the item. A channel refuses once
    /// its connection is gone; the item is then dropped.
    pub accepted: bool,
}

/// The identities named in a report, in the order of the attempts.
pub open spec fn attempted(report: Seq<Attempt>) -> Seq<Seq<char>> {
    Seq::new(report.len(), |k: int| report[k].id@)
}

/// The identities a broadcast goes to: all that are registered, but for the
/// excluded one.
pub open spec fn audience(registered: Set<Seq<char>>, exclude: Option<Seq<char>>) -> Set<
    Seq<char>,
> {
    match exclude {
        Some(id) => registered.remove(id),
        None => registered,
    }
}

struct Entry {
    id: String,
    channel: Channel,
}

spec fn holds(entries: Seq<Entry>, id: Seq<char>) -> bool {
    exists|i: int| 0 <= i < entries.len() && (#[trigger] entries[i]).id@ == id
}

spec fn slot(entries: Seq<Entry>, id: Seq<char>) -> int {
    choose|i: int| 0 <= i < entries.len() && (#[trigger] entries[i]).id@ == id
}

spec fn distinct(entries: Seq<Entry>) -> bool {
    forall|i: int, j: int|
        0 <= i < j < entries.len() ==> (#[trigger] entries[i]).id@ != (#[trigger] entries[j]).id@
}

spec fn directory(entries: Seq<Entry>) -> Map<Seq<char>, Channel> {
    Map::new(|id: Seq<char>| holds(entries, id), |id: Seq<char>| entries[slot(entries, id)].channel)
}

proof fn lemma_slot(entries: Seq<Entry>, i: int)
    requires
        distinct(entries),
        0 <= i < entries.len(),
    ensures
        holds(entries, entries[i].id@),
        slot(entries, entries[i].id@) == i,
        directory(entries).contains_key(entries[i].id@),
        directory(entries)[entries[i].id@] == entries[i].channel,
{
    let id = entries[i].id@;
    assert(holds(entries, id));
    let j = slot(entries, id);
    assert(0 <= j < entries.len() && entries[j].id@ == id);
    if j < i {
        assert(entries[j].id@ != entries[i].id@);
    } else if i < j {
        assert(entries[i].id@ != entries[j].id@);
    }
}

/// The registry of connections. No identity is registered twice.
pub struct Registry {
    entries: Vec<Entry>,
}

impl View for Registry {
    type V = Map<Seq<char>, Channel>;

    /// The channel registered under each identity.
    closed spec fn view(&self) -> Map<Seq<char>, Channel> {
        directory(self.entries@)
    }
}

impl Registry {
    #[verifier::type_invariant]
    spec fn well_formed(self) -> bool {
        distinct(self.entries@)
    }

    /// A registry without connections.
    pub fn new() -> (registry: Registry)
        ensures
            registry@ == Map::<Seq<char>, Channel>::empty(),
    {
        let registry = Registry { entries: Vec::new() };
        assert(registry@ =~= Map::<Seq<char>, Channel>::empty());
        registry
    }

    fn find(&self, id: &str) -> (found: Option<usize>)
        ensures
            found matches Some(i) ==> i < self.entries@.len() && self.entries@[i as int].id@ == id@,
            found.is_none() ==> !holds(self.entries@, id@),
    {
        let mut i: usize = 0;
        while i < self.entries.len()
            invariant
                i <= self.entries@.len(),
                forall|k: int| 0 <= k < i ==> (#[trigger] self.entries@[k]).id@ != id@,
            decreases self.entries@.len() - i,
        {
            if same_text(self.entries[i].id.as_str(), id) {
                return Some(i);
            }
            i += 1;
        }
        None
    }

    /// Whether a connection is registered under `id`.
    pub fn contains(&self, id: &str) -> (present: bool)
        ensures
            present == self@.contains_key(id@),
    {
        self.find(id).is_some()
    }

    /// Registers `channel` under `id`. A channel registered under `id` before
    /// is replaced: it is no longer reached under that identity, and nothing
    /// else is done to it.
    pub fn register(&mut self, id: &str, channel: Channel)
        ensures
            final(self)@ == old(self)@.insert(id@, channel),
    {
        proof {
            use_type_invariant(&*self);
        }
        let found = self.find(id);
        let mut entries: Vec<Entry> = Vec::new();
        std::mem::swap(&mut entries, &mut self.entries);
        let ghost before = entries@;
        let entry = Entry { id: id.to_owned(), channel };
        match found {
            Some(i) => {
                entries.set(i, entry);
                proof {
                    let after = entries@;
                    assert(distinct(after)) by {
                        assert forall|a: int, b: int| 0 <= a < b < after.len() implies (
                        #[trigger] after[a]).id@ != (#[trigger] after[b]).id@ by {
                            assert(after[a].id@ == before[a].id@);
                            assert(after[b].id@ == before[b].id@);
                        }
                    }
                    assert forall|k: Seq<char>| holds(after, k) == holds(before, k) by {
                        if holds(after, k) {
                            let j = slot(after, k);
                            assert(before[j].id@ == k);
                        }
                        if holds(before, k) {
                            let j = slot(before, k);
                            assert(after[j].id@ == k);
                        }
                    }
                    lemma_slot(before, i as int);
                    assert forall|k: Seq<char>| holds(after, k) implies directory(after)[k]
                        == directory(before).insert(id@, channel)[k] by {
                        let j = slot(after, k);
                        lemma_slot(after, j);
                        lemma_slot(before, j);
                    }
                    assert(directory(after) =~= directory(before).insert(id@, channel));
                }
            },
            None => {
                entries.push(entry);
                proof {
                    let after = entries@;
                    let n = before.len() as int;
                    assert(distinct(after)) by {
                        assert forall|a: int, b: int| 0 <= a < b < after.len() implies (
                        #[trigger] after[a]).id@ != (#[trigger] after[b]).id@ by {
                            assert(after[a] == before[a]);
                            if b < n {
                                assert(after[b] == before[b]);
                            }
                        }
                    }
                    assert forall|k: Seq<char>| holds(after, k) == (holds(before, k) || k == id@) by {
                        if holds(after, k) {
                            let j = slot(after, k);
                            if j < n {
                                assert(before[j].id@ == k);
                            }
                        }
                        if holds(before, k) {
                            let j = slot(before, k);
                            assert(after[j].id@ == k);
                        }
                        if k == id@ {
                            assert(after[n].id@ == k);
                        }
                    }
                    assert forall|k: Seq<char>| holds(after, k) implies directory(after)[k]
                        == directory(before).insert(id@, channel)[k] by {
                        let j = slot(after, k);
                        lemma_slot(after, j);
                        if j < n {
                            assert(after[j] == before[j]);
                            lemma_slot(before, j);
                        }
                    }
                    assert(directory(after) =~= directory(before).insert(id@, channel));
                }
            },
        }
        self.entries = entries;
    }

    /// Removes the connection registered under `id`, if there is one.
    pub fn unregister(&mut self, id: &str)
        ensures
            final(self)@ == old(self)@.remove(id@),
    {
        proof {
            use_type_invariant(&*self);
        }
        let found = self.find(id);
        match found {
            Some(i) => {
                let mut entries: Vec<Entry> = Vec::new();
                std::mem::swap(&mut entries, &mut self.entries);
                let ghost before = entries@;
                let _ = entries.remove(i);
                proof {
                    let after = entries@;
                    assert forall|a: int| 0 <= a < after.len() implies #[trigger] after[a] == before[if a
                        < i {
                        a
                    } else {
                        a + 1
                    }] by {}
                    assert(distinct(after)) by {
                        assert forall|a: int, b: int| 0 <= a < b < after.len() implies (
                        #[trigger] after[a]).id@ != (#[trigger] after[b]).id@ by {
                            let x = if a < i { a } else { a + 1 };
                            let y = if b < i { b } else { b + 1 };
                            assert(after[a] == before[x]);
                            assert(after[b] == before[y]);
                            assert(before[x].id@ != before[y].id@);
                        }
                    }
                    assert forall|k: Seq<char>| holds(after, k) == (holds(before, k) && k != id@) by {
                        if holds(after, k) {
                            let j = slot(after, k);
                            let x = if j < i { j } else { j + 1 };
                            assert(after[j] == before[x]);
                            assert(before[x].id@ == k);
                            if x < i {
                                assert(before[x].id@ != before[i as int].id@);
                            } else {
                                assert(before[i as int].id@ != before[x].id@);
                            }
                        }
                        if holds(before, k) && k != id@ {
                            let j = slot(before, k);
                            let x = if j < i { j } else { j - 1 };
                            assert(after[x] == before[j]);
                            assert(after[x].id@ == k);
                        }
                    }
                    assert forall|k: Seq<char>| holds(after, k) implies directory(after)[k]
                        == directory(before)[k] by {
                        let j = slot(after, k);
                        let x = if j < i { j } else { j + 1 };
                        assert(after[j] == before[x]);
                        lemma_slot(after, j);
                        lemma_slot(before, x);
                    }
                    assert(directory(after) =~= directory(before).remove(id@));
                }
                self.entries = entries;
            },
            None => {
                assert(self@ =~= self@.remove(id@));
            },
        }
    }

    /// Hands a copy of `payload` to every registered connection but the one
    /// named by `exclude`, each once, and reports the attempts. A connection
    /// whose channel refuses is passed over: nothing is retried.
    pub fn broadcast(&self, payload: &Outbound, exclude: Option<&str>) -> (report: Vec<Attempt>)
        ensures
            attempted(report@).no_duplicates(),
            attempted(report@).to_set() == audience(self@.dom(), optional_str(exclude)),
    {
        proof {
            use_type_invariant(self);
        }
        let mut report: Vec<Attempt> = Vec::new();
        let mut i: usize = 0;
        while i < self.entries.len()
            invariant
                distinct(self.entries@),
                i <= self.entries@.len(),
                attempted(report@).no_duplicates(),
                forall|k: int|
                    0 <= k < report@.len() ==> Some((#[trigger] report@[k]).id@) != optional_str(
                        exclude,
                    ),
                forall|k: int|
                    0 <= k < report@.len() ==> exists|j: int|
                        0 <= j < i && (#[trigger] self.entries@[j]).id@ == (
                        #[trigger] report@[k]).id@,
                forall|j: int|
                    0 <= j < i && Some((#[trigger] self.entries@[j]).id@) != optional_str(exclude)
                        ==> attempted(report@).contains(self.entries@[j].id@),
            decreases self.entries@.len() - i,
        {
            let entry = &self.entries[i];
            let skip = match exclude {
                Some(excluded) => same_text(entry.id.as_str(), excluded),
                None => false,
            };
            if !skip {
                let accepted = offer(&entry.channel, payload.clone());
                let ghost earlier = report@;
                report.push(Attempt { id: entry.id.clone(), accepted });
                proof {
                    let ids = attempted(earlier);
                    let id = entry.id@;
                    assert(attempted(report@) =~= ids.push(id));
                    assert(!ids.contains(id)) by {
                        if ids.contains(id) {
                            let k = choose|k: int| 0 <= k < ids.len() && ids[k] == id;
                            assert(earlier[k].id@ == id);
                            let j = choose|j: int|
                                0 <= j < i && (#[trigger] self.entries@[j]).id@ == earlier[k].id@;
                            assert(self.entries@[j].id@ != self.entries@[i as int].id@);
                        }
                    }
                    assert(ids.push(id).no_duplicates()) by {
                        assert forall|a: int, b: int|
                            0 <= a < ids.len() + 1 && 0 <= b < ids.len() + 1 && a != b implies ids.push(
                            id,
                        )[a] != ids.push(id)[b] by {
                            if a == ids.len() {
                                assert(ids.contains(ids[b]));
                            } else if b == ids.len() {
                                assert(ids.contains(ids[a]));
                            }
                        }
                    }
                    assert forall|k: int| 0 <= k < report@.len() implies exists|j: int|
                        0 <= j < i + 1 && (#[trigger] self.entries@[j]).id@ == (
                        #[trigger] report@[k]).id@ by {
                        if k < earlier.len() {
                            assert(report@[k] == earlier[k]);
                            let j = choose|j: int|
                                0 <= j < i && (#[trigger] self.entries@[j]).id@ == earlier[k].id@;
                            assert(0 <= j < i + 1 && self.entries@[j].id@ == report@[k].id@);
                        } else {
                            assert(self.entries@[i as int].id@ == report@[k].id@);
                        }
                    }
                    assert forall|j: int|
                        0 <= j < i + 1 && Some((#[trigger] self.entries@[j]).id@) != optional_str(
                            exclude,
                        ) implies attempted(report@).contains(self.entries@[j].id@) by {
                        if j < i {
                            let k = choose|k: int|
                                0 <= k < ids.len() && ids[k] == self.entries@[j].id@;
                            assert(ids.push(id)[k] == self.entries@[j].id@);
                        } else {
                            assert(ids.push(id)[ids.len() as int] == id);
                        }
                    }
                }
            }
            i += 1;
        }
        proof {
            let ids = attempted(report@);
            let goal = audience(self@.dom(), optional_str(exclude));
            assert forall|x: Seq<char>| ids.to_set().contains(x) == goal.contains(x) by {
                if ids.contains(x) {
                    let k = choose|k: int| 0 <= k < ids.len() && ids[k] == x;
                    assert(report@[k].id@ == x);
                    let j = choose|j: int|
                        0 <= j < i && (#[trigger] self.entries@[j]).id@ == report@[k].id@;
                    lemma_slot(self.entries@, j);
                }
                if goal.contains(x) {
                    let j = slot(self.entries@, x);
                    assert(self.entries@[j].id@ == x);
                }
            }
            assert(ids.to_set() =~= goal);
        }
        report
    }

    /// Hands `payload` to the connection registered under `id`. Where none is,
    /// the payload is dropped and nothing is attempted.
    pub fn send_to(&self, id: &str, payload: &Outbound) -> (report: Vec<Attempt>)
        ensures
            self@.contains_key(id@) ==> attempted(report@) == seq![id@],
            !self@.contains_key(id@) ==> attempted(report@) == Seq::<Seq<char>>::empty(),
    {
        let mut report: Vec<Attempt> = Vec::new();
        match self.find(id) {
            Some(i) => {
                let entry = &self.entries[i];
                let accepted = offer(&entry.channel, payload.clone());
                report.push(Attempt { id: entry.id.clone(), accepted });
                proof {
                    assert(holds(self.entries@, id@));
                    assert(attempted(report@) =~= seq![id@]);
                }
            },
            None => {
                assert(attempted(report@) =~= Seq::<Seq<char>>::empty());
            },
        }
        report
    }
}

} // verus!
