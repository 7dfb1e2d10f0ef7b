//! Reassembly of commands that arrive in fragments.
//!
//! Fragments are collected in sets, one set for each fragment id. A set is
//! complete when it holds exactly the fragment numbers below its declared
//! count; its data is then the fragments joined in ascending order of their
//! numbers. Every submission advances a clock, by which sets that have not
//! been touched for long are found and dropped.

use std::collections::HashMap;
use vstd::prelude::*;

verus! {

/// How many submissions may pass after a set was last touched before
/// `clean_old_entries` drops it.
pub const STALE_AFTER: u64 = 1024;

/// The fragments received for one fragment id.
struct FragmentCollection {
    /// How many fragments the first fragment of the set declared.
    fragment_count: u32,
    /// The size of the whole that the first fragment of the set declared.
    total_size: u32,
    /// The fragments received, by fragment number.
    received_fragments: HashMap<u32, Vec<u8>>,
    /// The clock's value when the set last received a fragment.
    last_touched: u64,
}

/// The sets of fragments that are waiting for their missing pieces.
pub struct FragmentBuffer {
    fragments: HashMap<u32, FragmentCollection>,
    clock: u64,
}

/// One set of fragments, as plain values.
#[verifier::ext_equal]
pub struct FragmentSetView {
    pub fragment_count: u32,
    pub total_size: u32,
    pub received: Map<u32, Seq<u8>>,
    pub last_touched: u64,
}

/// A fragment buffer, as plain values.
#[verifier::ext_equal]
pub struct FragmentBufferView {
    pub sets: Map<u32, FragmentSetView>,
    pub clock: u64,
}

/// One fragment as it is submitted: what it declares of its set, its number
/// and its payload.
pub struct Submission {
    pub fragment_count: u32,
    pub fragment_number: u32,
    pub total_size: u32,
    pub data: Seq<u8>,
}

/// The fragment numbers of a list of submissions, in the order of the list.
pub open spec fn submitted_numbers(submissions: Seq<Submission>) -> Seq<u32> {
    submissions.map_values(|submission: Submission| submission.fragment_number)
}

/// The submissions that carry the pieces of a whole, one for each entry of
/// `order`: the piece with that number, declared as one of `pieces.len()`.
pub open spec fn pieces_in_order(pieces: Seq<Seq<u8>>, total_size: u32, order: Seq<u32>) -> Seq<
    Submission,
> {
    Seq::new(
        order.len(),
        |at: int|
            Submission {
                fragment_count: pieces.len() as u32,
                fragment_number: order[at],
                total_size,
                data: pieces[order[at] as int],
            },
    )
}

/// The clock after one more submission. It stops at its largest value.
pub open spec fn next_tick(clock: u64) -> u64 {
    if clock < u64::MAX {
        (clock + 1) as u64
    } else {
        clock
    }
}

impl FragmentSetView {
    /// Whether the set holds exactly the fragment numbers below its count.
    pub open spec fn is_complete(self) -> bool {
        &&& self.received.dom().len() == self.fragment_count
        &&& forall|number: u32| number < self.fragment_count ==> self.received.contains_key(number)
    }

    /// The fragments numbered below `upto`, joined in ascending order.
    pub open spec fn joined(self, upto: nat) -> Seq<u8>
        decreases upto,
    {
        if upto == 0 {
            Seq::empty()
        } else {
            self.joined((upto - 1) as nat) + self.received[(upto - 1) as u32]
        }
    }

    /// Whether the set was last touched more than `STALE_AFTER` submissions
    /// before the clock stood at `clock`.
    pub open spec fn is_stale(self, clock: u64) -> bool {
        clock - self.last_touched > STALE_AFTER
    }
}

impl FragmentBufferView {
    /// The buffer after one fragment was submitted. The first fragment of an
    /// id fixes the set's count and size; later ones leave them as they are.
    pub open spec fn with_fragment(
        self,
        fragment_id: u32,
        fragment_count: u32,
        fragment_number: u32,
        total_size: u32,
        data: Seq<u8>,
    ) -> FragmentBufferView {
        let tick = next_tick(self.clock);
        let set = if self.sets.contains_key(fragment_id) {
            self.sets[fragment_id]
        } else {
            FragmentSetView { fragment_count, total_size, received: Map::empty(), last_touched: tick }
        };
        FragmentBufferView {
            sets: self.sets.insert(
                fragment_id,
                FragmentSetView {
                    received: set.received.insert(fragment_number, data),
                    last_touched: tick,
                    ..set
                },
            ),
            clock: tick,
        }
    }

    /// The buffer after a list of fragments was submitted under one id, in
    /// the order of the list.
    pub open spec fn with_fragments(
        self,
        fragment_id: u32,
        submissions: Seq<Submission>,
    ) -> FragmentBufferView
        decreases submissions.len(),
    {
        if submissions.len() == 0 {
            self
        } else {
            self.with_fragments(fragment_id, submissions.drop_last()).with_fragment(
                fragment_id,
                submissions.last().fragment_count,
                submissions.last().fragment_number,
                submissions.last().total_size,
                submissions.last().data,
            )
        }
    }

    /// The data of the set under `fragment_id`, where there is such a set and
    /// it is complete.
    pub open spec fn completed(self, fragment_id: u32) -> Option<Seq<u8>> {
        if self.sets.contains_key(fragment_id) && self.sets[fragment_id].is_complete() {
            Some(self.sets[fragment_id].joined(self.sets[fragment_id].fragment_count as nat))
        } else {
            None
        }
    }

    /// The buffer after the data under `fragment_id` was asked for: a
    /// complete set leaves the buffer, anything else stays.
    pub open spec fn after_completion(self, fragment_id: u32) -> FragmentBufferView {
        if self.completed(fragment_id) is Some {
            FragmentBufferView { sets: self.sets.remove(fragment_id), ..self }
        } else {
            self
        }
    }

    /// The buffer without its stale sets.
    pub open spec fn without_stale(self) -> FragmentBufferView {
        FragmentBufferView {
            sets: self.sets.restrict(
                Set::new(
                    |id: u32| self.sets.contains_key(id) && !self.sets[id].is_stale(self.clock),
                ),
            ),
            ..self
        }
    }
}

/// The set that a list of submissions under a fresh id leaves: it keeps the
/// count and the size that the first submission declared, holds exactly the
/// numbers submitted, and under each number the payload submitted last.
proof fn lemma_submitted(buffer: FragmentBufferView, fragment_id: u32, submissions: Seq<Submission>)
    requires
        !buffer.sets.contains_key(fragment_id),
        submissions.len() > 0,
    ensures
        ({
            let after = buffer.with_fragments(fragment_id, submissions);
            let set = after.sets[fragment_id];
            &&& after.sets.contains_key(fragment_id)
            &&& set.fragment_count == submissions[0].fragment_count
            &&& set.total_size == submissions[0].total_size
            &&& set.received.dom() =~= submitted_numbers(submissions).to_set()
            &&& forall|at: int|
                0 <= at < submissions.len() && (forall|later: int|
                    at < later < submissions.len() ==> submissions[later].fragment_number
                        != submissions[at].fragment_number) ==> set.received[submissions[at].fragment_number]
                    == (#[trigger] submissions[at]).data
        }),
    decreases submissions.len(),
{
    let earlier = submissions.drop_last();
    let last = submissions.last();
    let set = buffer.with_fragments(fragment_id, submissions).sets[fragment_id];
    let numbers = submitted_numbers(submissions);
    if earlier.len() == 0 {
        assert(buffer.with_fragments(fragment_id, earlier) == buffer);
        assert(numbers[0] == last.fragment_number);
        assert(set.received.dom() =~= numbers.to_set());
    } else {
        lemma_submitted(buffer, fragment_id, earlier);
        let old_numbers = submitted_numbers(earlier);
        assert(numbers.drop_last() =~= old_numbers);
        assert forall|number: u32|
            numbers.contains(number) <==> old_numbers.contains(number) || number
                == last.fragment_number by {
            if numbers.contains(number) {
                let at = choose|at: int| 0 <= at < numbers.len() && numbers[at] == number;
                if at < old_numbers.len() {
                    assert(old_numbers[at] == number);
                }
            }
            if old_numbers.contains(number) {
                let at = choose|at: int| 0 <= at < old_numbers.len() && old_numbers[at] == number;
                assert(numbers[at] == number);
            }
            if number == last.fragment_number {
                assert(numbers[numbers.len() - 1] == number);
            }
        }
        assert(set.received.dom() =~= numbers.to_set());
        assert forall|at: int|
            0 <= at < submissions.len() && (forall|later: int|
                at < later < submissions.len() ==> submissions[later].fragment_number
                    != submissions[at].fragment_number) implies set.received[submissions[at].fragment_number]
            == (#[trigger] submissions[at]).data by {
            if at < earlier.len() {
                assert(earlier[at] == submissions[at]);
                assert(last.fragment_number != submissions[at].fragment_number);
            }
        }
    }
}

/// There are exactly `bound` fragment numbers below `bound`.
proof fn lemma_numbers_below(bound: nat)
    requires
        bound <= u32::MAX + 1,
    ensures
        Set::new(|number: u32| number < bound).finite(),
        Set::new(|number: u32| number < bound).len() == bound,
    decreases bound,
{
    let below = Set::new(|number: u32| number < bound);
    if bound == 0 {
        assert(below =~= Set::empty());
    } else {
        let fewer = Set::new(|number: u32| number < bound - 1);
        lemma_numbers_below((bound - 1) as nat);
        assert(below =~= fewer.insert((bound - 1) as u32));
    }
}

/// Where every fragment under a number below `upto` is the piece of that
/// number, joining them gives the pieces joined.
proof fn lemma_joined_pieces(set: FragmentSetView, pieces: Seq<Seq<u8>>, upto: nat)
    requires
        upto <= pieces.len() <= u32::MAX,
        forall|number: u32| number < upto ==> set.received[number] == pieces[number as int],
    ensures
        set.joined(upto) == pieces.take(upto as int).flatten(),
    decreases upto,
{
    if upto == 0 {
    } else {
        lemma_joined_pieces(set, pieces, (upto - 1) as nat);
        let front = pieces.take(upto - 1);
        assert(pieces.take(upto as int) =~= front.push(pieces[upto - 1]));
        front.lemma_flatten_push(pieces[upto - 1]);
    }
}

/// Reassembly gives back the whole, in whatever order the pieces arrive: if
/// the pieces of a whole are submitted under an id that the buffer holds no
/// set for, each number below their count exactly once, the set is complete
/// and its data is the pieces joined in ascending order of their numbers.
pub proof fn lemma_reassembly_in_any_order(
    buffer: FragmentBufferView,
    fragment_id: u32,
    pieces: Seq<Seq<u8>>,
    total_size: u32,
    order: Seq<u32>,
)
    requires
        !buffer.sets.contains_key(fragment_id),
        0 < pieces.len() <= u32::MAX,
        order.len() == pieces.len(),
        order.no_duplicates(),
        forall|at: int| 0 <= at < order.len() ==> order[at] < pieces.len(),
    ensures
        buffer.with_fragments(
            fragment_id,
            pieces_in_order(pieces, total_size, order),
        ).completed(fragment_id) == Some(pieces.flatten()),
{
    let submissions = pieces_in_order(pieces, total_size, order);
    let set = buffer.with_fragments(fragment_id, submissions).sets[fragment_id];
    let count = pieces.len();
    let below = Set::new(|number: u32| number < count);
    lemma_submitted(buffer, fragment_id, submissions);
    assert(submitted_numbers(submissions) =~= order);
    // The numbers submitted are as many as there are numbers below the
    // count, and all of them are below it: so they are all of those.
    order.unique_seq_to_set();
    lemma_numbers_below(count);
    assert(order.to_set().subset_of(below));
    vstd::set_lib::lemma_subset_equality(order.to_set(), below);
    assert forall|number: u32| number < count implies set.received.contains_key(number)
        && set.received[number] == pieces[number as int] by {
        assert(below.contains(number));
        let at = choose|at: int| 0 <= at < order.len() && order[at] == number;
        assert(submissions[at].fragment_number == number);
    }
    lemma_joined_pieces(set, pieces, count);
    assert(pieces.take(count as int) =~= pieces);
}

/// A completed set leaves nothing behind: once the data of a complete set
/// was handed out, the buffer holds no set under the id, and a fragment
/// submitted under the id afterwards starts a set that holds that fragment
/// and nothing else, with the count and the size that the fragment declares.
pub proof fn lemma_completed_set_leaves_nothing(
    buffer: FragmentBufferView,
    fragment_id: u32,
    fragment_count: u32,
    fragment_number: u32,
    total_size: u32,
    data: Seq<u8>,
)
    requires
        buffer.completed(fragment_id) is Some,
    ensures
        !buffer.after_completion(fragment_id).sets.contains_key(fragment_id),
        buffer.after_completion(fragment_id).with_fragment(
            fragment_id,
            fragment_count,
            fragment_number,
            total_size,
            data,
        ).sets[fragment_id] == (FragmentSetView {
            fragment_count,
            total_size,
            received: map![fragment_number => data],
            last_touched: next_tick(buffer.clock),
        }),
{
    let again = buffer.after_completion(fragment_id).with_fragment(
        fragment_id,
        fragment_count,
        fragment_number,
        total_size,
        data,
    );
}

/// Too few distinct fragments never complete a set: if the fragments
/// submitted under an id that the buffer held no set for carry fewer distinct
/// numbers than the first of them declared, the set is not complete, however
/// many fragments were submitted.
pub proof fn lemma_too_few_distinct_never_completes(
    buffer: FragmentBufferView,
    fragment_id: u32,
    submissions: Seq<Submission>,
)
    requires
        !buffer.sets.contains_key(fragment_id),
        submissions.len() > 0,
        submitted_numbers(submissions).to_set().len() < submissions[0].fragment_count,
    ensures
        buffer.with_fragments(fragment_id, submissions).completed(fragment_id) is None,
{
    lemma_submitted(buffer, fragment_id, submissions);
}

impl FragmentCollection {
    spec fn model(self) -> FragmentSetView {
        FragmentSetView {
            fragment_count: self.fragment_count,
            total_size: self.total_size,
            received: self.received_fragments@.map_values(|data: Vec<u8>| data@),
            last_touched: self.last_touched,
        }
    }
}

impl View for FragmentBuffer {
    type V = FragmentBufferView;

    closed spec fn view(&self) -> FragmentBufferView {
        FragmentBufferView {
            sets: self.fragments@.map_values(|set: FragmentCollection| set.model()),
            clock: self.clock,
        }
    }
}

impl FragmentBuffer {
    /// An empty buffer.
    pub fn new() -> (buffer: Self)
        ensures
            buffer@ == (FragmentBufferView { sets: Map::empty(), clock: 0 }),
    {
        let buffer = FragmentBuffer { fragments: HashMap::new(), clock: 0 };
        buffer
    }

    /// Puts a fragment into the set of its id, which is made if this is the
    /// id's first fragment. A fragment already received under the same number
    /// is replaced.
    pub fn add_fragment(
        &mut self,
        fragment_id: u32,
        fragment_count: u32,
        fragment_number: u32,
        total_size: u32,
        data: Vec<u8>,
    )
        ensures
            final(self)@ == old(self)@.with_fragment(
                fragment_id,
                fragment_count,
                fragment_number,
                total_size,
                data@,
            ),
    {
        if self.clock < u64::MAX {
            self.clock = self.clock + 1;
        }
        let tick = self.clock;
        let mut set = match self.fragments.remove(&fragment_id) {
            Some(set) => set,
            None => {
                let set = FragmentCollection {
                    fragment_count,
                    total_size,
                    received_fragments: HashMap::new(),
                    last_touched: tick,
                };
                assert(set.model().received =~= Map::empty());
                set
            },
        };
        let ghost before = set.model();
        set.received_fragments.insert(fragment_number, data);
        set.last_touched = tick;
        assert(set.model().received =~= before.received.insert(fragment_number, data@));
        self.fragments.insert(fragment_id, set);
    }

    /// Hands out the data of the set under `fragment_id` and drops the set,
    /// if the set is complete. Otherwise nothing changes.
    pub fn get_complete_data(&mut self, fragment_id: u32) -> (data: Option<Vec<u8>>)
        ensures
            data is Some <==> old(self)@.completed(fragment_id) is Some,
            data matches Some(bytes) ==> old(self)@.completed(fragment_id) == Some(bytes@),
            final(self)@ == old(self)@.after_completion(fragment_id),
    {
        let collection = match self.fragments.get(&fragment_id) {
            Some(collection) => collection,
            None => {
                return None;
            },
        };
        let ghost set = collection.model();
        assert(set.received.dom() =~= collection.received_fragments@.dom());
        if collection.received_fragments.len() != collection.fragment_count as usize {
            return None;
        }
        let mut complete_data: Vec<u8> = Vec::new();
        let mut number: u32 = 0;
        while number < collection.fragment_count
            invariant
                number <= collection.fragment_count,
                *self == *old(self),
                self@.sets.contains_key(fragment_id),
                set == self@.sets[fragment_id],
                set == collection.model(),
                set.received.dom().len() == set.fragment_count,
                complete_data@ == set.joined(number as nat),
                forall|below: u32| below < number ==> set.received.contains_key(below),
            decreases collection.fragment_count - number,
        {
            match collection.received_fragments.get(&number) {
                Some(fragment) => {
                    complete_data.extend_from_slice(fragment.as_slice());
                },
                None => {
                    assert(!set.received.contains_key(number));
                    return None;
                },
            }
            number = number + 1;
        }
        self.fragments.remove(&fragment_id);
        Some(complete_data)
    }

    /// Drops the sets that are stale: those that received their last
    /// fragment more than `STALE_AFTER` submissions ago.
    pub fn clean_old_entries(&mut self)
        ensures
            final(self)@ == old(self)@.without_stale(),
    {
        let clock = self.clock;
        let mut stale: Vec<u32> = Vec::new();
        let ghost sets = self@.sets;
        for id in keys: self.fragments.keys()
            invariant
                clock == self.clock,
                *self == *old(self),
                sets == self@.sets,
                forall|i: int|
                    0 <= i < stale@.len() ==> sets.contains_key(#[trigger] stale@[i])
                        && sets[stale@[i]].is_stale(clock),
                forall|j: int|
                    0 <= j < keys.index() && sets.contains_key(*keys.seq()[j]) && sets[*keys.seq()[j]].is_stale(
                        clock,
                    ) ==> stale@.contains(*#[trigger] keys.seq()[j]),
        {
            let ghost before = stale@;
            let ghost position = keys.index();
            if let Some(set) = self.fragments.get(id) {
                if clock >= set.last_touched && clock - set.last_touched > STALE_AFTER {
                    stale.push(*id);
                }
            }
            proof {
                assert forall|j: int|
                    0 <= j < position + 1 && sets.contains_key(*keys.seq()[j]) && sets[*keys.seq()[j]].is_stale(
                        clock,
                    ) implies stale@.contains(*#[trigger] keys.seq()[j]) by {
                    if j < position {
                        let at = choose|at: int|
                            0 <= at < before.len() && before[at] == *keys.seq()[j];
                        assert(stale@[at] == before[at]);
                    } else {
                        assert(stale@[before.len() as int] == *id);
                    }
                }
            }
        }
        let mut index: usize = 0;
        while index < stale.len()
            invariant
                index <= stale@.len(),
                self.clock == clock,
                sets == old(self)@.sets,
                clock == old(self)@.clock,
                forall|id: u32| #[trigger]
                    self@.sets.contains_key(id) <==> sets.contains_key(id) && !stale@.take(
                        index as int,
                    ).contains(id),
                forall|id: u32| #[trigger]
                    self@.sets.contains_key(id) ==> self@.sets[id] == sets[id],
            decreases stale@.len() - index,
        {
            let ghost kept = self@.sets;
            let ghost taken = stale@.take(index as int);
            self.fragments.remove(&stale[index]);
            proof {
                let id = stale@[index as int];
                let now = stale@.take(index + 1);
                assert(self@.sets =~= kept.remove(id));
                assert forall|other: u32| now.contains(other) <==> taken.contains(other) || other
                    == id by {
                    if other == id {
                        assert(now[index as int] == id);
                    }
                }
            }
            index = index + 1;
        }
        assert(stale@.take(index as int) =~= stale@);
    }
}

} // verus!
