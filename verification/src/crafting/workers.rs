//! Workers helping at a crafting structure.
//!
//! A structure admits a bounded number of workers at a time. Each worker
//! present carries a vigor ratio that says how much of a full worker's labor
//! it contributes. A worker is known by the 64 bits of its entity handle, and
//! a ratio by the 32 bits of its single-precision value: this module stores
//! and returns ratios but never does arithmetic on them.

use bevy::utils::HashMap;
use vstd::prelude::*;
use vstd::string::StringExecFns;

verus! {

/// The engine's hash map from workers to vigor ratios.
///
/// The map is opaque to the verifier; everything known about it is said by
/// [`table_entries`] and the contracts of the functions below that touch it.
#[verifier::external_body]
#[derive(Debug, PartialEq)]
pub struct WorkerTable {
    map: HashMap<u64, u32>,
}

/// The key-value pairs that a [`WorkerTable`] holds.
pub uninterp spec fn table_entries(table: WorkerTable) -> Map<u64, u32>;

/// Calls `hashbrown::HashMap::new`, which creates an empty map: the new
/// table holds no entry.
#[verifier::external_body]
fn table_new() -> (table: WorkerTable)
    ensures
        table_entries(table) == (Map::<u64, u32>::empty()),
{
    WorkerTable { map: HashMap::new() }
}

/// Calls `hashbrown::HashMap::len`, which returns the number of elements in
/// the map: the result is the number of keys the table holds.
#[verifier::external_body]
fn table_len(table: &WorkerTable) -> (n: usize)
    ensures
        n == table_entries(*table).dom().len(),
{
    table.map.len()
}

/// Calls `hashbrown::HashMap::insert`, which stores the value under the key,
/// replacing the value of a key that is already present and leaving every
/// other entry alone. The previous value that the call returns is dropped.
#[verifier::external_body]
fn table_insert(table: &mut WorkerTable, worker: u64, ratio: u32)
    ensures
        table_entries(*final(table)) == table_entries(*old(table)).insert(worker, ratio),
{
    table.map.insert(worker, ratio);
}

/// Calls `hashbrown::HashMap::remove`, which takes the key and its value out
/// of the map if the key is present and leaves every other entry alone. The
/// removed value that the call returns is dropped.
#[verifier::external_body]
fn table_remove(table: &mut WorkerTable, worker: u64)
    ensures
        table_entries(*final(table)) == table_entries(*old(table)).remove(worker),
{
    table.map.remove(&worker);
}

/// Calls `hashbrown::HashMap::values`, an iterator that visits every value
/// of the map once, in an order of its own choosing, and copies what it
/// yields into a vector: the result holds the ratio of each worker in the
/// table, one per worker, in some order.
#[verifier::external_body]
fn table_values(table: &WorkerTable) -> (ratios: Vec<u32>)
    ensures
        ratios_in_some_order(table_entries(*table), ratios@),
{
    table.map.values().copied().collect()
}

/// `workers` names each worker present once, and `ratios` holds their ratios
/// in the same order.
pub open spec fn lists_ratios(present: Map<u64, u32>, workers: Seq<u64>, ratios: Seq<u32>) -> bool {
    &&& workers.no_duplicates()
    &&& workers.to_set() == present.dom()
    &&& ratios.len() == workers.len()
    &&& forall|i: int| 0 <= i < workers.len() ==> ratios[i] == present[#[trigger] workers[i]]
}

/// `ratios` holds the ratio of each worker present, one per worker, in some
/// order.
pub open spec fn ratios_in_some_order(present: Map<u64, u32>, ratios: Seq<u32>) -> bool {
    exists|workers: Seq<u64>| lists_ratios(present, workers, ratios)
}

/// What the workers present become when `worker` asks to join with `ratio`
/// at a structure that admits `allowed` workers: with room left the worker is
/// entered, or its ratio replaced if it is present already; at a full
/// structure nothing changes.
pub open spec fn joined(present: Map<u64, u32>, allowed: nat, worker: u64, ratio: u32) -> Map<u64, u32> {
    if present.dom().len() < allowed {
        present.insert(worker, ratio)
    } else {
        present
    }
}

/// The workers present after each of `requests`, a worker and its ratio, has
/// asked to join in turn and was answered as [`joined`] says.
pub open spec fn joined_all(present: Map<u64, u32>, allowed: nat, requests: Seq<(u64, u32)>) -> Map<u64, u32>
    decreases requests.len(),
{
    if requests.len() == 0 {
        present
    } else {
        joined(
            joined_all(present, allowed, requests.drop_last()),
            allowed,
            requests.last().0,
            requests.last().1,
        )
    }
}

/// The workers present that have the ratio `ratio`.
pub open spec fn workers_with(present: Map<u64, u32>, ratio: u32) -> Set<u64> {
    present.dom().filter(|worker: u64| present[worker] == ratio)
}

/// How many of the workers present have the ratio `ratio`.
pub open spec fn ratio_count(present: Map<u64, u32>, ratio: u32) -> nat {
    workers_with(present, ratio).len()
}

/// One if the two ratios are the same, zero if not.
pub open spec fn one_if_same(a: u32, b: u32) -> nat {
    if a == b {
        1
    } else {
        0
    }
}

/// The character that writes the digit `d`.
pub open spec fn digit(d: nat) -> char {
    if d == 0 {
        '0'
    } else if d == 1 {
        '1'
    } else if d == 2 {
        '2'
    } else if d == 3 {
        '3'
    } else if d == 4 {
        '4'
    } else if d == 5 {
        '5'
    } else if d == 6 {
        '6'
    } else if d == 7 {
        '7'
    } else if d == 8 {
        '8'
    } else {
        '9'
    }
}

/// The number `n` written in decimal, without leading zeros.
pub open spec fn decimal(n: nat) -> Seq<char>
    decreases n,
{
    if n < 10 {
        seq![digit(n)]
    } else {
        decimal(n / 10).push(digit(n % 10))
    }
}

/// The text shown for a structure with `present` workers of `allowed`, whose
/// number of effective workers is written `effective`.
pub open spec fn display_text(present: nat, effective: Seq<char>, allowed: nat) -> Seq<char> {
    decimal(present) + seq![' ', '('] + effective + seq![')', ' ', '/', ' '] + decimal(allowed)
}

/// The text of one decimal digit.
fn digit_str(d: u8) -> (text: &'static str)
    requires
        d < 10,
    ensures
        text@ == seq![digit(d as nat)],
{
    proof {
        reveal_strlit("0");
        reveal_strlit("1");
        reveal_strlit("2");
        reveal_strlit("3");
        reveal_strlit("4");
        reveal_strlit("5");
        reveal_strlit("6");
        reveal_strlit("7");
        reveal_strlit("8");
        reveal_strlit("9");
    }
    let text = if d == 0 {
        "0"
    } else if d == 1 {
        "1"
    } else if d == 2 {
        "2"
    } else if d == 3 {
        "3"
    } else if d == 4 {
        "4"
    } else if d == 5 {
        "5"
    } else if d == 6 {
        "6"
    } else if d == 7 {
        "7"
    } else if d == 8 {
        "8"
    } else {
        "9"
    };
    assert(text@ =~= seq![digit(d as nat)]);
    text
}

/// Writes `n` in decimal at the end of `text`.
fn push_decimal(text: &mut String, n: u8)
    ensures
        final(text)@ == old(text)@ + decimal(n as nat),
{
    if n >= 100 {
        text.append(digit_str(n / 100));
    }
    if n >= 10 {
        text.append(digit_str((n / 10) % 10));
    }
    text.append(digit_str(n % 10));
    proof {
        reveal_with_fuel(decimal, 3);
        assert(text@ =~= old(text)@ + decimal(n as nat));
    }
}

/// The number of workers present / allowed at this structure.
#[derive(Debug, PartialEq)]
pub struct WorkersPresent {
    /// The workers present, each with its vigor ratio
    workers: WorkerTable,
    /// The maximum number of workers allowed
    allowed: u8,
}

impl View for WorkersPresent {
    type V = Map<u64, u32>;

    /// The workers present, each mapped to the bits of its vigor ratio.
    closed spec fn view(&self) -> Map<u64, u32> {
        table_entries(self.workers)
    }
}

impl WorkersPresent {
    /// The maximum number of workers allowed.
    pub closed spec fn spec_allowed(&self) -> u8 {
        self.allowed
    }

    /// Finitely many workers are present, and no more than are allowed.
    pub open spec fn wf(&self) -> bool {
        &&& self@.dom().finite()
        &&& self@.dom().len() <= self.spec_allowed()
    }

    /// Create a new [`WorkersPresent`] with the provided maximum number of workers allowed.
    pub fn new(allowed: u8) -> (present: Self)
        ensures
            present.wf(),
            present@ == (Map::<u64, u32>::empty()),
            present.spec_allowed() == allowed,
    {
        Self { workers: table_new(), allowed }
    }

    /// The maximum number of workers allowed.
    #[verifier::when_used_as_spec(spec_allowed)]
    pub fn allowed(&self) -> (allowed: u8)
        ensures
            allowed == self.spec_allowed(),
    {
        self.allowed
    }

    /// Are more workers needed?
    pub fn needs_more(&self) -> (more: bool)
        requires
            self.wf(),
        ensures
            more == (self@.dom().len() < self.spec_allowed()),
    {
        self.current() < self.allowed
    }

    /// The current number of workers present.
    pub fn current(&self) -> (count: u8)
        requires
            self.wf(),
        ensures
            count == self@.dom().len(),
            count <= self.spec_allowed(),
    {
        table_len(&self.workers) as u8
    }

    /// The vigor ratios of the workers present, one per worker, in no
    /// particular order. Their sum is the number of effective workers.
    pub fn ratios(&self) -> (ratios: Vec<u32>)
        requires
            self.wf(),
        ensures
            ratios_in_some_order(self@, ratios@),
            ratios@.len() == self@.dom().len(),
            forall|ratio: u32| #[trigger] ratios@.to_multiset().count(ratio) == ratio_count(self@, ratio),
    {
        let ratios = table_values(&self.workers);
        proof {
            assert forall|ratio: u32| #[trigger]
                ratios@.to_multiset().count(ratio) == ratio_count(self@, ratio) by {
                lemma_listed_counts(self@, ratios@, ratio);
            }
            lemma_listed_counts(self@, ratios@, 0);
        }
        ratios
    }

    /// The text shown for this structure, `<present> (<effective>) / <allowed>`,
    /// around the number of effective workers as the caller has written it out.
    pub fn display(&self, effective_workers: &str) -> (text: String)
        requires
            self.wf(),
        ensures
            text@ == display_text(self@.dom().len(), effective_workers@, self.spec_allowed() as nat),
    {
        let mut text = String::new();
        push_decimal(&mut text, self.current());
        proof {
            reveal_strlit(" (");
            reveal_strlit(") / ");
        }
        text.append(" (");
        text.append(effective_workers);
        text.append(") / ");
        push_decimal(&mut text, self.allowed);
        assert(text@ =~= display_text(
            self@.dom().len(),
            effective_workers@,
            self.spec_allowed() as nat,
        ));
        text
    }

    /// Adds a worker to this structure if there is room.
    ///
    /// A worker that is already present has its ratio replaced, if there is
    /// room for one more; at a full structure the call fails and changes
    /// nothing, whoever asks.
    pub fn add_worker(&mut self, worker: u64, ratio: u32) -> (added: Result<(), ()>)
        requires
            old(self).wf(),
        ensures
            final(self).wf(),
            final(self).spec_allowed() == old(self).spec_allowed(),
            added.is_ok() == (old(self)@.dom().len() < old(self).spec_allowed()),
            added.is_ok() ==> final(self)@ == old(self)@.insert(worker, ratio),
            added.is_err() ==> final(self)@ == old(self)@,
            final(self)@ == joined(old(self)@, old(self).spec_allowed() as nat, worker, ratio),
    {
        if self.needs_more() {
            table_insert(&mut self.workers, worker, ratio);
            Ok(())
        } else {
            Err(())
        }
    }

    /// Removes a worker from this structure; a worker that is not present is
    /// none the worse for it.
    pub fn remove_worker(&mut self, worker: u64)
        requires
            old(self).wf(),
        ensures
            final(self).wf(),
            final(self).spec_allowed() == old(self).spec_allowed(),
            final(self)@ == old(self)@.remove(worker),
            !old(self)@.contains_key(worker) ==> final(self)@ == old(self)@,
    {
        proof {
            if !self@.contains_key(worker) {
                assert(self@.remove(worker) =~= self@);
            }
        }
        table_remove(&mut self.workers, worker);
    }
}

/// However many workers ask to join, and in whatever order, a structure never
/// holds more of them than it allows.
pub proof fn lemma_never_over_capacity(present: Map<u64, u32>, allowed: nat, requests: Seq<(u64, u32)>)
    requires
        present.dom().finite(),
        present.dom().len() <= allowed,
    ensures
        joined_all(present, allowed, requests).dom().finite(),
        joined_all(present, allowed, requests).dom().len() <= allowed,
    decreases requests.len(),
{
    if requests.len() > 0 {
        lemma_never_over_capacity(present, allowed, requests.drop_last());
    }
}

/// A worker that joins with `ratio` adds exactly one to the number of workers
/// with that ratio and leaves every other number alone; a worker that was
/// present already first gives up the ratio it had.
pub proof fn lemma_join_counts(present: Map<u64, u32>, worker: u64, ratio: u32, other: u32)
    requires
        present.dom().finite(),
    ensures
        !present.contains_key(worker) ==> ratio_count(present.insert(worker, ratio), other)
            == ratio_count(present, other) + one_if_same(ratio, other),
        present.contains_key(worker) ==> ratio_count(present.insert(worker, ratio), other)
            == ratio_count(present, other) - one_if_same(present[worker], other) + one_if_same(
            ratio,
            other,
        ),
{
    let after = present.insert(worker, ratio);
    let rest = present.remove(worker);
    let with_before = workers_with(present, other);
    let with_after = workers_with(after, other);
    let with_rest = workers_with(rest, other);
    assert(rest.dom().finite());
    assert(with_rest.finite());
    assert(!with_rest.contains(worker));
    if ratio == other {
        assert(with_after =~= with_rest.insert(worker));
    } else {
        assert(with_after =~= with_rest);
    }
    if present.contains_key(worker) && present[worker] == other {
        assert(with_before =~= with_rest.insert(worker));
    } else {
        assert(with_before =~= with_rest);
    }
}

/// Removing a worker that is not present changes neither who is present nor
/// how many workers have any given ratio.
pub proof fn lemma_remove_absent(present: Map<u64, u32>, worker: u64, other: u32)
    requires
        !present.contains_key(worker),
    ensures
        present.remove(worker) == present,
        present.remove(worker).dom().len() == present.dom().len(),
        ratio_count(present.remove(worker), other) == ratio_count(present, other),
{
    assert(present.remove(worker) =~= present);
}

/// A list of the ratios, one per worker present, holds each ratio as often as
/// there are workers with it, whatever its order.
pub proof fn lemma_listed_counts(present: Map<u64, u32>, ratios: Seq<u32>, other: u32)
    requires
        ratios_in_some_order(present, ratios),
    ensures
        ratios.to_multiset().count(other) == ratio_count(present, other),
        ratios.len() == present.dom().len(),
{
    let workers = choose|workers: Seq<u64>| lists_ratios(present, workers, ratios);
    lemma_listing_counts(present, workers, ratios, other);
}

proof fn lemma_listing_counts(present: Map<u64, u32>, workers: Seq<u64>, ratios: Seq<u32>, other: u32)
    requires
        lists_ratios(present, workers, ratios),
    ensures
        ratios.to_multiset().count(other) == ratio_count(present, other),
        ratios.len() == present.dom().len(),
        present.dom().finite(),
    decreases workers.len(),
{
    broadcast use vstd::seq_lib::group_to_multiset_ensures;

    if workers.len() == 0 {
        assert(present.dom() =~= Set::<u64>::empty());
        assert(workers_with(present, other) =~= Set::<u64>::empty());
        assert(ratios =~= Seq::<u32>::empty());
    } else {
        let last = workers.last();
        let rest = present.remove(last);
        let workers_rest = workers.drop_last();
        let ratios_rest = ratios.drop_last();
        assert(workers.contains(last));
        assert forall|w: u64| workers_rest.to_set().contains(w) <==> rest.dom().contains(w) by {
            if workers_rest.contains(w) {
                let i = choose|i: int| 0 <= i < workers_rest.len() && workers_rest[i] == w;
                assert(workers[i] == w);
                assert(workers.contains(w));
            }
            if rest.dom().contains(w) {
                assert(workers.contains(w));
                let i = choose|i: int| 0 <= i < workers.len() && workers[i] == w;
                assert(workers_rest[i] == w);
            }
        }
        assert(workers_rest.to_set() =~= rest.dom());
        assert forall|i: int| 0 <= i < workers_rest.len() implies ratios_rest[i]
            == rest[#[trigger] workers_rest[i]] by {
            assert(workers[i] != workers[workers.len() - 1]);
        }
        lemma_listing_counts(rest, workers_rest, ratios_rest, other);
        assert(ratios =~= ratios_rest.push(ratios.last()));
        assert(present =~= rest.insert(last, ratios.last()));
        lemma_join_counts(rest, last, ratios.last(), other);
    }
}

/// When as many different workers as a structure allows have joined the empty
/// structure, each with the same ratio, it needs no more: exactly those
/// workers are present, and a list of their ratios holds that ratio once for
/// each.
pub proof fn lemma_full_house(allowed: nat, requests: Seq<(u64, u32)>, ratio: u32, ratios: Seq<u32>)
    requires
        requests.len() == allowed,
        forall|i: int, j: int|
            0 <= i < j < requests.len() ==> (#[trigger] requests[i]).0 != (#[trigger] requests[j]).0,
        forall|i: int| 0 <= i < requests.len() ==> (#[trigger] requests[i]).1 == ratio,
        ratios_in_some_order(joined_all(Map::empty(), allowed, requests), ratios),
    ensures
        joined_all(Map::empty(), allowed, requests).dom().len() == allowed,
        forall|i: int|
            0 <= i < requests.len() ==> joined_all(Map::empty(), allowed, requests).contains_pair(
                (#[trigger] requests[i]).0,
                ratio,
            ),
        ratios.len() == allowed,
        forall|i: int| 0 <= i < ratios.len() ==> ratios[i] == ratio,
{
    let house = joined_all(Map::empty(), allowed, requests);
    lemma_all_admitted(allowed, requests, ratio);
    let workers = choose|workers: Seq<u64>| lists_ratios(house, workers, ratios);
    workers.unique_seq_to_set();
    assert forall|i: int| 0 <= i < requests.len() implies house.contains_pair(
        (#[trigger] requests[i]).0,
        ratio,
    ) by {
        assert(house.dom().contains(requests[i].0));
    }
    assert forall|i: int| 0 <= i < ratios.len() implies ratios[i] == ratio by {
        assert(workers.contains(workers[i]));
        assert(house.dom().contains(workers[i]));
    }
}

proof fn lemma_all_admitted(allowed: nat, requests: Seq<(u64, u32)>, ratio: u32)
    requires
        requests.len() <= allowed,
        forall|i: int, j: int|
            0 <= i < j < requests.len() ==> (#[trigger] requests[i]).0 != (#[trigger] requests[j]).0,
        forall|i: int| 0 <= i < requests.len() ==> (#[trigger] requests[i]).1 == ratio,
    ensures
        joined_all(Map::empty(), allowed, requests).dom().finite(),
        joined_all(Map::empty(), allowed, requests).dom().len() == requests.len(),
        forall|w: u64| #[trigger]
            joined_all(Map::empty(), allowed, requests).dom().contains(w) <==> exists|i: int|
                0 <= i < requests.len() && (#[trigger] requests[i]).0 == w,
        forall|w: u64| #[trigger]
            joined_all(Map::empty(), allowed, requests).dom().contains(w) ==> joined_all(
                Map::empty(),
                allowed,
                requests,
            )[w] == ratio,
    decreases requests.len(),
{
    if requests.len() > 0 {
        let earlier = requests.drop_last();
        lemma_all_admitted(allowed, earlier, ratio);
        let before = joined_all(Map::<u64, u32>::empty(), allowed, earlier);
        let after = joined_all(Map::<u64, u32>::empty(), allowed, requests);
        let last = requests.last();
        assert(after == before.insert(last.0, last.1));
        if before.dom().contains(last.0) {
            let i = choose|i: int| 0 <= i < earlier.len() && (#[trigger] earlier[i]).0 == last.0;
            assert(requests[i].0 != requests[requests.len() - 1].0);
        }
        assert forall|w: u64| #[trigger] after.dom().contains(w) implies exists|i: int|
            0 <= i < requests.len() && (#[trigger] requests[i]).0 == w by {
            if w == last.0 {
                assert(requests[requests.len() - 1].0 == w);
            } else {
                let i = choose|i: int| 0 <= i < earlier.len() && (#[trigger] earlier[i]).0 == w;
                assert(requests[i].0 == w);
            }
        }
        assert forall|w: u64|
            (exists|i: int| 0 <= i < requests.len() && (#[trigger] requests[i]).0 == w)
            implies #[trigger] after.dom().contains(w) by {
            let i = choose|i: int| 0 <= i < requests.len() && (#[trigger] requests[i]).0 == w;
            if i < earlier.len() {
                assert(earlier[i].0 == w);
            }
        }
    }
}

} // verus!
