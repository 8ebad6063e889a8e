//! The leaderboard of a race event: the three fastest finishes.
//!
//! Times are counted in frames.

use vstd::prelude::*;
use vstd::seq_lib::{lemma_multiset_commutative, to_multiset_build, to_multiset_insert};

verus! {

/// One finish of a race event.
#[derive(Clone, Debug)]
pub struct BuglympicsEventRecord {
    pub nation: String,
    pub event: String,
    /// The time of the finish, in frames.
    pub time: u32,
}

/// How many records a leaderboard keeps.
pub const PODIUM: usize = 3;

/// The records are in ascending order of time.
pub open spec fn ascending(records: Seq<BuglympicsEventRecord>) -> bool {
    forall|i: int, j: int| 0 <= i <= j < records.len() ==> records[i].time <= records[j].time
}

/// The first place from `from` on whose record is slower than `time`, or the
/// end of the leaderboard if there is none.
pub open spec fn spec_place_from(records: Seq<BuglympicsEventRecord>, time: u32, from: int) -> int
    decreases records.len() - from,
{
    if from < 0 || from >= records.len() || records[from].time > time {
        from
    } else {
        spec_place_from(records, time, from + 1)
    }
}

/// The place at which a finish in the given time is inserted: the first place
/// whose record is slower.
pub open spec fn spec_place(records: Seq<BuglympicsEventRecord>, time: u32) -> int {
    spec_place_from(records, time, 0)
}

/// The first `PODIUM` of the given records.
pub open spec fn spec_podium(records: Seq<BuglympicsEventRecord>) -> Seq<BuglympicsEventRecord> {
    if records.len() > PODIUM {
        records.subrange(0, PODIUM as int)
    } else {
        records
    }
}

/// A leaderboard with one more finish: the record is put behind the records
/// that are not slower, and a fourth record falls off.
pub open spec fn spec_check_result(
    records: Seq<BuglympicsEventRecord>,
    record: BuglympicsEventRecord,
) -> Seq<BuglympicsEventRecord> {
    spec_podium(records.insert(spec_place(records, record.time), record))
}

/// The records that fall off a leaderboard with one more finish.
pub open spec fn spec_falls_off(
    records: Seq<BuglympicsEventRecord>,
    record: BuglympicsEventRecord,
) -> Seq<BuglympicsEventRecord> {
    let all = records.insert(spec_place(records, record.time), record);
    if all.len() > PODIUM {
        all.subrange(PODIUM as int, all.len() as int)
    } else {
        Seq::empty()
    }
}

/// A leaderboard after a series of finishes, in the order in which they came.
pub open spec fn spec_check_all(
    records: Seq<BuglympicsEventRecord>,
    finishes: Seq<BuglympicsEventRecord>,
) -> Seq<BuglympicsEventRecord>
    decreases finishes.len(),
{
    if finishes.len() == 0 {
        records
    } else {
        spec_check_result(spec_check_all(records, finishes.drop_last()), finishes.last())
    }
}

/// All records that fell off a leaderboard during a series of finishes.
pub open spec fn spec_fallen_all(
    records: Seq<BuglympicsEventRecord>,
    finishes: Seq<BuglympicsEventRecord>,
) -> Seq<BuglympicsEventRecord>
    decreases finishes.len(),
{
    if finishes.len() == 0 {
        Seq::empty()
    } else {
        spec_fallen_all(records, finishes.drop_last()) + spec_falls_off(
            spec_check_all(records, finishes.drop_last()),
            finishes.last(),
        )
    }
}

/// The leaderboard of one event.
pub struct MedalStanding {
    event: String,
    medals: Vec<BuglympicsEventRecord>,
}

impl View for MedalStanding {
    type V = Seq<BuglympicsEventRecord>;

    closed spec fn view(&self) -> Seq<BuglympicsEventRecord> {
        self.medals@
    }
}

impl MedalStanding {
    /// The leaderboard holds at most three records, fastest first.
    #[verifier::type_invariant]
    pub open spec fn wf(&self) -> bool {
        &&& self@.len() <= PODIUM
        &&& ascending(self@)
    }

    /// The name of the event.
    pub closed spec fn spec_event(&self) -> String {
        self.event
    }

    /// The empty leaderboard of an event.
    pub fn new(event: String) -> (s: MedalStanding)
        ensures
            s@.len() == 0,
            s.spec_event() == event,
            s.wf(),
    {
        MedalStanding { event, medals: Vec::new() }
    }

    /// The name of the event.
    pub fn event(&self) -> (name: &String)
        ensures
            *name == self.spec_event(),
    {
        &self.event
    }

    /// How many records the leaderboard holds.
    pub fn len(&self) -> (n: usize)
        ensures
            n == self@.len(),
    {
        self.medals.len()
    }

    /// The record at a place, the fastest at place 0.
    pub fn record(&self, place: usize) -> (r: Option<&BuglympicsEventRecord>)
        ensures
            r is Some <==> place < self@.len(),
            r matches Some(rec) ==> *rec == self@[place as int],
    {
        if place < self.medals.len() {
            Some(&self.medals[place])
        } else {
            None
        }
    }

    /// Enters a finish: the record takes its place among the three fastest,
    /// behind records of the same time, or is dropped if it is not among them.
    pub fn check_result(&mut self, record: BuglympicsEventRecord)
        ensures
            final(self)@ == spec_check_result(old(self)@, record),
            final(self).spec_event() == old(self).spec_event(),
            final(self).wf(),
    {
        proof {
            use_type_invariant(&*self);
        }
        let mut medals: Vec<BuglympicsEventRecord> = Vec::new();
        std::mem::swap(&mut self.medals, &mut medals);
        let mut place: usize = 0;
        while place < medals.len() && medals[place].time <= record.time
            invariant
                place <= medals@.len(),
                spec_place(medals@, record.time) == spec_place_from(medals@, record.time, place as int),
            decreases medals@.len() - place,
        {
            place = place + 1;
        }
        proof {
            lemma_insert_keeps_order(medals@, record);
        }
        medals.insert(place, record);
        if medals.len() > PODIUM {
            medals.truncate(PODIUM);
        }
        std::mem::swap(&mut self.medals, &mut medals);
    }
}

/// The place found from `from` on lies between `from` and the end, no record
/// between `from` and it is slower and, if the leaderboard is in order, every
/// record from it on is slower.
pub proof fn lemma_place_from(records: Seq<BuglympicsEventRecord>, time: u32, from: int)
    requires
        0 <= from <= records.len(),
    ensures
        from <= spec_place_from(records, time, from) <= records.len(),
        forall|i: int|
            from <= i < spec_place_from(records, time, from) ==> (#[trigger] records[i]).time <= time,
        ascending(records) ==> forall|i: int|
            spec_place_from(records, time, from) <= i < records.len() ==> (#[trigger] records[i]).time
                > time,
    decreases records.len() - from,
{
    if from >= records.len() || records[from].time > time {
    } else {
        lemma_place_from(records, time, from + 1);
    }
}

/// The place of a finish lies within the leaderboard, no record before it is
/// slower and, if the leaderboard is in order, every record from it on is
/// slower.
pub proof fn lemma_place(records: Seq<BuglympicsEventRecord>, time: u32)
    ensures
        0 <= spec_place(records, time) <= records.len(),
        forall|i: int| 0 <= i < spec_place(records, time) ==> (#[trigger] records[i]).time <= time,
        ascending(records) ==> forall|i: int|
            spec_place(records, time) <= i < records.len() ==> (#[trigger] records[i]).time > time,
{
    lemma_place_from(records, time, 0);
}

/// Entering a finish into a leaderboard that is in order leaves it in order.
pub proof fn lemma_insert_keeps_order(records: Seq<BuglympicsEventRecord>, record: BuglympicsEventRecord)
    requires
        ascending(records),
    ensures
        ascending(records.insert(spec_place(records, record.time), record)),
        ascending(spec_check_result(records, record)),
        spec_check_result(records, record).len() <= PODIUM,
        spec_check_result(records, record).len() == (if records.len() < PODIUM {
            records.len() + 1
        } else {
            PODIUM as nat
        }),
{
    lemma_place(records, record.time);
    let p = spec_place(records, record.time);
    let all = records.insert(p, record);
    assert forall|i: int, j: int| 0 <= i <= j < all.len() implies all[i].time <= all[j].time by {
        if i < p {
            assert(all[i] == records[i]);
        } else if i > p {
            assert(all[i] == records[i - 1]);
        }
        if j < p {
            assert(all[j] == records[j]);
        } else if j > p {
            assert(all[j] == records[j - 1]);
        }
    }
}

/// The fewer of two counts.
pub open spec fn spec_fewer(a: int, b: int) -> int {
    if a <= b {
        a
    } else {
        b
    }
}

/// One finish splits the records into those kept and those that fall off:
/// nothing is lost, nothing is added, and no record that falls off is faster
/// than a record that is kept.
pub proof fn lemma_check_result_splits(records: Seq<BuglympicsEventRecord>, record: BuglympicsEventRecord)
    requires
        ascending(records),
        records.len() <= PODIUM,
    ensures
        (spec_check_result(records, record) + spec_falls_off(records, record)).to_multiset()
            == records.to_multiset().insert(record),
        spec_falls_off(records, record).len() == (if records.len() == PODIUM {
            1nat
        } else {
            0nat
        }),
        forall|i: int, j: int|
            0 <= i < spec_check_result(records, record).len() && 0 <= j < spec_falls_off(
                records,
                record,
            ).len() ==> spec_check_result(records, record)[i].time <= spec_falls_off(
                records,
                record,
            )[j].time,
{
    lemma_place(records, record.time);
    lemma_insert_keeps_order(records, record);
    let p = spec_place(records, record.time);
    let all = records.insert(p, record);
    let kept = spec_check_result(records, record);
    let fallen = spec_falls_off(records, record);
    assert(kept + fallen =~= all);
    to_multiset_insert(records, p, record);
}

/// After any series of finishes, in whatever order they come, a leaderboard
/// holds exactly the fastest three of all its records, fastest first: it is in
/// ascending order, it holds three records as soon as there are three, the
/// records kept and the records that fell off are together the records it began
/// with and the finishes, and no record that fell off is faster than a record
/// kept.
pub proof fn lemma_podium_holds_fastest(
    records: Seq<BuglympicsEventRecord>,
    finishes: Seq<BuglympicsEventRecord>,
)
    requires
        ascending(records),
        records.len() <= PODIUM,
    ensures
        ascending(spec_check_all(records, finishes)),
        spec_check_all(records, finishes).len() == spec_fewer(
            PODIUM as int,
            (records.len() + finishes.len()) as int,
        ),
        spec_check_all(records, finishes).len() + spec_fallen_all(records, finishes).len()
            == records.len() + finishes.len(),
        (spec_check_all(records, finishes) + spec_fallen_all(records, finishes)).to_multiset() == (
        records + finishes).to_multiset(),
        forall|i: int, j: int|
            0 <= i < spec_check_all(records, finishes).len() && 0 <= j < spec_fallen_all(
                records,
                finishes,
            ).len() ==> spec_check_all(records, finishes)[i].time <= spec_fallen_all(
                records,
                finishes,
            )[j].time,
    decreases finishes.len(),
{
    let kept = spec_check_all(records, finishes);
    let fallen = spec_fallen_all(records, finishes);
    if finishes.len() == 0 {
        assert(kept + fallen =~= records + finishes);
    } else {
        let earlier = finishes.drop_last();
        let last = finishes.last();
        let kept0 = spec_check_all(records, earlier);
        let fallen0 = spec_fallen_all(records, earlier);
        let off = spec_falls_off(kept0, last);
        lemma_podium_holds_fastest(records, earlier);
        lemma_insert_keeps_order(kept0, last);
        lemma_check_result_splits(kept0, last);
        assert((kept + fallen).to_multiset() == (records + finishes).to_multiset()) by {
            lemma_multiset_commutative(kept, fallen);
            lemma_multiset_commutative(fallen0, off);
            lemma_multiset_commutative(kept, off);
            lemma_multiset_commutative(kept0, fallen0);
            to_multiset_build(records + earlier, last);
            assert((records + earlier).push(last) =~= records + finishes);
            assert(kept.to_multiset().add(fallen0.to_multiset().add(off.to_multiset()))
                =~= kept.to_multiset().add(off.to_multiset()).add(fallen0.to_multiset()));
            assert(kept0.to_multiset().insert(last).add(fallen0.to_multiset())
                =~= kept0.to_multiset().add(fallen0.to_multiset()).insert(last));
        }
        assert forall|i: int, j: int| 0 <= i < kept.len() && 0 <= j < fallen.len() implies kept[i].time
            <= fallen[j].time by {
            if j < fallen0.len() {
                assert(fallen[j] == fallen0[j]);
                assert(kept0.len() == PODIUM);
                lemma_place(kept0, last.time);
                let p = spec_place(kept0, last.time);
                let all = kept0.insert(p, last);
                assert(kept[i] == all[i]);
                if i < p {
                    assert(all[i] == kept0[i]);
                } else if i == p {
                    assert(all[i] == last);
                    assert(kept0[p].time > last.time);
                    assert(kept0[p].time <= fallen0[j].time);
                } else {
                    assert(all[i] == kept0[i - 1]);
                }
            } else {
                assert(fallen[j] == off[j - fallen0.len()]);
            }
        }
    }
}

} // verus!
