//! The group aggregator: reduce records sharing a group key to one
//! worst-case status and one next relevant deadline.
//!
//! The overall status is the severity maximum of the members' statuses. The
//! next deadline is status-conditioned: the group tracks the next event *of
//! the kind implied by its current worst status* (decay start while `Okay`,
//! decay end while `Wilting`, completion while `Good`), taking the minimum
//! over the assigned members; terminal and unassigned groups carry none.

use vstd::prelude::*;

use crate::catalog::TimingProfile;
use crate::classify::CropRecord;
use crate::classify::crop_status;
use crate::classify::spec_classify;
use crate::classify::spec_completion;
use crate::classify::spec_decay_end;
use crate::classify::spec_decay_start;
use crate::status::Status;
use crate::status::spec_worse;

verus! {

/// Which of the three derived deadlines of a member is being selected.
#[derive(Clone, Copy, Debug, PartialEq, Eq, Structural)]
pub enum DeadlineKind {
    /// When decay begins: relevant while the group is `Okay`.
    DecayStart,
    /// When decay becomes irrecoverable: relevant while the group is
    /// `Wilting`.
    DecayEnd,
    /// When growth completes: relevant while the group is `Good`.
    Completion,
}

/// The deadline of one member, by kind. Meaningful only for an assigned
/// member.
pub open spec fn spec_member_deadline(r: CropRecord, p: TimingProfile, k: DeadlineKind) -> int
    recommends
        r.spec_is_assigned(),
{
    match k {
        DeadlineKind::DecayStart => spec_decay_start(r, p),
        DeadlineKind::DecayEnd => spec_decay_end(r, p),
        DeadlineKind::Completion => spec_completion(r, p),
    }
}

/// The earliest deadline of the given kind over the assigned members of a
/// group; `None` when no member is assigned. An unassigned member
/// contributes nothing.
pub open spec fn spec_min_deadline(g: Seq<CropRecord>, p: TimingProfile, k: DeadlineKind) -> Option<
    int,
>
    decreases g.len(),
{
    if g.len() == 0 {
        Option::None
    } else {
        let rest = spec_min_deadline(g.drop_last(), p, k);
        if !g.last().spec_is_assigned() {
            rest
        } else {
            let d = spec_member_deadline(g.last(), p, k);
            match rest {
                Option::None => Option::Some(d),
                Option::Some(m) => Option::Some(
                    if d < m {
                        d
                    } else {
                        m
                    },
                ),
            }
        }
    }
}

/// The overall status of a group: the severity maximum of the members'
/// statuses. The empty group sits at `Unassigned`, the identity of the
/// maximum, so a group of only unassigned members is itself `Unassigned`.
pub open spec fn spec_group_status(g: Seq<CropRecord>, p: TimingProfile, now: int) -> Status
    decreases g.len(),
{
    if g.len() == 0 {
        Status::Unassigned
    } else {
        spec_worse(spec_group_status(g.drop_last(), p, now), spec_classify(g.last(), p, now))
    }
}

/// The next relevant deadline of a group, conditioned on its overall
/// status: decay start while `Okay`, decay end while `Wilting`, completion
/// while `Good`; none for a terminal or unassigned group.
pub open spec fn spec_next_deadline(g: Seq<CropRecord>, p: TimingProfile, now: int) -> Option<int> {
    match spec_group_status(g, p, now) {
        Status::Okay => spec_min_deadline(g, p, DeadlineKind::DecayStart),
        Status::Wilting => spec_min_deadline(g, p, DeadlineKind::DecayEnd),
        Status::Good => spec_min_deadline(g, p, DeadlineKind::Completion),
        _ => Option::None,
    }
}

/// An executable optional timestamp carries exactly the value of a modelled
/// optional deadline.
pub open spec fn deadline_agrees(actual: Option<i64>, model: Option<int>) -> bool {
    match (actual, model) {
        (Option::None, Option::None) => true,
        (Option::Some(a), Option::Some(m)) => a as int == m,
        _ => false,
    }
}

/// One summarized line of display: a group key, how many records share it,
/// their worst status, and the next relevant deadline if any. Never mutated
/// once built.
#[derive(Clone, Copy, Debug)]
pub struct AggregatedGroup {
    /// The identity the members share.
    pub group_key: u32,
    /// How many records were aggregated.
    pub member_count: usize,
    /// The severity maximum of the members' statuses.
    pub overall_status: Status,
    /// The next relevant deadline, absent for terminal or unassigned
    /// groups.
    pub next_deadline: Option<i64>,
}

/// Reduce a non-empty group of records sharing `group_key` to one status
/// and one next deadline, all at the single instant `now`.
pub fn aggregate(
    group_key: u32,
    members: &Vec<CropRecord>,
    profile: &TimingProfile,
    now: i64,
) -> (g: AggregatedGroup)
    requires
        members@.len() >= 1,
        forall|j: int| 0 <= j < members@.len() ==> members@[j].wf(),
    ensures
        g.group_key == group_key,
        g.member_count == members@.len(),
        g.overall_status == spec_group_status(members@, *profile, now as int),
        deadline_agrees(g.next_deadline, spec_next_deadline(members@, *profile, now as int)),
{
    let ghost p = *profile;
    let mut status = Status::Unassigned;
    let mut min_start: Option<i64> = None;
    let mut min_end: Option<i64> = None;
    let mut min_completion: Option<i64> = None;
    let mut i: usize = 0;
    proof {
        assert(members@.subrange(0, 0) =~= Seq::<CropRecord>::empty());
    }
    while i < members.len()
        invariant
            0 <= i <= members@.len(),
            forall|j: int| 0 <= j < members@.len() ==> members@[j].wf(),
            status == spec_group_status(members@.subrange(0, i as int), p, now as int),
            deadline_agrees(
                min_start,
                spec_min_deadline(members@.subrange(0, i as int), p, DeadlineKind::DecayStart),
            ),
            deadline_agrees(
                min_end,
                spec_min_deadline(members@.subrange(0, i as int), p, DeadlineKind::DecayEnd),
            ),
            deadline_agrees(
                min_completion,
                spec_min_deadline(members@.subrange(0, i as int), p, DeadlineKind::Completion),
            ),
            p == *profile,
        decreases members@.len() - i,
    {
        proof {
            assert(members@.subrange(0, i + 1).drop_last() =~= members@.subrange(0, i as int));
            assert(members@.subrange(0, i + 1).last() == members@[i as int]);
        }
        let r = &members[i];
        let s = crop_status(r, profile, now);
        status = status.worse(s);
        match (r.plant_time, r.last_tending) {
            (Some(pt), Some(lt)) => {
                let ds: i64 = lt + profile.decay_delay_secs as i64;
                let de: i64 = ds + profile.grace_secs as i64;
                let c: i64 = pt + profile.completion_secs as i64;
                min_start = Some(
                    match min_start {
                        None => ds,
                        Some(m) => if ds < m {
                            ds
                        } else {
                            m
                        },
                    },
                );
                min_end = Some(
                    match min_end {
                        None => de,
                        Some(m) => if de < m {
                            de
                        } else {
                            m
                        },
                    },
                );
                min_completion = Some(
                    match min_completion {
                        None => c,
                        Some(m) => if c < m {
                            c
                        } else {
                            m
                        },
                    },
                );
            },
            _ => {},
        }
        i = i + 1;
    }
    proof {
        assert(members@.subrange(0, members@.len() as int) =~= members@);
    }
    let next_deadline = match status {
        Status::Okay => min_start,
        Status::Wilting => min_end,
        Status::Good => min_completion,
        _ => None,
    };
    AggregatedGroup { group_key, member_count: members.len(), overall_status: status, next_deadline }
}

/// The records of a run that belong to one group key, in input order.
pub open spec fn spec_members_of(records: Seq<CropRecord>, key: u32) -> Seq<CropRecord>
    decreases records.len(),
{
    if records.len() == 0 {
        Seq::<CropRecord>::empty()
    } else {
        let rest = spec_members_of(records.drop_last(), key);
        if records.last().plant_id == key {
            rest.push(records.last())
        } else {
            rest
        }
    }
}

/// A key that some record carries has at least one member.
proof fn lemma_members_of_occupied(records: Seq<CropRecord>, key: u32, j: int)
    requires
        0 <= j < records.len(),
        records[j].plant_id == key,
    ensures
        spec_members_of(records, key).len() >= 1,
    decreases records.len(),
{
    if j < records.len() - 1 {
        lemma_members_of_occupied(records.drop_last(), key, j);
    }
}

/// Collect the records carrying one group key, in input order.
fn members_of(records: &Vec<CropRecord>, key: u32) -> (ms: Vec<CropRecord>)
    requires
        forall|j: int| 0 <= j < records@.len() ==> records@[j].wf(),
    ensures
        ms@ == spec_members_of(records@, key),
        forall|t: int| 0 <= t < ms@.len() ==> ms@[t].wf(),
{
    let mut ms: Vec<CropRecord> = Vec::new();
    let mut i: usize = 0;
    proof {
        assert(records@.subrange(0, 0) =~= Seq::<CropRecord>::empty());
    }
    while i < records.len()
        invariant
            i <= records@.len(),
            forall|j: int| 0 <= j < records@.len() ==> records@[j].wf(),
            ms@ == spec_members_of(records@.subrange(0, i as int), key),
            forall|t: int| 0 <= t < ms@.len() ==> ms@[t].wf(),
        decreases records@.len() - i,
    {
        proof {
            assert(records@.subrange(0, i + 1).drop_last() =~= records@.subrange(0, i as int));
            assert(records@.subrange(0, i + 1).last() == records@[i as int]);
        }
        if records[i].plant_id == key {
            ms.push(records[i]);
        }
        i = i + 1;
    }
    proof {
        assert(records@.subrange(0, records@.len() as int) =~= records@);
    }
    ms
}

/// Whether a key is already present.
fn contains_key(keys: &Vec<u32>, key: u32) -> (r: bool)
    ensures
        r == keys@.contains(key),
{
    let mut i: usize = 0;
    while i < keys.len()
        invariant
            i <= keys@.len(),
            forall|j: int| 0 <= j < i ==> keys@[j] != key,
        decreases keys@.len() - i,
    {
        if keys[i] == key {
            return true;
        }
        i = i + 1;
    }
    false
}

/// Keys in strictly ascending order.
pub open spec fn spec_sorted_strict(keys: Seq<u32>) -> bool {
    forall|a: int, b: int| 0 <= a < b < keys.len() ==> keys[a] < keys[b]
}

/// Insert a fresh key into a strictly ascending key list, keeping the
/// order.
fn insert_sorted(keys: &mut Vec<u32>, key: u32)
    requires
        spec_sorted_strict(old(keys)@),
        !old(keys)@.contains(key),
    ensures
        spec_sorted_strict(final(keys)@),
        final(keys)@.len() == old(keys)@.len() + 1,
        forall|x: u32| final(keys)@.contains(x) <==> (old(keys)@.contains(x) || x == key),
{
    let mut p: usize = 0;
    while p < keys.len() && keys[p] < key
        invariant
            p <= keys@.len(),
            keys@ == old(keys)@,
            forall|j: int| 0 <= j < p ==> keys@[j] < key,
        decreases keys@.len() - p,
    {
        p = p + 1;
    }
    proof {
        if p < keys@.len() {
            assert(keys@[p as int] != key) by {
                assert(keys@.contains(key) ==> exists|j: int|
                    0 <= j < keys@.len() && keys@[j] == key);
            }
        }
    }
    keys.insert(p, key);
    proof {
        let new = keys@;
        let prior = old(keys)@;
        assert forall|a: int, b: int| 0 <= a < b < new.len() implies new[a] < new[b] by {
            assert(new == prior.insert(p as int, key));
        }
        assert forall|x: u32| new.contains(x) implies (prior.contains(x) || x == key) by {
            let j = choose|j: int| 0 <= j < new.len() && new[j] == x;
            if j < p {
                assert(prior[j] == x);
            } else if j > p {
                assert(prior[j - 1] == x);
            }
        }
        assert forall|x: u32| (prior.contains(x) || x == key) implies new.contains(x) by {
            if x == key {
                assert(new[p as int] == x);
            } else {
                let j = choose|j: int| 0 <= j < prior.len() && prior[j] == x;
                if j < p {
                    assert(new[j] == x);
                } else {
                    assert(new[j + 1] == x);
                }
            }
        }
    }
}

/// One whole run: group the records by their entity type (dropping the
/// zero identifier, which marks an empty plot), aggregate each group under
/// its own timing profile, and return the groups with their keys strictly
/// ascending. Every non-zero entity type that occurs in the input gets
/// exactly one group.
pub fn aggregate_all(records: &Vec<CropRecord>, now: i64) -> (out: Vec<AggregatedGroup>)
    requires
        forall|j: int| 0 <= j < records@.len() ==> records@[j].wf(),
    ensures
        forall|a: int, b: int| 0 <= a < b < out@.len() ==> out@[a].group_key < out@[b].group_key,
        forall|i: int|
            0 <= i < out@.len() ==> out@[i].group_key != 0 && out@[i].member_count
                == spec_members_of(records@, out@[i].group_key).len() && out@[i].overall_status
                == spec_group_status(
                spec_members_of(records@, out@[i].group_key),
                crate::catalog::spec_profile_for(out@[i].group_key),
                now as int,
            ) && deadline_agrees(
                out@[i].next_deadline,
                spec_next_deadline(
                    spec_members_of(records@, out@[i].group_key),
                    crate::catalog::spec_profile_for(out@[i].group_key),
                    now as int,
                ),
            ),
        forall|j: int|
            0 <= j < records@.len() && records@[j].plant_id != 0 ==> exists|i: int|
                0 <= i < out@.len() && out@[i].group_key == records@[j].plant_id,
{
    let mut keys: Vec<u32> = Vec::new();
    let mut i: usize = 0;
    while i < records.len()
        invariant
            i <= records@.len(),
            spec_sorted_strict(keys@),
            forall|x: u32|
                keys@.contains(x) ==> x != 0 && exists|j: int|
                    0 <= j < i && records@[j].plant_id == x,
            forall|j: int|
                0 <= j < i && records@[j].plant_id != 0 ==> keys@.contains(records@[j].plant_id),
        decreases records@.len() - i,
    {
        let id = records[i].plant_id;
        if id != 0 && !contains_key(&keys, id) {
            insert_sorted(&mut keys, id);
        }
        i = i + 1;
    }
    let mut out: Vec<AggregatedGroup> = Vec::new();
    let mut t: usize = 0;
    while t < keys.len()
        invariant
            t <= keys@.len(),
            out@.len() == t,
            forall|j: int| 0 <= j < records@.len() ==> records@[j].wf(),
            spec_sorted_strict(keys@),
            forall|x: u32|
                keys@.contains(x) ==> x != 0 && exists|j: int|
                    0 <= j < records@.len() && records@[j].plant_id == x,
            forall|j: int|
                0 <= j < records@.len() && records@[j].plant_id != 0 ==> keys@.contains(
                    records@[j].plant_id,
                ),
            forall|u: int| 0 <= u < t ==> out@[u].group_key == keys@[u],
            forall|u: int|
                0 <= u < t ==> out@[u].group_key != 0 && out@[u].member_count == spec_members_of(
                    records@,
                    out@[u].group_key,
                ).len() && out@[u].overall_status == spec_group_status(
                    spec_members_of(records@, out@[u].group_key),
                    crate::catalog::spec_profile_for(out@[u].group_key),
                    now as int,
                ) && deadline_agrees(
                    out@[u].next_deadline,
                    spec_next_deadline(
                        spec_members_of(records@, out@[u].group_key),
                        crate::catalog::spec_profile_for(out@[u].group_key),
                        now as int,
                    ),
                ),
        decreases keys@.len() - t,
    {
        let key = keys[t];
        let members = members_of(records, key);
        proof {
            assert(keys@.contains(key)) by {
                assert(keys@[t as int] == key);
            }
            let j = choose|j: int| 0 <= j < records@.len() && records@[j].plant_id == key;
            lemma_members_of_occupied(records@, key, j);
        }
        let profile = crate::catalog::profile_for(key);
        let group = aggregate(key, &members, &profile, now);
        out.push(group);
        t = t + 1;
    }
    proof {
        assert forall|a: int, b: int| 0 <= a < b < out@.len() implies out@[a].group_key
            < out@[b].group_key by {
            assert(out@[a].group_key == keys@[a]);
            assert(out@[b].group_key == keys@[b]);
        }
        assert forall|j: int|
            0 <= j < records@.len() && records@[j].plant_id != 0 implies exists|i2: int|
            0 <= i2 < out@.len() && out@[i2].group_key == records@[j].plant_id by {
            let x = records@[j].plant_id;
            assert(keys@.contains(x));
            let u = choose|u: int| 0 <= u < keys@.len() && keys@[u] == x;
            assert(out@[u].group_key == x);
        }
    }
    out
}

} // verus!
