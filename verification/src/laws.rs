//! Laws relating the classifier and the aggregator: the overall status of a
//! group really is the severity maximum of its members, the next deadline
//! really is the minimum of the relevant kind, and unassigned records never
//! influence either.

use vstd::prelude::*;

use crate::aggregate::DeadlineKind;
use crate::aggregate::spec_group_status;
use crate::aggregate::spec_member_deadline;
use crate::aggregate::spec_min_deadline;
use crate::aggregate::spec_next_deadline;
use crate::catalog::TimingProfile;
use crate::classify::CropRecord;
use crate::classify::spec_classify;
use crate::status::Status;
use crate::status::spec_severity;
use crate::status::spec_worse;

verus! {

/// Classification is a function of the record, the profile and `now`
/// alone: any two statuses that both satisfy the classifier's contract on
/// the same inputs are the same status, so classifying twice cannot
/// disagree.
pub proof fn lemma_classification_deterministic(
    r: CropRecord,
    p: TimingProfile,
    now: int,
    s1: Status,
    s2: Status,
)
    requires
        s1 == spec_classify(r, p, now),
        s2 == spec_classify(r, p, now),
    ensures
        s1 == s2,
{
}

/// The overall status of a non-empty group is the maximum of its members'
/// statuses under the severity order: no member is more severe than the
/// group, and some member attains the group's status.
pub proof fn lemma_overall_is_max(g: Seq<CropRecord>, p: TimingProfile, now: int)
    requires
        g.len() >= 1,
    ensures
        forall|i: int|
            0 <= i < g.len() ==> spec_severity(spec_classify(g[i], p, now)) <= spec_severity(
                spec_group_status(g, p, now),
            ),
        exists|i: int|
            0 <= i < g.len() && spec_classify(g[i], p, now) == spec_group_status(g, p, now),
    decreases g.len(),
{
    if g.len() == 1 {
        assert(g.drop_last().len() == 0);
        assert(spec_group_status(g, p, now) == spec_worse(
            Status::Unassigned,
            spec_classify(g.last(), p, now),
        ));
        assert(g[0] == g.last());
    } else {
        lemma_overall_is_max(g.drop_last(), p, now);
        let rest = spec_group_status(g.drop_last(), p, now);
        let last = spec_classify(g.last(), p, now);
        assert(spec_group_status(g, p, now) == spec_worse(rest, last));
        assert(forall|i: int| 0 <= i < g.len() - 1 ==> g.drop_last()[i] == g[i]);
        if spec_severity(last) > spec_severity(rest) {
            assert(spec_classify(g[g.len() - 1], p, now) == spec_group_status(g, p, now));
        } else {
            let i = choose|i: int|
                0 <= i < g.drop_last().len() && spec_classify(g.drop_last()[i], p, now) == rest;
            assert(spec_classify(g[i], p, now) == spec_group_status(g, p, now));
        }
    }
}

/// Appending a member combines its status into the maximum: the overall
/// status of the grown group is the worse of the old overall status and the
/// new member's status, so adding a member never lowers the group's
/// severity.
pub proof fn lemma_overall_status_monotonic(
    g: Seq<CropRecord>,
    r: CropRecord,
    p: TimingProfile,
    now: int,
)
    ensures
        spec_group_status(g.push(r), p, now) == spec_worse(
            spec_group_status(g, p, now),
            spec_classify(r, p, now),
        ),
        spec_severity(spec_group_status(g.push(r), p, now)) >= spec_severity(
            spec_group_status(g, p, now),
        ),
{
    assert(g.push(r).drop_last() =~= g);
    assert(g.push(r).last() == r);
}

/// What the minimum-deadline selection means: it is `None` exactly when no
/// member is assigned, and otherwise it is attained by some assigned member
/// and bounds every assigned member's deadline from below.
pub proof fn lemma_min_deadline_characterization(g: Seq<CropRecord>, p: TimingProfile, k: DeadlineKind)
    ensures
        spec_min_deadline(g, p, k) is None <==> (forall|i: int|
            0 <= i < g.len() ==> !g[i].spec_is_assigned()),
        spec_min_deadline(g, p, k) matches Some(m) ==> ((exists|i: int|
            0 <= i < g.len() && g[i].spec_is_assigned() && spec_member_deadline(g[i], p, k) == m)
            && (forall|i: int|
            0 <= i < g.len() && g[i].spec_is_assigned() ==> m <= spec_member_deadline(g[i], p, k))),
    decreases g.len(),
{
    if g.len() == 0 {
    } else {
        lemma_min_deadline_characterization(g.drop_last(), p, k);
        assert(forall|i: int| 0 <= i < g.len() - 1 ==> g.drop_last()[i] == g[i]);
        assert(g.last() == g[g.len() - 1]);
        let rest = spec_min_deadline(g.drop_last(), p, k);
        if !g.last().spec_is_assigned() {
            match rest {
                Option::None => {
                },
                Option::Some(m) => {
                    let i = choose|i: int|
                        0 <= i < g.drop_last().len() && g.drop_last()[i].spec_is_assigned()
                            && spec_member_deadline(g.drop_last()[i], p, k) == m;
                    assert(g[i].spec_is_assigned() && spec_member_deadline(g[i], p, k) == m);
                },
            }
        } else {
            let d = spec_member_deadline(g.last(), p, k);
            match rest {
                Option::None => {
                    assert(spec_min_deadline(g, p, k) == Some(d));
                },
                Option::Some(m) => {
                    if d < m {
                    } else {
                        let i = choose|i: int|
                            0 <= i < g.drop_last().len() && g.drop_last()[i].spec_is_assigned()
                                && spec_member_deadline(g.drop_last()[i], p, k) == m;
                        assert(g[i].spec_is_assigned() && spec_member_deadline(g[i], p, k) == m);
                    }
                },
            }
        }
    }
}

/// While a group is `Good`, its next deadline is the earliest completion
/// over its assigned members.
pub proof fn lemma_good_group_deadline(g: Seq<CropRecord>, p: TimingProfile, now: int)
    requires
        spec_group_status(g, p, now) == Status::Good,
    ensures
        spec_next_deadline(g, p, now) == spec_min_deadline(g, p, DeadlineKind::Completion),
{
}

/// Lowering one member's deadline below the current minimum moves the
/// group's minimum to exactly the new value: replacing member `i` by an
/// assigned record whose deadline is at most the old minimum makes that
/// deadline the new minimum.
pub proof fn lemma_min_deadline_tracks_new_minimum(
    g: Seq<CropRecord>,
    i: int,
    r: CropRecord,
    p: TimingProfile,
    k: DeadlineKind,
)
    requires
        0 <= i < g.len(),
        r.spec_is_assigned(),
        spec_min_deadline(g, p, k) matches Some(m) && spec_member_deadline(r, p, k) <= m,
    ensures
        spec_min_deadline(g.update(i, r), p, k) == Some(spec_member_deadline(r, p, k)),
{
    let g2 = g.update(i, r);
    let c = spec_member_deadline(r, p, k);
    let m = spec_min_deadline(g, p, k)->0;
    lemma_min_deadline_characterization(g, p, k);
    lemma_min_deadline_characterization(g2, p, k);
    assert(g2[i] == r);
    assert(!(spec_min_deadline(g2, p, k) is None));
    let m2 = spec_min_deadline(g2, p, k)->0;
    assert(m2 <= c);
    let j = choose|j: int|
        0 <= j < g2.len() && g2[j].spec_is_assigned() && spec_member_deadline(g2[j], p, k) == m2;
    if j != i {
        assert(g2[j] == g[j]);
        assert(m <= spec_member_deadline(g[j], p, k));
    }
}

/// An unassigned record never influences a group: it classifies to the
/// dedicated `Unassigned` status, and appending it changes neither the
/// overall status nor the next deadline. Alone in a group, it yields
/// status `Unassigned` and no deadline.
pub proof fn lemma_unassigned_never_influences(
    g: Seq<CropRecord>,
    r: CropRecord,
    p: TimingProfile,
    now: int,
)
    requires
        !r.spec_is_assigned(),
    ensures
        spec_classify(r, p, now) == Status::Unassigned,
        spec_group_status(g.push(r), p, now) == spec_group_status(g, p, now),
        forall|k: DeadlineKind| #[trigger]
            spec_min_deadline(g.push(r), p, k) == spec_min_deadline(g, p, k),
        spec_next_deadline(g.push(r), p, now) == spec_next_deadline(g, p, now),
        spec_group_status(seq![r], p, now) == Status::Unassigned,
        spec_next_deadline(seq![r], p, now) is None,
{
    assert(g.push(r).drop_last() =~= g);
    assert(g.push(r).last() == r);
    assert forall|k: DeadlineKind| #[trigger]
        spec_min_deadline(g.push(r), p, k) == spec_min_deadline(g, p, k) by {
        assert(g.push(r).drop_last() =~= g);
    }
    let s1 = seq![r];
    assert(s1.len() == 1);
    assert(s1.last() == r);
    assert(s1.drop_last() =~= Seq::<CropRecord>::empty());
    assert(spec_group_status(s1.drop_last(), p, now) == Status::Unassigned);
    assert(spec_group_status(s1, p, now) == spec_worse(
        spec_group_status(s1.drop_last(), p, now),
        spec_classify(r, p, now),
    ));
}

} // verus!
