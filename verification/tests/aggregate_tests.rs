use game_timers::AggregatedGroup;
use game_timers::CropRecord;
use game_timers::Status;
use game_timers::TimingProfile;
use game_timers::aggregate;
use game_timers::aggregate::aggregate_all;
use game_timers::catalog::profile_for;

const NOW: i64 = 1_700_000_000;

fn record(plant_time: Option<i64>, last_tending: Option<i64>) -> CropRecord {
    CropRecord { plant_id: 4842, plant_time, last_tending }
}

#[test]
fn overall_status_is_member_maximum() {
    let profile = TimingProfile { completion_secs: 7200, decay_delay_secs: 3600, grace_secs: 3600 };
    // One member Okay (nothing started), one Wilting (decay begun).
    let okay = record(Some(NOW), Some(NOW));
    let wilting = record(Some(NOW), Some(NOW - 4000));
    let g = aggregate(4842, &vec![okay, wilting], &profile, NOW);
    assert_eq!(g.overall_status, Status::Wilting);
    assert_eq!(g.member_count, 2);

    // Adding a higher-severity member never lowers the overall status.
    let dead = record(Some(NOW), Some(NOW - 8000));
    let g2 = aggregate(4842, &vec![okay, wilting, dead], &profile, NOW);
    assert!(g2.overall_status >= g.overall_status);
    assert_eq!(g2.overall_status, Status::Dead);
}

#[test]
fn good_group_takes_earliest_completion() {
    let profile = TimingProfile { completion_secs: 5400, decay_delay_secs: 3600, grace_secs: 3600 };
    let a = record(Some(NOW), Some(NOW));
    let b = record(Some(NOW - 600), Some(NOW));
    let g = aggregate(4842, &vec![a, b], &profile, NOW);
    assert_eq!(g.overall_status, Status::Good);
    assert_eq!(g.next_deadline, Some(NOW - 600 + 5400));

    // Lowering one member's completion below the minimum moves the group
    // deadline to exactly the new value.
    let b2 = record(Some(NOW - 900), Some(NOW));
    let g2 = aggregate(4842, &vec![a, b2], &profile, NOW);
    assert_eq!(g2.overall_status, Status::Good);
    assert_eq!(g2.next_deadline, Some(NOW - 900 + 5400));
}

#[test]
fn good_overtakes_decay_group_deadline() {
    // decay start now+1h, decay end now+2h, completion now+90m: Good, and
    // the group deadline is the completion at now+90m.
    let profile = TimingProfile { completion_secs: 5400, decay_delay_secs: 3600, grace_secs: 3600 };
    let r = record(Some(NOW), Some(NOW));
    let g = aggregate(4842, &vec![r], &profile, NOW);
    assert_eq!(g.overall_status, Status::Good);
    assert_eq!(g.next_deadline, Some(NOW + 5400));
}

#[test]
fn wilting_group_takes_earliest_decay_end() {
    let profile = TimingProfile { completion_secs: 7200, decay_delay_secs: 0, grace_secs: 5400 };
    let r = record(Some(NOW), Some(NOW - 3600));
    let g = aggregate(4842, &vec![r], &profile, NOW);
    assert_eq!(g.overall_status, Status::Wilting);
    assert_eq!(g.next_deadline, Some(NOW + 1800));
}

#[test]
fn dead_group_has_no_deadline() {
    let profile = TimingProfile { completion_secs: 7200, decay_delay_secs: 0, grace_secs: 5400 };
    let r = record(Some(NOW), Some(NOW - 3600));
    let g = aggregate(4842, &vec![r], &profile, NOW + 1860);
    assert_eq!(g.overall_status, Status::Dead);
    assert_eq!(g.next_deadline, None);
}

#[test]
fn okay_group_takes_earliest_decay_start() {
    let profile = TimingProfile { completion_secs: 7200, decay_delay_secs: 3600, grace_secs: 3600 };
    let a = record(Some(NOW), Some(NOW));
    let b = record(Some(NOW), Some(NOW - 60));
    let g = aggregate(4842, &vec![a, b], &profile, NOW);
    assert_eq!(g.overall_status, Status::Okay);
    assert_eq!(g.next_deadline, Some(NOW - 60 + 3600));
}

#[test]
fn lone_unassigned_member_yields_no_deadline() {
    let profile = profile_for(4842);
    let g = aggregate(4842, &vec![record(None, None)], &profile, NOW);
    assert_eq!(g.overall_status, Status::Unassigned);
    assert_eq!(g.next_deadline, None);
    assert_eq!(g.member_count, 1);
}

#[test]
fn unassigned_member_influences_nothing() {
    let profile = TimingProfile { completion_secs: 5400, decay_delay_secs: 3600, grace_secs: 3600 };
    let good = record(Some(NOW), Some(NOW));
    let with_unassigned = vec![good, record(None, None)];
    let without = vec![good];
    let g1 = aggregate(4842, &with_unassigned, &profile, NOW);
    let g2 = aggregate(4842, &without, &profile, NOW);
    assert_eq!(g1.overall_status, g2.overall_status);
    assert_eq!(g1.next_deadline, g2.next_deadline);
}

#[test]
fn aggregate_all_groups_by_ascending_key() {
    let mk = |id: u32| CropRecord {
        plant_id: id,
        plant_time: Some(NOW),
        last_tending: Some(NOW),
    };
    let records = vec![mk(8165), mk(4842), mk(8165), mk(0)];
    let out: Vec<AggregatedGroup> = aggregate_all(&records, NOW);
    assert_eq!(out.len(), 2);
    assert_eq!(out[0].group_key, 4842);
    assert_eq!(out[0].member_count, 1);
    assert_eq!(out[1].group_key, 8165);
    assert_eq!(out[1].member_count, 2);
}

#[test]
fn aggregate_all_empty_run() {
    let out = aggregate_all(&Vec::new(), NOW);
    assert!(out.is_empty());
}
