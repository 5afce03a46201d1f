use game_timers::catalog::crop_grow_time;
use game_timers::catalog::crop_name;
use game_timers::catalog::crop_wilt_time;
use game_timers::catalog::crop_wither_time;
use game_timers::catalog::profile_for;
use game_timers::catalog::server_name;
use game_timers::catalog::worldname;

#[test]
fn crop_names() {
    assert_eq!(crop_name(4842), "Almond");
    assert_eq!(crop_name(6146), "Mirror Apple");
    assert_eq!(crop_name(7604), "Royal Kukuru");
    assert_eq!(crop_name(7895), "Sylkis Bud");
    assert_eq!(crop_name(8165), "Krakka Root");
    assert_eq!(crop_name(12896), "Old World Fig");
    assert_eq!(crop_name(1), "(Unknown Crop)");
}

#[test]
fn crop_timings() {
    assert_eq!(crop_grow_time(4842), 5 * 86400);
    assert_eq!(crop_grow_time(7604), 6 * 86400);
    assert_eq!(crop_grow_time(8165), 3 * 86400);
    assert_eq!(crop_wilt_time(4842), 48 * 3600);
    assert_eq!(crop_wilt_time(7604), 36 * 3600);
    assert_eq!(crop_wilt_time(8165), 24 * 3600);
    assert_eq!(crop_wither_time(8165), 48 * 3600);
    assert_eq!(crop_wither_time(7604), 60 * 3600);
}

#[test]
fn unknown_crop_profile_is_inert() {
    let p = profile_for(31337);
    assert_eq!(p.completion_secs, 0);
    assert_eq!(p.decay_delay_secs, 0);
    assert_eq!(p.grace_secs, 0);
    // The standalone wither helper still counts a day past wilting.
    assert_eq!(crop_wither_time(31337), 86400);
}

#[test]
fn known_crop_profile_matches_tables() {
    let p = profile_for(8165);
    assert_eq!(p.completion_secs, crop_grow_time(8165));
    assert_eq!(p.decay_delay_secs, crop_wilt_time(8165));
    assert_eq!(p.decay_delay_secs + p.grace_secs, crop_wither_time(8165));
}

#[test]
fn world_and_server_names() {
    assert_eq!(worldname(72), "Tonberry");
    assert_eq!(worldname(91), "Balmung");
    assert_eq!(worldname(1), "<Unknown>");
    assert_eq!(server_name(72), "Tonberry");
    assert_eq!(server_name(91), "Balmung");
    assert_eq!(server_name(-5), "(Unknown Server)");
}
