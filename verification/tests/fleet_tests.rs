use game_timers::SavedCharacter;
use game_timers::SubmarineRow;
use game_timers::find_character;
use game_timers::group_fleet;
use game_timers::inventory::is_venture;

fn row(fc_id: &[u8], tag: &str, sub_name: &str, return_time: i64) -> SubmarineRow {
    SubmarineRow {
        fc_id: fc_id.to_vec(),
        character_name: String::from("Aeri"),
        world: String::from("Tonberry"),
        tag: String::from(tag),
        sub_name: String::from(sub_name),
        return_time,
    }
}

#[test]
fn adjacent_rows_group_into_companies() {
    let rows = vec![
        row(&[1, 2], "AAA", "Unsinkable", 100),
        row(&[1, 2], "AAA", "Leaky", 0),
        row(&[9], "BBB", "Solo", 250),
    ];
    let fcs = group_fleet(&rows);
    assert_eq!(fcs.len(), 2);
    assert_eq!(fcs[0].id, vec![1, 2]);
    assert_eq!(fcs[0].tag, "AAA");
    assert_eq!(fcs[0].submarines.len(), 2);
    assert_eq!(fcs[0].submarines[0].name, "Unsinkable");
    assert_eq!(fcs[0].submarines[0].return_time, 100);
    assert_eq!(fcs[0].submarines[1].name, "Leaky");
    assert_eq!(fcs[0].submarines[1].return_time, 0);
    assert_eq!(fcs[1].id, vec![9]);
    assert_eq!(fcs[1].submarines.len(), 1);
    assert_eq!(fcs[1].submarines[0].name, "Solo");
}

#[test]
fn company_change_opens_new_group() {
    // Grouping is by adjacency: the identifier changing and changing back
    // opens a fresh company, as with rows ordered by company.
    let rows = vec![
        row(&[1], "AAA", "One", 10),
        row(&[2], "BBB", "Two", 20),
        row(&[1], "AAA", "Three", 30),
    ];
    let fcs = group_fleet(&rows);
    assert_eq!(fcs.len(), 3);
    assert_eq!(fcs[0].submarines[0].name, "One");
    assert_eq!(fcs[1].submarines[0].name, "Two");
    assert_eq!(fcs[2].submarines[0].name, "Three");
}

#[test]
fn empty_rows_give_empty_fleet() {
    let fcs = group_fleet(&Vec::new());
    assert!(fcs.is_empty());
}

#[test]
fn find_character_returns_first_match() {
    let chars = vec![
        SavedCharacter { character_id: 11, name: String::from("Aeri"), world_id: 72 },
        SavedCharacter { character_id: 22, name: String::from("Bran"), world_id: 91 },
        SavedCharacter { character_id: 22, name: String::from("Copy"), world_id: 72 },
    ];
    assert_eq!(find_character(&chars, 11), Some(0));
    assert_eq!(find_character(&chars, 22), Some(1));
    assert_eq!(find_character(&chars, 33), None);
    assert_eq!(find_character(&Vec::new(), 11), None);
}

#[test]
fn venture_item_filter() {
    assert!(is_venture(21072));
    assert!(!is_venture(21071));
    assert!(!is_venture(0));
}
