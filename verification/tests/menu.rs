use rusty_puzzles::menu::preset_checks;

#[test]
fn current_preset_is_checked() {
    assert_eq!(preset_checks(4, Some(2)), vec![false, false, true, false]);
}

#[test]
fn no_or_unknown_preset_checks_nothing() {
    assert_eq!(preset_checks(3, None), vec![false, false, false]);
    assert_eq!(preset_checks(3, Some(-1)), vec![false, false, false]);
    assert_eq!(preset_checks(3, Some(3)), vec![false, false, false]);
    assert_eq!(preset_checks(0, Some(0)), Vec::<bool>::new());
}

#[test]
fn chosen_preset_finds_its_entries() {
    use_entries();
}

fn use_entries() {
    let ids = vec![4, 7, 4, 1];
    assert_eq!(rusty_puzzles::menu::entries_with_id(&ids, 4), vec![0, 2]);
    assert_eq!(rusty_puzzles::menu::entries_with_id(&ids, 1), vec![3]);
    assert_eq!(rusty_puzzles::menu::entries_with_id(&ids, 9), Vec::<usize>::new());
}
