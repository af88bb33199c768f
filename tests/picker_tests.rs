use fuzzy_picker::picker::{picker, FuzzyPicker, PickerAction, PickerPhase, PickerUpdate};
fn quiet() {}

fn strings(items: &[&str]) -> Vec<String> {
    items.iter().map(|s| s.to_string()).collect()
}

fn corpus(items: &[&str]) -> im::Vector<String> {
    im::Vector::from(strings(items))
}

fn converge(p: &mut FuzzyPicker, timeout: u64) -> usize {
    for n in 1..1_000_000 {
        if p.tick(timeout) == PickerAction::Render {
            return n;
        }
    }
    panic!("matching did not converge");
}

fn picker_over(items: &[&str], filter: &str) -> FuzzyPicker {
    let mut p = picker(quiet, corpus(items));
    assert_eq!(p.update(PickerUpdate::Filter(filter.to_string())), PickerAction::WakeNow);
    converge(&mut p, 10);
    p
}

fn ranking(p: &FuzzyPicker) -> Vec<String> {
    p.slice(0..p.total_len())
}

#[test]
fn apple_ranks_first_for_ap() {
    let p = picker_over(&["apple", "banana", "grape"], "ap");
    let all = ranking(&p);
    assert_eq!(all[0], "apple");
    assert!(!all.contains(&"banana".to_string()));
    assert_eq!(p.phase(), PickerPhase::Converged);
}

#[test]
fn empty_corpus_converges_in_one_tick() {
    let mut p = picker(quiet, im::Vector::new());
    p.update_filter("anything".to_string());
    assert_eq!(p.total_len(), 0);
    assert_eq!(p.tick(100), PickerAction::Render);
    assert_eq!(p.total_len(), 0);
    assert_eq!(p.slice(0..10), Vec::<String>::new());
}

#[test]
fn restart_keeps_previous_ranking_until_matching_ran() {
    let items = ["one", "two", "three", "four", "five"];
    let mut p = picker_over(&items, "");
    let before = p.slice(0..5);
    assert_eq!(before.len(), 5);
    assert_eq!(p.update(PickerUpdate::NewItems(corpus(&["six"]))), PickerAction::Nothing);
    assert_eq!(p.phase(), PickerPhase::AwaitingTick);
    assert_eq!(p.slice(0..5), before);
    converge(&mut p, 10);
    assert_eq!(ranking(&p), strings(&["six"]));
}

#[test]
fn converged_count_is_bounded_and_chunking_does_not_matter() {
    let items = ["alpha", "beta", "gamma", "delta", "epsilon", "zeta", "eta"];
    let mut a = picker(quiet, corpus(&items));
    a.update_filter("ta".to_string());
    converge(&mut a, 0);
    let mut b = picker(quiet, corpus(&items));
    b.update_filter("ta".to_string());
    converge(&mut b, 50);
    assert!(a.total_len() <= items.len());
    assert_eq!(ranking(&a), ranking(&b));
    assert_eq!(ranking(&a).len(), 4);
}

#[test]
fn same_filter_twice_changes_nothing() {
    let items = ["apple", "maple", "grape", "pear"];
    let once = picker_over(&items, "ple");
    let mut twice = picker(quiet, corpus(&items));
    twice.update_filter("ple".to_string());
    twice.update_filter("ple".to_string());
    converge(&mut twice, 10);
    assert_eq!(ranking(&once), ranking(&twice));
}

#[test]
fn converged_picker_stays_converged() {
    let mut p = picker_over(&["apple", "banana", "grape"], "an");
    let first = ranking(&p);
    for _ in 0..5 {
        assert_eq!(p.update(PickerUpdate::NewInfo), PickerAction::Render);
        assert_eq!(ranking(&p), first);
    }
    assert_eq!(p.phase(), PickerPhase::Converged);
}

#[test]
fn appending_gives_the_same_matches_as_typing_at_once() {
    let items = ["apple", "application", "happy", "grape", "map", "zebra"];
    let direct = picker_over(&items, "app");
    let mut stepped = picker_over(&items, "ap");
    stepped.update_filter("app".to_string());
    converge(&mut stepped, 10);
    assert_eq!(ranking(&direct), ranking(&stepped));
}

#[test]
fn slice_is_clamped_to_the_ranking() {
    let p = picker_over(&["a1", "a2", "a3"], "");
    let all = ranking(&p);
    assert_eq!(all.len(), 3);
    assert_eq!(p.slice(1..100), all[1..].to_vec());
    assert_eq!(p.slice(5..9), Vec::<String>::new());
    assert_eq!(p.slice(2..1), Vec::<String>::new());
    assert_eq!(p.snapshot().total_len(), 3);
    assert_eq!(p.snapshot().slice(0..2), all[..2].to_vec());
}

#[test]
fn new_picker_is_idle_and_events_move_it() {
    let mut p = FuzzyPicker::new(quiet);
    assert_eq!(p.phase(), PickerPhase::Idle);
    assert_eq!(p.update_items(corpus(&["x"])), PickerAction::Nothing);
    assert_eq!(p.phase(), PickerPhase::AwaitingTick);
    converge(&mut p, 10);
    assert_eq!(p.phase(), PickerPhase::Converged);
    let p = p.on_accept();
    assert_eq!(ranking(&p), strings(&["x"]));
    FuzzyPicker::on_select();
}
