use time_tracker::picker::{filter_processes, ProcessEntry};

fn entry(process_id: u32, name: &str) -> ProcessEntry {
    ProcessEntry { process_id, name: name.to_string() }
}

fn sample_entries() -> Vec<ProcessEntry> {
    vec![
        entry(1, "systemd"),
        entry(42, "firefox"),
        entry(43, "Firefox Helper"),
        entry(77, ""),
        entry(90, "fire"),
        entry(91, "caf\u{e9}-fox"),
    ]
}

#[test]
fn empty_filter_keeps_everything() {
    let entries = sample_entries();
    assert_eq!(filter_processes(&entries, ""), entries);
}

#[test]
fn filter_keeps_names_that_hold_it_in_order() {
    let entries = sample_entries();
    let shown = filter_processes(&entries, "fox");
    assert_eq!(shown, vec![entry(42, "firefox"), entry(43, "Firefox Helper"), entry(91, "caf\u{e9}-fox")]);
}

#[test]
fn filter_is_case_sensitive() {
    let entries = sample_entries();
    assert_eq!(filter_processes(&entries, "Fire"), vec![entry(43, "Firefox Helper")]);
    assert_eq!(filter_processes(&entries, "fire"), vec![entry(42, "firefox"), entry(90, "fire")]);
}

#[test]
fn filter_longer_than_every_name_keeps_nothing() {
    let entries = sample_entries();
    assert_eq!(filter_processes(&entries, "firefox helper and more"), Vec::<ProcessEntry>::new());
}

#[test]
fn filter_matches_whole_name_and_non_ascii() {
    let entries = sample_entries();
    assert_eq!(filter_processes(&entries, "systemd"), vec![entry(1, "systemd")]);
    assert_eq!(filter_processes(&entries, "\u{e9}-"), vec![entry(91, "caf\u{e9}-fox")]);
}

#[test]
fn filter_of_no_entries_is_empty() {
    assert_eq!(filter_processes(&Vec::new(), "x"), Vec::<ProcessEntry>::new());
}
