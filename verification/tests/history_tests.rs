use kidstime::history::{summarize, ActivityHistory, HistoryEntry, MAX_ENTRIES};

fn entry(time: &str, process: &str) -> HistoryEntry {
    HistoryEntry {
        time: time.to_string(),
        window: format!("{} window", process),
        process: process.to_string(),
        event: "active".to_string(),
    }
}

#[test]
fn loading_keeps_the_first_entries_up_to_the_limit() {
    let loaded: Vec<HistoryEntry> =
        (0..600).map(|i| entry(&format!("2024-05-01T00:{:03}", i), "a.exe")).collect();
    let h = ActivityHistory::new(loaded);
    assert_eq!(h.len(), MAX_ENTRIES);
    let all = h.entries_on("2024");
    assert_eq!(all[0].time, "2024-05-01T00:000");
    assert_eq!(all[499].time, "2024-05-01T00:499");
}

#[test]
fn recording_drops_the_oldest_when_full() {
    let loaded: Vec<HistoryEntry> =
        (0..500).map(|i| entry(&format!("2024-05-01T{:03}", i), "a.exe")).collect();
    let mut h = ActivityHistory::new(loaded);
    h.record_at("2024-05-02T08:00:00+00:00".to_string(), "Game", "game.exe");
    assert_eq!(h.len(), 500);
    let all = h.entries_on("2024");
    assert_eq!(all[0].time, "2024-05-01T001");
    let last = all[499];
    assert_eq!(last.time, "2024-05-02T08:00:00+00:00");
    assert_eq!(last.window, "Game");
    assert_eq!(last.process, "game.exe");
    assert_eq!(last.event, "active");
}

#[test]
fn recording_below_the_limit_appends() {
    let mut h = ActivityHistory::new(Vec::new());
    h.record_at("2024-05-01T08:00:00+00:00".to_string(), "W", "p.exe");
    h.record("W2", "q.exe");
    assert_eq!(h.len(), 2);
    let today = h.get_today();
    assert_eq!(today.len(), 1);
    assert_eq!(today[0].process, "q.exe");
}

#[test]
fn entries_on_filters_by_date_prefix() {
    let h = ActivityHistory::new(vec![
        entry("2024-05-01T08:00", "a.exe"),
        entry("2024-05-02T08:00", "b.exe"),
        entry("2024-05-01T09:00", "c.exe"),
    ]);
    let day = h.entries_on("2024-05-01");
    assert_eq!(day.len(), 2);
    assert_eq!(day[0].process, "a.exe");
    assert_eq!(day[1].process, "c.exe");
    assert!(h.entries_on("2023").is_empty());
}

#[test]
fn summary_counts_per_program_most_used_first() {
    let entries = vec![
        entry("t", "a.exe"),
        entry("t", "b.exe"),
        entry("t", "b.exe"),
        entry("t", "c.exe"),
        entry("t", "b.exe"),
        entry("t", "c.exe"),
        entry("t", "d.exe"),
    ];
    let refs: Vec<&HistoryEntry> = entries.iter().collect();
    let s = summarize(&refs);
    let lines: Vec<(String, u32)> = s.iter().map(|l| (l.app.clone(), l.minutes)).collect();
    assert_eq!(
        lines,
        vec![
            ("b.exe".to_string(), 3),
            ("c.exe".to_string(), 2),
            ("a.exe".to_string(), 1),
            ("d.exe".to_string(), 1),
        ]
    );
    let total: u32 = s.iter().map(|l| l.minutes).sum();
    assert_eq!(total as usize, refs.len());
}

#[test]
fn summary_of_nothing_is_empty() {
    let refs: Vec<&HistoryEntry> = Vec::new();
    assert!(summarize(&refs).is_empty());
    let h = ActivityHistory::new(Vec::new());
    assert!(h.get_app_summary_today().is_empty());
}

#[test]
fn summary_today_only_counts_today() {
    let mut h = ActivityHistory::new(vec![entry("1999-01-01T00:00", "old.exe")]);
    h.record("W", "now.exe");
    h.record("W", "now.exe");
    let s = h.get_app_summary_today();
    assert_eq!(s.len(), 1);
    assert_eq!(s[0].app, "now.exe");
    assert_eq!(s[0].minutes, 2);
}
