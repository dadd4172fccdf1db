use madcap_fast::overtakes::{detect_overtakes, ranks_of, OvertakeLog, OvertakeRecord, PrevRank, RankReading, OVERTAKE_LOG_CAP};

fn reading(id: &str, rank: u64) -> RankReading {
    RankReading { participant_id: Some(id.to_string()), name: format!("Rider {id}"), rank: Some(rank) }
}

fn summary(records: &[OvertakeRecord]) -> Vec<(String, u64, u64, i64)> {
    records.iter().map(|o| (o.participant_id.clone(), o.from_rank, o.to_rank, o.ts)).collect()
}

#[test]
fn improvements_are_recorded_newest_first() {
    let mut log = OvertakeLog::new();
    log.record_refresh(&vec![reading("a", 1), reading("b", 2), reading("c", 3)], 100);
    assert!(log.records.is_empty());
    log.record_refresh(&vec![reading("a", 2), reading("b", 3), reading("c", 1)], 130);
    assert_eq!(summary(&log.records), vec![("c".to_string(), 3, 1, 130)]);
    assert_eq!(log.records[0].name, "Rider c");
    log.record_refresh(&vec![reading("a", 1), reading("b", 2), reading("c", 3)], 160);
    assert_eq!(
        summary(&log.records),
        vec![("a".to_string(), 2, 1, 160), ("b".to_string(), 3, 2, 160), ("c".to_string(), 3, 1, 130)]
    );
}

#[test]
fn same_readings_twice_record_nothing() {
    let cur = vec![reading("a", 4), reading("b", 2)];
    let mut log = OvertakeLog::new();
    log.record_refresh(&cur, 1);
    log.record_refresh(&cur, 2);
    assert!(log.records.is_empty());
}

#[test]
fn readings_without_id_or_rank_are_ignored() {
    let prev = vec![PrevRank { participant_id: "a".to_string(), rank: 5 }];
    let cur = vec![
        RankReading { participant_id: None, name: "x".to_string(), rank: Some(1) },
        RankReading { participant_id: Some("a".to_string()), name: "y".to_string(), rank: None },
        reading("new", 1),
    ];
    assert!(detect_overtakes(&prev, &cur, 0).is_empty());
    let remembered: Vec<(String, u64)> = ranks_of(&cur).iter().map(|p| (p.participant_id.clone(), p.rank)).collect();
    assert_eq!(remembered, vec![("new".to_string(), 1)]);
}

#[test]
fn log_is_capped_dropping_the_oldest() {
    let old: Vec<OvertakeRecord> = (0..OVERTAKE_LOG_CAP as i64 + 20)
        .map(|i| OvertakeRecord { participant_id: format!("r{i}"), name: String::new(), from_rank: 9, to_rank: 8, ts: i })
        .collect();
    let mut log = OvertakeLog::restore(old, &vec![reading("z", 10)]);
    assert_eq!(log.records.len(), OVERTAKE_LOG_CAP);
    assert_eq!(log.records[OVERTAKE_LOG_CAP - 1].ts, OVERTAKE_LOG_CAP as i64 - 1);
    log.record_refresh(&vec![reading("z", 3)], 999);
    assert_eq!(log.records.len(), OVERTAKE_LOG_CAP);
    assert_eq!(summary(&log.records[..1]), vec![("z".to_string(), 10, 3, 999)]);
    assert_eq!(log.records[OVERTAKE_LOG_CAP - 1].ts, OVERTAKE_LOG_CAP as i64 - 2);
}
