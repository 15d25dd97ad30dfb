use vault_core::backup::{backup_key, backups_to_remove};
use vault_core::schedule::{next_run_delay, read_clock_time};

#[test]
fn clock_time_reads_hour_and_minute() {
    assert_eq!(read_clock_time("02:30"), Some((2, 30)));
    assert_eq!(read_clock_time("00:00"), Some((0, 0)));
    assert_eq!(read_clock_time("x:15"), Some((0, 15)));
    assert_eq!(read_clock_time("0230"), None);
    assert_eq!(read_clock_time("1:2:3"), None);
}

#[test]
fn daily_delay_before_and_after_the_time() {
    // 01:00 now, run at 02:30 today.
    assert_eq!(next_run_delay("daily", "02:30", 3600, 2), Some(5400));
    // 03:00 now, run at 02:30 tomorrow.
    assert_eq!(next_run_delay("daily", "02:30", 10800, 2), Some(86400 - 1800));
    // exactly on time: a full day ahead.
    assert_eq!(next_run_delay("daily", "00:00", 0, 0), Some(86400));
}

#[test]
fn weekly_delay_targets_next_monday() {
    // Wednesday 00:00, next Monday 02:30 is 5 days ahead.
    assert_eq!(next_run_delay("weekly", "02:30", 0, 2), Some(5 * 86400 + 9000));
    // Monday 12:00, next Monday 02:30.
    assert_eq!(next_run_delay("weekly", "02:30", 43200, 0), Some(7 * 86400 + 9000 - 43200));
}

#[test]
fn unsupported_schedules_have_no_delay() {
    assert_eq!(next_run_delay("monthly", "02:30", 0, 0), None);
    assert_eq!(next_run_delay("daily", "25:00", 0, 0), None);
    assert_eq!(next_run_delay("daily", "10:60", 0, 0), None);
    assert_eq!(next_run_delay("daily", "noon", 0, 0), None);
}

#[test]
fn backup_key_pads_and_truncates() {
    let short = backup_key("abc");
    assert_eq!(short.len(), 32);
    assert_eq!(&short[..3], b"abc");
    assert!(short[3..].iter().all(|b| *b == 0));
    let long = backup_key("mysecretkey1234567890abcdefghijklmnop");
    assert_eq!(long, b"mysecretkey1234567890abcdefghijk".to_vec());
}

#[test]
fn rotation_keeps_the_newest_backups() {
    let names: Vec<String> = vec![
        "backup_001.db",
        "backup_003.db",
        "notes.txt",
        "backup_002.db",
        "backup_004.db.gz",
        "backup_005.db",
    ]
    .into_iter()
    .map(String::from)
    .collect();
    let removed = backups_to_remove(&names, 2);
    assert_eq!(removed, vec!["backup_001.db".to_string(), "backup_002.db".to_string()]);
    assert!(backups_to_remove(&names, 10).is_empty());
    assert_eq!(backups_to_remove(&names, 0).len(), 4);
}
