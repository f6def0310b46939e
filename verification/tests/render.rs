use rusty_journal::render::{decimal_string, format_task, numbered_line, pad};
use rusty_journal::tasks::Task;
use rusty_journal::time::{Timestamp, MAX_SECONDS, MIN_SECONDS};

fn local(secs: i64) -> String {
    chrono::DateTime::from_timestamp(secs, 0)
        .unwrap()
        .with_timezone(&chrono::Local)
        .format("%F %H:%M:%S")
        .to_string()
}

#[test]
fn pad_fills_up_to_eighty_columns() {
    assert_eq!(pad("abc", 3), format!("abc{}", " ".repeat(77)));
    assert_eq!(pad("", 0), " ".repeat(80));
    assert_eq!(pad("x", 79), "x ");
}

#[test]
fn pad_adds_nothing_from_eighty_columns_on() {
    let wide = "w".repeat(80);
    assert_eq!(pad(&wide, 80), wide);
    let wider = "w".repeat(95);
    assert_eq!(pad(&wider, 95), wider);
    assert_eq!(pad("x", usize::MAX), "x");
}

#[test]
fn format_task_without_completion() {
    let line = format_task("buy milk", 8, "2024-01-02 03:04:05", None);
    assert_eq!(line, format!("buy milk{} [2024-01-02 03:04:05]", " ".repeat(72)));
}

#[test]
fn format_task_with_completion() {
    let line = format_task("a", 1, "C", Some("D"));
    assert_eq!(line, format!("a{} [C] (completed at D)", " ".repeat(79)));
}

#[test]
fn decimal_string_writes_numbers() {
    assert_eq!(decimal_string(0), "0");
    assert_eq!(decimal_string(7), "7");
    assert_eq!(decimal_string(10), "10");
    assert_eq!(decimal_string(1234567890), "1234567890");
    assert_eq!(decimal_string(usize::MAX), usize::MAX.to_string());
}

#[test]
fn numbered_line_puts_the_rank_first() {
    assert_eq!(numbered_line(1, "entry"), "1. entry");
    assert_eq!(numbered_line(42, ""), "42. ");
}

#[test]
fn display_of_an_open_task() {
    let task = Task {
        text: String::from("buy milk"),
        create_at: Timestamp::from_secs(1_700_000_000).unwrap(),
        completed_at: None,
    };
    assert_eq!(
        task.display(),
        format!("buy milk{} [{}]", " ".repeat(72), local(1_700_000_000))
    );
}

#[test]
fn display_of_a_completed_task() {
    let task = Task {
        text: String::from("buy milk"),
        create_at: Timestamp::from_secs(1_700_000_000).unwrap(),
        completed_at: Some(Timestamp::from_secs(1_700_086_400).unwrap()),
    };
    assert_eq!(
        task.display(),
        format!(
            "buy milk{} [{}] (completed at {})",
            " ".repeat(72),
            local(1_700_000_000),
            local(1_700_086_400)
        )
    );
}

#[test]
fn display_counts_wide_characters_twice() {
    let task = Task {
        text: String::from("日本語"),
        create_at: Timestamp::from_secs(0).unwrap(),
        completed_at: None,
    };
    assert_eq!(task.display(), format!("日本語{} [{}]", " ".repeat(74), local(0)));
}

#[test]
fn display_counts_combining_characters_not_at_all() {
    let task = Task {
        text: String::from("e\u{301}"),
        create_at: Timestamp::from_secs(0).unwrap(),
        completed_at: None,
    };
    assert_eq!(task.display(), format!("e\u{301}{} [{}]", " ".repeat(79), local(0)));
}

#[test]
fn display_does_not_cut_a_long_text() {
    let text = "long ".repeat(20);
    let task = Task {
        text: text.clone(),
        create_at: Timestamp::from_secs(86_400).unwrap(),
        completed_at: None,
    };
    assert_eq!(task.display(), format!("{} [{}]", text, local(86_400)));
}

#[test]
fn display_writes_date_and_time_of_day() {
    let task = Task {
        text: String::from("t"),
        create_at: Timestamp::from_secs(1_700_000_000).unwrap(),
        completed_at: None,
    };
    let line = task.display();
    let time = &line[line.len() - 20..line.len() - 1];
    assert_eq!(time, local(1_700_000_000));
    let bytes = time.as_bytes();
    assert_eq!(bytes.len(), 19);
    for (i, byte) in bytes.iter().enumerate() {
        match i {
            4 | 7 => assert_eq!(*byte, b'-'),
            10 => assert_eq!(*byte, b' '),
            13 | 16 => assert_eq!(*byte, b':'),
            _ => assert!(byte.is_ascii_digit()),
        }
    }
}

#[test]
fn display_at_the_ends_of_the_calendar() {
    for secs in [MIN_SECONDS, MAX_SECONDS] {
        let task = Task {
            text: String::from("t"),
            create_at: Timestamp::from_secs(secs).unwrap(),
            completed_at: Some(Timestamp::from_secs(secs).unwrap()),
        };
        assert_eq!(
            task.display(),
            format!("t{} [{}] (completed at {})", " ".repeat(79), local(secs), local(secs))
        );
    }
}

fn is_date_and_time(text: &str) -> bool {
    let bytes = text.as_bytes();
    if bytes.len() < 19 {
        return false;
    }
    let (year, rest) = bytes.split_at(bytes.len() - 15);
    let year_fits = if year.len() == 4 {
        year.iter().all(|b| b.is_ascii_digit())
    } else {
        (year[0] == b'+' || year[0] == b'-') && year[1..].iter().all(|b| b.is_ascii_digit())
    };
    year_fits
        && rest.iter().enumerate().all(|(i, b)| match i {
            0 | 3 => *b == b'-',
            6 => *b == b' ',
            9 | 12 => *b == b':',
            _ => b.is_ascii_digit(),
        })
}

#[test]
fn display_lays_out_every_time_alike() {
    let instants = [
        MIN_SECONDS,
        MIN_SECONDS + 86_400,
        -62_198_755_200,
        -62_167_219_200,
        -62_135_596_800,
        -30_610_224_000,
        -1,
        0,
        1_700_000_000,
        253_402_300_799,
        253_402_300_800,
        MAX_SECONDS - 86_400,
        MAX_SECONDS,
    ];
    for secs in instants {
        let task = Task {
            text: String::from("t"),
            create_at: Timestamp::from_secs(secs).unwrap(),
            completed_at: Some(Timestamp::from_secs(secs).unwrap()),
        };
        let line = task.display();
        let open = format!("t{} [", " ".repeat(79));
        assert!(line.starts_with(&open));
        let times = &line[open.len()..line.len() - 1];
        let (created, at) = times.split_once("] (completed at ").unwrap();
        assert_eq!(created, local(secs));
        assert_eq!(at, local(secs));
        assert!(is_date_and_time(created), "{}", created);
    }
    assert!(is_date_and_time("2024-01-31 18:05:00"));
    assert!(is_date_and_time("-262143-01-01 00:00:00"));
    assert!(!is_date_and_time("2024-01-31T18:05:00"));
    assert!(!is_date_and_time("24-01-31 18:05:00"));
    assert!(!is_date_and_time(""));
}

#[test]
fn display_reads_each_time_from_the_local_clocks() {
    let created = 1_700_000_000;
    let completed = 1_720_000_000;
    let offset_at = |secs: i64| {
        chrono::DateTime::from_timestamp(secs, 0)
            .unwrap()
            .with_timezone(&chrono::Local)
            .offset()
            .local_minus_utc()
    };
    let task = Task {
        text: String::from("t"),
        create_at: Timestamp::from_secs(created).unwrap(),
        completed_at: Some(Timestamp::from_secs(completed).unwrap()),
    };
    let first = task.create_at.text_at(offset_at(created)).unwrap();
    let second = task.completed_at.unwrap().text_at(offset_at(completed)).unwrap();
    assert_ne!(first, second);
    assert_eq!(
        task.display(),
        format!("t{} [{}] (completed at {})", " ".repeat(79), first, second)
    );
}
