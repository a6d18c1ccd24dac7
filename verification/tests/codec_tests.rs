use rzd_coupe::date::{format_date, parse_date, TravelDate};
use rzd_coupe::errors::{ErrorKind, Failure};
use rzd_coupe::tasks::{decode_task, encode_task, TaskRecord};
use rzd_coupe::text::{format_u32, format_u64, parse_u32, split_str, str_eq, trim_frame};

#[test]
fn decimal_parsing_accepts_up_to_nine_digits() {
    assert_eq!(parse_u32("0"), Some(0));
    assert_eq!(parse_u32("123"), Some(123));
    assert_eq!(parse_u32("0012"), Some(12));
    assert_eq!(parse_u32("999999999"), Some(999_999_999));
    assert_eq!(parse_u32(""), None);
    assert_eq!(parse_u32("1234567890"), None);
    assert_eq!(parse_u32("12a"), None);
    assert_eq!(parse_u32("-4"), None);
}

#[test]
fn decimal_formatting_round_trips() {
    assert_eq!(format_u32(0), "0");
    assert_eq!(format_u32(405), "405");
    assert_eq!(format_u64(90144), "90144");
    assert_eq!(parse_u32(&format_u32(987654)), Some(987654));
}

#[test]
fn splitting_keeps_empty_parts() {
    assert_eq!(split_str("a,b,,c", ','), vec!["a", "b", "", "c"]);
    assert_eq!(split_str("", ','), vec![""]);
    assert_eq!(split_str("x", ','), vec!["x"]);
    assert_eq!(split_str(",", ','), vec!["", ""]);
}

#[test]
fn trimming_strips_whitespace_and_quotes() {
    assert_eq!(trim_frame("  \"{\\\"a\\\":1}\"\n"), "{\\\"a\\\":1}");
    assert_eq!(trim_frame("plain"), "plain");
    assert_eq!(trim_frame("  \t\n"), "");
}

#[test]
fn string_equality_is_by_characters() {
    assert!(str_eq("abc", "abc"));
    assert!(!str_eq("abc", "abd"));
    assert!(!str_eq("abc", "ab"));
    assert!(str_eq("", ""));
}

#[test]
fn dates_parse_and_format_zero_padded() {
    let d = parse_date("1.2.2031").expect("a real date");
    assert_eq!(d, TravelDate { day: 1, month: 2, year: 2031 });
    assert_eq!(format_date(&d), "01.02.2031");
    assert_eq!(parse_date("31.12.2024"), Some(TravelDate { day: 31, month: 12, year: 2024 }));
}

#[test]
fn date_round_trips_through_its_query_form() {
    for text in ["05.01.2030", "29.02.2028", "31.07.1999"] {
        let d = parse_date(text).expect("a real date");
        assert_eq!(format_date(&d), text);
        assert_eq!(parse_date(&format_date(&d)), Some(d));
    }
}

#[test]
fn the_calendar_is_enforced() {
    assert_eq!(parse_date("29.02.2028"), Some(TravelDate { day: 29, month: 2, year: 2028 }));
    assert_eq!(parse_date("29.02.2027"), None);
    assert_eq!(parse_date("29.02.1900"), None);
    assert_eq!(parse_date("29.02.2000"), Some(TravelDate { day: 29, month: 2, year: 2000 }));
    assert_eq!(parse_date("31.04.2030"), None);
    assert_eq!(parse_date("32.01.2030"), None);
    assert_eq!(parse_date("01.13.2030"), None);
    assert_eq!(parse_date("0.01.2030"), None);
}

#[test]
fn malformed_dates_are_rejected() {
    assert_eq!(parse_date(""), None);
    assert_eq!(parse_date("01.02"), None);
    assert_eq!(parse_date("01.02.31"), None);
    assert_eq!(parse_date("01.02.20311"), None);
    assert_eq!(parse_date("001.2.2031"), None);
    assert_eq!(parse_date("1-2-2031"), None);
    assert_eq!(parse_date("a.b.cdef"), None);
}

#[test]
fn task_tokens_round_trip() {
    let day = TaskRecord::Day {
        origin: "2000000".to_string(),
        destination: "2004000".to_string(),
        date: "01.02.2031".to_string(),
    };
    let token = encode_task(&day);
    assert_eq!(token, "2000000_2004000_01.02.2031");
    assert_eq!(decode_task(&token), Some(day));

    let tr = TaskRecord::Train {
        origin: "2000000".to_string(),
        destination: "2004000".to_string(),
        date: "01.02.2031".to_string(),
        time: "10:05".to_string(),
        number: "001A".to_string(),
    };
    let token = encode_task(&tr);
    assert_eq!(token, "2000000_2004000_01.02.2031_10:05_001A");
    assert_eq!(decode_task(&token), Some(tr));
}

#[test]
fn other_part_counts_are_no_tokens() {
    assert_eq!(decode_task(""), None);
    assert_eq!(decode_task("a_b"), None);
    assert_eq!(decode_task("a_b_c_d"), None);
    assert_eq!(decode_task("a_b_c_d_e_f"), None);
}

#[test]
fn every_failure_has_its_kind_and_text() {
    let cases: Vec<(Failure, ErrorKind, &str)> = vec![
        (
            Failure::Transport { detail: "timeout".to_string() },
            ErrorKind::TransportError,
            "timeout",
        ),
        (
            Failure::BadStatus { status: 502 },
            ErrorKind::TransportError,
            "invalid response status from upstream: 502",
        ),
        (
            Failure::RetryBudgetExhausted,
            ErrorKind::UpstreamRejected,
            "exhausted retry budget",
        ),
        (
            Failure::PollBudgetExhausted,
            ErrorKind::PollBudgetExhausted,
            "exhausted polling budget",
        ),
        (
            Failure::Decode { detail: "bad shape".to_string() },
            ErrorKind::DecodeError,
            "bad shape",
        ),
        (Failure::NotFound, ErrorKind::NotFound, "nothing found"),
        (Failure::InvalidInput, ErrorKind::InvalidUserInput, "invalid input"),
    ];
    for (failure, kind, text) in cases {
        assert_eq!(failure.kind(), kind);
        assert_eq!(failure.message(), text);
    }
}
