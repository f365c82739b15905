use event_finder::data_processing::{clean_text, parse_date, parse_date_with_today, process_data};
use event_finder::data_processing::ProcessedEvent;
use event_finder::html_parser::Event;

fn today_formatted() -> String {
    chrono::Local::now().format("%B%e").to_string()
}

#[test]
fn test_process_data() {
    let raw_events = vec![
        Event {
            name: "Concert".to_string(),
            start_date: "January 1, 2023".to_string(),
            end_date: "".to_string(),
            location: "Park".to_string(),
            url: "http://example.com/concert".to_string(),
        },
        Event {
            name: "Festival".to_string(),
            start_date: "January 2, 2023".to_string(),
            end_date: "January 3, 2023           ".to_string(),
            location: "Beach".to_string(),
            url: "http://example.com/festival".to_string(),
        },
    ];

    let processed_events = process_data(raw_events);

    let expected_events = vec![
        ProcessedEvent {
            name: "Concert".to_string(),
            start_date: "January 1, 2023".to_string(),
            end_date: "N/A".to_string(),
            location: "Park".to_string(),
            url: "http://example.com/concert".to_string(),
        },
        ProcessedEvent {
            name: "Festival".to_string(),
            start_date: "January 2, 2023".to_string(),
            end_date: "January 3, 2023".to_string(),
            location: "Beach".to_string(),
            url: "http://example.com/festival".to_string(),
        },
    ];

    assert_eq!(processed_events, expected_events);
}

#[test]
fn process_data_trims_name_and_location() {
    let raw = vec![Event {
        name: "  Show \t".to_string(),
        start_date: "May 1".to_string(),
        end_date: "May 2".to_string(),
        location: "\n Hall  ".to_string(),
        url: "http://example.com/show".to_string(),
    }];
    let processed = process_data(raw);
    assert_eq!(processed[0].name, "Show");
    assert_eq!(processed[0].location, "Hall");
    assert_eq!(processed[0].url, "http://example.com/show");
}

#[test]
fn process_data_defaults_blank_start_date_to_today() {
    let raw = vec![Event {
        name: "X".to_string(),
        start_date: "   ".to_string(),
        end_date: "May 2".to_string(),
        location: "Y".to_string(),
        url: "u".to_string(),
    }];
    let processed = process_data(raw);
    assert_eq!(processed[0].start_date, today_formatted());
    assert_eq!(processed[0].end_date, "May 2");
}

#[test]
fn clean_text_trims_whitespace() {
    assert_eq!(clean_text("  hello  "), "hello");
    assert_eq!(clean_text("hello"), "hello");
    assert_eq!(clean_text(""), "");
    assert_eq!(clean_text(" \t\r\n "), "");
    assert_eq!(clean_text("\u{00A0}pad\u{3000}"), "pad");
    assert_eq!(clean_text("a  b"), "a  b");
}

#[test]
fn clean_text_agrees_with_std_trim() {
    let samples = [
        "",
        "   ",
        "plain",
        "  lead",
        "trail \t ",
        " both ",
        "\u{00A0}\u{2003}wide\u{3000}\u{2028}",
        "inner  space  stays",
    ];
    for s in samples {
        assert_eq!(clean_text(s), s.trim());
    }
}

#[test]
fn parse_date_keeps_nonblank_dates_verbatim() {
    assert_eq!(parse_date(" Jan 5, 7:30 PM ", true), "Jan 5, 7:30 PM");
    assert_eq!(parse_date("2023-01-01", false), "2023-01-01");
}

#[test]
fn parse_date_defaults() {
    assert_eq!(parse_date("", false), "N/A");
    assert_eq!(parse_date("   ", false), "N/A");
    assert_eq!(parse_date("", true), today_formatted());
}

#[test]
fn parse_date_with_today_substitutes_the_given_day() {
    assert_eq!(parse_date_with_today("", true, "March 9"), "March 9");
    assert_eq!(parse_date_with_today(" \t", true, "March 9"), "March 9");
    assert_eq!(parse_date_with_today("", false, "March 9"), "N/A");
    assert_eq!(parse_date_with_today(" kept ", true, "March 9"), "kept");
}
