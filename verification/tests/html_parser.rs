use event_finder::data_processing::process_data;
use event_finder::html_parser::{
    events_from_payload, parse_html, resolve_url, ConfigError, Event, SiteConfig,
};

const MARKER: &str = "script[type='application/ld+json']";

fn dom_config() -> SiteConfig {
    SiteConfig {
        event_selector: ".event".to_string(),
        name_selector: ".name".to_string(),
        start_date_selector: ".start-date".to_string(),
        end_date_selector: ".end-date".to_string(),
        location_selector: ".location".to_string(),
        url: ".url".to_string(),
    }
}

fn structured_config() -> SiteConfig {
    SiteConfig {
        event_selector: MARKER.to_string(),
        name_selector: String::new(),
        start_date_selector: String::new(),
        end_date_selector: String::new(),
        location_selector: String::new(),
        url: String::new(),
    }
}

#[test]
fn test_parse_html() {
    let html = r#"
        <div class="event">
            <h2 class="name">Event Name</h2>
            <span class="start-date">2023-01-01</span>
            <span class="end-date">2023-01-02</span>
            <span class="location">Event Location</span>
            <a class="url" href="http://example.com/event">Event Link</a>
        </div>
    "#;

    let config = dom_config();
    let base_url = "http://example.com";

    let events = parse_html(html, &config, base_url).unwrap();

    let expected_event = Event {
        name: "Event Name".to_string(),
        start_date: "2023-01-01".to_string(),
        end_date: "2023-01-02".to_string(),
        location: "Event Location".to_string(),
        url: "http://example.com/event".to_string(),
    };

    assert_eq!(events.len(), 1);
    assert_eq!(events[0], expected_event);
}

#[test]
fn dom_mode_with_no_matching_containers_yields_empty() {
    let html = "<html><body><p>No events here.</p></body></html>";
    let events = parse_html(html, &dom_config(), "http://example.com").unwrap();
    assert_eq!(events.len(), 0);
}

#[test]
fn dom_mode_missing_fields_become_empty_strings() {
    let html = r#"<div class="event"><h2 class="name">Only Name</h2></div>"#;
    let events = parse_html(html, &dom_config(), "http://example.com").unwrap();
    assert_eq!(events.len(), 1);
    assert_eq!(events[0].name, "Only Name");
    assert_eq!(events[0].start_date, "");
    assert_eq!(events[0].end_date, "");
    assert_eq!(events[0].location, "");
    // An absent link gives an empty reference, which resolves to the base.
    assert_eq!(events[0].url, "http://example.com/");
}

#[test]
fn dom_mode_emits_one_event_per_block_in_document_order() {
    let html = r#"
        <div class="event"><h2 class="name">Alpha</h2></div>
        <div class="event"><h2 class="name">Beta</h2></div>
        <div class="event"><h2 class="name">Gamma</h2></div>
    "#;
    let events = parse_html(html, &dom_config(), "http://example.com").unwrap();
    assert_eq!(events.len(), 3);
    assert_eq!(events[0].name, "Alpha");
    assert_eq!(events[1].name, "Beta");
    assert_eq!(events[2].name, "Gamma");
}

#[test]
fn dom_mode_invalid_selector_is_a_config_error() {
    let mut config = dom_config();
    config.name_selector = String::new();
    let r = parse_html("<div class=\"event\"></div>", &config, "http://example.com");
    assert!(matches!(r, Err(ConfigError::InvalidSelector)));
}

#[test]
fn dom_mode_invalid_base_url_is_a_config_error() {
    let html = r#"<div class="event"><a class="url" href="/e">x</a></div>"#;
    let r = parse_html(html, &dom_config(), "not an absolute url");
    assert!(matches!(r, Err(ConfigError::InvalidBaseUrl)));
}

#[test]
fn structured_mode_single_object_yields_one_event() {
    let html = r#"
        <html><head>
        <script type="application/ld+json">
        {"name": "Gala", "startDate": "2024-05-01", "endDate": "2024-05-02",
         "location": {"name": "City Hall"}, "url": "http://example.com/gala"}
        </script>
        </head><body></body></html>
    "#;
    let events = parse_html(html, &structured_config(), "http://example.com").unwrap();
    assert_eq!(events.len(), 1);
    assert_eq!(events[0].name, "Gala");
    assert_eq!(events[0].start_date, "2024-05-01");
    assert_eq!(events[0].end_date, "2024-05-02");
    assert_eq!(events[0].location, "City Hall");
    assert_eq!(events[0].url, "http://example.com/gala");
}

#[test]
fn structured_mode_array_yields_one_event_per_element_in_order() {
    let html = r#"
        <script type="application/ld+json">
        [{"name": "First"}, {"name": "Second"}, {"name": "Third"}]
        </script>
    "#;
    let events = parse_html(html, &structured_config(), "http://example.com").unwrap();
    assert_eq!(events.len(), 3);
    assert_eq!(events[0].name, "First");
    assert_eq!(events[1].name, "Second");
    assert_eq!(events[2].name, "Third");
    // Fields missing from the objects default to empty strings.
    assert_eq!(events[0].start_date, "");
    assert_eq!(events[0].location, "");
    assert_eq!(events[0].url, "");
}

#[test]
fn structured_mode_malformed_payload_yields_empty() {
    let html = r#"<script type="application/ld+json">{not json at all</script>"#;
    let events = parse_html(html, &structured_config(), "http://example.com").unwrap();
    assert_eq!(events.len(), 0);
}

#[test]
fn structured_mode_without_a_data_block_yields_empty() {
    let html = "<html><body><p>plain page</p></body></html>";
    let events = parse_html(html, &structured_config(), "http://example.com").unwrap();
    assert_eq!(events.len(), 0);
}

#[test]
fn structured_mode_wrong_typed_fields_become_empty_strings() {
    let html = r#"
        <script type="application/ld+json">
        {"name": 42, "startDate": ["x"], "location": "flat", "url": null}
        </script>
    "#;
    let events = parse_html(html, &structured_config(), "http://example.com").unwrap();
    assert_eq!(events.len(), 1);
    assert_eq!(events[0].name, "");
    assert_eq!(events[0].start_date, "");
    assert_eq!(events[0].location, "");
    assert_eq!(events[0].url, "");
}

#[test]
fn resolve_url_standard_join_semantics() {
    assert_eq!(
        resolve_url("http://example.com", "/event").unwrap(),
        "http://example.com/event"
    );
    assert_eq!(
        resolve_url("http://example.com/a/", "event").unwrap(),
        "http://example.com/a/event"
    );
}

#[test]
fn resolve_url_absolute_reference_replaces_base() {
    assert_eq!(
        resolve_url("http://example.com/a/", "http://other.org/x").unwrap(),
        "http://other.org/x"
    );
}

#[test]
fn resolve_url_empty_reference_resolves_to_base() {
    assert_eq!(
        resolve_url("http://example.com/a", "").unwrap(),
        "http://example.com/a"
    );
}

#[test]
fn resolve_url_invalid_base_is_an_error() {
    assert!(matches!(
        resolve_url("no scheme here", "/event"),
        Err(ConfigError::InvalidBaseUrl)
    ));
}

#[test]
fn events_from_payload_single_object_maps_the_conventional_fields() {
    let payload = r#"{"name": "N", "startDate": "S", "endDate": "E",
            "location": {"name": "L"}, "url": "U"}"#;
    let events = events_from_payload(payload);
    assert_eq!(events.len(), 1);
    let e = &events[0];
    assert_eq!(e.name, "N");
    assert_eq!(e.start_date, "S");
    assert_eq!(e.end_date, "E");
    assert_eq!(e.location, "L");
    assert_eq!(e.url, "U");
}

#[test]
fn events_from_payload_array_keeps_order_and_defaults_fields() {
    let payload = r#"[{"name": "One", "startDate": 5}, {"location": {"name": "Two"}}]"#;
    let events = events_from_payload(payload);
    assert_eq!(events.len(), 2);
    assert_eq!(events[0].name, "One");
    assert_eq!(events[0].start_date, "");
    assert_eq!(events[0].location, "");
    assert_eq!(events[1].name, "");
    assert_eq!(events[1].location, "Two");
}

#[test]
fn events_from_payload_malformed_json_yields_empty() {
    assert_eq!(events_from_payload("{oops").len(), 0);
    assert_eq!(events_from_payload("").len(), 0);
}

#[test]
fn end_to_end_dom_extraction_and_normalisation() {
    let html = r#"
        <div class="event">
            <h2 class="name">Concert</h2>
            <span class="end-date"></span>
            <span class="location">Park</span>
            <a class="url" href="/concert">tickets</a>
        </div>
    "#;
    let raw = parse_html(html, &dom_config(), "http://example.com").unwrap();
    assert_eq!(raw.len(), 1);
    let clean = process_data(raw);
    let today = chrono::Local::now().format("%B%e").to_string();
    assert_eq!(clean[0].name, "Concert");
    assert_eq!(clean[0].start_date, today);
    assert_eq!(clean[0].end_date, "N/A");
    assert_eq!(clean[0].location, "Park");
    assert_eq!(clean[0].url, "http://example.com/concert");
}
