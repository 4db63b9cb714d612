use track::client::{Event, EventDate, FIRST_SECOND_OF_YEAR_0, FIRST_SECOND_OF_YEAR_10000};
use track::views::{event_lines, Line, Style, TrackingInfo};

fn texts(lines: &[Line]) -> Vec<Vec<(Style, String)>> {
    lines
        .iter()
        .map(|l| l.iter().map(|s| (s.style, s.text.clone())).collect())
        .collect()
}

fn event(timestamp: i64, offset: i32, label: &str) -> Event {
    Event {
        date: EventDate::new(timestamp, offset).unwrap(),
        label: label.to_string(),
    }
}

#[test]
fn dates_render_in_rfc2822() {
    assert_eq!(
        EventDate::new(0, 0).unwrap().to_rfc2822(),
        "Thu, 1 Jan 1970 00:00:00 +0000"
    );
    assert_eq!(
        EventDate::new(1_057_056_757, 7200).unwrap().to_rfc2822(),
        "Tue, 1 Jul 2003 12:52:37 +0200"
    );
}

#[test]
fn dates_outside_rfc2822_are_refused() {
    assert!(EventDate::new(FIRST_SECOND_OF_YEAR_0, 0).is_some());
    assert!(EventDate::new(FIRST_SECOND_OF_YEAR_0 - 1, 0).is_none());
    assert!(EventDate::new(FIRST_SECOND_OF_YEAR_0, -1).is_none());
    assert!(EventDate::new(FIRST_SECOND_OF_YEAR_10000 - 1, 0).is_some());
    assert!(EventDate::new(FIRST_SECOND_OF_YEAR_10000, 0).is_none());
    assert!(EventDate::new(0, 86_400).is_none());
    assert!(EventDate::new(0, -86_400).is_none());
    assert!(EventDate::new(0, 86_399).is_some());
    assert_eq!(
        EventDate::new(FIRST_SECOND_OF_YEAR_10000 - 1, 0)
            .unwrap()
            .to_rfc2822(),
        "Fri, 31 Dec 9999 23:59:59 +0000"
    );
    let date = EventDate::new(42, -3600).unwrap();
    assert_eq!(date.timestamp(), 42);
    assert_eq!(date.offset(), -3600);
}

#[test]
fn events_render_newest_first() {
    let events = vec![
        event(0, 0, "Registered"),
        event(86_400, 0, "In transit"),
        event(172_800, 0, "Delivered"),
    ];
    assert_eq!(
        texts(&event_lines(&events)),
        vec![
            vec![
                (Style::Dim, "Sat, 3 Jan 1970 00:00:00 +0000:".to_string()),
                (Style::Plain, " Delivered".to_string()),
            ],
            vec![
                (Style::Dim, "Fri, 2 Jan 1970 00:00:00 +0000:".to_string()),
                (Style::Plain, " In transit".to_string()),
            ],
            vec![
                (Style::Dim, "Thu, 1 Jan 1970 00:00:00 +0000:".to_string()),
                (Style::Plain, " Registered".to_string()),
            ],
        ]
    );
}

#[test]
fn no_events_render_no_lines() {
    assert!(event_lines(&[]).is_empty());
}

#[test]
fn tracking_info_without_description() {
    let events = vec![event(0, 0, "Registered")];
    let view = TrackingInfo::new("6A1", None, &events);
    assert_eq!(
        texts(&view.render()),
        vec![
            vec![],
            vec![(Style::Bold, "--- 6A1 ---".to_string())],
            vec![],
            vec![
                (Style::Dim, "Thu, 1 Jan 1970 00:00:00 +0000:".to_string()),
                (Style::Plain, " Registered".to_string()),
            ],
            vec![],
        ]
    );
}

#[test]
fn tracking_info_with_description() {
    let view = TrackingInfo::new("6A1", Some("Shoes"), &[]);
    assert_eq!(
        texts(&view.render()),
        vec![
            vec![],
            vec![(Style::Bold, "--- Shoes (6A1) ---".to_string())],
            vec![],
            vec![],
        ]
    );
}
