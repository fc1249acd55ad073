use mailgate::aggregate::{collapse_threads, keep_successes, sort_details_by_date_asc,
    sort_summaries_by_date_desc};
use mailgate::model::{CleanMessage, MessageSummary};

fn summary(id: &str, thread: &str, date: &str) -> MessageSummary {
    MessageSummary {
        id: id.to_string(),
        thread_id: thread.to_string(),
        snippet: String::new(),
        subject: None,
        from: None,
        date: Some(date.to_string()),
        unread: false,
        has_attachments: false,
        messages_in_thread: None,
    }
}

#[test]
fn collapse_keeps_latest_per_thread_with_counts() {
    let input = vec![
        summary("a", "t1", "2024-01-01"),
        summary("b", "t1", "2024-01-02"),
        summary("c", "t2", "2024-01-01"),
    ];
    let collapsed = collapse_threads(input);
    assert_eq!(collapsed.len(), 2);
    assert_eq!(collapsed[0].id, "b");
    assert_eq!(collapsed[0].thread_id, "t1");
    assert_eq!(collapsed[0].messages_in_thread, Some(2));
    assert_eq!(collapsed[1].id, "c");
    assert_eq!(collapsed[1].thread_id, "t2");
    assert_eq!(collapsed[1].messages_in_thread, Some(1));
}

#[test]
fn collapse_ties_keep_the_earliest_member() {
    let input = vec![
        summary("first", "t1", "2024-03-03"),
        summary("second", "t1", "2024-03-03"),
    ];
    let collapsed = collapse_threads(input);
    assert_eq!(collapsed.len(), 1);
    assert_eq!(collapsed[0].id, "first");
    assert_eq!(collapsed[0].messages_in_thread, Some(2));
}

#[test]
fn collapse_of_nothing_is_empty() {
    assert!(collapse_threads(vec![]).is_empty());
}

#[test]
fn fan_out_keeps_four_of_five_in_order() {
    let results = vec![
        Some(summary("m1", "t", "1")),
        Some(summary("m2", "t", "2")),
        None,
        Some(summary("m4", "t", "4")),
        Some(summary("m5", "t", "5")),
    ];
    let kept = keep_successes(&results);
    assert_eq!(kept.len(), 4);
    let ids: Vec<&str> = kept.iter().map(|m| m.id.as_str()).collect();
    assert_eq!(ids, ["m1", "m2", "m4", "m5"]);
}

#[test]
fn summaries_sort_newest_first_with_absent_dates_last() {
    let mut a = summary("a", "t", "2024-01-01");
    a.date = None;
    let input = vec![a, summary("b", "t", "2024-01-03"), summary("c", "t", "2024-01-02")];
    let sorted = sort_summaries_by_date_desc(input);
    let ids: Vec<&str> = sorted.iter().map(|m| m.id.as_str()).collect();
    assert_eq!(ids, ["b", "c", "a"]);
}

fn detail(id: &str, date: Option<&str>) -> CleanMessage {
    CleanMessage {
        id: id.to_string(),
        subject: None,
        from: None,
        to: None,
        date: date.map(str::to_string),
        snippet: String::new(),
        body_text: None,
        body_html: None,
        attachments: vec![],
    }
}

#[test]
fn thread_details_sort_chronologically() {
    let input = vec![
        detail("late", Some("2024-05-05")),
        detail("undated", None),
        detail("early", Some("2024-01-01")),
    ];
    let sorted = sort_details_by_date_asc(input);
    let ids: Vec<&str> = sorted.iter().map(|m| m.id.as_str()).collect();
    assert_eq!(ids, ["undated", "early", "late"]);
}
