use core::time::Duration;
use datastar::consts::EventType;
use datastar::prelude::{DatastarEvent, ExecuteScript, PatchElements, PatchSignals};

#[test]
fn frame_joins_the_data_lines_with_line_feeds() {
    let ev = DatastarEvent {
        event: EventType::PatchElements,
        id: Some("1".to_owned()),
        retry: Duration::from_millis(1000),
        data: vec!["a".to_owned(), "".to_owned(), "b".to_owned()],
    };
    let frame = ev.write_as_axum_sse_event();
    assert_eq!(frame.event, "datastar-patch-elements");
    assert_eq!(frame.id, Some("1".to_owned()));
    assert_eq!(frame.retry, None);
    assert_eq!(frame.data, "a\n\nb");
    let lines: Vec<&str> = frame.data.split('\n').collect();
    assert_eq!(lines, vec!["a", "", "b"]);
}

#[test]
fn frame_of_an_event_without_data_has_empty_data() {
    let ev = DatastarEvent {
        event: EventType::PatchSignals,
        id: None,
        retry: Duration::from_millis(1000),
        data: Vec::new(),
    };
    assert_eq!(ev.write_as_axum_sse_event().data, "");
    assert_eq!(ev.write_as_warp_sse_event().data, "");
    assert_eq!(ev.write_as_rocket_sse_event().data, "");
}

#[test]
fn frame_of_one_data_line_has_no_line_feed() {
    let ev = DatastarEvent {
        event: EventType::PatchSignals,
        id: None,
        retry: Duration::from_millis(1000),
        data: vec!["signals {}".to_owned()],
    };
    assert_eq!(ev.write_as_warp_sse_event().data, "signals {}");
}

#[test]
fn axum_and_warp_frames_leave_the_default_retry_out() {
    let default = PatchSignals::new("{}");
    assert_eq!(default.write_as_axum_sse_event().retry, None);
    assert_eq!(default.write_as_warp_sse_event().retry, None);
    let other = PatchSignals::new("{}").retry(Duration::from_millis(250));
    assert_eq!(other.write_as_axum_sse_event().retry, Some(Duration::from_millis(250)));
    assert_eq!(other.write_as_warp_sse_event().retry, Some(Duration::from_millis(250)));
}

#[test]
fn rocket_frame_leaves_the_default_retry_out() {
    let default = PatchSignals::new("{}");
    assert_eq!(default.write_as_rocket_sse_event().retry, None);
    let one_second = PatchElements::new("x").retry(Duration::from_secs(1));
    assert_eq!(one_second.write_as_rocket_sse_event().retry, None);
    let other = PatchElements::new("x").retry(Duration::from_millis(250));
    assert_eq!(other.write_as_rocket_sse_event().retry, Some(Duration::from_millis(250)));
    let ev = DatastarEvent {
        event: EventType::PatchElements,
        id: Some("3".to_owned()),
        retry: Duration::from_millis(1001),
        data: vec!["a".to_owned(), "b".to_owned()],
    };
    let frame = ev.write_as_rocket_sse_event();
    assert_eq!(frame.event, "datastar-patch-elements");
    assert_eq!(frame.id, Some("3".to_owned()));
    assert_eq!(frame.retry, Some(Duration::from_millis(1001)));
    assert_eq!(frame.data, "a\nb");
}

#[test]
fn frames_of_builders_are_those_of_their_events() {
    let patch = PatchElements::new("a\nb").selector("#s").id("7");
    let frame = patch.write_as_axum_sse_event();
    assert_eq!(frame.event, "datastar-patch-elements");
    assert_eq!(frame.id, Some("7".to_owned()));
    assert_eq!(frame.data, "selector #s\nelements a\nelements b");
    assert_eq!(patch.write_as_warp_sse_event().data, frame.data);
    assert_eq!(patch.write_as_rocket_sse_event().data, frame.data);

    let signals = PatchSignals::new("{}").only_if_missing(true);
    let frame = signals.write_as_rocket_sse_event();
    assert_eq!(frame.event, "datastar-patch-signals");
    assert_eq!(frame.id, None);
    assert_eq!(frame.data, "onlyIfMissing true\nsignals {}");

    let exec = ExecuteScript::new("f()").auto_remove(false);
    let frame = exec.write_as_warp_sse_event();
    assert_eq!(frame.event, "datastar-patch-elements");
    assert_eq!(frame.data, "selector body\nmode append\nelements <script>f()</script>");
    assert_eq!(exec.write_as_axum_sse_event().data, frame.data);
}
