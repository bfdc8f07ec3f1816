use core::time::Duration;
use datastar::consts::EventType;
use datastar::patch_elements::PatchElements;
use datastar::text::{push_decimal, split_lines};
use datastar::DatastarEvent;

fn event(id: Option<&str>, retry: Duration, data: &[&str]) -> DatastarEvent {
    DatastarEvent {
        event: EventType::PatchElements,
        id: id.map(|s| s.to_owned()),
        retry,
        data: data.iter().map(|s| s.to_string()).collect(),
    }
}

#[test]
fn encode_writes_event_then_data_then_blank_line() {
    let ev = event(None, Duration::from_millis(1000), &["elements <div>", "elements </div>"]);
    assert_eq!(
        ev.encode(),
        "event: datastar-patch-elements\ndata: elements <div>\ndata: elements </div>\n\n"
    );
}

#[test]
fn encode_writes_all_fields_in_fixed_order() {
    let ev = DatastarEvent {
        event: EventType::PatchSignals,
        id: Some("42".to_owned()),
        retry: Duration::from_millis(2500),
        data: vec!["signals {}".to_owned()],
    };
    assert_eq!(
        ev.encode(),
        "event: datastar-patch-signals\nid: 42\nretry: 2500\ndata: signals {}\n\n"
    );
}

#[test]
fn encode_without_data_is_event_line_and_blank_line() {
    let ev = event(None, Duration::from_millis(1000), &[]);
    assert_eq!(ev.encode(), "event: datastar-patch-elements\n\n");
}

#[test]
fn encode_keeps_an_empty_data_line() {
    let ev = event(None, Duration::from_millis(1000), &[""]);
    assert_eq!(ev.encode(), "event: datastar-patch-elements\ndata: \n\n");
}

#[test]
fn encode_keeps_an_empty_id() {
    let ev = event(Some(""), Duration::from_millis(1000), &[]);
    assert_eq!(ev.encode(), "event: datastar-patch-elements\nid: \n\n");
}

#[test]
fn retry_line_is_left_out_for_the_default_only() {
    let default = event(None, Duration::from_millis(1000), &[]);
    assert!(!default.encode().contains("retry:"));
    let one_second = event(None, Duration::from_secs(1), &[]);
    assert!(!one_second.encode().contains("retry:"));
    let with_micros = event(None, Duration::from_micros(1_000_999), &[]);
    assert!(!with_micros.encode().contains("retry:"));
    let shorter = event(None, Duration::from_millis(999), &[]);
    assert_eq!(shorter.encode(), "event: datastar-patch-elements\nretry: 999\n\n");
    let longer = event(None, Duration::from_millis(1001), &[]);
    assert_eq!(longer.encode(), "event: datastar-patch-elements\nretry: 1001\n\n");
}

#[test]
fn retry_is_written_in_whole_milliseconds() {
    let zero = event(None, Duration::from_millis(0), &[]);
    assert_eq!(zero.encode(), "event: datastar-patch-elements\nretry: 0\n\n");
    let fraction = event(None, Duration::from_micros(1_500_500), &[]);
    assert_eq!(fraction.encode(), "event: datastar-patch-elements\nretry: 1500\n\n");
    let longest = event(None, Duration::MAX, &[]);
    assert_eq!(
        longest.encode(),
        "event: datastar-patch-elements\nretry: 18446744073709551615999\n\n"
    );
}

#[test]
fn id_line_is_there_iff_an_id_is_set() {
    let without = event(None, Duration::from_millis(5), &["elements x"]);
    assert!(!without.encode().lines().any(|l| l.starts_with("id:")));
    let with = event(Some("abc"), Duration::from_millis(5), &["elements x"]);
    let text = with.encode();
    let ids: Vec<&str> = text.lines().filter(|l| l.starts_with("id:")).collect();
    assert_eq!(ids, vec!["id: abc"]);
}

#[test]
fn text_has_one_event_line_and_ends_with_one_blank_line() {
    let events = vec![
        event(None, Duration::from_millis(1000), &[]),
        event(Some("7"), Duration::from_millis(3), &["elements event: x", "elements "]),
        event(Some("event:"), Duration::from_millis(1000), &["event: y"]),
    ];
    for ev in events {
        let text = ev.encode();
        assert!(text.ends_with("\n\n"));
        assert!(!text.ends_with("\n\n\n"));
        let count = text.split('\n').filter(|l| l.starts_with("event:")).count();
        assert_eq!(count, 1);
        assert!(text.starts_with("event: "));
    }
}

#[test]
fn data_lines_are_neither_merged_nor_reordered() {
    let ev = event(None, Duration::from_millis(1000), &["b", "a", "", "a", "c"]);
    let text = ev.encode();
    let data: Vec<&str> = text
        .split('\n')
        .filter_map(|l| l.strip_prefix("data: "))
        .collect();
    assert_eq!(data, vec!["b", "a", "", "a", "c"]);
}

#[test]
fn event_kinds_have_their_tokens() {
    assert_eq!(EventType::PatchElements.as_str(), "datastar-patch-elements");
    assert_eq!(EventType::PatchSignals.as_str(), "datastar-patch-signals");
}

#[test]
fn builder_output_encodes_like_its_event() {
    let patch = PatchElements::new("<p>hi</p>").id("e1").retry(Duration::from_millis(10));
    assert_eq!(
        patch.as_datastar_event().encode(),
        "event: datastar-patch-elements\nid: e1\nretry: 10\ndata: elements <p>hi</p>\n\n"
    );
    assert_eq!(patch.clone().into_datastar_event().encode(), patch.as_datastar_event().encode());
}

fn std_lines(s: &str) -> Vec<String> {
    s.lines().map(|l| l.to_owned()).collect()
}

#[test]
fn split_lines_splits_as_the_standard_library_does() {
    let inputs = [
        "",
        "a",
        "a\n",
        "\n",
        "\n\n",
        "a\nb",
        "a\nb\n",
        "a\n\nb",
        "a\r\nb",
        "a\r\nb\r\n",
        "a\r",
        "a\rb",
        "\r",
        "\r\n",
        "\r\r\n",
        "a\r\r\nb",
        "\n\r",
        "a\n\r\nb\r",
        "\r\n\r\n",
        "é\nü\r\n☃",
        "  leading\n\ttab\n trailing ",
    ];
    for input in inputs {
        assert_eq!(split_lines(input), std_lines(input), "input {:?}", input);
    }
}

#[test]
fn split_lines_of_empty_text_is_empty() {
    assert_eq!(split_lines(""), Vec::<String>::new());
}

#[test]
fn split_lines_keeps_a_final_bare_carriage_return() {
    assert_eq!(split_lines("a\r"), vec!["a\r".to_owned()]);
    assert_eq!(split_lines("a\r\n"), vec!["a".to_owned()]);
    assert_eq!(split_lines("a\r\r\n"), vec!["a\r".to_owned()]);
}

#[test]
fn push_decimal_appends_the_numeral() {
    let values: [u128; 9] = [0, 1, 9, 10, 99, 100, 1000, 18446744073709551615999, u128::MAX];
    for v in values {
        let mut out = String::from("n=");
        push_decimal(&mut out, v);
        assert_eq!(out, format!("n={}", v));
    }
}
