use core::time::Duration;
use datastar::consts::ElementPatchMode;
use datastar::patch_elements::PatchElements;
use datastar::patch_signals::PatchSignals;
use datastar::text::split_lines;

fn data_lines(text: &str) -> Vec<String> {
    text.split('\n')
        .filter_map(|l| l.strip_prefix("data: "))
        .map(|l| l.to_owned())
        .collect()
}

fn under(data: &[String], key: &str) -> Vec<String> {
    let prefix = format!("{} ", key);
    data.iter()
        .filter_map(|l| l.strip_prefix(prefix.as_str()))
        .map(|l| l.to_owned())
        .collect()
}

fn mode_of(token: &str) -> ElementPatchMode {
    let all = [
        ElementPatchMode::Outer,
        ElementPatchMode::Inner,
        ElementPatchMode::Remove,
        ElementPatchMode::Replace,
        ElementPatchMode::Prepend,
        ElementPatchMode::Append,
        ElementPatchMode::Before,
        ElementPatchMode::After,
    ];
    for mode in all {
        if mode.as_str() == token {
            return mode;
        }
    }
    panic!("no mode has the token {:?}", token);
}

fn check_elements(patch: PatchElements) {
    let text = patch.as_datastar_event().encode();
    let data = data_lines(&text);
    assert_eq!(under(&data, "selector").first().cloned(), patch.selector);
    let mode = under(&data, "mode").first().map(|t| mode_of(t)).unwrap_or(ElementPatchMode::Outer);
    assert_eq!(mode, patch.mode);
    let transition = under(&data, "useViewTransition").first().map(|t| t == "true").unwrap_or(false);
    assert_eq!(transition, patch.use_view_transition);
    let markup = patch.elements.as_deref().map(split_lines).unwrap_or_default();
    assert_eq!(under(&data, "elements"), markup);
}

#[test]
fn elements_are_recovered_from_the_text() {
    check_elements(PatchElements::new("a\nb\nc"));
    check_elements(PatchElements::new(""));
    check_elements(PatchElements::new_remove("#x"));
    check_elements(
        PatchElements::new("<div>\n  selector x\n  mode inner\n\nelements y\n</div>")
            .selector("div > p.mode")
            .mode(ElementPatchMode::After)
            .use_view_transition(true)
            .id("data: elements z")
            .retry(Duration::from_millis(12)),
    );
    check_elements(PatchElements::new("data: x\nid: 1\nevent: y").selector(""));
}

fn check_signals(patch: PatchSignals) {
    let text = patch.as_datastar_event().encode();
    let data = data_lines(&text);
    let flag = under(&data, "onlyIfMissing").first().map(|t| t == "true").unwrap_or(false);
    assert_eq!(flag, patch.only_if_missing);
    assert_eq!(under(&data, "signals"), split_lines(&patch.signals));
}

#[test]
fn signals_are_recovered_from_the_text() {
    check_signals(PatchSignals::new("{\"a\":1}"));
    check_signals(PatchSignals::new("{\"a\":1}").only_if_missing(true));
    check_signals(PatchSignals::new("{\n\"onlyIfMissing\": true,\n\"signals\": 1\n}").id("s"));
    check_signals(PatchSignals::new(""));
}
