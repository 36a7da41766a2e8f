use wlaunch::mode::{classify, is_conversion, is_math_expression, Mode};

#[test]
fn test_prefix_wins_over_heuristic() {
    let r = classify("wifi 5+5");
    assert_eq!(r.mode, Mode::Wifi);
    assert_eq!(r.residual, "5+5");
}

#[test]
fn test_math_heuristic() {
    let r = classify("5+5");
    assert_eq!(r.mode, Mode::Calculator);
    assert_eq!(r.residual, "5+5");
}

#[test]
fn test_conversion_heuristic() {
    let r = classify("5 km to m");
    assert_eq!(r.mode, Mode::Converter);
    assert_eq!(r.residual, "5 km to m");
}

#[test]
fn test_empty_query() {
    let r = classify("");
    assert_eq!(r.mode, Mode::Apps);
    assert_eq!(r.residual, "");
}

#[test]
fn test_prefix_table() {
    assert_eq!(classify("w foo").mode, Mode::Windows);
    assert_eq!(classify("w foo").residual, "foo");
    assert_eq!(classify("ps").mode, Mode::Processes);
    assert_eq!(classify("ps").residual, "");
    assert_eq!(classify("bt headphones").mode, Mode::Bluetooth);
    assert_eq!(classify("vol 50").mode, Mode::Audio);
    assert_eq!(classify("cb").mode, Mode::Clipboard);
    assert_eq!(classify("note milk").mode, Mode::Notes);
    assert_eq!(classify("snip sig").mode, Mode::Snippets);
    assert_eq!(classify("todo buy milk").mode, Mode::Todos);
    assert_eq!(classify("todo buy milk").residual, "buy milk");
    assert_eq!(classify("ssh server").mode, Mode::Ssh);
    assert_eq!(classify("docker ps").mode, Mode::Docker);
    assert_eq!(classify("timer 5m").mode, Mode::Timer);
    assert_eq!(classify("e smile").mode, Mode::Emoji);
    assert_eq!(classify("f report").mode, Mode::Files);
    assert_eq!(classify("r").mode, Mode::RecentFiles);
    assert_eq!(classify("bw bank").mode, Mode::Bitwarden);
    assert_eq!(classify("ask why").mode, Mode::Ai);
    assert_eq!(classify("? why").mode, Mode::Ai);
}

#[test]
fn test_websearch_aliases() {
    let g = classify("g rust lang");
    assert_eq!(g.mode, Mode::WebSearch);
    assert_eq!(g.residual, "google rust lang");
    let gh = classify("gh verus");
    assert_eq!(gh.mode, Mode::WebSearch);
    assert_eq!(gh.residual, "github verus");
    let yt = classify("yt cats");
    assert_eq!(yt.mode, Mode::WebSearch);
    assert_eq!(yt.residual, "youtube cats");
}

#[test]
fn test_case_insensitive_prefix() {
    assert_eq!(classify("WIFI home").mode, Mode::Wifi);
    assert_eq!(classify("Todo x").mode, Mode::Todos);
}

#[test]
fn test_trim_and_fallback() {
    let r = classify("  hello world  ");
    assert_eq!(r.mode, Mode::Apps);
    assert_eq!(r.residual, "hello world");
}

#[test]
fn test_math_wins_over_conversion() {
    let r = classify("2+2 km to m");
    assert_eq!(r.mode, Mode::Calculator);
    assert_eq!(r.residual, "2+2 km to m");
}

#[test]
fn test_heuristic_predicates() {
    assert!(is_math_expression("5+5"));
    assert!(!is_math_expression("five plus five"));
    assert!(!is_math_expression("(no digits)"));
    assert!(is_conversion("5 KM TO M"));
    assert!(is_conversion("width in pixels"));
    assert!(!is_conversion("nothing here"));
}
