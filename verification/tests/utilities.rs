use wlaunch::config::Config;
use wlaunch::emoji::EmojiManager;
use wlaunch::files::FileManager;
use wlaunch::system::{
    AudioCommand, AudioManager, BluetoothCommand, BluetoothManager, DockerCommand, DockerManager,
    DockerRuntime, NetworkCommand, NetworkManager,
};
use wlaunch::timer::{format_duration, parse_duration};
use wlaunch::websearch::{encode, WebSearchManager};

#[test]
fn test_encode() {
    assert_eq!(encode("hello world"), "hello+world");
    assert_eq!(encode("a&b=c"), "a%26b%3Dc");
    assert_eq!(encode("safe-chars_.~AZ09"), "safe-chars_.~AZ09");
    assert_eq!(encode("caf\u{e9}"), "caf%C3%A9");
    assert_eq!(encode(""), "");
}

#[test]
fn test_parse_query_engines() {
    let m = WebSearchManager::new();
    assert_eq!(m.parse_query("wiki cats"), ("wikipedia".to_string(), "cats".to_string()));
    assert_eq!(m.parse_query("so rust"), ("stackoverflow".to_string(), "rust".to_string()));
    assert_eq!(
        m.parse_query("how tall is everest"),
        ("google".to_string(), "how tall is everest".to_string()),
    );
    assert_eq!(m.parse_query("github"), ("github".to_string(), "".to_string()));
}

#[test]
fn test_search_urls() {
    let m = WebSearchManager::new();
    let (name, url) = m.get_search_url("github", "verus lang");
    assert_eq!(name, "GitHub");
    assert_eq!(url, "https://github.com/search?q=verus+lang");
    let (name, url) = m.get_search_url("unknown", "x");
    assert_eq!(name, "Google");
    assert_eq!(url, "https://www.google.com/search?q=x");
}

#[test]
fn test_websearch_items() {
    let m = WebSearchManager::new();
    let items = m.get_items("wiki cats");
    assert_eq!(items.len(), 1);
    assert_eq!(items[0].metadata.search_engine.as_deref(), Some("wikipedia"));
    assert_eq!(items[0].metadata.query.as_deref(), Some("cats"));
    assert_eq!(
        items[0].metadata.url.as_deref(),
        Some("https://en.wikipedia.org/wiki/Special:Search?search=cats"),
    );
    assert!(m.get_items("").is_empty());
    assert!(m.get_items("github").is_empty());
}

#[test]
fn test_parse_duration() {
    assert_eq!(parse_duration("5m"), Some(300));
    assert_eq!(parse_duration("10m30s"), Some(630));
    assert_eq!(parse_duration("1h"), Some(3600));
    assert_eq!(parse_duration("90s"), Some(90));
    assert_eq!(parse_duration("1:30"), Some(90));
    assert_eq!(parse_duration("01:30:00"), Some(5400));
    assert_eq!(parse_duration("5"), Some(300));
    assert_eq!(parse_duration(" 2H "), Some(7200));
    assert_eq!(parse_duration(""), None);
    assert_eq!(parse_duration("abc"), None);
    assert_eq!(parse_duration("0"), None);
    assert_eq!(parse_duration("1:2:3:4"), None);
}

#[test]
fn test_format_duration() {
    assert_eq!(format_duration(90), "01:30");
    assert_eq!(format_duration(5400), "01:30:00");
    assert_eq!(format_duration(0), "00:00");
    assert_eq!(format_duration(3661), "01:01:01");
}

#[test]
fn test_network_dispatch() {
    let m = NetworkManager::new();
    assert_eq!(m.execute_action("wifi:scan"), NetworkCommand::Scan);
    assert_eq!(m.execute_action("wifi:toggle"), NetworkCommand::ToggleWifi);
    assert_eq!(m.execute_action("wifi:disconnect"), NetworkCommand::Disconnect);
    assert_eq!(m.execute_action("something"), NetworkCommand::NoOp);
}

#[test]
fn test_bluetooth_dispatch() {
    let m = BluetoothManager::new();
    assert_eq!(m.execute_action("bt:scan"), BluetoothCommand::StartScan);
    assert_eq!(m.execute_action("bt:toggle"), BluetoothCommand::TogglePower);
    assert_eq!(
        m.execute_action("bt:AA:BB:CC"),
        BluetoothCommand::ToggleDevice("AA:BB:CC".to_string()),
    );
    assert_eq!(m.execute_action("other"), BluetoothCommand::NoOp);
}

#[test]
fn test_docker_dispatch() {
    let m = DockerManager::new(DockerRuntime::Podman);
    assert_eq!(m.runtime_cmd(), Some("podman"));
    assert_eq!(DockerManager::new(DockerRuntime::Missing).runtime_cmd(), None);
    assert_eq!(m.execute_action("docker:action:prune"), DockerCommand::PruneContainers);
    assert_eq!(m.execute_action("docker:action:prune_all"), DockerCommand::PruneAll);
    assert_eq!(m.execute_action("docker:start:abc"), DockerCommand::Start("abc".to_string()));
    assert_eq!(m.execute_action("docker:stop:abc"), DockerCommand::Stop("abc".to_string()));
    assert_eq!(m.execute_action("docker:remove:abc"), DockerCommand::Remove("abc".to_string()));
    assert_eq!(m.execute_action("x"), DockerCommand::NoOp);
}

#[test]
fn test_audio_dispatch() {
    let m = AudioManager::new();
    assert_eq!(m.execute_action("audio:mute", ""), AudioCommand::ToggleMute);
    assert_eq!(m.execute_action("audio:up", ""), AudioCommand::VolumeUp);
    assert_eq!(m.execute_action("audio:down", ""), AudioCommand::VolumeDown);
    assert_eq!(m.execute_action("audio:set:35", ""), AudioCommand::SetVolume(35));
    assert_eq!(m.execute_action("audio:set:loud", ""), AudioCommand::NoOp);
    assert_eq!(
        m.execute_action("audio:sink:alsa1", ""),
        AudioCommand::SetDefaultSink("alsa1".to_string()),
    );
    assert_eq!(m.execute_action("", "50"), AudioCommand::SetVolume(50));
    assert_eq!(m.execute_action("", "fifty"), AudioCommand::NoOp);
}

#[test]
fn test_config_defaults() {
    let c = Config::default();
    assert_eq!(c.clipboard_history_size(), 50);
    assert_eq!(c.max_recent_files(), 100);
    let c2 = Config { clipboard_history_size: Some(7), ..Config::default() };
    assert_eq!(c2.clipboard_history_size(), 7);
    assert_eq!(Config::config_path("/home/u/.config/wlaunch"), "/home/u/.config/wlaunch/config.json");
    assert_eq!(Config::scripts_dir("/base"), "/base/scripts");
    assert_eq!(Config::data_path("/base", "todos.json"), "/base/todos.json");
}

#[test]
fn test_mime_icons() {
    assert_eq!(FileManager::get_icon_for_mime("directory"), "folder");
    assert_eq!(FileManager::get_icon_for_mime("image/png"), "image-x-generic");
    assert_eq!(FileManager::get_icon_for_mime("video/mp4"), "video-x-generic");
    assert_eq!(FileManager::get_icon_for_mime("audio/ogg"), "audio-x-generic");
    assert_eq!(FileManager::get_icon_for_mime("text/plain"), "text-x-generic");
    assert_eq!(FileManager::get_icon_for_mime("application/pdf"), "application-pdf");
    assert_eq!(FileManager::get_icon_for_mime("application/zip"), "package-x-generic");
    assert_eq!(
        FileManager::get_icon_for_mime("application/vnd.ms-excel"),
        "x-office-spreadsheet",
    );
    assert_eq!(FileManager::get_icon_for_mime("application/msword"), "x-office-document");
    assert_eq!(FileManager::get_icon_for_mime("application/x-sh"), "application-x-executable");
    assert_eq!(FileManager::get_icon_for_mime("model/stl"), "text-x-generic");
}

#[test]
fn test_emoji_table() {
    let m = EmojiManager::new();
    let all = m.get_items("");
    assert_eq!(all.len(), 186);
    let rofl = m.get_items("rofl");
    assert!(rofl.iter().any(|it| it.name == "\u{1F923}"));
    let hearts = m.get_items("heart");
    assert!(!hearts.is_empty());
    assert!(m.get_items("qqqqqq").is_empty());
    assert!(all[0].id.starts_with("emoji:"));
}
