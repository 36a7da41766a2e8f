use wlaunch::desktop::{clean_exec_command, parse_desktop_entry};
use wlaunch::item::ItemType;

#[test]
fn test_parse_desktop_entry() {
    let text = "[Desktop Entry]\nName=Firefox\nComment=Browse the Web\nExec=firefox %u\nIcon=firefox\nTerminal=false\nKeywords=web;browser;;internet;\n";
    let item = parse_desktop_entry(text).unwrap();
    assert_eq!(item.name, "Firefox");
    assert_eq!(item.id, "app:Firefox");
    assert_eq!(item.item_type, ItemType::Application);
    assert_eq!(item.description.as_deref(), Some("Browse the Web"));
    assert_eq!(item.exec_cmd.as_deref(), Some("firefox %u"));
    assert_eq!(item.icon.as_deref(), Some("firefox"));
    assert!(!item.metadata.terminal);
    assert_eq!(item.keywords, vec!["web", "browser", "internet"]);
}

#[test]
fn test_desktop_entry_sections_and_flags() {
    let hidden = "[Desktop Entry]\nName=Ghost\nNoDisplay=true\n";
    assert!(parse_desktop_entry(hidden).is_none());
    let hidden2 = "[Desktop Entry]\nName=Ghost\nHidden=True\n";
    assert!(parse_desktop_entry(hidden2).is_none());
    let nameless = "[Desktop Entry]\nExec=foo\n";
    assert!(parse_desktop_entry(nameless).is_none());

    let other_section = "[Desktop Action new]\nName=Wrong\n[Desktop Entry]\nName=Right\nTerminal=TRUE\n";
    let item = parse_desktop_entry(other_section).unwrap();
    assert_eq!(item.name, "Right");
    assert!(item.metadata.terminal);

    let first_name_wins = "[Desktop Entry]\nName=First\nName=Second\n";
    assert_eq!(parse_desktop_entry(first_name_wins).unwrap().name, "First");
}

#[test]
fn test_clean_exec_command() {
    assert_eq!(clean_exec_command("firefox %u"), "firefox");
    assert_eq!(clean_exec_command("libreoffice %U --writer %F"), "libreoffice  --writer");
    assert_eq!(clean_exec_command("app %f %c %k %i"), "app");
    assert_eq!(clean_exec_command("plain"), "plain");
    assert_eq!(clean_exec_command("  spaced  "), "spaced");
}
