use wlaunch::clipboard::ClipboardManager;
use wlaunch::notes::NotesManager;
use wlaunch::snippets::SnippetsManager;
use wlaunch::ssh::SshManager;
use wlaunch::todos::TodosManager;

#[test]
fn test_todos_add_and_toggle() {
    let mut m = TodosManager::new();
    m.add_todo("buy milk");
    m.add_todo("write tests");
    assert_eq!(m.todos.len(), 2);
    assert_eq!(m.todos[0].text, "write tests");
    assert_eq!(m.todos[1].text, "buy milk");
    assert!(!m.todos[0].completed);
    assert_eq!(m.todos[0].id.len(), 36);
    assert_ne!(m.todos[0].id, m.todos[1].id);

    let id = m.todos[1].id.clone();
    m.toggle_todo(&id);
    assert!(m.todos[1].completed);
    m.toggle_todo(&format!("todo:{id}"));
    assert!(!m.todos[1].completed);
}

#[test]
fn test_todos_delete_and_clear() {
    let mut m = TodosManager::new();
    m.add_todo("a");
    m.add_todo("b");
    m.add_todo("c");
    let id_b = m.todos[1].id.clone();
    m.delete_todo(&id_b);
    assert_eq!(m.todos.len(), 2);
    assert!(m.todos.iter().all(|t| t.id != id_b));

    let id_top = m.todos[0].id.clone();
    m.toggle_todo(&id_top);
    m.clear_completed();
    assert_eq!(m.todos.len(), 1);
    m.clear_all();
    assert!(m.todos.is_empty());
}

#[test]
fn test_todos_execute_action() {
    let mut m = TodosManager::new();
    m.execute_action("todo:add:hello", "");
    assert_eq!(m.todos.len(), 1);
    assert_eq!(m.todos[0].text, "hello");
    m.execute_action("", "add from query");
    assert_eq!(m.todos.len(), 2);
    assert_eq!(m.todos[0].text, "from query");
    m.execute_action("todo:action:clear_all", "");
    assert!(m.todos.is_empty());
    m.execute_action("", "add ");
    assert!(m.todos.is_empty());
}

#[test]
fn test_notes_title_truncation() {
    let mut m = NotesManager::new();
    let long = "abcdefghijklmnopqrstuvwxyz0123456789";
    m.add_note(long);
    assert_eq!(m.notes[0].content, long);
    assert_eq!(m.notes[0].title, "abcdefghijklmnopqrstuvwxyz0...");
    m.add_note("short note");
    assert_eq!(m.notes[0].title, "short note");
}

#[test]
fn test_notes_delete_and_actions() {
    let mut m = NotesManager::new();
    m.execute_action("note:add:first", "");
    m.execute_action("", "new second");
    assert_eq!(m.notes.len(), 2);
    let id = m.notes[0].id.clone();
    m.execute_action(&format!("note:delete:{id}"), "");
    assert_eq!(m.notes.len(), 1);
    assert_eq!(m.notes[0].content, "first");
    m.execute_action("note:action:clear", "");
    assert!(m.notes.is_empty());
}

#[test]
fn test_snippets() {
    let mut m = SnippetsManager::new();
    m.add_snippet("sig", "Best, Me");
    assert_eq!(m.snippets.len(), 1);
    assert_eq!(m.snippets[0].name, "sig");
    m.execute_action("", "add greeting:  hello there  ");
    assert_eq!(m.snippets.len(), 2);
    assert_eq!(m.snippets[0].name, "greeting");
    assert_eq!(m.snippets[0].content, "hello there");
    m.execute_action("snippet:add:raw:kept as is", "");
    assert_eq!(m.snippets[0].name, "raw");
    assert_eq!(m.snippets[0].content, "kept as is");
    m.execute_action("snippet:action:clear", "");
    assert!(m.snippets.is_empty());
}

#[test]
fn test_ssh_add_parsing() {
    let mut m = SshManager::new();
    m.execute_action("", "add alice@example.com:2222");
    assert_eq!(m.connections.len(), 1);
    let c = &m.connections[0];
    assert_eq!(c.user, "alice");
    assert_eq!(c.host, "example.com");
    assert_eq!(c.port, 2222);
    assert_eq!(c.name, "alice@example.com");

    m.execute_action("", "add bare-host");
    let c = &m.connections[1];
    assert_eq!(c.user, "root");
    assert_eq!(c.host, "bare-host");
    assert_eq!(c.port, 22);

    m.execute_action("", "add bob@box:notaport");
    let c = &m.connections[2];
    assert_eq!(c.port, 22);

    m.execute_action("ssh:add:carol:gate:8022", "");
    let c = &m.connections[3];
    assert_eq!(c.user, "carol");
    assert_eq!(c.host, "gate");
    assert_eq!(c.port, 8022);

    let id = m.connections[0].id.clone();
    m.execute_action(&format!("ssh:delete:{id}"), "");
    assert_eq!(m.connections.len(), 3);
}

#[test]
fn test_clipboard_history() {
    let mut m = ClipboardManager::new();
    m.add_to_history("one", "t1", 3);
    m.add_to_history("two", "t2", 3);
    m.add_to_history("three", "t3", 3);
    assert_eq!(m.history.len(), 3);
    assert_eq!(m.history[0].content, "three");

    m.add_to_history("one", "t4", 3);
    assert_eq!(m.history.len(), 3);
    assert_eq!(m.history[0].content, "one");
    assert_eq!(m.history[0].timestamp, "t4");
    assert_eq!(m.history[1].content, "three");
    assert_eq!(m.history[2].content, "two");

    m.add_to_history("four", "t5", 3);
    assert_eq!(m.history.len(), 3);
    assert_eq!(m.history[0].content, "four");
    assert!(m.history.iter().all(|e| e.content != "two"));

    m.add_to_history("", "t6", 3);
    assert_eq!(m.history.len(), 3);

    m.clear_history();
    assert!(m.history.is_empty());
}

#[test]
fn test_parse_ssh_config() {
    let text = "# personal hosts\nHost dev\n  HostName dev.example.com\n  User alice\n  Port 2200\n\nHost *\n  IdentityFile ~/.ssh/id\nHost \"quoted\"\n  HostName q.example.com\n";
    let conns = wlaunch::ssh::parse_ssh_config_text(text);
    assert_eq!(conns.len(), 2);
    assert_eq!(conns[0].id, "sshconfig:dev");
    assert_eq!(conns[0].name, "dev");
    assert_eq!(conns[0].host, "dev.example.com");
    assert_eq!(conns[0].user, "alice");
    assert_eq!(conns[0].port, 2200);
    assert_eq!(conns[1].name, "quoted");
    assert_eq!(conns[1].host, "q.example.com");
    assert_eq!(conns[1].user, "root");
    assert_eq!(conns[1].port, 22);
}

#[test]
fn test_parse_ssh_config_equals_form() {
    let conns = wlaunch::ssh::parse_ssh_config_text("Host=gate\nHostName=gate.example.com\nPort=abc\n");
    assert_eq!(conns.len(), 1);
    assert_eq!(conns[0].host, "gate.example.com");
    assert_eq!(conns[0].port, 22);
    assert!(wlaunch::ssh::parse_ssh_config_text("").is_empty());
    assert!(wlaunch::ssh::parse_ssh_config_text("Host nohostname\n").is_empty());
}
