use wlaunch::fuzzy::rank_items;
use wlaunch::item::{Item, ItemType};

fn app(name: &str) -> Item {
    Item::new(format!("app:{name}"), name.to_string(), ItemType::Application)
}

#[test]
fn test_name_match_outranks_keyword_match() {
    let query = "firefox";
    let a = app("firefox");
    let b = app("web browser").with_keywords(vec!["firefox".to_string()]);
    let sa = a.fuzzy_score(query);
    let sb = b.fuzzy_score(query);
    assert!(sa > 0);
    assert!(sb > 0);
    assert!(sa > sb, "name match {sa} must outrank keyword match {sb}");
}

#[test]
fn test_description_down_weighted() {
    let query = "terminal";
    let a = app("terminal");
    let b = app("shell").with_description("terminal emulator".to_string());
    assert!(a.fuzzy_score(query) > b.fuzzy_score(query));
}

#[test]
fn test_zero_score_excluded() {
    let query = "zzzz";
    let items = vec![
        app("firefox"),
        app("zzzz"),
        app("text editor"),
    ];
    let ranked = rank_items(items, query);
    assert_eq!(ranked.len(), 1);
    assert_eq!(ranked[0].name, "zzzz");
}

#[test]
fn test_ranked_descending() {
    let query = "fire";
    let items = vec![
        app("extinguisher of fires"),
        app("fire"),
        app("firefox"),
    ];
    let ranked = rank_items(items, query);
    assert!(ranked.len() >= 2);
    let scores: Vec<i64> = ranked.iter().map(|it| it.fuzzy_score(query)).collect();
    for w in scores.windows(2) {
        assert!(w[0] >= w[1], "scores not descending: {scores:?}");
    }
}

#[test]
fn test_matches_substring() {
    let it = app("Visual Editor").with_description("Edit things".to_string()).with_keywords(
        vec!["code".to_string()],
    );
    assert!(it.matches("visual"));
    assert!(it.matches("EDIT"));
    assert!(it.matches("code"));
    assert!(!it.matches("browser"));
}

#[test]
fn test_score_nonnegative() {
    let it = app("alpha");
    assert!(it.fuzzy_score("omega") >= 0);
    assert_eq!(it.fuzzy_score("omega"), 0);
}
