use shelf::services::command::prepare_command;
use shelf::services::group::{
    check_group_deletable, validate_fields as validate_group, with_special_groups, GroupRow,
    DEFAULT_GROUP_ID, FAVOURITES_GROUP_ID, RECENT_GROUP_ID,
};
use shelf::services::item::{item_query, validate_fields as validate_item, ItemQuery, RECENT_ITEMS_LIMIT};
use shelf::services::script::prepare_script;
use shelf::services::search::search_pattern;
use shelf::services::tags::clean_tags;
use shelf::utils::formatting::clamp_name;
use shelf::utils::text::{char_is_whitespace, same_text, text_byte_len, trim};

fn strings(v: &[&str]) -> Vec<String> {
    v.iter().map(|s| s.to_string()).collect()
}

#[test]
fn clamp_name_keeps_short_names() {
    assert_eq!(clamp_name("hello", 10), "hello");
    assert_eq!(clamp_name("hello", 5), "hello");
    assert_eq!(clamp_name("", 0), "");
}

#[test]
fn clamp_name_truncates_long_names() {
    assert_eq!(clamp_name("hello world", 8), "hello...");
    assert_eq!(clamp_name("abcdef", 2), "..");
    assert_eq!(clamp_name("abc", 0), "");
    assert_eq!(clamp_name("ab", 1), ".");
    assert_eq!(clamp_name("abcd", 3), "...");
    // characters, not bytes, are counted
    assert_eq!(clamp_name("héllo wörld", 7), "héll...");
    assert_eq!(clamp_name("ééééé", 5), "ééééé");
}

#[test]
fn trim_removes_unicode_white_space() {
    assert_eq!(trim("  a b \t\n"), "a b");
    assert_eq!(trim("\u{3000}x\u{00A0}"), "x");
    assert_eq!(trim("   "), "");
    assert_eq!(trim(""), "");
    assert_eq!(trim("no-space"), "no-space");
    assert_eq!(trim(&trim("  twice  ")), "twice");
}

#[test]
fn white_space_is_the_unicode_set() {
    for c in ['\t', '\n', '\u{0B}', '\u{0C}', '\r', ' ', '\u{85}', '\u{A0}', '\u{1680}', '\u{2000}', '\u{200A}',
        '\u{2028}', '\u{2029}', '\u{202F}', '\u{205F}', '\u{3000}'] {
        assert!(char_is_whitespace(c), "{:?}", c);
        assert_eq!(char_is_whitespace(c), c.is_whitespace());
    }
    for c in ['a', '0', '\u{0}', '\u{08}', '\u{0E}', '\u{1F}', '\u{200B}', '\u{180E}', '\u{FEFF}', '\u{2030}', '\u{3001}'] {
        assert!(!char_is_whitespace(c), "{:?}", c);
        assert_eq!(char_is_whitespace(c), c.is_whitespace());
    }
}

#[test]
fn text_helpers() {
    assert!(same_text("abc", "abc"));
    assert!(!same_text("abc", "abd"));
    assert!(!same_text("abc", "ab"));
    assert_eq!(text_byte_len("é"), 2);
    assert_eq!(text_byte_len("abc"), 3);
}

#[test]
fn clean_tags_trims_and_drops_empty() {
    assert_eq!(clean_tags(&strings(&[" a ", "", "  ", "b"])), strings(&["a", "b"]));
}

#[test]
fn item_validation_accepts_and_trims() {
    let r = validate_item(
        " command ",
        Some(" n ".to_string()),
        " ls -la ".to_string(),
        " d ".to_string(),
        strings(&[" a ", "", "b"]),
    )
    .unwrap();
    assert_eq!(r.0, "command");
    assert_eq!(r.1, Some("n".to_string()));
    assert_eq!(r.2, "ls -la");
    assert_eq!(r.3, "d");
    assert_eq!(r.4, strings(&["a", "b"]));
    // a blank name becomes none
    let r = validate_item("command", Some("  ".to_string()), "x".to_string(), String::new(), vec![]).unwrap();
    assert_eq!(r.1, None);
}

#[test]
fn item_validation_is_idempotent() {
    let first = validate_item(
        "script",
        Some("  deploy ".to_string()),
        "  ./deploy.sh\n".to_string(),
        "\tships it ".to_string(),
        strings(&[" ci ", "prod"]),
    )
    .unwrap();
    let again = validate_item(&first.0, first.1.clone(), first.2.clone(), first.3.clone(), first.4.clone()).unwrap();
    assert_eq!(first, again);
}

#[test]
fn item_validation_errors() {
    let err = |t: &str, n: Option<&str>, c: &str, d: &str, tags: Vec<String>| {
        validate_item(t, n.map(|x| x.to_string()), c.to_string(), d.to_string(), tags).unwrap_err()
    };
    assert_eq!(err("bogus", None, "x", "", vec![]), "Invalid item type");
    assert_eq!(err("script", None, "x", "", vec![]), "Name is required");
    assert_eq!(err("script", Some("   "), "x", "", vec![]), "Name is required");
    let long_name = "n".repeat(101);
    assert_eq!(err("script", Some(&long_name), "x", "", vec![]), "Name is too long (max 100 chars)");
    assert_eq!(err("command", None, "   ", "", vec![]), "Content is required");
    let long_content = "c".repeat(501);
    assert_eq!(
        err("command", None, &long_content, "", vec![]),
        "Content is too long (max 500 characters: Use script instead)"
    );
    assert!(validate_item("script", Some("s".to_string()), long_content.clone(), String::new(), vec![]).is_ok());
    let long_description = "d".repeat(1001);
    assert_eq!(
        err("command", None, "x", &long_description, vec![]),
        "Description is too long (max 1000 characters)"
    );
    let many: Vec<String> = (0..31).map(|i| format!("t{}", i)).collect();
    assert_eq!(err("command", None, "x", "", many), "Too many tags (max 30 tags)");
    let mut blanks: Vec<String> = (0..30).map(|i| format!("t{}", i)).collect();
    blanks.push("   ".to_string());
    assert!(validate_item("command", None, "x".to_string(), String::new(), blanks).is_ok());
    let long_tag = "x".repeat(21);
    assert_eq!(
        err("command", None, "x", "", strings(&["ok", &long_tag, "y".repeat(22).as_str()])),
        format!("Tag '{}' is too long (max 20 characters)", long_tag)
    );
    // a name of 100 bytes in 50 two-byte characters is accepted, 101 bytes is not
    let wide = "é".repeat(50);
    assert!(validate_item("script", Some(wide.clone()), "x".to_string(), String::new(), vec![]).is_ok());
    let wider = format!("{}a", wide);
    assert_eq!(err("script", Some(&wider), "x", "", vec![]), "Name is too long (max 100 chars)");
}

#[test]
fn group_validation() {
    assert_eq!(
        validate_group("  Work ".to_string(), " stuff ".to_string()).unwrap(),
        ("Work".to_string(), "stuff".to_string())
    );
    assert_eq!(validate_group("   ".to_string(), String::new()).unwrap_err(), "Group name is required");
    assert_eq!(
        validate_group("g".repeat(51), String::new()).unwrap_err(),
        "Group name is too long (max 50 chars)"
    );
    assert_eq!(validate_group(" Recent ".to_string(), String::new()).unwrap_err(), "Group name 'Recent' is reserved");
    assert_eq!(
        validate_group("Favourites".to_string(), String::new()).unwrap_err(),
        "Group name 'Favourites' is reserved"
    );
    assert_eq!(validate_group("Default".to_string(), String::new()).unwrap_err(), "Group name 'Default' is reserved");
    assert_eq!(
        validate_group("ok".to_string(), "d".repeat(1001)).unwrap_err(),
        "Group description is too long"
    );
    let once = validate_group(" Tools ".to_string(), " a\n".to_string()).unwrap();
    assert_eq!(validate_group(once.0.clone(), once.1.clone()).unwrap(), once);
}

#[test]
fn special_groups_cannot_be_deleted() {
    assert_eq!(check_group_deletable(RECENT_GROUP_ID).unwrap_err(), "Cannot delete 'Recent' group");
    assert_eq!(check_group_deletable(FAVOURITES_GROUP_ID).unwrap_err(), "Cannot delete 'Favourites' group");
    assert_eq!(check_group_deletable(DEFAULT_GROUP_ID).unwrap_err(), "Cannot delete 'Default' group");
    assert!(check_group_deletable(7).is_ok());
    assert_eq!((DEFAULT_GROUP_ID, RECENT_GROUP_ID, FAVOURITES_GROUP_ID), (1, -1, -2));
}

#[test]
fn special_groups_come_first() {
    let rows = vec![GroupRow { id: 1, name: "Default".to_string(), description: "d".to_string(), item_count: 3 }];
    let out = with_special_groups(rows, 4, 2);
    assert_eq!(out.len(), 3);
    assert_eq!((out[0].id, out[0].name.as_str(), out[0].item_count), (-1, "Recent", 4));
    assert!(out[0].description.starts_with("Echoes of your latest thoughts"));
    assert_eq!((out[1].id, out[1].name.as_str(), out[1].item_count), (-2, "Favourites", 2));
    assert!(out[1].description.starts_with("The ones you chose to keep close"));
    assert_eq!((out[2].id, out[2].name.as_str(), out[2].item_count), (1, "Default", 3));
}

#[test]
fn item_queries_for_special_groups() {
    assert_eq!(item_query(-2, true, false), ItemQuery::Favourites { commands: true, scripts: false });
    assert_eq!(item_query(-1, false, true), ItemQuery::Recents { commands: false, scripts: true, limit: 50 });
    assert_eq!(RECENT_ITEMS_LIMIT, 50);
    assert_eq!(item_query(5, true, true), ItemQuery::Group { group_id: 5, commands: true, scripts: true });
}

#[test]
fn command_and_script_preparation() {
    let (c, t) = prepare_command("  echo hi ".to_string(), strings(&[" x ", " "])).unwrap();
    assert_eq!((c.as_str(), t), ("echo hi", strings(&["x"])));
    assert_eq!(prepare_command("  ".to_string(), vec![]).unwrap_err(), "Command content is required");
    let (n, c, t) = prepare_script(" s ".to_string(), " body ".to_string(), vec![]).unwrap();
    assert_eq!((n.as_str(), c.as_str(), t.len()), ("s", "body", 0));
    assert_eq!(prepare_script(" ".to_string(), "b".to_string(), vec![]).unwrap_err(), "Script name is required");
    assert_eq!(prepare_script("s".to_string(), " ".to_string(), vec![]).unwrap_err(), "Script content is required");
}

#[test]
fn search_patterns() {
    assert_eq!(search_pattern("  git  "), Some("%git%".to_string()));
    assert_eq!(search_pattern("   "), None);
    assert_eq!(search_pattern(""), None);
}
