use chatguru::json::{copy_of, either_found, find_member, is_named, Json, JsonMap, Lookup, Member};
use chatguru::text::{chars_of, has_substring, matches_at, same_text};
use chatguru::ChatGuruError;

fn member(name: &str, value: Json) -> Member {
    Member { name: name.to_string(), value }
}

#[test]
fn parse_reads_every_kind_of_value() {
    let json = Json::parse(r#"{"a": [1, "x", true, null, {"b": 2.5}], "c": -7}"#).unwrap();
    let members = match json {
        Json::Object(members) => members,
        other => panic!("unexpected value: {:?}", other),
    };
    assert_eq!(members.len(), 2);
    assert_eq!(members[0].name, "a");
    assert_eq!(members[1].name, "c");
    assert!(matches!(&members[1].value, Json::Number(n) if n == "-7"));
    let items = match &members[0].value {
        Json::Array(items) => items,
        other => panic!("unexpected value: {:?}", other),
    };
    assert_eq!(items.len(), 5);
    assert!(matches!(&items[0], Json::Number(n) if n == "1"));
    assert!(matches!(&items[1], Json::Text(t) if t == "x"));
    assert!(matches!(&items[2], Json::Bool(true)));
    assert!(matches!(&items[3], Json::Null));
    match &items[4] {
        Json::Object(inner) => {
            assert_eq!(inner.len(), 1);
            assert_eq!(inner[0].name, "b");
            assert!(matches!(&inner[0].value, Json::Number(n) if n == "2.5"));
        },
        other => panic!("unexpected value: {:?}", other),
    }
}

#[test]
fn parse_of_a_text_value_unescapes_it() {
    assert!(matches!(Json::parse(r#""a\nbã""#), Ok(Json::Text(t)) if t == "a\nbã"));
}

#[test]
fn parse_refuses_what_is_no_json() {
    for text in ["", "{", "[1,]", "nul", "{\"a\" 1}"] {
        assert!(matches!(Json::parse(text), Err(ChatGuruError::SerializationError(_))));
    }
}

#[test]
fn parse_error_says_what_serde_json_says() {
    let expected = serde_json::from_str::<serde_json::Value>("{").unwrap_err().to_string();
    match Json::parse("{") {
        Err(ChatGuruError::SerializationError(text)) => assert_eq!(text, expected),
        other => panic!("unexpected result: {:?}", other),
    }
}

#[test]
fn find_member_tells_absent_once_and_repeated() {
    let members = vec![
        member("a", Json::Bool(true)),
        member("b", Json::Null),
        member("a", Json::Bool(false)),
    ];
    assert!(matches!(find_member(&members, "b"), Lookup::Once(Json::Null)));
    assert!(matches!(find_member(&members, "a"), Lookup::Repeated));
    assert!(matches!(find_member(&members, "c"), Lookup::Absent));
    assert!(matches!(find_member(&Vec::new(), "a"), Lookup::Absent));
}

#[test]
fn either_found_joins_two_names() {
    let t = Json::Bool(true);
    let f = Json::Bool(false);
    assert!(matches!(either_found(Lookup::Absent, Lookup::Absent), Lookup::Absent));
    assert!(matches!(either_found(Lookup::Once(&t), Lookup::Absent), Lookup::Once(Json::Bool(true))));
    assert!(matches!(either_found(Lookup::Absent, Lookup::Once(&f)), Lookup::Once(Json::Bool(false))));
    assert!(matches!(either_found(Lookup::Once(&t), Lookup::Once(&f)), Lookup::Repeated));
    assert!(matches!(either_found(Lookup::Repeated, Lookup::Absent), Lookup::Repeated));
    assert!(matches!(either_found(Lookup::Absent, Lookup::Repeated), Lookup::Repeated));
}

#[test]
fn map_insert_replaces_the_value_of_a_name() {
    let mut map = JsonMap::new();
    assert!(map.get("a").is_none());
    map.insert("a".to_string(), Json::Bool(true));
    map.insert("b".to_string(), Json::Null);
    map.insert("a".to_string(), Json::Bool(false));
    assert!(matches!(map.get("a"), Some(Json::Bool(false))));
    assert!(matches!(map.get("b"), Some(Json::Null)));
    assert!(map.get("c").is_none());
    assert_eq!(map.entries().len(), 2);
}

#[test]
fn map_from_members_keeps_the_last_value_of_a_name() {
    let members = vec![
        member("a", Json::Bool(true)),
        member("b", Json::Null),
        member("a", Json::Bool(false)),
    ];
    let map = JsonMap::from_members(&members);
    assert!(matches!(map.get("a"), Some(Json::Bool(false))));
    assert_eq!(map.entries().len(), 2);
    let rest = JsonMap::from_unnamed(&members, &vec!["a"]);
    assert!(rest.get("a").is_none());
    assert!(matches!(rest.get("b"), Some(Json::Null)));
    assert_eq!(rest.entries().len(), 1);
    let copy = rest.clone();
    assert!(matches!(copy.get("b"), Some(Json::Null)));
}

#[test]
fn is_named_looks_for_the_whole_name() {
    let names = vec!["nome", "celular"];
    assert!(is_named("nome", &names));
    assert!(is_named("celular", &names));
    assert!(!is_named("nom", &names));
    assert!(!is_named("", &names));
    assert!(!is_named("nome", &Vec::new()));
}

#[test]
fn copy_of_keeps_the_value() {
    let json = Json::parse(r#"{"a": [1, {"b": "x"}], "c": null}"#).unwrap();
    assert_eq!(format!("{:?}", copy_of(&json)), format!("{:?}", json));
    assert_eq!(format!("{:?}", json.clone()), format!("{:?}", json));
}

#[test]
fn text_helpers_agree_with_std() {
    assert_eq!(chars_of("aãb"), vec!['a', 'ã', 'b']);
    assert!(same_text("aãb", "aãb"));
    assert!(!same_text("aãb", "aab"));
    assert!(!same_text("a", "ab"));
    assert!(same_text("", ""));
    let text = chars_of("Chat não encontrado");
    assert!(has_substring(&text, &chars_of("Chat n")));
    assert!(has_substring(&text, &chars_of("encontrado")));
    assert!(has_substring(&text, &chars_of("")));
    assert!(!has_substring(&text, &chars_of("chat")));
    assert!(!has_substring(&chars_of("ab"), &chars_of("abc")));
    assert!(matches_at(&text, &chars_of("não"), 5));
    assert!(!matches_at(&text, &chars_of("não"), 4));
}
