use fluxvm::cgroup::error::CgroupError;
use fluxvm::json::Json;
use fluxvm::keyed::Keyed;
use fluxvm::sandbox_index::{
    backend, fetched, get_command, list_command, remove_commands, upsert_commands, Backend,
    SandboxIndexEntry, SharedSandboxIndex,
};
use fluxvm::text::{
    cat, comes_before, i64_text, lines, parse_i64, parse_u64, sort_keys, split, split_once,
    to_lower, trim, u64_text, words,
};
use fluxvm::vm::{BackendKind, VmStatus};

fn entry(id: &str, node: &str) -> SandboxIndexEntry {
    SandboxIndexEntry { id: id.into(), node: node.into(), status: "running".into() }
}

#[test]
fn an_index_reads_its_writes() {
    let mut index = SharedSandboxIndex::new();
    index.upsert(entry("a", "n1"));
    index.upsert(entry("b", "n2"));
    index.upsert(entry("a", "n3"));
    assert_eq!(index.get("a").unwrap().node, "n3");
    assert_eq!(index.get("b").unwrap().node, "n2");
    index.remove("a");
    assert!(index.get("a").is_none());
    assert!(index.get("b").is_some());
    assert_eq!(
        index.export_json(),
        "[\n  {\n    \"id\": \"b\",\n    \"node\": \"n2\",\n    \"status\": \"running\"\n  }\n]"
    );
    let all = index.list();
    assert_eq!((all.len(), all[0].id.as_str()), (1, "b"));
}

#[test]
fn stored_entries_may_be_lists() {
    let e = fetched(Some("[\"a\",\"n1\",\"paused\"]".to_string()), false).unwrap();
    assert_eq!((e.id.as_str(), e.node.as_str(), e.status.as_str()), ("a", "n1", "paused"));
    assert!(fetched(Some("[\"a\",\"n1\"]".to_string()), false).is_none());
    assert!(fetched(Some("[\"a\",\"n1\",\"paused\",1]".to_string()), false).is_none());
}

#[test]
fn stored_entries_read_back() {
    let e = entry("a", "n\"1\n");
    let (set, add) = upsert_commands(&e);
    assert_eq!(set.words[..2], ["SET".to_string(), "fluxvm:sandbox:a".to_string()]);
    assert_eq!(add.words, vec!["SADD", "fluxvm:sandboxes", "a"]);
    let back = fetched(Some(set.words[2].clone()), false).unwrap();
    assert_eq!((back.id.as_str(), back.node.as_str(), back.status.as_str()), ("a", "n\"1\n", "running"));
    assert!(fetched(None, false).is_none());
    assert!(fetched(Some(set.words[2].clone()), true).is_none());
    assert!(fetched(Some("{}".to_string()), false).is_none());
    let (del, rem) = remove_commands("a");
    assert_eq!(del.words, vec!["DEL", "fluxvm:sandbox:a"]);
    assert_eq!(rem.words, vec!["SREM", "fluxvm:sandboxes", "a"]);
    assert_eq!(get_command("a").words, vec!["GET", "fluxvm:sandbox:a"]);
    assert_eq!(list_command().words, vec!["SMEMBERS", "fluxvm:sandboxes"]);
}

#[test]
fn the_index_is_kept_where_the_address_says() {
    assert!(matches!(backend(None), Backend::Local));
    assert!(matches!(backend(Some(String::new())), Backend::Local));
    match backend(Some("redis://h".to_string())) {
        Backend::Redis(u) => assert_eq!(u, "redis://h"),
        Backend::Local => panic!(),
    }
}

#[test]
fn json_is_read_and_written() {
    let j = Json::parse(r#" {"a":[1,-2,true,null,"x"],"b":{"c":18446744073709551615},"f":1.5} "#).unwrap();
    assert_eq!(j.array_at("a").unwrap().len(), 5);
    assert_eq!(j.get("b").unwrap().u64_at("c"), Some(u64::MAX));
    assert_eq!(j.array_at("a").unwrap()[1].as_i64(), Some(-2));
    assert_eq!(j.get("f").unwrap().as_u64(), None);
    let text = j.render();
    let again: serde_json::Value = serde_json::from_str(&text).unwrap();
    assert_eq!(again, j.to_value());
    assert_eq!(again["f"], 1.5);
    assert!(Json::parse("{").is_err());
    assert!(Json::parse("").is_err());
    let unsorted = Json::parse(r#"{"b":{"d":1,"c":2},"a":[{"z":3,"y":4}]}"#).unwrap();
    assert_eq!(unsorted.render(), r#"{"a":[{"y":4,"z":3}],"b":{"c":2,"d":1}}"#);
    assert_eq!(unsorted.render_as_written(), r#"{"b":{"d":1,"c":2},"a":[{"z":3,"y":4}]}"#);
    let first = Json::object().put("b", Json::Bool(true)).put_first("z", Json::Null);
    assert_eq!(first.render_as_written(), r#"{"z":null,"b":true}"#);
    let v = Json::from_value(serde_json::Value::from(3u8));
    assert_eq!(v.as_u64(), Some(3));
    let (rest, taken) = Json::object().with("k", Json::text("v")).without("k");
    assert_eq!(rest.render(), "{}");
    assert_eq!(taken.unwrap().as_str(), Some("v"));
}

#[test]
fn keyed_lists_hold_one_value_for_a_key() {
    let mut k: Keyed<u32> = Keyed::new();
    k.insert("a".to_string(), 1);
    k.insert("b".to_string(), 2);
    k.insert("a".to_string(), 3);
    assert_eq!(k.get("a"), Some(&3));
    if let Some(v) = k.get_mut("b") {
        *v = 5;
    }
    assert_eq!(k.get("b"), Some(&5));
    k.remove("a");
    assert_eq!(k.get("a"), None);
}

#[test]
fn texts_are_taken_apart() {
    assert_eq!(split("a,b,,c", ','), vec!["a", "b", "", "c"]);
    assert_eq!(split("", ','), vec![""]);
    assert_eq!(split_once("a=b=c", '='), Some(("a".to_string(), "b=c".to_string())));
    assert_eq!(split_once("abc", '='), None);
    let text = "a\r\nb\n\nc";
    assert_eq!(lines(text), text.lines().map(str::to_string).collect::<Vec<_>>());
    let text = "  a\tb \n c ";
    assert_eq!(words(text), text.split_whitespace().map(str::to_string).collect::<Vec<_>>());
    assert_eq!(trim("\u{3000} x \u{a0}"), "\u{3000} x \u{a0}".trim());
    assert_eq!(to_lower("AbÄ"), "AbÄ".to_ascii_lowercase());
    assert_eq!(cat("a", "b"), "ab");
    assert!(comes_before("a", "b"));
    assert!(!comes_before("b", "a"));
    assert_eq!(
        sort_keys(&vec!["b".to_string(), "a".to_string()]),
        vec!["a".to_string(), "b".to_string()]
    );
}

#[test]
fn numbers_are_read_and_written() {
    for s in ["0", "42", "+7", "18446744073709551615", "18446744073709551616", "", "-1", "+", "1a", " 1"] {
        assert_eq!(parse_u64(s), s.parse::<u64>().ok(), "{s:?}");
        assert_eq!(parse_i64(s), s.parse::<i64>().ok(), "{s:?}");
    }
    for n in [0u64, 9, 10, 12345, u64::MAX] {
        assert_eq!(u64_text(n), n.to_string());
        assert_eq!(parse_u64(&u64_text(n)), Some(n));
    }
    for i in [0i64, -1, i64::MIN, i64::MAX] {
        assert_eq!(i64_text(i), i.to_string());
        assert_eq!(parse_i64(&i64_text(i)), Some(i));
    }
}

#[test]
fn texts_are_quoted() {
    for s in ["", "a", "a\"b", "tab\t", "\u{7f}", "é\u{200b}"] {
        let e = CgroupError::ControllerNotAvailable { controller: s.to_string(), path: "/p".to_string() };
        assert_eq!(e.to_string(), format!("controller {s:?} not available at /p"));
    }
}

#[test]
fn programs_and_states_have_names() {
    assert_eq!(BackendKind::Qemu.label(), "qemu");
    assert_eq!(BackendKind::CloudHypervisor.label(), "cloud-hypervisor");
    assert_eq!(VmStatus::Creating.label(), "creating");
    assert_eq!(VmStatus::Failed.label(), "failed");
}
