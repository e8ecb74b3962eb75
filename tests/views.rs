use ink_sidecar::{
    ink_home, is_flat_metadata_name, is_metadata_name, launch_strategies, list_articles_native,
    log_file_name, name_less, read_logs, resolve_script_path, sort_entries_desc, tail_lines,
    Article, ArticleEntry, EntryKind, LaunchStrategy, LogDate, MetadataFile, DEFAULT_LOG_LINES,
};

fn dir(name: &str, files: Vec<(&str, Option<&str>)>) -> ArticleEntry {
    ArticleEntry {
        name: name.to_string(),
        kind: EntryKind::Dir(
            files
                .into_iter()
                .map(|(n, c)| MetadataFile { name: n.to_string(), content: c.map(|s| s.to_string()) })
                .collect(),
        ),
    }
}

fn file(name: &str, content: Option<&str>) -> ArticleEntry {
    ArticleEntry { name: name.to_string(), kind: EntryKind::File(content.map(|s| s.to_string())) }
}

fn ids(v: &[Article]) -> Vec<String> {
    v.iter().map(|a| a.id.clone()).collect()
}

#[test]
fn no_log_file_gives_placeholder_and_dir() {
    let v = read_logs(None, "/home/u/.ink/logs".to_string(), None).ok().unwrap();
    assert_eq!(v.content, "暂无日志");
    assert_eq!(v.log_dir, "/home/u/.ink/logs");
}

#[test]
fn five_hundred_lines_limit_two_hundred_gives_last_two_hundred() {
    let text: Vec<String> = (1..=500).map(|i| format!("line {}", i)).collect();
    let content = text.join("\n") + "\n";
    let v = read_logs(Some(200), "d".to_string(), Some(Ok(content))).ok().unwrap();
    let expected: Vec<String> = (301..=500).map(|i| format!("line {}", i)).collect();
    assert_eq!(v.content, expected.join("\n"));
}

#[test]
fn default_limit_is_two_hundred() {
    assert_eq!(DEFAULT_LOG_LINES, 200);
    let text: Vec<String> = (0..250).map(|i| i.to_string()).collect();
    let v = read_logs(None, "d".to_string(), Some(Ok(text.join("\n")))).ok().unwrap();
    assert_eq!(v.content, text[50..].join("\n"));
}

#[test]
fn log_lines_split_at_crlf() {
    let v = read_logs(Some(5), "d".to_string(), Some(Ok("a\r\nb\r\nc".to_string()))).ok().unwrap();
    assert_eq!(v.content, "a\nb\nc");
}

#[test]
fn unreadable_log_is_an_error() {
    let r = read_logs(None, "d".to_string(), Some(Err("permission denied".to_string())));
    assert_eq!(r.err().unwrap(), "Failed to read log: permission denied");
}

#[test]
fn tail_of_short_list_is_everything() {
    let lines = vec!["a".to_string(), "b".to_string()];
    assert_eq!(tail_lines(&lines, 5), "a\nb");
    assert_eq!(tail_lines(&lines, 1), "b");
    assert_eq!(tail_lines(&lines, 0), "");
}

#[test]
fn log_file_name_is_the_date() {
    assert_eq!(log_file_name(&LogDate { year: 2024, month: 1, day: 2 }), "2024-01-02.log");
    assert_eq!(log_file_name(&LogDate { year: 987, month: 12, day: 31 }), "0987-12-31.log");
}

#[test]
fn missing_articles_dir_gives_empty_list() {
    let r = list_articles_native(false, Err("unused".to_string()));
    assert!(r.ok().unwrap().is_empty());
}

#[test]
fn articles_newest_first_with_ids() {
    let entries = vec![
        dir("2024-01-01", vec![("a-metadata.json", Some(r#"{"title":"A"}"#))]),
        dir("2024-01-02", vec![("b-metadata.json", Some(r#"{"title":"B","id":"old"}"#))]),
    ];
    let v = list_articles_native(true, Ok(entries)).ok().unwrap();
    assert_eq!(ids(&v), vec!["2024-01-02".to_string(), "2024-01-01".to_string()]);
    assert_eq!(v[0].meta["id"], serde_json::Value::String("2024-01-02".to_string()));
    assert_eq!(v[0].meta["title"], serde_json::Value::String("B".to_string()));
    assert_eq!(v[1].meta["id"], serde_json::Value::String("2024-01-01".to_string()));
}

#[test]
fn dir_without_metadata_is_skipped() {
    let entries = vec![
        dir("2024-01-03", vec![("notes.txt", Some("{}")), ("draft.md", None)]),
        dir("2024-01-02", vec![("metadata.json", Some(r#"{"title":"B"}"#))]),
        dir("2024-01-01", vec![("x-metadata.json", Some("not json"))]),
    ];
    let v = list_articles_native(true, Ok(entries)).ok().unwrap();
    assert_eq!(ids(&v), vec!["2024-01-02".to_string()]);
}

#[test]
fn first_usable_metadata_file_wins() {
    let entries = vec![dir(
        "d",
        vec![("a-metadata.json", Some("[1]")), ("b-metadata.json", Some(r#"{"n":2}"#)), ("metadata.json", Some(r#"{"n":3}"#))],
    )];
    let v = list_articles_native(true, Ok(entries)).ok().unwrap();
    assert_eq!(v[0].meta["n"], serde_json::Value::from(2));
}

#[test]
fn flat_metadata_file_takes_its_stem_as_id() {
    let entries = vec![
        file("post-metadata.json", Some(r#"{"title":"P"}"#)),
        file("readme.json", Some("{}")),
        file("zeta-metadata.json", None),
    ];
    let v = list_articles_native(true, Ok(entries)).ok().unwrap();
    assert_eq!(ids(&v), vec!["post".to_string()]);
    assert_eq!(v[0].meta["id"], serde_json::Value::String("post".to_string()));
}

#[test]
fn unreadable_articles_dir_is_an_error() {
    let r = list_articles_native(true, Err("denied".to_string()));
    assert_eq!(r.err().unwrap(), "Failed to read dir: denied");
}

#[test]
fn entries_sorted_descending() {
    let s = sort_entries_desc(vec![file("b", None), file("abc", None), file("c", None), file("ab", None)]);
    let names: Vec<String> = s.iter().map(|e| e.name.clone()).collect();
    assert_eq!(names, vec!["c", "b", "abc", "ab"]);
}

#[test]
fn name_order() {
    assert!(name_less("ab", "abc"));
    assert!(name_less("2024-01-01", "2024-01-02"));
    assert!(!name_less("b", "a"));
    assert!(!name_less("a", "a"));
}

#[test]
fn metadata_names() {
    assert!(is_metadata_name("x-metadata.json"));
    assert!(is_metadata_name("metadata.json"));
    assert!(!is_metadata_name("metadata.json.bak"));
    assert!(is_flat_metadata_name("x-metadata.json"));
    assert!(!is_flat_metadata_name("metadata.json"));
}

#[test]
fn home_roots() {
    let w = ink_home(true, Some("C:\\AppData".to_string()), "C:\\Users\\u".to_string());
    assert_eq!((w.base.as_str(), w.leaf.as_str()), ("C:\\AppData", "Ink"));
    let w2 = ink_home(true, None, "C:\\Users\\u".to_string());
    assert_eq!(w2.base, "C:\\Users\\u");
    let u = ink_home(false, Some("ignored".to_string()), "/home/u".to_string());
    assert_eq!((u.base.as_str(), u.leaf.as_str()), ("/home/u", ".ink"));
}

#[test]
fn script_path_choice() {
    assert_eq!(resolve_script_path(Some("/res/scripts/s.py".to_string()), true), "/res/scripts/s.py");
    assert_eq!(resolve_script_path(Some("/res/scripts/s.py".to_string()), false), "scripts/sidecar_main.py");
    assert_eq!(resolve_script_path(None, true), "scripts/sidecar_main.py");
}

#[test]
fn strategies_in_order() {
    let p = launch_strategies(false, "s.py".to_string());
    assert!(matches!(p[0], LaunchStrategy::Packaged));
    assert!(matches!(&p[1], LaunchStrategy::Script(s) if s == "s.py"));
    let d = launch_strategies(true, "s.py".to_string());
    assert_eq!(d.len(), 1);
    assert!(matches!(&d[0], LaunchStrategy::Script(s) if s == "s.py"));
}

#[test]
fn spawn_errors_name_the_form_that_failed() {
    let p = ink_sidecar::spawn_error(&LaunchStrategy::Packaged, "no binary".to_string());
    assert!(matches!(p, ink_sidecar::RunError::PackagedSpawnFailed(_)));
    assert_eq!(p.message(), "Failed to spawn packaged sidecar: no binary");
    let s = ink_sidecar::spawn_error(&LaunchStrategy::Script("s.py".to_string()), "no python".to_string());
    assert!(matches!(s, ink_sidecar::RunError::SpawnFailed(_)));
    assert_eq!(s.message(), "Failed to spawn python sidecar: no python");
}

#[test]
fn entries_without_articles_leave_the_others_unchanged() {
    let with = vec![
        dir("2024-01-03", vec![("notes.txt", None)]),
        dir("2024-01-02", vec![("b-metadata.json", Some(r#"{"title":"B","n":1}"#))]),
        file("bad-metadata.json", Some("{oops")),
        file("a-metadata.json", Some(r#"{"title":"A","id":"x"}"#)),
    ];
    let without = vec![
        dir("2024-01-02", vec![("b-metadata.json", Some(r#"{"title":"B","n":1}"#))]),
        file("a-metadata.json", Some(r#"{"title":"A","id":"x"}"#)),
    ];
    let v1 = list_articles_native(true, Ok(with)).ok().unwrap();
    let v2 = list_articles_native(true, Ok(without)).ok().unwrap();
    assert_eq!(ids(&v1), ids(&v2));
    let m1: Vec<serde_json::Map<String, serde_json::Value>> = v1.into_iter().map(|a| a.meta).collect();
    let m2: Vec<serde_json::Map<String, serde_json::Value>> = v2.into_iter().map(|a| a.meta).collect();
    assert_eq!(m1, m2);
    assert_eq!(ids(&list_articles_native(true, Ok(vec![file("a-metadata.json", Some("{}"))])).ok().unwrap()), vec!["a".to_string()]);
    assert_eq!(m1[0].len(), 2);
    assert_eq!(m1[0]["id"], serde_json::Value::String("a".to_string()));
    assert_eq!(m1[1].len(), 3);
    assert_eq!(m1[1]["n"], serde_json::Value::from(1));
}
