use wasi_pipes::module::new_json_module_info_iter;
use wasi_pipes::pairs::{effective_pairs, effective_pairs_by_snd};
use wasi_pipes::errors::ConfigError;

#[test]
fn it_works() {
    assert_eq!(1, 1);
}

fn lines(v: &[&str]) -> Vec<String> {
    v.iter().map(|s| s.to_string()).collect()
}

#[test]
fn parses_full_record() {
    let ls = lines(&[
        "{\"module_path\": \"/tmp/a.wasm\", \"env\": [{\"key\": \"K\", \"val\": \"V\"}], \"map\": [{\"host\": \"/h\", \"guest\": \"/g\"}]}",
    ]);
    let ms = new_json_module_info_iter(&ls).unwrap();
    assert_eq!(ms.len(), 1);
    assert_eq!(ms[0].program_path, "/tmp/a.wasm");
    assert_eq!(ms[0].env, vec![("K".to_string(), "V".to_string())]);
    assert_eq!(ms[0].map, vec![("/h".to_string(), "/g".to_string())]);
}

#[test]
fn env_and_map_default_empty() {
    let ls = lines(&["{\"module_path\": \"m.wasm\"}"]);
    let ms = new_json_module_info_iter(&ls).unwrap();
    assert_eq!(ms[0].program_path, "m.wasm");
    assert!(ms[0].env.is_empty());
    assert!(ms[0].map.is_empty());
}

#[test]
fn members_in_any_order() {
    let ls = lines(&[
        "{\"env\": [], \"map\": [{\"guest\": \"/g\", \"host\": \"/h\"}], \"module_path\": \"m\"}",
    ]);
    let ms = new_json_module_info_iter(&ls).unwrap();
    assert_eq!(ms[0].program_path, "m");
    assert_eq!(ms[0].map, vec![("/h".to_string(), "/g".to_string())]);
}

#[test]
fn string_escapes_are_decoded() {
    let ls = lines(&["{\"module_path\": \"a\\\\b\\n\\t\\\"c\\\"\"}"]);
    let ms = new_json_module_info_iter(&ls).unwrap();
    assert_eq!(ms[0].program_path, "a\\b\n\t\"c\"");
}

#[test]
fn missing_program_path_is_malformed() {
    let ls = lines(&["{\"env\": []}"]);
    match new_json_module_info_iter(&ls) {
        Err(ConfigError::Malformed(n, _)) => assert_eq!(n, 1),
        _ => panic!("expected a malformed record"),
    }
}

#[test]
fn repeated_member_is_malformed() {
    let ls = lines(&["{\"module_path\": \"a\", \"module_path\": \"b\"}"]);
    assert!(new_json_module_info_iter(&ls).is_err());
}

#[test]
fn unknown_member_is_malformed() {
    let ls = lines(&["{\"module_path\": \"a\", \"extra_member\": \"b\"}"]);
    assert!(new_json_module_info_iter(&ls).is_err());
}

#[test]
fn trailing_text_is_malformed() {
    let ls = lines(&["{\"module_path\": \"a\"} x"]);
    assert!(new_json_module_info_iter(&ls).is_err());
}

#[test]
fn config_fail_fast_names_third_line() {
    let good = "{\"module_path\": \"m\"}";
    let ls = lines(&[good, good, "{\"module_path\": }", good, good]);
    match new_json_module_info_iter(&ls) {
        Err(ConfigError::Malformed(n, _)) => assert_eq!(n, 3),
        _ => panic!("expected the third line to be named"),
    }
}

#[test]
fn error_line_accessor_matches() {
    let ls = lines(&["nonsense"]);
    let e = new_json_module_info_iter(&ls).unwrap_err();
    assert_eq!(e.line(), 1);
}

#[test]
fn env_last_wins_in_effective_pairs() {
    let pairs = vec![
        ("k".to_string(), "v1".to_string()),
        ("k".to_string(), "v2".to_string()),
    ];
    let eff = effective_pairs(&pairs);
    assert_eq!(eff, vec![("k".to_string(), "v2".to_string())]);
}

#[test]
fn map_last_wins_keeps_later_host() {
    let pairs = vec![
        ("/host/a".to_string(), "/guest".to_string()),
        ("/host/b".to_string(), "/guest".to_string()),
    ];
    let eff = effective_pairs_by_snd(&pairs);
    assert_eq!(eff, vec![("/host/b".to_string(), "/guest".to_string())]);
}

#[test]
fn effective_pairs_keeps_order_of_survivors() {
    let pairs = vec![
        ("a".to_string(), "1".to_string()),
        ("b".to_string(), "2".to_string()),
        ("a".to_string(), "3".to_string()),
        ("c".to_string(), "4".to_string()),
    ];
    let eff = effective_pairs(&pairs);
    assert_eq!(
        eff,
        vec![
            ("b".to_string(), "2".to_string()),
            ("a".to_string(), "3".to_string()),
            ("c".to_string(), "4".to_string()),
        ]
    );
}
