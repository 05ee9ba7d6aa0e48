use list_mirror::paths::resolve;

#[test]
fn query_url_resolves_to_a_clean_nested_path() {
    let p = resolve("https://example.com/list?x=1");
    assert_eq!(p, "data/https//example.com/listx1");
    assert!(!p.contains(':'));
    assert!(!p.contains('?'));
    assert!(!p.contains('='));
    assert!(p.starts_with("data/"));
}

#[test]
fn directory_url_resolves_to_the_default_file_name() {
    let p = resolve("https://example.com/");
    assert_eq!(p, "data/https//example.com/data.txt");
    assert!(p.ends_with("data.txt"));
}

#[test]
fn empty_url_resolves_to_the_default_file_name() {
    assert_eq!(resolve(""), "data/data.txt");
}

#[test]
fn distinct_hosts_resolve_to_distinct_paths() {
    let a = resolve("https://one.example/list.txt");
    let b = resolve("https://two.example/list.txt");
    assert_ne!(a, b);
    assert_eq!(a, "data/https//one.example/list.txt");
    assert_eq!(b, "data/https//two.example/list.txt");
}
