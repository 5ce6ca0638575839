use s3_simple_artifact_handler::error::TransferError;
use s3_simple_artifact_handler::paths::{
    absorb_matches, collect_files, expand_pattern, prepare_patterns,
};

fn strings(items: &[&str]) -> Vec<String> {
    items.iter().map(|s| s.to_string()).collect()
}

#[test]
fn directory_pattern_recurses() {
    assert_eq!(expand_pattern("build/"), "build/**/*");
    assert_eq!(expand_pattern("/"), "/**/*");
    assert_eq!(expand_pattern("a/b/"), "a/b/**/*");
}

#[test]
fn other_patterns_stay_as_they_are() {
    assert_eq!(expand_pattern("a.txt"), "a.txt");
    assert_eq!(expand_pattern("src/*.rs"), "src/*.rs");
    assert_eq!(expand_pattern(""), "");
    assert_eq!(expand_pattern("dir/**/*"), "dir/**/*");
}

#[test]
fn pattern_with_wide_characters() {
    assert_eq!(expand_pattern("données/"), "données/**/*");
    assert_eq!(expand_pattern("données"), "données");
}

#[test]
fn prepared_patterns_are_glob_forms() {
    let prepared = prepare_patterns(&strings(&["a.txt", "sub/", "x/[ab]*.log"]));
    assert_eq!(prepared, Ok(strings(&["a.txt", "sub/**/*", "x/[ab]*.log"])));
}

#[test]
fn prepared_patterns_are_accepted_by_glob() {
    let prepared = prepare_patterns(&strings(&["a.txt", "sub/"])).unwrap();
    for pattern in &prepared {
        assert!(glob::Pattern::new(pattern).is_ok());
    }
}

#[test]
fn no_patterns_prepare_to_none() {
    assert_eq!(prepare_patterns(&Vec::new()), Ok(Vec::new()));
}

#[test]
fn first_malformed_pattern_is_reported() {
    let prepared = prepare_patterns(&strings(&["a.txt", "a/***/b", "c/***"]));
    assert_eq!(prepared, Err(TransferError::Pattern(1)));
    assert!(glob::Pattern::new("a/***/b").is_err());
}

#[test]
fn malformed_recursion_is_reported() {
    assert_eq!(prepare_patterns(&strings(&["a**b"])), Err(TransferError::Pattern(0)));
}

#[test]
fn collected_files_are_distinct_and_ordered() {
    let batches = vec![
        strings(&["a.txt", "sub/b.txt", "a.txt"]),
        strings(&[]),
        strings(&["sub/b.txt", "c.txt", "a.txt", "d.txt"]),
    ];
    assert_eq!(collect_files(&batches), strings(&["a.txt", "sub/b.txt", "c.txt", "d.txt"]));
}

#[test]
fn collected_files_of_nothing() {
    assert_eq!(collect_files(&Vec::new()), Vec::<String>::new());
    assert_eq!(collect_files(&vec![Vec::new(), Vec::new()]), Vec::<String>::new());
}

#[test]
fn every_matched_path_is_collected_once() {
    let batches = vec![strings(&["x", "y", "x", "z"]), strings(&["z", "z", "w"])];
    let files = collect_files(&batches);
    for batch in &batches {
        for path in batch {
            assert_eq!(files.iter().filter(|f| *f == path).count(), 1);
        }
    }
    for file in &files {
        assert!(batches.iter().any(|b| b.contains(file)));
    }
}

#[test]
fn absorbing_keeps_what_was_found() {
    let mut found = strings(&["one", "two"]);
    absorb_matches(&mut found, &strings(&["two", "three", "one", "three"]));
    assert_eq!(found, strings(&["one", "two", "three"]));
    absorb_matches(&mut found, &strings(&[]));
    assert_eq!(found, strings(&["one", "two", "three"]));
}
