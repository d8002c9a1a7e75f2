use bti::config::{scan_arguments, ArgDirective};
use bti::paths::{file_stem, has_extension, last_dot};
use bti::text::decimal;

fn strings(items: &[&str]) -> Vec<String> {
    items.iter().map(|s| s.to_string()).collect()
}

#[test]
fn decimal_renders_like_to_string() {
    assert_eq!(decimal(0), "0");
    assert_eq!(decimal(7), "7");
    assert_eq!(decimal(10), "10");
    assert_eq!(decimal(1205), "1205");
    assert_eq!(decimal(usize::MAX), usize::MAX.to_string());
}

#[test]
fn file_stems() {
    assert_eq!(file_stem("/src/repo.git"), Some(String::from("repo")));
    assert_eq!(file_stem("archive.tar.gz"), Some(String::from("archive.tar")));
    assert_eq!(file_stem("/home/u/.bashrc"), Some(String::from(".bashrc")));
    assert_eq!(file_stem("plain"), Some(String::from("plain")));
    assert_eq!(file_stem("/"), None);
    assert_eq!(file_stem("a/.."), None);
}

#[test]
fn extensions() {
    assert!(has_extension("tool.exe"));
    assert!(has_extension("/x/y.sh"));
    assert!(!has_extension("tool"));
    assert!(!has_extension(".hidden"));
    assert!(!has_extension("/"));
}

#[test]
fn last_dots() {
    assert_eq!(last_dot("a.b.c"), Some(3));
    assert_eq!(last_dot(".a"), Some(0));
    assert_eq!(last_dot("abc"), None);
}

#[test]
fn build_words_are_never_empty_and_hold_no_whitespace() {
    let scan = scan_arguments(&strings(&["--ba", " \t-j\u{a0} 4\n", "--ba", "   ", "--ba", "x\u{3000}y"]));
    let mut words: Vec<String> = Vec::new();
    for d in &scan.directives {
        if let ArgDirective::BuildArgs(w) = d {
            words.extend(w.iter().cloned());
        }
    }
    assert_eq!(words, strings(&["-j", "4", "x", "y"]));
    assert!(words.iter().all(|w| !w.is_empty() && !w.chars().any(char::is_whitespace)));
}
