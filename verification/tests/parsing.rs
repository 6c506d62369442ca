use vcvars::envmap::parse_env_dump;
use vcvars::resolver::separator_line;

const SEP: &str = "====================_unique_separator_by_rust_crate_that_utilizes_vcvars";

#[test]
fn separator_is_twenty_equals_and_suffix() {
    assert_eq!(separator_line(), SEP);
    assert_eq!(SEP.len(), 20 + "_unique_separator_by_rust_crate_that_utilizes_vcvars".len());
}

#[test]
fn separator_then_entry_and_bad_line() {
    let text = format!("{SEP}\nFOO=bar\nBADLINE\n");
    let map = parse_env_dump(&text, SEP);
    assert_eq!(map.lookup(&"FOO".to_string()), Some("bar".to_string()));
    assert_eq!(map.lookup(&"BADLINE".to_string()), None);
}

#[test]
fn everything_before_the_separator_is_ignored() {
    let text = format!("EARLY=1\nnoise\n{SEP}\nLATE=2\n");
    let map = parse_env_dump(&text, SEP);
    assert_eq!(map.lookup(&"EARLY".to_string()), None);
    assert_eq!(map.lookup(&"LATE".to_string()), Some("2".to_string()));
}

#[test]
fn no_separator_gives_an_empty_map() {
    let map = parse_env_dump("FOO=bar\nBAZ=qux\n", SEP);
    assert_eq!(map.lookup(&"FOO".to_string()), None);
    assert_eq!(map.lookup(&"BAZ".to_string()), None);
}

#[test]
fn separator_with_trailing_space_still_matches() {
    // cmd.exe's echo appends a space; the separator is prefix-matched.
    let text = format!("{SEP} \nFOO=bar\n");
    let map = parse_env_dump(&text, SEP);
    assert_eq!(map.lookup(&"FOO".to_string()), Some("bar".to_string()));
}

#[test]
fn keys_are_uppercased_and_later_entries_win() {
    let text = format!("{SEP}\nPath=first\nPATH=second\n");
    let map = parse_env_dump(&text, SEP);
    assert_eq!(map.lookup(&"PATH".to_string()), Some("second".to_string()));
}

#[test]
fn value_keeps_later_equals_signs() {
    let text = format!("{SEP}\nOPTS=a=b=c\n");
    let map = parse_env_dump(&text, SEP);
    assert_eq!(map.lookup(&"OPTS".to_string()), Some("a=b=c".to_string()));
}

#[test]
fn empty_value_and_empty_key() {
    let text = format!("{SEP}\nEMPTY=\n=orphan\n");
    let map = parse_env_dump(&text, SEP);
    assert_eq!(map.lookup(&"EMPTY".to_string()), Some("".to_string()));
    assert_eq!(map.lookup(&"".to_string()), Some("orphan".to_string()));
}

#[test]
fn crlf_line_endings_are_handled() {
    let text = format!("{SEP}\r\nFOO=bar\r\nBAZ=qux");
    let map = parse_env_dump(&text, SEP);
    assert_eq!(map.lookup(&"FOO".to_string()), Some("bar".to_string()));
    // The final line needs no line ending.
    assert_eq!(map.lookup(&"BAZ".to_string()), Some("qux".to_string()));
}

#[test]
fn lookup_is_exact_no_folding_at_that_layer() {
    let text = format!("{SEP}\nFoo=bar\n");
    let map = parse_env_dump(&text, SEP);
    // The key was uppercased on insertion; `lookup` itself does not fold.
    assert_eq!(map.lookup(&"FOO".to_string()), Some("bar".to_string()));
    assert_eq!(map.lookup(&"Foo".to_string()), None);
}
