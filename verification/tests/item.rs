use ccache::item::{captured, datadir, escape, invocation, status_of, Item, KILLED_STATUS};

fn command(list: &[&str]) -> Vec<String> {
    list.iter().map(|w| w.to_string()).collect()
}

const ECHO_HELLO: &str = "ec3cbeb365768f79a38c0354cfa89115e76fa7a52b3efbab4bf33f8faa4ba9b2";

#[test]
fn new_item_carries_identity_and_no_outcome() {
    let item = Item::new(command(&["echo", "hello"]));
    assert_eq!(item.exe, "echo");
    assert_eq!(item.args, "hello");
    assert_eq!(item.hash, ECHO_HELLO);
    assert_eq!(item.filename, format!("echo_{}.json.gz", ECHO_HELLO));
    assert_eq!(item.status, 0);
    assert_eq!(item.stdout, "");
    assert_eq!(item.stderr, "");
}

#[test]
fn new_item_of_a_bare_executable_has_empty_arguments() {
    let item = Item::new(command(&["false"]));
    assert_eq!(item.exe, "false");
    assert_eq!(item.args, "");
    assert_eq!(
        item.filename,
        "false_d8afd1b9d2994e4ada90eb012e23e8b6e028fa95ccaf5abdf0da7a429241d503.json.gz"
    );
}

#[test]
fn new_item_joins_arguments_with_single_spaces() {
    let item = Item::new(command(&["ls", "-l", "/tmp"]));
    assert_eq!(item.args, "-l /tmp");
    assert_eq!(item.hash, "0dac4a90d767b45f9af0d358af6013d78cf9c3bd2fc82a32310af829e815fb81");
}

#[test]
fn same_command_same_storage_key() {
    let a = Item::new(command(&["make", "all"]));
    let b = Item::new(command(&["make", "all"]));
    let c = Item::new(command(&["make", "clean"]));
    assert_eq!(a.filename, b.filename);
    assert_ne!(a.filename, c.filename);
}

#[test]
fn path_is_the_file_name_below_the_cache_directory() {
    let item = Item::new(command(&["echo", "hello"]));
    assert_eq!(
        item.path("/home/u/.cache/ccache"),
        format!("/home/u/.cache/ccache/echo_{}.json.gz", ECHO_HELLO)
    );
}

#[test]
fn datadir_is_below_the_home_directory() {
    assert_eq!(datadir("/home/u"), "/home/u/.cache/ccache");
    assert_eq!(datadir(""), "/.cache/ccache");
}

#[test]
fn execute_records_output_and_keeps_identity() {
    let mut item = Item::new(command(&["echo", "hello"]));
    item.execute("hello\n".to_string(), "warn\n".to_string(), Some(3));
    assert_eq!(item.stdout, "hello\n");
    assert_eq!(item.stderr, "warn\n");
    assert_eq!(item.status, 3);
    assert_eq!(item.exe, "echo");
    assert_eq!(item.args, "hello");
    assert_eq!(item.hash, ECHO_HELLO);
    assert_eq!(item.filename, format!("echo_{}.json.gz", ECHO_HELLO));
}

#[test]
fn execute_without_exit_code_records_a_failure() {
    let mut item = Item::new(command(&["sleep", "100"]));
    item.execute(String::new(), String::new(), None);
    assert_eq!(item.status, KILLED_STATUS);
    assert_ne!(item.status, 0);
}

#[test]
fn invocation_needs_an_executable() {
    assert_eq!(invocation(&command(&[])), None);
    assert_eq!(invocation(&command(&["ccache"])), None);
}

#[test]
fn invocation_drops_the_wrapper_s_own_name() {
    assert_eq!(invocation(&command(&["ccache", "true"])), Some(command(&["true"])));
    assert_eq!(
        invocation(&command(&["ccache", "echo", "a", "b"])),
        Some(command(&["echo", "a", "b"]))
    );
}

#[test]
fn fingerprint_of_a_new_item_is_64_hex_digits() {
    let item = Item::new(command(&["/bin/echo", "hi"]));
    assert_eq!(item.hash.len(), 64);
    assert!(item.hash.chars().all(|c| c.is_ascii_digit() || ('a'..='f').contains(&c)));
    assert_eq!(item.hash, "f614c66080a851ed467ee2e7daebbe33e084ebd56c7907b1ec18d50a2fe68083");
}

#[test]
fn escape_writes_separator_and_percent_as_codes() {
    assert_eq!(escape(""), "");
    assert_eq!(escape("echo"), "echo");
    assert_eq!(escape("/bin/echo"), "%2Fbin%2Fecho");
    assert_eq!(escape("100%"), "100%25");
    assert_eq!(escape("a%2Fb"), "a%252Fb");
    assert_eq!(escape("./é/ü"), ".%2Fé%2Fü");
    assert_eq!(escape("c:\\x y"), "c:\\x y");
}

#[test]
fn escape_tells_a_separator_from_its_code() {
    assert_ne!(escape("a/b"), escape("a%2Fb"));
    assert_ne!(escape("%"), escape("%25"));
    assert_ne!(escape("/"), escape("%2F"));
}

#[test]
fn executable_given_as_a_path_has_a_flat_file_name() {
    let item = Item::new(command(&["/bin/echo", "hi"]));
    assert_eq!(item.exe, "/bin/echo");
    assert_eq!(item.filename, "%2Fbin%2Fecho_f614c66080a851ed467ee2e7daebbe33e084ebd56c7907b1ec18d50a2fe68083.json.gz");
    assert!(!item.filename.contains('/'));
    let path = item.path("/home/u/.cache/ccache");
    assert_eq!(path, "/home/u/.cache/ccache/%2Fbin%2Fecho_f614c66080a851ed467ee2e7daebbe33e084ebd56c7907b1ec18d50a2fe68083.json.gz");
    assert_eq!(
        std::path::Path::new(&path).parent(),
        Some(std::path::Path::new("/home/u/.cache/ccache"))
    );
}

#[test]
fn relative_paths_stay_inside_the_cache_directory() {
    for exe in ["../../etc/passwd", "./run", "a/b/c", "/"] {
        let item = Item::new(command(&[exe]));
        assert!(!item.filename.contains('/'));
        let path = item.path("/c");
        assert_eq!(std::path::Path::new(&path).parent(), Some(std::path::Path::new("/c")));
    }
}

#[test]
fn different_executables_have_different_paths() {
    let a = Item::new(command(&["a/b"]));
    let b = Item::new(command(&["a%2Fb"]));
    assert_ne!(a.path("/c"), b.path("/c"));
}

#[test]
fn captured_keeps_text_whole() {
    assert_eq!(captured(b""), Some(String::new()));
    assert_eq!(captured(b"hello\n"), Some("hello\n".to_string()));
    assert_eq!(captured("é 漢字 🦀\0".as_bytes()), Some("é 漢字 🦀\0".to_string()));
    assert_eq!(captured(b"hello\n").unwrap().as_bytes(), b"hello\n");
}

#[test]
fn captured_makes_nothing_of_bytes_that_are_no_text() {
    assert_eq!(captured(b"\xff"), None);
    assert_eq!(captured(b"ok\xc3"), None);
    assert_eq!(captured(b"\xed\xa0\x80"), None);
    assert_eq!(captured(b"\xc0\xaf"), None);
    assert_eq!(captured(b"\xf4\x90\x80\x80"), None);
}

#[test]
fn status_of_is_the_code_or_the_killed_status() {
    assert_eq!(status_of(Some(0)), 0);
    assert_eq!(status_of(Some(3)), 3);
    assert_eq!(status_of(Some(-1)), -1);
    assert_eq!(status_of(None), KILLED_STATUS);
    assert_eq!(KILLED_STATUS, 1);
}
