use ccache::codec::{Codec, StoreError};
use ccache::item::Item;
use ccache::store::{find, item_fields, item_from_fields, load, number_of, text_of, Field};

fn record(list: &[&str], stdout: &str, stderr: &str, status: i32) -> Item {
    let mut item = Item::new(list.iter().map(|w| w.to_string()).collect());
    item.execute(stdout.to_string(), stderr.to_string(), Some(status));
    item
}

fn named(name: &str, field: Field) -> (String, Field) {
    (name.to_string(), field)
}

fn text(s: &str) -> Field {
    Field::Text(s.to_string())
}

fn whole_record() -> Vec<(String, Field)> {
    vec![
        named("arguments", text("hello")),
        named("executable", text("echo")),
        named("exit_status", Field::Number(0)),
        named("fingerprint", text("ab")),
        named("stderr", text("")),
        named("stdout", text("hello\n")),
        named("storage_key", text("echo_ab.json.gz")),
    ]
}

const ECHO_HELLO_JSON: &str = "{\n  \"arguments\": \"hello\",\n  \"executable\": \"echo\",\n  \"exit_status\": 0,\n  \"fingerprint\": \"ec3cbeb365768f79a38c0354cfa89115e76fa7a52b3efbab4bf33f8faa4ba9b2\",\n  \"stderr\": \"\",\n  \"stdout\": \"hello\\n\",\n  \"storage_key\": \"echo_ec3cbeb365768f79a38c0354cfa89115e76fa7a52b3efbab4bf33f8faa4ba9b2.json.gz\"\n}";

#[test]
fn plain_save_is_pretty_json_with_one_member_per_field() {
    let item = record(&["echo", "hello"], "hello\n", "", 0);
    assert_eq!(String::from_utf8(item.save(Codec::Plain)).unwrap(), ECHO_HELLO_JSON);
}

#[test]
fn gzip_save_is_the_same_json_compressed() {
    let item = record(&["echo", "hello"], "hello\n", "", 0);
    let stored = item.save(Codec::Gzip);
    assert_eq!(&stored[..2], &[0x1f, 0x8b]);
    assert_eq!(Codec::Gzip.decode(&stored), Ok(ECHO_HELLO_JSON.as_bytes().to_vec()));
}

#[test]
fn load_reads_a_record_written_as_json() {
    let loaded = load(Codec::Plain, Some(ECHO_HELLO_JSON.as_bytes().to_vec()));
    assert_eq!(loaded, Ok(Some(record(&["echo", "hello"], "hello\n", "", 0))));
}

#[test]
fn save_then_load_gives_every_field_back() {
    let items = [
        record(&["echo", "hello"], "hello\n", "", 0),
        record(&["false"], "", "", 1),
        record(&["sh", "-c", "echo \"q\" 'a' \\ b"], "tab\there \u{1} \u{7f}", "é ü 漢字 🦀\r\n", -7),
        record(&["x"], "{\"nested\": [1, 2]}", "\\u0041 \\n", i32::MAX),
        record(&["y", ""], "", "\0", i32::MIN),
    ];
    for codec in [Codec::Plain, Codec::Gzip] {
        for item in &items {
            assert_eq!(load(codec, Some(item.save(codec))), Ok(Some(item.clone())));
        }
    }
}

#[test]
fn load_without_a_file_is_a_miss() {
    assert_eq!(load(Codec::Gzip, None), Ok(None));
    assert_eq!(load(Codec::Plain, None), Ok(None));
}

#[test]
fn load_of_a_truncated_file_is_corrupt() {
    let item = record(&["echo", "hello"], "hello\n", "", 0);
    let plain = item.save(Codec::Plain);
    assert_eq!(load(Codec::Plain, Some(plain[..plain.len() - 1].to_vec())), Err(StoreError::Corrupt));
    assert_eq!(load(Codec::Plain, Some(Vec::new())), Err(StoreError::Corrupt));
    let packed = item.save(Codec::Gzip);
    assert_eq!(load(Codec::Gzip, Some(packed[..packed.len() / 2].to_vec())), Err(StoreError::Corrupt));
}

#[test]
fn load_under_the_wrong_codec_is_corrupt() {
    let item = record(&["echo", "hello"], "hello\n", "", 0);
    assert_eq!(load(Codec::Gzip, Some(item.save(Codec::Plain))), Err(StoreError::Corrupt));
    assert_eq!(load(Codec::Plain, Some(item.save(Codec::Gzip))), Err(StoreError::Corrupt));
}

#[test]
fn load_of_json_that_is_no_record_is_corrupt() {
    for doc in [
        "[]",
        "null",
        "\"echo\"",
        "{}",
        "{\"arguments\": \"\", \"executable\": \"x\", \"storage_key\": \"f\", \"fingerprint\": \"h\", \"exit_status\": 0, \"stderr\": \"\"}",
        "{\"arguments\": \"\", \"executable\": \"x\", \"storage_key\": \"f\", \"fingerprint\": \"h\", \"exit_status\": \"0\", \"stderr\": \"\", \"stdout\": \"\"}",
        "{\"arguments\": \"\", \"executable\": \"x\", \"storage_key\": \"f\", \"fingerprint\": \"h\", \"exit_status\": 0.5, \"stderr\": \"\", \"stdout\": \"\"}",
        "{\"arguments\": \"\", \"executable\": \"x\", \"storage_key\": \"f\", \"fingerprint\": \"h\", \"exit_status\": 2147483648, \"stderr\": \"\", \"stdout\": \"\"}",
        "{\"arguments\": \"\", \"executable\": \"x\", \"storage_key\": \"f\", \"fingerprint\": \"h\", \"exit_status\": -2147483649, \"stderr\": \"\", \"stdout\": \"\"}",
        "{\"arguments\": \"\", \"executable\": \"x\", \"storage_key\": \"f\", \"fingerprint\": \"h\", \"exit_status\": 18446744073709551615, \"stderr\": \"\", \"stdout\": \"\"}",
        "{\"arguments\": null, \"executable\": \"x\", \"storage_key\": \"f\", \"fingerprint\": \"h\", \"exit_status\": 0, \"stderr\": \"\", \"stdout\": \"\"}",
        "{\"arguments\": \"\", \"executable\": \"x\", \"storage_key\": \"f\", \"fingerprint\": \"h\", \"exit_status\": 0, \"stderr\": \"\", \"stdout\": [\"a\"]}",
    ] {
        assert_eq!(load(Codec::Plain, Some(doc.as_bytes().to_vec())), Err(StoreError::Corrupt), "{}", doc);
    }
}

#[test]
fn load_ignores_layout_order_and_other_members() {
    let doc = "{\"stdout\":\"o\",\"note\":true,\"exit_status\":-3,\"fingerprint\":\"h\",\"stderr\":\"e\",\"executable\":\"x\",\"storage_key\":\"f\",\"arguments\":\"a b\"}";
    let item = load(Codec::Plain, Some(doc.as_bytes().to_vec())).unwrap().unwrap();
    assert_eq!(item.args, "a b");
    assert_eq!(item.exe, "x");
    assert_eq!(item.filename, "f");
    assert_eq!(item.hash, "h");
    assert_eq!(item.status, -3);
    assert_eq!(item.stderr, "e");
    assert_eq!(item.stdout, "o");
}

#[test]
fn item_fields_are_the_seven_fields_by_name() {
    let item = record(&["echo", "hello"], "hello\n", "err", 4);
    assert_eq!(
        item_fields(&item),
        vec![
            named("arguments", text("hello")),
            named("executable", text("echo")),
            named("exit_status", Field::Number(4)),
            named("fingerprint", text(&item.hash)),
            named("stderr", text("err")),
            named("stdout", text("hello\n")),
            named("storage_key", text(&item.filename)),
        ]
    );
}

#[test]
fn item_from_fields_builds_the_record() {
    let item = item_from_fields(&whole_record()).unwrap();
    assert_eq!(item.args, "hello");
    assert_eq!(item.exe, "echo");
    assert_eq!(item.filename, "echo_ab.json.gz");
    assert_eq!(item.hash, "ab");
    assert_eq!(item.status, 0);
    assert_eq!(item.stderr, "");
    assert_eq!(item.stdout, "hello\n");
}

#[test]
fn item_from_fields_needs_every_field() {
    for missing in 0..7 {
        let mut fields = whole_record();
        fields.remove(missing);
        assert_eq!(item_from_fields(&fields), Err(StoreError::Corrupt));
    }
    assert_eq!(item_from_fields(&Vec::new()), Err(StoreError::Corrupt));
}

#[test]
fn item_from_fields_needs_every_field_of_its_kind() {
    for wrong in 0..7 {
        let mut fields = whole_record();
        fields[wrong].1 = Field::Other;
        assert_eq!(item_from_fields(&fields), Err(StoreError::Corrupt));
    }
    let mut fields = whole_record();
    fields[0].1 = Field::Number(1);
    assert_eq!(item_from_fields(&fields), Err(StoreError::Corrupt));
    let mut fields = whole_record();
    fields[2].1 = text("0");
    assert_eq!(item_from_fields(&fields), Err(StoreError::Corrupt));
}

#[test]
fn item_from_fields_keeps_status_within_32_bits() {
    for (n, expected) in [
        (2147483647i64, Some(i32::MAX)),
        (-2147483648, Some(i32::MIN)),
        (2147483648, None),
        (-2147483649, None),
        (i64::MAX, None),
        (i64::MIN, None),
    ] {
        let mut fields = whole_record();
        fields[2].1 = Field::Number(n);
        assert_eq!(item_from_fields(&fields).ok().map(|i| i.status), expected);
    }
}

#[test]
fn later_member_of_a_name_counts() {
    let mut fields = whole_record();
    fields.push(named("stdout", text("later")));
    fields.insert(0, named("executable", text("earlier")));
    assert_eq!(find(&fields, "stdout"), Some(8));
    assert_eq!(find(&fields, "executable"), Some(2));
    assert_eq!(find(&fields, "arguments"), Some(1));
    assert_eq!(find(&fields, "nope"), None);
    assert_eq!(find(&Vec::new(), "arguments"), None);
    let item = item_from_fields(&fields).unwrap();
    assert_eq!(item.stdout, "later");
    assert_eq!(item.exe, "echo");
}

#[test]
fn members_are_read_by_kind() {
    let fields = whole_record();
    assert_eq!(text_of(&fields, "executable"), Some("echo".to_string()));
    assert_eq!(text_of(&fields, "exit_status"), None);
    assert_eq!(text_of(&fields, "other"), None);
    assert_eq!(number_of(&fields, "exit_status"), Some(0));
    assert_eq!(number_of(&fields, "executable"), None);
    assert_eq!(number_of(&fields, "other"), None);
}

#[test]
fn load_does_not_know_other_member_names() {
    let doc = "{\"args\": \"\", \"exe\": \"x\", \"filename\": \"f\", \"hash\": \"h\", \"status\": 0, \"stderr\": \"\", \"stdout\": \"\"}";
    assert_eq!(load(Codec::Plain, Some(doc.as_bytes().to_vec())), Err(StoreError::Corrupt));
}
