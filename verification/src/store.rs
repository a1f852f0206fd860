//! The stored form of a record: a JSON object with one member per field,
//! framed by a codec.

use vstd::prelude::*;
use vstd::string::StringExecFns;
use crate::codec::{Codec, StoreError};
use crate::item::{Item, ItemView};

verus! {

/// One member of a JSON object, as far as a record needs to tell: a text, a
/// whole number, or anything else.
#[derive(Clone, Debug, PartialEq, Eq)]
pub enum Field {
    /// A JSON string.
    Text(String),
    /// A JSON number that is whole and fits 64 bits with sign.
    Number(i64),
    /// Any other JSON value.
    Other,
}

/// What a `Field` holds, as a plain mathematical value.
pub ghost enum FieldView {
    Text(Seq<char>),
    Number(int),
    Other,
}

impl View for Field {
    type V = FieldView;

    open spec fn view(&self) -> FieldView {
        match self {
            Field::Text(s) => FieldView::Text(s@),
            Field::Number(n) => FieldView::Number(*n as int),
            Field::Other => FieldView::Other,
        }
    }
}

/// The members of an object as written down: names and values, in order.
pub type Members = Seq<(Seq<char>, FieldView)>;

/// The views of a list of named fields.
pub open spec fn members(fields: Seq<(String, Field)>) -> Members {
    Seq::new(fields.len(), |i: int| (fields[i].0@, fields[i].1@))
}

/// The members by name. Where a name occurs twice, the later member counts.
pub open spec fn by_name(list: Members) -> Map<Seq<char>, FieldView>
    decreases list.len(),
{
    if list.len() == 0 {
        Map::empty()
    } else {
        by_name(list.drop_last()).insert(list.last().0, list.last().1)
    }
}

/// The pretty-printed JSON text that `serde_json` writes for an object with
/// the given members.
pub uninterp spec fn json_text(list: Members) -> Seq<u8>;

/// The members that `serde_json` reads out of a JSON text, or nothing where
/// the text is not one JSON object.
pub uninterp spec fn json_members(doc: Seq<u8>) -> Option<Members>;

/// `serde_json::to_vec_pretty` on a `serde_json::Value::Object` that holds
/// the given members (a text as a JSON string, a number as a JSON number,
/// anything else as `null`). Believed of it: the bytes are a function of the
/// members alone, and `serde_json` reads an object out of them that has the
/// same members by name.
#[verifier::external_body]
fn write_json(fields: &Vec<(String, Field)>) -> (out: Vec<u8>)
    ensures
        out@ == json_text(members(fields@)),
        json_members(out@) is Some,
        by_name(json_members(out@).unwrap()) == by_name(members(fields@)),
{
    let mut object = serde_json::Map::new();
    for (name, field) in fields {
        let value = match field {
            Field::Text(s) => serde_json::Value::from(s.as_str()),
            Field::Number(n) => serde_json::Value::from(*n),
            Field::Other => serde_json::Value::Null,
        };
        object.insert(name.clone(), value);
    }
    serde_json::to_vec_pretty(&serde_json::Value::Object(object)).expect("writing to memory")
}

/// `serde_json::from_slice` into a `serde_json::Map`, its members handed out
/// one for one (a JSON string as a text, a number for which
/// `serde_json::Number::as_i64` gives a value as that number, any other value
/// as `Other`). Believed of it: whether it succeeds, and the members it then
/// gives, are a function of the bytes alone.
#[verifier::external_body]
fn read_json(doc: &[u8]) -> (out: Option<Vec<(String, Field)>>)
    ensures
        out is None <==> json_members(doc@) is None,
        out matches Some(fields) ==> json_members(doc@) == Some(members(fields@)),
{
    let object: serde_json::Map<String, serde_json::Value> = serde_json::from_slice(doc).ok()?;
    Some(object.into_iter().map(|(name, value)| (name, match value {
        serde_json::Value::String(s) => Field::Text(s),
        serde_json::Value::Number(n) => n.as_i64().map_or(Field::Other, Field::Number),
        _ => Field::Other,
    })).collect())
}

/// A member that no later member shares its name with is the one found by
/// that name.
pub proof fn by_name_finds_last(list: Members, i: int)
    requires
        0 <= i < list.len(),
        forall|j: int| i < j < list.len() ==> list[j].0 != list[i].0,
    ensures
        by_name(list).dom().contains(list[i].0),
        by_name(list)[list[i].0] == list[i].1,
    decreases list.len(),
{
    if i < list.len() - 1 {
        by_name_finds_last(list.drop_last(), i);
    }
}

/// A name that no member has is not found.
pub proof fn by_name_misses_absent(list: Members, name: Seq<char>)
    requires
        forall|j: int| 0 <= j < list.len() ==> list[j].0 != name,
    ensures
        !by_name(list).dom().contains(name),
    decreases list.len(),
{
    if list.len() > 0 {
        by_name_misses_absent(list.drop_last(), name);
    }
}

/// The position of the member found by `name`: the last one of that name.
pub fn find(fields: &Vec<(String, Field)>, name: &str) -> (out: Option<usize>)
    ensures
        out is Some <==> by_name(members(fields@)).dom().contains(name@),
        out matches Some(i) ==> i < fields.len() && fields[i as int].0@ == name@ && by_name(
            members(fields@),
        )[name@] == fields[i as int].1@,
{
    let wanted = String::from_str(name);
    let mut i: usize = fields.len();
    while i > 0
        invariant
            i <= fields.len(),
            wanted@ == name@,
            forall|j: int| i <= j < fields.len() ==> members(fields@)[j].0 != name@,
        decreases i,
    {
        i -= 1;
        if fields[i].0 == wanted {
            proof {
                by_name_finds_last(members(fields@), i as int);
            }
            return Some(i);
        }
    }
    proof {
        by_name_misses_absent(members(fields@), name@);
    }
    None
}

/// The text found by `name`, if the member is there and is a text.
pub open spec fn text_member(object: Map<Seq<char>, FieldView>, name: Seq<char>) -> Option<
    Seq<char>,
> {
    if object.dom().contains(name) {
        match object[name] {
            FieldView::Text(s) => Some(s),
            _ => None,
        }
    } else {
        None
    }
}

/// The number found by `name`, if the member is there and is a number.
pub open spec fn number_member(object: Map<Seq<char>, FieldView>, name: Seq<char>) -> Option<
    int,
> {
    if object.dom().contains(name) {
        match object[name] {
            FieldView::Number(n) => Some(n),
            _ => None,
        }
    } else {
        None
    }
}

/// The text member `name` of `fields`.
pub fn text_of(fields: &Vec<(String, Field)>, name: &str) -> (out: Option<String>)
    ensures
        out is Some <==> text_member(by_name(members(fields@)), name@) is Some,
        out matches Some(s) ==> text_member(by_name(members(fields@)), name@) == Some(s@),
{
    match find(fields, name) {
        Some(i) => match &fields[i].1 {
            Field::Text(s) => Some(s.clone()),
            _ => None,
        },
        None => None,
    }
}

/// The number member `name` of `fields`.
pub fn number_of(fields: &Vec<(String, Field)>, name: &str) -> (out: Option<i64>)
    ensures
        out is Some <==> number_member(by_name(members(fields@)), name@) is Some,
        out matches Some(n) ==> number_member(by_name(members(fields@)), name@) == Some(n as int),
{
    match find(fields, name) {
        Some(i) => match &fields[i].1 {
            Field::Number(n) => Some(*n),
            _ => None,
        },
        None => None,
    }
}

/// The members a record is written as: one per field, by the field's name
/// in the data model.
pub open spec fn record_members(item: ItemView) -> Members {
    seq![
        ("arguments"@, FieldView::Text(item.args)),
        ("executable"@, FieldView::Text(item.exe)),
        ("exit_status"@, FieldView::Number(item.status)),
        ("fingerprint"@, FieldView::Text(item.hash)),
        ("stderr"@, FieldView::Text(item.stderr)),
        ("stdout"@, FieldView::Text(item.stdout)),
        ("storage_key"@, FieldView::Text(item.filename)),
    ]
}

/// The record that an object stands for: every field must be there by name
/// and of its kind, and the status must fit 32 bits with sign. Members of
/// other names are ignored.
pub open spec fn record_of(object: Map<Seq<char>, FieldView>) -> Option<ItemView> {
    if text_member(object, "arguments"@) is Some && text_member(object, "executable"@) is Some && text_member(
        object,
        "storage_key"@,
    ) is Some && text_member(object, "fingerprint"@) is Some && number_member(object, "exit_status"@) is Some
        && text_member(object, "stderr"@) is Some && text_member(object, "stdout"@) is Some
        && i32::MIN <= number_member(object, "exit_status"@).unwrap() <= i32::MAX {
        Some(
            ItemView {
                args: text_member(object, "arguments"@).unwrap(),
                exe: text_member(object, "executable"@).unwrap(),
                filename: text_member(object, "storage_key"@).unwrap(),
                hash: text_member(object, "fingerprint"@).unwrap(),
                status: number_member(object, "exit_status"@).unwrap(),
                stderr: text_member(object, "stderr"@).unwrap(),
                stdout: text_member(object, "stdout"@).unwrap(),
            },
        )
    } else {
        None
    }
}

/// The file bytes of a record under a codec.
pub open spec fn stored_form(codec: Codec, item: ItemView) -> Seq<u8> {
    codec.encoded(json_text(record_members(item)))
}

/// The record that file bytes hold under a codec, or nothing where they are
/// not a whole record.
pub open spec fn loaded_record(codec: Codec, stored: Seq<u8>) -> Option<ItemView> {
    match codec.decoded(stored) {
        None => None,
        Some(doc) => match json_members(doc) {
            None => None,
            Some(list) => record_of(by_name(list)),
        },
    }
}

/// Written as members and read back by name, a record is what it was.
pub proof fn record_round_trip(item: ItemView)
    requires
        i32::MIN <= item.status <= i32::MAX,
    ensures
        record_of(by_name(record_members(item))) == Some(item),
{
    reveal_strlit("arguments");
    reveal_strlit("executable");
    reveal_strlit("exit_status");
    reveal_strlit("fingerprint");
    reveal_strlit("stderr");
    reveal_strlit("stdout");
    reveal_strlit("storage_key");
    let list = record_members(item);
    assert(list.len() == 7);
    assert("arguments"@.len() == 9 && "executable"@.len() == 10 && "exit_status"@.len() == 11);
    assert("fingerprint"@.len() == 11 && "storage_key"@.len() == 11);
    assert("stderr"@.len() == 6 && "stdout"@.len() == 6);
    assert("exit_status"@[0] == 'e' && "fingerprint"@[0] == 'f' && "storage_key"@[0] == 's');
    assert("stderr"@[3] == 'e' && "stdout"@[3] == 'o');
    by_name_finds_last(list, 0);
    by_name_finds_last(list, 1);
    by_name_finds_last(list, 2);
    by_name_finds_last(list, 3);
    by_name_finds_last(list, 4);
    by_name_finds_last(list, 5);
    by_name_finds_last(list, 6);
}

/// The named fields a record is written as.
pub fn item_fields(item: &Item) -> (fields: Vec<(String, Field)>)
    ensures
        members(fields@) == record_members(item@),
{
    let mut fields: Vec<(String, Field)> = Vec::new();
    fields.push((String::from_str("arguments"), Field::Text(item.args.clone())));
    fields.push((String::from_str("executable"), Field::Text(item.exe.clone())));
    fields.push((String::from_str("exit_status"), Field::Number(item.status.into())));
    fields.push((String::from_str("fingerprint"), Field::Text(item.hash.clone())));
    fields.push((String::from_str("stderr"), Field::Text(item.stderr.clone())));
    fields.push((String::from_str("stdout"), Field::Text(item.stdout.clone())));
    fields.push((String::from_str("storage_key"), Field::Text(item.filename.clone())));
    proof {
        assert(members(fields@) =~= record_members(item@));
    }
    fields
}

/// The record that named fields stand for. Fields that do not make up a
/// whole record are corrupt.
pub fn item_from_fields(fields: &Vec<(String, Field)>) -> (out: Result<Item, StoreError>)
    ensures
        match record_of(by_name(members(fields@))) {
            Some(record) => out matches Ok(item) && item@ == record,
            None => out == Err::<Item, StoreError>(StoreError::Corrupt),
        },
{
    let args = text_of(fields, "arguments");
    let exe = text_of(fields, "executable");
    let filename = text_of(fields, "storage_key");
    let hash = text_of(fields, "fingerprint");
    let status = number_of(fields, "exit_status");
    let stderr = text_of(fields, "stderr");
    let stdout = text_of(fields, "stdout");
    match (args, exe, filename, hash, status, stderr, stdout) {
        (Some(args), Some(exe), Some(filename), Some(hash), Some(n), Some(stderr), Some(stdout)) => {
            if n < -2147483648 || n > 2147483647 {
                return Err(StoreError::Corrupt);
            }
            let status: i32 = n.try_into().unwrap();
            Ok(Item { args, exe, filename, hash, status, stderr, stdout })
        },
        _ => Err(StoreError::Corrupt),
    }
}

impl Item {
    /// The bytes to write to this record's file. Loading them gives the
    /// record back, field for field.
    pub fn save(&self, codec: Codec) -> (out: Vec<u8>)
        ensures
            out@ == stored_form(codec, self@),
            loaded_record(codec, out@) == Some(self@),
    {
        let fields = item_fields(self);
        let doc = write_json(&fields);
        proof {
            record_round_trip(self@);
        }
        codec.encode(doc.as_slice())
    }
}

/// The record in what was found at a record's path: none where there was no
/// file, an error where the file does not hold a whole record.
pub fn load(codec: Codec, file: Option<Vec<u8>>) -> (out: Result<Option<Item>, StoreError>)
    ensures
        file is None ==> out matches Ok(None),
        file matches Some(stored) ==> match loaded_record(codec, stored@) {
            Some(record) => out matches Ok(Some(item)) && item@ == record,
            None => out matches Err(StoreError::Corrupt),
        },
{
    let doc = match codec.open(file) {
        Ok(Some(doc)) => doc,
        Ok(None) => {
            return Ok(None);
        },
        Err(_) => {
            return Err(StoreError::Corrupt);
        },
    };
    match read_json(doc.as_slice()) {
        None => Err(StoreError::Corrupt),
        Some(fields) => match item_from_fields(&fields) {
            Ok(item) => Ok(Some(item)),
            Err(_) => Err(StoreError::Corrupt),
        },
    }
}

} // verus!
