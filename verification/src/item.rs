//! The record of one executed command line.

use vstd::prelude::*;
use vstd::slice::slice_to_vec;
use vstd::string::{StrSliceExecFns, StringExecFns};
use vstd::utf8::{encode_utf8, valid_utf8};
use crate::fingerprint::{fingerprint, hashit};
use crate::hex::is_hex_char;
use crate::text::{join_from, join_spaced, texts};

verus! {

/// The exit status recorded for a child that ended without an exit code of
/// its own (killed by a signal).
pub const KILLED_STATUS: i32 = 1;

/// One command line and what running it produced.
#[derive(Clone, Debug, PartialEq, Eq)]
pub struct Item {
    /// The arguments after the executable, joined by single spaces.
    pub args: String,
    /// The executable's name.
    pub exe: String,
    /// The name of the file the record is stored under.
    pub filename: String,
    /// The fingerprint of the whole command line.
    pub hash: String,
    /// The exit status of the run.
    pub status: i32,
    /// What the run wrote to its standard error.
    pub stderr: String,
    /// What the run wrote to its standard output.
    pub stdout: String,
}

/// What an `Item` holds, as plain mathematical values.
pub ghost struct ItemView {
    pub args: Seq<char>,
    pub exe: Seq<char>,
    pub filename: Seq<char>,
    pub hash: Seq<char>,
    pub status: int,
    pub stderr: Seq<char>,
    pub stdout: Seq<char>,
}

impl View for Item {
    type V = ItemView;

    open spec fn view(&self) -> ItemView {
        ItemView {
            args: self.args@,
            exe: self.exe@,
            filename: self.filename@,
            hash: self.hash@,
            status: self.status as int,
            stderr: self.stderr@,
            stdout: self.stdout@,
        }
    }
}

/// The ending of every record's file name.
pub open spec fn key_suffix() -> Seq<char> {
    seq!['.', 'j', 's', 'o', 'n', '.', 'g', 'z']
}

/// How one character of an executable's name is written in a file name:
/// the directory separator and the percent sign as a percent sign and two
/// hexadecimal digits, every other character as itself.
pub open spec fn escaped_char(c: char) -> Seq<char> {
    if c == '/' {
        seq!['%', '2', 'F']
    } else if c == '%' {
        seq!['%', '2', '5']
    } else {
        seq![c]
    }
}

/// A text with every character written as `escaped_char` gives it.
pub open spec fn escaped(text: Seq<char>) -> Seq<char>
    decreases text.len(),
{
    if text.len() == 0 {
        Seq::empty()
    } else {
        escaped_char(text[0]) + escaped(text.drop_first())
    }
}

/// Whether a name holds no directory separator, so that a file of that name
/// lies directly in the directory it is put in.
pub open spec fn flat_name(name: Seq<char>) -> bool {
    forall|i: int| 0 <= i < name.len() ==> name[i] != '/'
}

/// The file name of the record of `exe` run under fingerprint `hash`:
/// the executable escaped, an underscore, the fingerprint, and the ending.
pub open spec fn storage_key(exe: Seq<char>, hash: Seq<char>) -> Seq<char> {
    escaped(exe).push('_') + hash + key_suffix()
}

/// Escaping a text with one more character at its end adds that character's
/// escaped form at the end.
pub proof fn escaped_push(text: Seq<char>, c: char)
    ensures
        escaped(text.push(c)) == escaped(text) + escaped_char(c),
    decreases text.len(),
{
    if text.len() == 0 {
        let one = text.push(c);
        assert(one.drop_first() =~= Seq::<char>::empty());
        assert(escaped(one.drop_first()) == Seq::<char>::empty());
        assert(escaped(one) == escaped_char(one[0]) + escaped(one.drop_first()));
        assert(escaped(text) + escaped_char(c) =~= escaped_char(c));
        assert(escaped_char(c) + Seq::<char>::empty() =~= escaped_char(c));
    } else {
        escaped_push(text.drop_first(), c);
        assert(text.push(c).drop_first() =~= text.drop_first().push(c));
        assert(escaped_char(text[0]) + (escaped(text.drop_first()) + escaped_char(c)) =~= (
        escaped_char(text[0]) + escaped(text.drop_first())) + escaped_char(c));
    }
}

/// An escaped text holds no directory separator.
pub proof fn escaped_is_flat(text: Seq<char>)
    ensures
        flat_name(escaped(text)),
    decreases text.len(),
{
    if text.len() > 0 {
        escaped_is_flat(text.drop_first());
        let head = escaped_char(text[0]);
        let tail = escaped(text.drop_first());
        assert forall|i: int| 0 <= i < escaped(text).len() implies escaped(text)[i] != '/' by {
            if i < head.len() {
                assert(escaped(text)[i] == head[i]);
            } else {
                assert(escaped(text)[i] == tail[i - head.len()]);
            }
        }
    }
}

/// Escaping loses nothing: two texts with the same escaped form are the same
/// text.
pub proof fn escaped_injective(a: Seq<char>, b: Seq<char>)
    requires
        escaped(a) == escaped(b),
    ensures
        a == b,
    decreases a.len(),
{
    if a.len() == 0 || b.len() == 0 {
        if a.len() > 0 {
            assert(escaped(a).len() >= escaped_char(a[0]).len());
        }
        if b.len() > 0 {
            assert(escaped(b).len() >= escaped_char(b[0]).len());
        }
        assert(a =~= b);
    } else {
        let ha = escaped_char(a[0]);
        let hb = escaped_char(b[0]);
        let ta = escaped(a.drop_first());
        let tb = escaped(b.drop_first());
        assert(escaped(a) == ha + ta);
        assert(escaped(b) == hb + tb);
        assert(escaped(a)[0] == ha[0]);
        assert(escaped(b)[0] == hb[0]);
        if ha.len() == 3 {
            assert(hb.len() == 3);
            assert(escaped(a)[2] == ha[2]);
            assert(escaped(b)[2] == hb[2]);
        }
        assert(a[0] == b[0]);
        assert(ta =~= escaped(a).skip(ha.len() as int));
        assert(tb =~= escaped(b).skip(hb.len() as int));
        escaped_injective(a.drop_first(), b.drop_first());
        assert(a =~= seq![a[0]] + a.drop_first());
        assert(b =~= seq![b[0]] + b.drop_first());
    }
}

/// A record's file name holds no directory separator, as long as its
/// fingerprint holds none.
pub proof fn storage_key_is_flat(exe: Seq<char>, hash: Seq<char>)
    requires
        flat_name(hash),
    ensures
        flat_name(storage_key(exe, hash)),
{
    escaped_is_flat(exe);
    let front = escaped(exe).push('_');
    let key = storage_key(exe, hash);
    assert forall|i: int| 0 <= i < key.len() implies key[i] != '/' by {
        if i < front.len() {
            assert(key[i] == front[i]);
        } else if i < front.len() + hash.len() {
            assert(key[i] == hash[i - front.len()]);
        } else {
            assert(key[i] == key_suffix()[i - front.len() - hash.len()]);
        }
    }
}

/// A file name belongs to one executable and one fingerprint: two pairs
/// with fingerprints of the same length and the same file name are the same
/// pair.
pub proof fn storage_key_unique(
    exe_a: Seq<char>,
    hash_a: Seq<char>,
    exe_b: Seq<char>,
    hash_b: Seq<char>,
)
    requires
        hash_a.len() == hash_b.len(),
        storage_key(exe_a, hash_a) == storage_key(exe_b, hash_b),
    ensures
        exe_a == exe_b,
        hash_a == hash_b,
{
    let key_a = storage_key(exe_a, hash_a);
    let key_b = storage_key(exe_b, hash_b);
    let front_a = escaped(exe_a);
    let front_b = escaped(exe_b);
    assert(key_a.len() == front_a.len() + 1 + hash_a.len() + key_suffix().len());
    assert(key_b.len() == front_b.len() + 1 + hash_b.len() + key_suffix().len());
    assert forall|i: int| 0 <= i < front_a.len() implies front_a[i] == front_b[i] by {
        assert(key_a[i] == front_a[i]);
        assert(key_b[i] == front_b[i]);
    }
    assert(front_a =~= front_b);
    escaped_injective(exe_a, exe_b);
    assert forall|i: int| 0 <= i < hash_a.len() implies hash_a[i] == hash_b[i] by {
        assert(key_a[front_a.len() + 1 + i] == hash_a[i]);
        assert(key_b[front_b.len() + 1 + i] == hash_b[i]);
    }
    assert(hash_a =~= hash_b);
}

/// Two records with fingerprints of the same length lie at the same path
/// below a directory only if they have the same executable and fingerprint.
pub proof fn record_path_unique(
    cache_dir: Seq<char>,
    exe_a: Seq<char>,
    hash_a: Seq<char>,
    exe_b: Seq<char>,
    hash_b: Seq<char>,
)
    requires
        hash_a.len() == hash_b.len(),
        record_path(cache_dir, storage_key(exe_a, hash_a)) == record_path(
            cache_dir,
            storage_key(exe_b, hash_b),
        ),
    ensures
        exe_a == exe_b,
        hash_a == hash_b,
{
    let key_a = storage_key(exe_a, hash_a);
    let key_b = storage_key(exe_b, hash_b);
    let front = cache_dir.push('/');
    assert(key_a =~= (front + key_a).skip(front.len() as int));
    assert(key_b =~= (front + key_b).skip(front.len() as int));
    storage_key_unique(exe_a, hash_a, exe_b, hash_b);
}

/// The record of a command line that has not run yet: identity filled in,
/// status zero, no output.
pub open spec fn fresh_record(command: Seq<Seq<char>>) -> ItemView
    recommends
        command.len() >= 1,
{
    ItemView {
        args: join_spaced(command.skip(1)),
        exe: command[0],
        filename: storage_key(command[0], fingerprint(command)),
        hash: fingerprint(command),
        status: 0,
        stderr: Seq::empty(),
        stdout: Seq::empty(),
    }
}

/// The status recorded for a child's exit code: the code itself, or
/// `KILLED_STATUS` where the child left none.
pub open spec fn exit_status(code: Option<i32>) -> int {
    match code {
        Some(c) => c as int,
        None => KILLED_STATUS as int,
    }
}

/// The location of a record inside a cache directory.
pub open spec fn record_path(cache_dir: Seq<char>, filename: Seq<char>) -> Seq<char> {
    cache_dir.push('/') + filename
}

/// The part of the cache directory's location below the home directory.
pub open spec fn cache_subdir() -> Seq<char> {
    seq!['/', '.', 'c', 'a', 'c', 'h', 'e', '/', 'c', 'c', 'a', 'c', 'h', 'e']
}

impl Item {
    /// The record of `command` before it runs. The first word is the
    /// executable, the others its arguments. The fingerprint is 64 lowercase
    /// hexadecimal digits, and the file name holds no directory separator.
    pub fn new(command: Vec<String>) -> (item: Item)
        requires
            command.len() >= 1,
        ensures
            item@ == fresh_record(texts(command@)),
            item.hash@.len() == 64,
            forall|i: int| 0 <= i < 64 ==> is_hex_char(#[trigger] item.hash@[i]),
            flat_name(item.filename@),
    {
        let hash = hashit(&command);
        let args = join_from(&command, 1);
        let exe = command[0].clone();
        let mut filename = escape(exe.as_str());
        filename.append("_");
        filename.append(hash.as_str());
        filename.append(".json.gz");
        proof {
            reveal_strlit("_");
            reveal_strlit(".json.gz");
            assert("_"@ =~= seq!['_']);
            assert(".json.gz"@ =~= key_suffix());
            assert(escaped(exe@) + seq!['_'] =~= escaped(exe@).push('_'));
            assert(texts(command@)[0] == exe@);
            assert forall|i: int| 0 <= i < hash@.len() implies hash@[i] != '/' by {
                assert(is_hex_char(hash@[i]));
            }
            storage_key_is_flat(exe@, hash@);
        }
        Item { args, exe, filename, hash, status: 0, stderr: String::new(), stdout: String::new() }
    }

    /// Where this record is stored below `cache_dir`: the directory, one
    /// separator, and the file name. A file name without a separator, as
    /// every record made by `new` has, puts the file directly in the
    /// directory.
    pub fn path(&self, cache_dir: &str) -> (out: String)
        ensures
            out@ == record_path(cache_dir@, self.filename@),
            out@.subrange(0, cache_dir@.len() as int) == cache_dir@,
            out@[cache_dir@.len() as int] == '/',
            out@.skip((cache_dir@.len() + 1) as int) == self.filename@,
            flat_name(self.filename@) ==> flat_name(out@.skip((cache_dir@.len() + 1) as int)),
    {
        let mut out = String::from_str(cache_dir);
        out.append("/");
        out.append(self.filename.as_str());
        proof {
            reveal_strlit("/");
            assert("/"@ =~= seq!['/']);
            assert(cache_dir@ + seq!['/'] =~= cache_dir@.push('/'));
            assert(out@.subrange(0, cache_dir@.len() as int) =~= cache_dir@);
            assert(out@.skip((cache_dir@.len() + 1) as int) =~= self.filename@);
        }
        out
    }

    /// Records what a run of this command line produced. The identity
    /// (executable, arguments, fingerprint, file name) stays as it was.
    pub fn execute(&mut self, stdout: String, stderr: String, code: Option<i32>)
        ensures
            final(self)@ == (ItemView {
                stdout: stdout@,
                stderr: stderr@,
                status: exit_status(code),
                ..old(self)@
            }),
    {
        self.stdout = stdout;
        self.stderr = stderr;
        self.status = status_of(code);
    }
}

/// The status recorded for a child's exit code.
pub fn status_of(code: Option<i32>) -> (status: i32)
    ensures
        status == exit_status(code),
{
    match code {
        Some(c) => c,
        None => KILLED_STATUS,
    }
}

/// std's `String::from_utf8`. Believed of it: it succeeds exactly on bytes
/// that are valid UTF-8, and the string it gives is made of those very
/// bytes.
#[verifier::external_body]
fn from_utf8(bytes: Vec<u8>) -> (out: Option<String>)
    ensures
        out is Some <==> valid_utf8(bytes@),
        out matches Some(s) ==> encode_utf8(s@) == bytes@,
{
    String::from_utf8(bytes).ok()
}

/// What a child wrote, as the text a record can hold. Bytes that are valid
/// UTF-8 are kept whole: the text is made of exactly those bytes. Other
/// bytes are no text, and nothing is made of them.
pub fn captured(bytes: &[u8]) -> (out: Option<String>)
    ensures
        out is Some <==> valid_utf8(bytes@),
        out matches Some(s) ==> encode_utf8(s@) == bytes@,
{
    from_utf8(slice_to_vec(bytes))
}

/// Writes an executable's name so that it can stand in a file name.
pub fn escape(text: &str) -> (out: String)
    ensures
        out@ == escaped(text@),
{
    let n = text.unicode_len();
    let mut out = String::new();
    let mut i: usize = 0;
    while i < n
        invariant
            i <= n,
            n == text@.len(),
            out@ == escaped(text@.subrange(0, i as int)),
        decreases n - i,
    {
        let c = text.get_char(i);
        proof {
            reveal_strlit("%2F");
            reveal_strlit("%25");
            assert("%2F"@ =~= seq!['%', '2', 'F']);
            assert("%25"@ =~= seq!['%', '2', '5']);
            escaped_push(text@.subrange(0, i as int), c);
            assert(text@.subrange(0, i + 1) =~= text@.subrange(0, i as int).push(c));
            assert(text@.subrange(i as int, i + 1) =~= seq![c]);
        }
        if c == '/' {
            out.append("%2F");
        } else if c == '%' {
            out.append("%25");
        } else {
            out.append(text.substring_char(i, i + 1));
        }
        i += 1;
    }
    proof {
        assert(text@.subrange(0, i as int) =~= text@);
    }
    out
}

/// The cache directory of the user whose home directory is `home`.
pub fn datadir(home: &str) -> (out: String)
    ensures
        out@ == home@ + cache_subdir(),
{
    let mut out = String::from_str(home);
    out.append("/.cache/ccache");
    proof {
        reveal_strlit("/.cache/ccache");
        assert("/.cache/ccache"@ =~= cache_subdir());
    }
    out
}

/// The command line to wrap, out of the wrapper's own argument list: all
/// words after the first. There is none where the list names no executable.
pub fn invocation(args: &Vec<String>) -> (out: Option<Vec<String>>)
    ensures
        out is None <==> args.len() < 2,
        out matches Some(command) ==> texts(command@) == texts(args@).skip(1),
{
    if args.len() < 2 {
        return None;
    }
    let mut command: Vec<String> = Vec::new();
    let mut i: usize = 1;
    while i < args.len()
        invariant
            1 <= i <= args.len(),
            command.len() == i - 1,
            texts(command@) == texts(args@).subrange(1, i as int),
        decreases args.len() - i,
    {
        let ghost before = command@;
        let word = args[i].clone();
        command.push(word);
        proof {
            let grown = texts(args@).subrange(1, i + 1);
            assert(texts(command@).len() == grown.len());
            assert forall|j: int| 0 <= j < grown.len() implies texts(command@)[j] == grown[j] by {
                if j < before.len() {
                    assert(texts(before)[j] == before[j]@);
                    assert(texts(args@).subrange(1, i as int)[j] == args@[j + 1]@);
                }
            }
            assert(texts(command@) =~= grown);
        }
        i += 1;
    }
    proof {
        assert(texts(args@).subrange(1, i as int) =~= texts(args@).skip(1));
    }
    Some(command)
}

} // verus!
