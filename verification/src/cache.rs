//! The decisions of the cache: when a record is kept, when an earlier one is
//! looked up, and whose output is replayed with which exit status.

use vstd::prelude::*;
use vstd::slice::slice_to_vec;
use vstd::utf8::encode_utf8;
use crate::codec::{Codec, StoreError};
use crate::item::{exit_status, status_of, Item, ItemView};
use crate::store::{load, loaded_record, stored_form};

verus! {

/// The wrapper's exit status when it is given no executable to run.
pub const USAGE_STATUS: i32 = 1;

/// The wrapper's exit status when the executable cannot be started.
pub const LAUNCH_FAILED_STATUS: i32 = 127;

/// What the wrapper's own exit status is when a failed run is answered from
/// an earlier record.
#[derive(Clone, Copy, Debug, PartialEq, Eq)]
pub enum ExitPolicy {
    /// Exit with status zero: the failure is hidden.
    Mask,
    /// Exit with the failed run's status.
    Propagate,
}

/// What follows a run.
#[derive(Clone, Copy, Debug, PartialEq, Eq)]
pub enum Step {
    /// The run succeeded: store its record, then replay it.
    Persist,
    /// The run failed: look for an earlier record under the same file name.
    Lookup,
}

/// How a wrapped run ends.
#[derive(Clone, Copy, Debug, PartialEq, Eq)]
pub enum Ending {
    /// The run succeeded; its record was handed to the store.
    Persisted,
    /// The run failed and an earlier record's output stands in for it.
    FellBack,
    /// The run failed and its own output is shown.
    Replayed,
}

/// What the wrapper writes to its own streams and exits with.
#[derive(Clone, Debug, PartialEq, Eq)]
pub struct Replay {
    /// How the run ended.
    pub ending: Ending,
    /// The text for standard output.
    pub stdout: String,
    /// The text for standard error.
    pub stderr: String,
    /// The exit status.
    pub status: i32,
}

/// What a `Replay` holds, as plain mathematical values.
pub ghost struct ReplayView {
    pub ending: Ending,
    pub stdout: Seq<char>,
    pub stderr: Seq<char>,
    pub status: int,
}

impl View for Replay {
    type V = ReplayView;

    open spec fn view(&self) -> ReplayView {
        ReplayView {
            ending: self.ending,
            stdout: self.stdout@,
            stderr: self.stderr@,
            status: self.status as int,
        }
    }
}

/// The records on file, by file name.
pub type Shelf = Map<Seq<char>, ItemView>;

/// Whether a run's record is written to the store: only a success is.
pub open spec fn persists(fresh: ItemView) -> bool {
    fresh.status == 0
}

/// The store after a run: a success replaces whatever was under its file
/// name, a failure changes nothing.
pub open spec fn shelf_after(shelf: Shelf, fresh: ItemView) -> Shelf {
    if persists(fresh) {
        shelf.insert(fresh.filename, fresh)
    } else {
        shelf
    }
}

/// The record on file under `filename`, if there is one.
pub open spec fn on_file(shelf: Shelf, filename: Seq<char>) -> Option<ItemView> {
    if shelf.dom().contains(filename) {
        Some(shelf[filename])
    } else {
        None
    }
}

/// A record's own output and status: the end of a run that does not fall
/// back on an earlier record.
pub open spec fn own_output(item: ItemView) -> ReplayView {
    ReplayView {
        ending: if persists(item) {
            Ending::Persisted
        } else {
            Ending::Replayed
        },
        stdout: item.stdout,
        stderr: item.stderr,
        status: item.status,
    }
}

/// What is replayed after a run, given the earlier record found for it (if
/// any): a success replays itself; a failure replays the earlier record's
/// output, with the status the policy gives; a failure with nothing to fall
/// back on replays itself.
pub open spec fn replayed(fresh: ItemView, backup: Option<ItemView>, policy: ExitPolicy)
    -> ReplayView {
    if persists(fresh) {
        own_output(fresh)
    } else {
        match backup {
            Some(old) => ReplayView {
                ending: Ending::FellBack,
                stdout: old.stdout,
                stderr: old.stderr,
                status: match policy {
                    ExitPolicy::Mask => 0,
                    ExitPolicy::Propagate => fresh.status,
                },
            },
            None => own_output(fresh),
        }
    }
}

/// The view of an optional record.
pub open spec fn view_of(item: Option<Item>) -> Option<ItemView> {
    match item {
        Some(i) => Some(i@),
        None => None,
    }
}

impl Item {
    /// What to do with this record after its run.
    pub fn next_step(&self) -> (step: Step)
        ensures
            step == Step::Persist <==> persists(self@),
            step == Step::Lookup <==> !persists(self@),
    {
        if self.status == 0 {
            Step::Persist
        } else {
            Step::Lookup
        }
    }

    /// The bytes to write to this record's file, if it is to be written at
    /// all: a success is stored, in the form that loads back as this very
    /// record; a failure is not.
    pub fn persist(&self, codec: Codec) -> (out: Option<Vec<u8>>)
        ensures
            out is Some <==> persists(self@),
            out matches Some(stored) ==> stored@ == stored_form(codec, self@) && loaded_record(
                codec,
                stored@,
            ) == Some(self@),
    {
        match self.next_step() {
            Step::Persist => Some(self.save(codec)),
            Step::Lookup => None,
        }
    }

    /// This record's own output and status, ready to be written out.
    pub fn replay(&self) -> (out: Replay)
        ensures
            out@ == own_output(self@),
    {
        Replay {
            ending: if self.status == 0 {
                Ending::Persisted
            } else {
                Ending::Replayed
            },
            stdout: self.stdout.clone(),
            stderr: self.stderr.clone(),
            status: self.status,
        }
    }
}

/// The earlier record to fall back on, out of what a lookup gave. A store
/// that could not be read and a file that is corrupt count as no record.
pub fn find_backup(loaded: Result<Option<Item>, StoreError>) -> (backup: Option<Item>)
    ensures
        backup == match loaded {
            Ok(found) => found,
            Err(_) => None,
        },
{
    match loaded {
        Ok(found) => found,
        Err(_) => None,
    }
}

/// Settles what is replayed for the run recorded in `fresh`, given the
/// earlier record found under its file name.
pub fn settle(fresh: Item, backup: Option<Item>, policy: ExitPolicy) -> (out: Replay)
    ensures
        out@ == replayed(fresh@, view_of(backup), policy),
{
    if fresh.status == 0 {
        return Replay {
            ending: Ending::Persisted,
            stdout: fresh.stdout,
            stderr: fresh.stderr,
            status: fresh.status,
        };
    }
    match backup {
        Some(old) => Replay {
            ending: Ending::FellBack,
            stdout: old.stdout,
            stderr: old.stderr,
            status: match policy {
                ExitPolicy::Mask => 0,
                ExitPolicy::Propagate => fresh.status,
            },
        },
        None => Replay {
            ending: Ending::Replayed,
            stdout: fresh.stdout,
            stderr: fresh.stderr,
            status: fresh.status,
        },
    }
}

/// The earlier record that the bytes found at a record's path stand for:
/// none where no file was found, where the store could not be read, or where
/// the file does not hold a whole record.
pub open spec fn backup_in(codec: Codec, found: Result<Option<Vec<u8>>, StoreError>) -> Option<
    ItemView,
> {
    match found {
        Ok(Some(stored)) => loaded_record(codec, stored@),
        _ => None,
    }
}

/// Ends the run recorded in `fresh`, given what reading its record's path
/// gave: the file's bytes, no file, or an error.
pub fn fall_back(
    fresh: Item,
    codec: Codec,
    found: Result<Option<Vec<u8>>, StoreError>,
    policy: ExitPolicy,
) -> (out: Replay)
    ensures
        out@ == replayed(fresh@, backup_in(codec, found), policy),
{
    let loaded = match found {
        Ok(file) => load(codec, file),
        Err(e) => Err(e),
    };
    settle(fresh, find_backup(loaded), policy)
}

/// What the wrapper writes and exits with after a run whose output is no
/// text, byte for byte.
#[derive(Clone, Debug, PartialEq, Eq)]
pub struct RawReplay {
    /// How the run ended.
    pub ending: Ending,
    /// The bytes for standard output.
    pub stdout: Vec<u8>,
    /// The bytes for standard error.
    pub stderr: Vec<u8>,
    /// The exit status.
    pub status: i32,
}

/// What a `RawReplay` holds, as plain mathematical values.
pub ghost struct RawReplayView {
    pub ending: Ending,
    pub stdout: Seq<u8>,
    pub stderr: Seq<u8>,
    pub status: int,
}

impl View for RawReplay {
    type V = RawReplayView;

    open spec fn view(&self) -> RawReplayView {
        RawReplayView {
            ending: self.ending,
            stdout: self.stdout@,
            stderr: self.stderr@,
            status: self.status as int,
        }
    }
}

/// What is replayed after a run whose output cannot be recorded because it
/// is no text. Nothing is stored. A failure with an earlier record on file
/// replays that record's text, with the status the policy gives; any other
/// run replays its own bytes unchanged, with its own status.
pub open spec fn replayed_raw(
    stdout: Seq<u8>,
    stderr: Seq<u8>,
    status: int,
    backup: Option<ItemView>,
    policy: ExitPolicy,
) -> RawReplayView {
    match backup {
        Some(old) if status != 0 => RawReplayView {
            ending: Ending::FellBack,
            stdout: encode_utf8(old.stdout),
            stderr: encode_utf8(old.stderr),
            status: match policy {
                ExitPolicy::Mask => 0,
                ExitPolicy::Propagate => status,
            },
        },
        _ => RawReplayView { ending: Ending::Replayed, stdout, stderr, status },
    }
}

/// Ends a run whose output is no text, given the child's bytes and exit code
/// and what reading its record's path gave.
pub fn fall_back_raw(
    stdout: Vec<u8>,
    stderr: Vec<u8>,
    code: Option<i32>,
    codec: Codec,
    found: Result<Option<Vec<u8>>, StoreError>,
    policy: ExitPolicy,
) -> (out: RawReplay)
    ensures
        out@ == replayed_raw(stdout@, stderr@, exit_status(code), backup_in(codec, found), policy),
{
    let status = status_of(code);
    let loaded = match found {
        Ok(file) => load(codec, file),
        Err(e) => Err(e),
    };
    match find_backup(loaded) {
        Some(old) if status != 0 => RawReplay {
            ending: Ending::FellBack,
            stdout: slice_to_vec(old.stdout.as_str().as_bytes()),
            stderr: slice_to_vec(old.stderr.as_str().as_bytes()),
            status: match policy {
                ExitPolicy::Mask => 0,
                ExitPolicy::Propagate => status,
            },
        },
        _ => RawReplay { ending: Ending::Replayed, stdout, stderr, status },
    }
}

/// Output that is no text is never lost: without a record to fall back on,
/// or after a success, the very bytes of the child are replayed with its
/// status.
pub proof fn raw_output_is_replayed_unchanged(
    stdout: Seq<u8>,
    stderr: Seq<u8>,
    status: int,
    backup: Option<ItemView>,
    policy: ExitPolicy,
)
    requires
        status == 0 || backup is None,
    ensures
        replayed_raw(stdout, stderr, status, backup, policy).stdout == stdout,
        replayed_raw(stdout, stderr, status, backup, policy).stderr == stderr,
        replayed_raw(stdout, stderr, status, backup, policy).status == status,
{
}

/// After a successful run the store holds that run's record under its file
/// name, output included.
pub proof fn success_is_persisted(shelf: Shelf, fresh: ItemView)
    requires
        fresh.status == 0,
    ensures
        on_file(shelf_after(shelf, fresh), fresh.filename) == Some(fresh),
        on_file(shelf_after(shelf, fresh), fresh.filename).unwrap().stdout == fresh.stdout,
        on_file(shelf_after(shelf, fresh), fresh.filename).unwrap().stderr == fresh.stderr,
{
}

/// A failed run writes nothing: the store is what it was, under every file
/// name.
pub proof fn failure_is_never_persisted(shelf: Shelf, fresh: ItemView)
    requires
        fresh.status != 0,
    ensures
        shelf_after(shelf, fresh) == shelf,
        forall|name: Seq<char>| on_file(shelf_after(shelf, fresh), name) == on_file(shelf, name),
{
}

/// Every record on file is that of a success, as long as the store started
/// that way.
pub proof fn only_successes_on_file(shelf: Shelf, fresh: ItemView)
    requires
        forall|name: Seq<char>| shelf.dom().contains(name) ==> persists(#[trigger] shelf[name]),
    ensures
        forall|name: Seq<char>|
            shelf_after(shelf, fresh).dom().contains(name) ==> persists(
                #[trigger] shelf_after(shelf, fresh)[name],
            ),
{
}

/// A failed run of a command line that succeeded before replays the output
/// of the success, not its own, whatever the store held before the success
/// and whatever the policy.
pub proof fn failure_replays_last_success(
    shelf: Shelf,
    good: ItemView,
    bad: ItemView,
    policy: ExitPolicy,
)
    requires
        good.status == 0,
        bad.status != 0,
        bad.filename == good.filename,
    ensures
        replayed(bad, on_file(shelf_after(shelf, good), bad.filename), policy).stdout
            == good.stdout,
        replayed(bad, on_file(shelf_after(shelf, good), bad.filename), policy).stderr
            == good.stderr,
        replayed(bad, on_file(shelf_after(shelf, good), bad.filename), policy).ending
            == Ending::FellBack,
        policy == ExitPolicy::Mask ==> replayed(
            bad,
            on_file(shelf_after(shelf, good), bad.filename),
            policy,
        ).status == 0,
        policy == ExitPolicy::Propagate ==> replayed(
            bad,
            on_file(shelf_after(shelf, good), bad.filename),
            policy,
        ).status == bad.status,
{
}

/// A failed run with no record on file under its name replays its own
/// output and exits with its own status.
pub proof fn failure_without_backup_replays_itself(
    shelf: Shelf,
    bad: ItemView,
    policy: ExitPolicy,
)
    requires
        bad.status != 0,
        !shelf.dom().contains(bad.filename),
    ensures
        replayed(bad, on_file(shelf, bad.filename), policy) == own_output(bad),
        replayed(bad, on_file(shelf_after(shelf, bad), bad.filename), policy).status != 0,
{
}

} // verus!
