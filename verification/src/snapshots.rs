//! Decisions about snapshots: which one a restore takes, where it restores
//! to, and how a comparison against the latest snapshot is summed up.

use vstd::prelude::*;
use crate::options::is_word;
use crate::text::{chars_of, extend_str, string_of};

verus! {

broadcast use vstd::string::group_string_axioms;

/// Whether a snapshot id asks for the latest snapshot of any device.
pub fn is_latest_alias(snapshot_id: &str) -> (r: bool)
    ensures
        r == (snapshot_id@ == "last"@),
{
    let s = chars_of(snapshot_id);
    is_word(s.as_slice(), "last")
}

/// Where a snapshot is restored when no target is given:
/// `restored_<device>_<start date>`.
pub open spec fn default_target(device_id: Seq<char>, started: Seq<char>) -> Seq<char> {
    "restored_"@ + device_id + seq!['_'] + started
}

/// The restore target: the one given, else the default for the snapshot's
/// device and start date (written `%Y%m%d_%H%M%S`).
pub fn restore_target(target: Option<String>, device_id: &str, started: &str) -> (dir: String)
    ensures
        dir@ == (match target {
            Some(t) => t@,
            None => default_target(device_id@, started@),
        }),
{
    match target {
        Some(t) => t,
        None => {
            let mut v = chars_of("restored_");
            extend_str(&mut v, device_id);
            v.push('_');
            extend_str(&mut v, started);
            string_of(v.as_slice())
        },
    }
}

/// The message of a restore that starts.
pub open spec fn restore_banner(filter: Option<Seq<char>>, snapshot_id: Seq<char>, target: Seq<char>) -> Seq<char> {
    match filter {
        Some(f) => "Restoring files matching '"@ + f + "' from snapshot "@ + snapshot_id + " to "@ + target + "..."@,
        None => "Restoring snapshot "@ + snapshot_id + " to "@ + target + "..."@,
    }
}

/// Words the message of a restore that starts.
pub fn restore_message(filter: Option<&str>, snapshot_id: &str, target: &str) -> (m: String)
    ensures
        m@ == restore_banner(match filter {
            Some(f) => Some(f@),
            None => None,
        }, snapshot_id@, target@),
{
    let mut v: Vec<char>;
    match filter {
        Some(f) => {
            v = chars_of("Restoring files matching '");
            extend_str(&mut v, f);
            extend_str(&mut v, "' from snapshot ");
        },
        None => {
            v = chars_of("Restoring snapshot ");
        },
    }
    extend_str(&mut v, snapshot_id);
    extend_str(&mut v, " to ");
    extend_str(&mut v, target);
    extend_str(&mut v, "...");
    string_of(v.as_slice())
}

/// The sum of a list of sizes.
pub open spec fn total(sizes: Seq<u64>) -> nat
    decreases sizes.len(),
{
    if sizes.len() == 0 {
        0
    } else {
        total(sizes.drop_last()) + sizes.last() as nat
    }
}

proof fn lemma_total_prefix_bounded(sizes: Seq<u64>, i: int)
    requires
        0 <= i <= sizes.len(),
    ensures
        total(sizes.take(i)) <= total(sizes),
    decreases sizes.len() - i,
{
    if i < sizes.len() {
        lemma_total_prefix_bounded(sizes, i + 1);
        assert(sizes.take(i + 1).drop_last() =~= sizes.take(i));
    } else {
        assert(sizes.take(i) =~= sizes);
    }
}

/// The total size of a group of files, for sizes whose sum fits in `u64`.
pub fn total_size(sizes: &Vec<u64>) -> (sum: u64)
    requires
        total(sizes@) <= u64::MAX,
    ensures
        sum == total(sizes@),
{
    let mut sum: u64 = 0;
    let mut i: usize = 0;
    while i < sizes.len()
        invariant
            i <= sizes@.len(),
            total(sizes@) <= u64::MAX,
            sum == total(sizes@.take(i as int)),
        decreases sizes@.len() - i,
    {
        proof {
            lemma_total_prefix_bounded(sizes@, i + 1);
            assert(sizes@.take(i + 1).drop_last() =~= sizes@.take(i as int));
        }
        sum = sum + sizes[i];
        i = i + 1;
    }
    assert(sizes@.take(sizes@.len() as int) =~= sizes@);
    sum
}

/// The error given when a device has no snapshot to compare with.
pub fn no_snapshot_message(device_id: &str) -> (m: String)
    ensures
        m@ == "No previous snapshots found for device "@ + device_id@ + ". Run a backup first!"@,
{
    let mut v = chars_of("No previous snapshots found for device ");
    extend_str(&mut v, device_id);
    extend_str(&mut v, ". Run a backup first!");
    string_of(v.as_slice())
}

/// Whether a device is in sync with its latest snapshot: nothing was added,
/// modified or removed.
pub fn in_sync(added: usize, modified: usize, removed: usize) -> (r: bool)
    ensures
        r == (added == 0 && modified == 0 && removed == 0),
{
    added == 0 && modified == 0 && removed == 0
}

} // verus!
