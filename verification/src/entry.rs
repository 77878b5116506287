//! The records the navigation engine works over: one log entry per commit,
//! an optional origin tag pointing into a table of submodule descriptors,
//! and the pairing of the two that the ordered list holds.

use vstd::prelude::*;

verus! {

/// One historical change record: commit identifier, author (raw bytes,
/// displayed lossily), formatted author time, full message (raw bytes, first
/// line shown in list context), and the author timestamp in seconds, the sole
/// sort key.
#[derive(Clone)]
pub struct LogEntryInfo {
    pub commit_id: String,
    pub author: Vec<u8>,
    pub time: String,
    pub message: Vec<u8>,
    pub author_time: i64,
}

/// A submodule descriptor: display name and the directory of its own
/// repository, in which an inspection of one of its commits runs.
#[derive(Clone)]
pub struct SubmoduleInfo {
    pub name: String,
    pub git_dir: String,
}

/// One element of the ordered list: a log entry together with its origin.
/// `origin` is `None` for the top-level repository, `Some(k)` for the
/// submodule at index `k` of a separately held submodule table.
#[derive(Clone)]
pub struct Item {
    pub entry: LogEntryInfo,
    pub origin: Option<usize>,
}

/// Index of the first newline in `msg`, or its length if there is none:
/// the end of the line shown for the entry in list context.
pub open spec fn first_line_end(msg: Seq<u8>) -> int
    decreases msg.len(),
{
    if msg.len() == 0 {
        0
    } else if msg[0] == 10u8 {
        0
    } else {
        1 + first_line_end(msg.drop_first())
    }
}

/// The first-line boundary lies within the message, everything before it is
/// newline-free, and it lands on a newline unless the message has none.
pub proof fn lemma_first_line_end_bounds(msg: Seq<u8>)
    ensures
        0 <= first_line_end(msg) <= msg.len(),
        forall|i: int| 0 <= i < first_line_end(msg) ==> msg[i] != 10u8,
        first_line_end(msg) < msg.len() ==> msg[first_line_end(msg)] == 10u8,
    decreases msg.len(),
{
    if msg.len() > 0 && msg[0] != 10u8 {
        lemma_first_line_end_bounds(msg.drop_first());
        assert forall|i: int| 0 <= i < first_line_end(msg) implies msg[i] != 10u8 by {
            if i > 0 {
                assert(msg.drop_first()[i - 1] == msg[i]);
            }
        }
    }
}

/// The first line of a commit message: the bytes before the first newline,
/// or the whole message if it has none.
pub fn first_line(msg: &Vec<u8>) -> (r: Vec<u8>)
    ensures
        r@ == msg@.subrange(0, first_line_end(msg@)),
{
    proof {
        lemma_first_line_end_bounds(msg@);
    }
    let mut out: Vec<u8> = Vec::new();
    let mut i: usize = 0;
    while i < msg.len() && msg[i] != 10u8
        invariant
            0 <= i <= msg@.len(),
            out@ == msg@.subrange(0, i as int),
            forall|j: int| 0 <= j < i ==> msg@[j] != 10u8,
        decreases msg@.len() - i,
    {
        out.push(msg[i]);
        assert(out@ == msg@.subrange(0, i + 1 as int));
        i = i + 1;
    }
    proof {
        lemma_first_line_end_bounds(msg@);
        if i < msg@.len() {
            assert(msg@[i as int] == 10u8);
        }
        assert(first_line_end(msg@) == i as int) by {
            if first_line_end(msg@) < i {
                assert(msg@[first_line_end(msg@)] == 10u8);
            }
            if first_line_end(msg@) > i {
                assert(msg@[i as int] != 10u8);
            }
        }
    }
    out
}

/// Whether the origin label shown beside an entry changes between two
/// neighbouring rows; only a changed origin is labelled.
pub fn origin_changed(prev: Option<usize>, cur: Option<usize>) -> (r: bool)
    ensures
        r == (prev != cur),
{
    match (prev, cur) {
        (None, None) => false,
        (Some(a), Some(b)) => a != b,
        _ => true,
    }
}

} // verus!
