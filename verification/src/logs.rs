//! The host's own log: the last hundred lines, oldest first.

use std::collections::VecDeque;
use vstd::prelude::*;
use vstd::string::StringExecFns;

verus! {

/// How many lines the log keeps.
pub const LOG_CAPACITY: usize = 100;

/// The log after one more line: the oldest line leaves when the log is
/// full.
pub open spec fn recorded(log: Seq<String>, line: String) -> Seq<String> {
    if log.len() >= LOG_CAPACITY {
        log.drop_first().push(line)
    } else {
        log.push(line)
    }
}

/// An empty log.
pub fn get_log_buffer() -> (log: VecDeque<String>)
    ensures
        log@ == Seq::<String>::empty(),
{
    VecDeque::with_capacity(LOG_CAPACITY)
}

/// A line of the log: the time stamp, a blank, and the message.
pub fn stamped(stamp: &str, msg: &str) -> (line: String)
    ensures
        line@ == stamp@ + " "@ + msg@,
{
    let mut line = String::from_str(stamp);
    line.append(" ");
    line.append(msg);
    line
}

/// Adds a line to the log. A log that holds no more than its capacity
/// never grows beyond it.
pub fn record(log: &mut VecDeque<String>, line: String)
    ensures
        final(log)@ == recorded(old(log)@, line),
        old(log)@.len() <= LOG_CAPACITY ==> final(log)@.len() <= LOG_CAPACITY,
{
    if log.len() >= LOG_CAPACITY {
        let _ = log.pop_front();
        assert(log@ =~= old(log)@.drop_first());
    }
    log.push_back(line);
}

/// The last `limit` of `lines`, or all of them where there are fewer.
pub open spec fn last_of(lines: Seq<String>, limit: usize) -> Seq<String> {
    if lines.len() > limit {
        lines.skip(lines.len() - limit)
    } else {
        lines
    }
}

/// Keeps the last `limit` lines.
pub fn keep_last(lines: Vec<String>, limit: usize) -> (kept: Vec<String>)
    ensures
        kept@ == last_of(lines@, limit),
{
    if lines.len() > limit {
        let ghost all = lines@;
        let mut lines = lines;
        let start: usize = lines.len() - limit;
        let kept = lines.split_off(start);
        assert(kept@ =~= all.skip(all.len() - limit)) by {
            assert(all.skip(start as int) =~= all.subrange(start as int, all.len() as int));
        }
        kept
    } else {
        lines
    }
}

} // verus!
