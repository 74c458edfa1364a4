//! Where a time of day falls in an ordered list of trading windows.

use crate::clock::Time;
use crate::market::TradeSession;
use vstd::prelude::*;

verus! {

/// Where a time of day falls in a list of trading windows.
#[derive(Debug, Copy, Clone, Eq, PartialEq, Structural)]
pub enum FindSessionResult {
    /// Before the first window opens, or the list is empty.
    BeforeFirst,
    /// Inside the window at this index.
    Between(usize),
    /// Past the end of the window at this index and before the next one opens.
    After(usize),
}

/// Whether the time of day `time` is past the window: the window had opened
/// by then and no longer holds the time.
pub open spec fn past(window: TradeSession, time: int) -> bool {
    window.start@ <= time && !window.spec_contains(time)
}

/// Whether `time` is past each of the first `n` windows.
pub open spec fn past_first(windows: Seq<TradeSession>, time: int, n: int) -> bool {
    forall|j: int| 0 <= j < n ==> past(#[trigger] windows[j], time)
}

/// Whether `result` says where `time` falls among `windows`: inside the
/// first window that holds it, provided it is past all the windows before;
/// otherwise after the last window that it is past; otherwise before the
/// first.
pub open spec fn locates(windows: Seq<TradeSession>, time: int, result: FindSessionResult) -> bool {
    match result {
        FindSessionResult::BeforeFirst => windows.len() == 0 || time < windows[0].start@,
        FindSessionResult::Between(n) => {
            &&& n < windows.len()
            &&& past_first(windows, time, n as int)
            &&& windows[n as int].spec_contains(time)
        },
        FindSessionResult::After(n) => {
            &&& n < windows.len()
            &&& past_first(windows, time, n + 1)
            &&& (n + 1 == windows.len() || time < windows[n + 1].start@)
        },
    }
}

/// The place of `time` among the windows from index `from` on, given that it
/// is past all the windows before `from`.
pub open spec fn find_from(windows: Seq<TradeSession>, time: int, from: int) -> FindSessionResult
    decreases windows.len() - from,
{
    if from < 0 || from >= windows.len() {
        if windows.len() == 0 {
            FindSessionResult::BeforeFirst
        } else {
            FindSessionResult::After((windows.len() - 1) as usize)
        }
    } else if time < windows[from].start@ {
        if from == 0 {
            FindSessionResult::BeforeFirst
        } else {
            FindSessionResult::After((from - 1) as usize)
        }
    } else if windows[from].spec_contains(time) {
        FindSessionResult::Between(from as usize)
    } else {
        find_from(windows, time, from + 1)
    }
}

/// The place of `time` among `windows`.
pub open spec fn spec_find_session(windows: Seq<TradeSession>, time: int) -> FindSessionResult {
    find_from(windows, time, 0)
}

/// Whether the windows are in ascending order and apart: each one opens no
/// earlier than the ones before it and only once they have closed.
pub open spec fn ascending(windows: Seq<TradeSession>) -> bool {
    forall|i: int, j: int|
        0 <= i < j < windows.len() ==> {
            &&& (#[trigger] windows[i]).start@ <= (#[trigger] windows[j]).start@
            &&& windows[i].end@ <= windows[j].start@
            &&& windows[i].inclusive ==> windows[i].end@ < windows[j].start@
        }
}

/// `find_from` locates the time, once the time is past all the windows
/// before `from`.
pub proof fn lemma_find_from_locates(windows: Seq<TradeSession>, time: int, from: int)
    requires
        0 <= from <= windows.len(),
        windows.len() <= usize::MAX,
        past_first(windows, time, from),
    ensures
        locates(windows, time, find_from(windows, time, from)),
    decreases windows.len() - from,
{
    if from < windows.len() && !(time < windows[from].start@) && !windows[from].spec_contains(
        time,
    ) {
        lemma_find_from_locates(windows, time, from + 1);
    }
}

/// The place that `spec_find_session` gives is the one that `locates`
/// describes.
pub proof fn lemma_find_session_locates(windows: Seq<TradeSession>, time: int)
    requires
        windows.len() <= usize::MAX,
    ensures
        locates(windows, time, spec_find_session(windows, time)),
{
    lemma_find_from_locates(windows, time, 0);
}

/// At most one place is the one that `locates` describes.
pub proof fn lemma_locates_unique(
    windows: Seq<TradeSession>,
    time: int,
    a: FindSessionResult,
    b: FindSessionResult,
)
    requires
        locates(windows, time, a),
        locates(windows, time, b),
    ensures
        a == b,
{
    let stop_a: int = match a {
        FindSessionResult::BeforeFirst => 0,
        FindSessionResult::Between(n) => n as int,
        FindSessionResult::After(n) => n + 1,
    };
    let stop_b: int = match b {
        FindSessionResult::BeforeFirst => 0,
        FindSessionResult::Between(n) => n as int,
        FindSessionResult::After(n) => n + 1,
    };
    if stop_a < stop_b {
        assert(past(windows[stop_a], time));
    } else if stop_b < stop_a {
        assert(past(windows[stop_b], time));
    }
}

/// In a list of windows that are in ascending order and apart, the window
/// that the result names is the last one that had opened by `time`; before
/// the first window none had.
pub proof fn lemma_last_opened(windows: Seq<TradeSession>, time: int)
    requires
        windows.len() <= usize::MAX,
        ascending(windows),
    ensures
        match spec_find_session(windows, time) {
            FindSessionResult::BeforeFirst => forall|j: int|
                0 <= j < windows.len() ==> time < (#[trigger] windows[j]).start@,
            FindSessionResult::Between(n) | FindSessionResult::After(n) => {
                &&& windows[n as int].start@ <= time
                &&& forall|j: int| n < j < windows.len() ==> time < (#[trigger] windows[j]).start@
            },
        },
{
    lemma_find_session_locates(windows, time);
    match spec_find_session(windows, time) {
        FindSessionResult::BeforeFirst => {
            assert forall|j: int| 0 <= j < windows.len() implies time < (
            #[trigger] windows[j]).start@ by {
                if j > 0 {
                    assert(windows[0].start@ <= windows[j].start@);
                }
            }
        },
        FindSessionResult::Between(n) => {
            assert forall|j: int| n < j < windows.len() implies time < (
            #[trigger] windows[j]).start@ by {
                assert(windows[n as int].end@ <= windows[j].start@);
            }
        },
        FindSessionResult::After(n) => {
            assert(past(windows[n as int], time));
            assert forall|j: int| n < j < windows.len() implies time < (
            #[trigger] windows[j]).start@ by {
                if j > n + 1 {
                    assert(windows[n + 1].start@ <= windows[j].start@);
                }
            }
        },
    }
}

/// Whether each window is in order with the one after it: it opens no later
/// and has closed when the next one opens.
pub open spec fn neighbours_ascending(windows: Seq<TradeSession>) -> bool {
    forall|i: int|
        0 <= i < windows.len() - 1 ==> {
            &&& (#[trigger] windows[i]).start@ <= windows[i + 1].start@
            &&& windows[i].end@ <= windows[i + 1].start@
            &&& windows[i].inclusive ==> windows[i].end@ < windows[i + 1].start@
        }
}

/// Windows that are in order with their neighbours are in order throughout.
pub proof fn lemma_neighbours_ascending(windows: Seq<TradeSession>)
    ensures
        neighbours_ascending(windows) <==> ascending(windows),
{
    if neighbours_ascending(windows) {
        assert forall|i: int, j: int| 0 <= i < j < windows.len() implies {
            &&& (#[trigger] windows[i]).start@ <= (#[trigger] windows[j]).start@
            &&& windows[i].end@ <= windows[j].start@
            &&& windows[i].inclusive ==> windows[i].end@ < windows[j].start@
        } by {
            lemma_starts_ascend(windows, i + 1, j);
        }
    }
    if ascending(windows) {
        assert forall|i: int| 0 <= i < windows.len() - 1 implies {
            &&& (#[trigger] windows[i]).start@ <= windows[i + 1].start@
            &&& windows[i].end@ <= windows[i + 1].start@
            &&& windows[i].inclusive ==> windows[i].end@ < windows[i + 1].start@
        } by {
            assert(windows[i].start@ <= windows[i + 1].start@);
        }
    }
}

/// Among windows that are in order with their neighbours, a later window
/// opens no earlier.
proof fn lemma_starts_ascend(windows: Seq<TradeSession>, i: int, j: int)
    requires
        neighbours_ascending(windows),
        0 <= i <= j < windows.len(),
    ensures
        windows[i].start@ <= windows[j].start@,
    decreases j - i,
{
    if i < j {
        lemma_starts_ascend(windows, i, j - 1);
        assert(windows[j - 1].start@ <= windows[j - 1 + 1].start@);
    }
}

/// Whether the windows are in ascending order and apart.
pub fn is_ascending(windows: &Vec<TradeSession>) -> (r: bool)
    ensures
        r == ascending(windows@),
{
    proof {
        lemma_neighbours_ascending(windows@);
    }
    let mut idx: usize = 1;
    while idx < windows.len()
        invariant
            1 <= idx,
            forall|i: int|
                0 <= i < idx - 1 && i < windows.len() - 1 ==> {
                    &&& (#[trigger] windows@[i]).start@ <= windows@[i + 1].start@
                    &&& windows@[i].end@ <= windows@[i + 1].start@
                    &&& windows@[i].inclusive ==> windows@[i].end@ < windows@[i + 1].start@
                },
        decreases windows.len() - idx,
    {
        let before: TradeSession = windows[idx - 1];
        let next: u64 = windows[idx].start.as_nanos();
        let start: u64 = before.start.as_nanos();
        let end: u64 = before.end.as_nanos();
        if !(start <= next && end <= next && (!before.inclusive || end < next)) {
            assert(!neighbours_ascending(windows@)) by {
                let i = idx - 1;
                assert(windows@[i].start@ == start);
            }
            return false;
        }
        idx += 1;
    }
    true
}

/// Finds where `time` falls among `windows`, scanning them in order.
pub fn find_session(windows: &Vec<TradeSession>, time: Time) -> (r: FindSessionResult)
    ensures
        r == spec_find_session(windows@, time@),
        locates(windows@, time@, r),
{
    let t: u64 = time.as_nanos();
    let mut idx: usize = 0;
    while idx < windows.len()
        invariant
            0 <= idx <= windows.len(),
            t == time@,
            past_first(windows@, time@, idx as int),
            find_from(windows@, time@, idx as int) == spec_find_session(windows@, time@),
        decreases windows.len() - idx,
    {
        let window: TradeSession = windows[idx];
        if t < window.start.as_nanos() {
            proof {
                lemma_find_session_locates(windows@, time@);
            }
            if idx == 0 {
                return FindSessionResult::BeforeFirst;
            } else {
                return FindSessionResult::After(idx - 1);
            }
        } else if window.contains(time) {
            proof {
                lemma_find_session_locates(windows@, time@);
            }
            return FindSessionResult::Between(idx);
        }
        idx += 1;
    }
    proof {
        lemma_find_session_locates(windows@, time@);
    }
    if windows.len() == 0 {
        FindSessionResult::BeforeFirst
    } else {
        FindSessionResult::After(windows.len() - 1)
    }
}

} // verus!
