//! Click-gesture classification: a bounded most-recent-first history of
//! clicks, and the test whether the newest `n` of them form an n-click
//! (every adjacent pair close in space and in time).
use vstd::prelude::*;

verus! {

/// One recorded click: a pixel position and a timestamp in milliseconds.
#[derive(Clone, Copy, Debug, PartialEq, Eq, Structural)]
pub struct ClickHistoryEntry {
    pub x: i32,
    pub y: i32,
    pub time_ms: u64,
}

/// The history keeps at most this many entries.
pub const MAX_ENTRIES: usize = 4;

/// Squared spatial threshold: adjacent clicks of a multi-click lie at
/// Euclidean distance at most 2 pixels, so squared distance at most 4.
pub const MAX_DISTANCE_SQUARED: i64 = 4;

/// Temporal threshold between adjacent clicks of a multi-click.
pub const MAX_INTERVAL_MS: u64 = 500;

/// Squared Euclidean distance between two click positions.
pub open spec fn dist_sq(a: ClickHistoryEntry, b: ClickHistoryEntry) -> int {
    (a.x - b.x) * (a.x - b.x) + (a.y - b.y) * (a.y - b.y)
}

/// Time elapsed from the older entry `b` to the newer entry `a`;
/// zero if the timestamps are out of order.
pub open spec fn interval_ms(a: ClickHistoryEntry, b: ClickHistoryEntry) -> int {
    if a.time_ms >= b.time_ms {
        a.time_ms - b.time_ms
    } else {
        0
    }
}

/// Two adjacent clicks belong to the same multi-click gesture.
pub open spec fn close_pair(a: ClickHistoryEntry, b: ClickHistoryEntry) -> bool {
    &&& dist_sq(a, b) <= MAX_DISTANCE_SQUARED
    &&& interval_ms(a, b) <= MAX_INTERVAL_MS
}

/// The most recent `n` entries of `h` (most recent first) form an n-click:
/// there are at least `n` of them and every adjacent pair is close.
pub open spec fn is_n_click(h: Seq<ClickHistoryEntry>, n: int) -> bool {
    &&& n <= h.len()
    &&& forall|i: int| 0 <= i < n - 1 ==> close_pair(#[trigger] h[i], h[i + 1])
}

/// A bounded most-recent-first sequence of clicks for one pointer device.
#[derive(Debug)]
pub struct ClickHistory {
    /// Index 0 is the most recent click.
    pub history: Vec<ClickHistoryEntry>,
}

/// The new front of the history after recording `e`: `e` itself followed
/// by the previous entries, keeping room within the capacity.
pub open spec fn recorded(h: Seq<ClickHistoryEntry>, e: ClickHistoryEntry) -> Seq<
    ClickHistoryEntry,
> {
    seq![e] + h.take(if h.len() >= MAX_ENTRIES { MAX_ENTRIES - 1 } else { h.len() as int })
}

impl ClickHistory {
    pub fn new() -> (h: Self)
        ensures
            h.history@ =~= Seq::<ClickHistoryEntry>::empty(),
    {
        ClickHistory { history: Vec::new() }
    }

    /// Record a click, evicting the oldest entries so that the history
    /// never exceeds its capacity.
    pub fn add_entry(&mut self, x: i32, y: i32, time_ms: u64)
        ensures
            final(self).history@ == recorded(
                old(self).history@,
                ClickHistoryEntry { x, y, time_ms },
            ),
            final(self).history@.len() <= MAX_ENTRIES,
    {
        proof {
            assert(old(self).history@.take(old(self).history@.len() as int) =~= old(
                self,
            ).history@);
        }
        // drop down to the most recent entries, with room for one more
        while self.history.len() >= MAX_ENTRIES
            invariant
                self.history@ =~= old(self).history@.take(self.history@.len() as int),
                self.history@.len() <= old(self).history@.len(),
                old(self).history@.len() >= MAX_ENTRIES ==> self.history@.len() >= MAX_ENTRIES
                    - 1,
                old(self).history@.len() < MAX_ENTRIES ==> self.history@.len() == old(
                    self,
                ).history@.len(),
            decreases self.history@.len(),
        {
            let ghost prev = self.history@;
            self.history.pop();
            proof {
                assert(self.history@ =~= old(self).history@.take(self.history@.len() as int));
            }
        }
        proof {
            assert(self.history@ =~= old(self).history@.take(
                if old(self).history@.len() >= MAX_ENTRIES {
                    MAX_ENTRIES - 1
                } else {
                    old(self).history@.len() as int
                },
            ));
        }
        // add the new entry at the front
        self.history.insert(0, ClickHistoryEntry { x, y, time_ms });
        proof {
            assert(self.history@ =~= recorded(
                old(self).history@,
                ClickHistoryEntry { x, y, time_ms },
            ));
        }
    }

    /// Does the newest portion of the history form a `times`-click?
    pub fn clicked(&self, times: usize) -> (r: bool)
        ensures
            r == is_n_click(self.history@, times as int),
    {
        let len = self.history.len();
        if len < times {
            return false;
        }
        if times == 0 {
            return true;
        }
        let mut i: usize = 0;
        while i < times - 1
            invariant
                0 < times <= self.history@.len(),
                i <= times - 1,
                forall|j: int|
                    0 <= j < i ==> close_pair(#[trigger] self.history@[j], self.history@[j + 1]),
            decreases times - 1 - i,
        {
            let a = self.history[i];
            let b = self.history[i + 1];
            let dx: i64 = a.x as i64 - b.x as i64;
            let dy: i64 = a.y as i64 - b.y as i64;
            proof {
                assert((dx as i128) * (dx as i128) >= 0 && (dx as i128) * (dx as i128)
                    <= 0x2_0000_0000_0000_0000) by (nonlinear_arith)
                    requires
                        -0x1_0000_0000 <= dx as i128 <= 0x1_0000_0000,
                ;
                assert((dy as i128) * (dy as i128) >= 0 && (dy as i128) * (dy as i128)
                    <= 0x2_0000_0000_0000_0000) by (nonlinear_arith)
                    requires
                        -0x1_0000_0000 <= dy as i128 <= 0x1_0000_0000,
                ;
            }
            let dsq: i128 = (dx as i128) * (dx as i128) + (dy as i128) * (dy as i128);
            assert(dsq == dist_sq(a, b));
            if dsq > MAX_DISTANCE_SQUARED as i128 {
                return false;
            }
            let delta: u64 = if a.time_ms >= b.time_ms {
                a.time_ms - b.time_ms
            } else {
                0
            };
            if delta > MAX_INTERVAL_MS {
                return false;
            }
            assert(close_pair(self.history@[i as int], self.history@[i + 1]));
            i = i + 1;
        }
        true
    }
}

impl Default for ClickHistory {
    fn default() -> (h: Self)
        ensures
            h.history@ =~= Seq::<ClickHistoryEntry>::empty(),
    {
        ClickHistory::new()
    }
}

/// A history that has just recorded a click always classifies as a
/// single click: after any `add_entry` the history is non-empty, and a
/// one-entry prefix has no adjacent pair to test.
pub proof fn lemma_single_click(h: Seq<ClickHistoryEntry>)
    requires
        h.len() >= 1,
    ensures
        is_n_click(h, 1),
{
}

/// Recording never grows the history past its capacity, whatever was
/// there before.
pub proof fn lemma_capacity(h: Seq<ClickHistoryEntry>, e: ClickHistoryEntry)
    ensures
        recorded(h, e).len() <= MAX_ENTRIES,
        recorded(h, e).len() >= 1,
{
}


/// Three clicks within the spatial and temporal thresholds classify as
/// a triple click: when the three newest entries are pairwise close,
/// the history is a 3-click (and so also a 2-click and a 1-click).
pub proof fn lemma_triple_click(h: Seq<ClickHistoryEntry>)
    requires
        h.len() >= 3,
        close_pair(h[0], h[1]),
        close_pair(h[1], h[2]),
    ensures
        is_n_click(h, 3),
        is_n_click(h, 2),
        is_n_click(h, 1),
{
}

} // verus!
