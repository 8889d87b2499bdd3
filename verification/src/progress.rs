//! Progress tracking: the counters reported while a repository is
//! transferred and checked out, and the one-line status text made of them.

use vstd::prelude::*;
use crate::text::{decimal, pad_left, push_decimal, push_padded};

verus! {

/// A snapshot of the counters of a running transfer.
#[derive(Clone, Copy, Debug, PartialEq, Eq, Structural)]
pub struct TransferProgress {
    pub received_objects: usize,
    pub total_objects: usize,
    pub indexed_objects: usize,
    pub total_deltas: usize,
    pub indexed_deltas: usize,
    pub received_bytes: usize,
}

/// What is known of the progress of one clone: the latest transfer
/// snapshot, the latest checkout step, and whether the display has
/// already moved on to the delta-resolution line.
#[derive(Clone, Debug)]
pub struct State {
    pub progress: Option<TransferProgress>,
    pub total: usize,
    pub current: usize,
    pub path: Option<String>,
    pub newline: bool,
}

/// `100 * num / den` rounded down and capped at 100; zero when there is
/// nothing to measure against.
pub open spec fn percent_of(num: nat, den: nat) -> nat {
    if den == 0 {
        0
    } else if 100 * num / den > 100 {
        100
    } else {
        100 * num / den
    }
}

/// The share of objects received so far, in percent.
pub open spec fn network_percent(stats: TransferProgress) -> nat {
    percent_of(stats.received_objects as nat, stats.total_objects as nat)
}

/// The share of objects indexed so far, in percent.
pub open spec fn index_percent(stats: TransferProgress) -> nat {
    percent_of(stats.indexed_objects as nat, stats.total_objects as nat)
}

/// The counters shown while no snapshot has arrived yet.
pub open spec fn no_transfer() -> TransferProgress {
    TransferProgress {
        received_objects: 0,
        total_objects: 0,
        indexed_objects: 0,
        total_deltas: 0,
        indexed_deltas: 0,
        received_bytes: 0,
    }
}

/// The text of an optional path; empty when there is none.
pub open spec fn path_text(path: Option<String>) -> Seq<char> {
    match path {
        Some(p) => p@,
        None => Seq::empty(),
    }
}

/// The line shown once every object has been received.
pub open spec fn delta_line(stats: TransferProgress) -> Seq<char> {
    "Resolving deltas "@ + decimal(stats.indexed_deltas as nat) + "/"@ + decimal(
        stats.total_deltas as nat,
    ) + "\r"@
}

/// The combined line: network, index and checkout progress side by side.
pub open spec fn status_line(
    stats: TransferProgress,
    current: nat,
    total: nat,
    path: Seq<char>,
) -> Seq<char> {
    "net "@ + pad_left(decimal(network_percent(stats)), 3) + "% ("@ + pad_left(
        decimal(stats.received_bytes as nat / 1024),
        4,
    ) + " kb, "@ + pad_left(decimal(stats.received_objects as nat), 5) + "/"@ + pad_left(
        decimal(stats.total_objects as nat),
        5,
    ) + ")  /  idx "@ + pad_left(decimal(index_percent(stats)), 3) + "% ("@ + pad_left(
        decimal(stats.indexed_objects as nat),
        5,
    ) + "/"@ + pad_left(decimal(stats.total_objects as nat), 5) + ")  /  chk "@ + pad_left(
        decimal(percent_of(current, total)),
        3,
    ) + "% ("@ + pad_left(decimal(current), 4) + "/"@ + pad_left(decimal(total), 4) + ") "@
        + path + "\r"@
}

/// Integer percentage of `num` in `den`, never above 100 and zero for an
/// empty total.
pub fn percent(num: usize, den: usize) -> (p: usize)
    ensures
        p == percent_of(num as nat, den as nat),
        p <= 100,
        den == 0 ==> p == 0,
{
    if den == 0 {
        return 0;
    }
    let scaled: u128 = 100u128 * (num as u128);
    let q: u128 = scaled / (den as u128);
    if q > 100 {
        100
    } else {
        q as usize
    }
}

impl State {
    /// The snapshot that the display goes by.
    pub open spec fn stats(&self) -> TransferProgress {
        match self.progress {
            Some(stats) => stats,
            None => no_transfer(),
        }
    }

    /// Whether the display shows delta resolution: a snapshot has arrived
    /// and every object in it has been received.
    pub open spec fn resolving(&self) -> bool {
        match self.progress {
            Some(stats) => stats.received_objects == stats.total_objects,
            None => false,
        }
    }

    /// The text that a render of this state writes.
    pub open spec fn rendered(&self) -> Seq<char> {
        if self.resolving() {
            if self.newline {
                delta_line(self.stats())
            } else {
                "\n"@ + delta_line(self.stats())
            }
        } else {
            status_line(
                self.stats(),
                self.current as nat,
                self.total as nat,
                path_text(self.path),
            )
        }
    }

    /// The state that a render leaves behind: only the transition mark
    /// can change, and it is set once delta resolution has been shown.
    pub open spec fn after_render(&self) -> State {
        State {
            progress: self.progress,
            total: self.total,
            current: self.current,
            path: self.path,
            newline: self.newline || self.resolving(),
        }
    }

    /// A tracker for a fresh clone: nothing received, nothing checked out.
    pub fn new() -> (state: State)
        ensures
            state.progress is None,
            state.total == 0,
            state.current == 0,
            state.path is None,
            !state.newline,
    {
        State { progress: None, total: 0, current: 0, path: None, newline: false }
    }

    /// The state after a transfer snapshot has arrived and been shown.
    pub open spec fn with_transfer(&self, stats: TransferProgress) -> State {
        State {
            progress: Some(stats),
            total: self.total,
            current: self.current,
            path: self.path,
            newline: self.newline,
        }
    }

    /// The state after a checkout step has arrived.
    pub open spec fn with_checkout(&self, path: Option<String>, current: usize, total: usize)
        -> State {
        State {
            progress: self.progress,
            total: total,
            current: current,
            path: path,
            newline: self.newline,
        }
    }

    /// Takes in the latest transfer snapshot. Returns the status text to
    /// show for it, and whether the transfer is to go on: it always is,
    /// a transfer is never called off.
    pub fn record_transfer(&mut self, stats: TransferProgress) -> (shown: (String, bool))
        ensures
            shown.0@ == old(self).with_transfer(stats).rendered(),
            shown.1,
            *final(self) == old(self).with_transfer(stats).after_render(),
    {
        self.progress = Some(stats);
        (self.render(), true)
    }

    /// Takes in the latest checkout step (the file being written, its
    /// number and the number of files in all) and returns the status text
    /// to show for it.
    pub fn record_checkout_step(&mut self, path: Option<String>, current: usize, total: usize)
        -> (line: String)
        ensures
            line@ == old(self).with_checkout(path, current, total).rendered(),
            *final(self) == old(self).with_checkout(path, current, total).after_render(),
    {
        self.path = path;
        self.current = current;
        self.total = total;
        self.render()
    }

    /// Produces the status text for the current counters and remembers
    /// whether the delta-resolution line has been started.
    pub fn render(&mut self) -> (line: String)
        ensures
            line@ == old(self).rendered(),
            *final(self) == old(self).after_render(),
    {
        let mut out = String::new();
        let stats = match self.progress {
            Some(stats) => stats,
            None => TransferProgress {
                received_objects: 0,
                total_objects: 0,
                indexed_objects: 0,
                total_deltas: 0,
                indexed_deltas: 0,
                received_bytes: 0,
            },
        };
        let resolving = match self.progress {
            Some(s) => s.received_objects == s.total_objects,
            None => false,
        };
        if resolving {
            if !self.newline {
                out.append("\n");
                self.newline = true;
            }
            let ghost head = out@;
            out.append("Resolving deltas ");
            push_decimal(&mut out, stats.indexed_deltas);
            out.append("/");
            push_decimal(&mut out, stats.total_deltas);
            out.append("\r");
            assert(out@ =~= head + delta_line(stats));
            assert(out@ =~= old(self).rendered());
        } else {
            let network_pct = percent(stats.received_objects, stats.total_objects);
            let index_pct = percent(stats.indexed_objects, stats.total_objects);
            let co_pct = percent(self.current, self.total);
            let kbytes = stats.received_bytes / 1024;
            out.append("net ");
            push_padded(&mut out, network_pct, 3);
            out.append("% (");
            push_padded(&mut out, kbytes, 4);
            out.append(" kb, ");
            push_padded(&mut out, stats.received_objects, 5);
            out.append("/");
            push_padded(&mut out, stats.total_objects, 5);
            out.append(")  /  idx ");
            push_padded(&mut out, index_pct, 3);
            out.append("% (");
            push_padded(&mut out, stats.indexed_objects, 5);
            out.append("/");
            push_padded(&mut out, stats.total_objects, 5);
            out.append(")  /  chk ");
            push_padded(&mut out, co_pct, 3);
            out.append("% (");
            push_padded(&mut out, self.current, 4);
            out.append("/");
            push_padded(&mut out, self.total, 4);
            out.append(") ");
            match &self.path {
                Some(p) => {
                    out.append(p.as_str());
                },
                None => {},
            }
            out.append("\r");
            assert(out@ =~= old(self).rendered());
        }
        out
    }
}

/// A percentage never leaves the range from 0 to 100.
pub proof fn law_percent_in_range(num: nat, den: nat)
    ensures
        0 <= percent_of(num, den) <= 100,
{
}

/// With nothing to measure against, a percentage is zero: a checkout of
/// no files shows 0%.
pub proof fn law_percent_of_nothing(num: nat)
    ensures
        percent_of(num, 0) == 0,
{
}

/// Against a fixed total, a counter that does not fall gives a percentage
/// that does not fall.
pub proof fn law_percent_monotonic(earlier: nat, later: nat, den: nat)
    requires
        earlier <= later,
    ensures
        percent_of(earlier, den) <= percent_of(later, den),
{
    if den > 0 {
        assert(100 * earlier / den <= 100 * later / den) by (nonlinear_arith)
            requires
                earlier <= later,
                den > 0,
        ;
    }
}

/// Between two snapshots of one transfer, of which the later has received
/// and indexed at least as much of the same total, neither the network nor
/// the index percentage falls, and both stay within 0 to 100.
pub proof fn law_transfer_percentages_monotonic(earlier: TransferProgress, later: TransferProgress)
    requires
        earlier.total_objects == later.total_objects,
        earlier.received_objects <= later.received_objects,
        earlier.indexed_objects <= later.indexed_objects,
    ensures
        network_percent(earlier) <= network_percent(later) <= 100,
        index_percent(earlier) <= index_percent(later) <= 100,
{
    law_percent_monotonic(
        earlier.received_objects as nat,
        later.received_objects as nat,
        later.total_objects as nat,
    );
    law_percent_monotonic(
        earlier.indexed_objects as nat,
        later.indexed_objects as nat,
        later.total_objects as nat,
    );
}

/// Once the delta-resolution line has been started it stays started: a
/// render never clears the transition mark, so the line break that opens
/// it is written at most once per tracker.
pub proof fn law_transition_is_kept(state: State)
    ensures
        state.newline ==> state.after_render().newline,
        state.after_render().resolving() ==> state.after_render().rendered() == delta_line(
            state.stats(),
        ),
{
}

} // verus!
