//! Animation state for the interactive thread: spinner frames, pulse
//! phases and the textual progress bar.
//!
//! Frame choice depends on the wall clock, which no contract can pin down;
//! so each animation splits in two.  A trusted reading of the elapsed time
//! feeds a verified selector (`..._slot_frame`, `spec_is_bright_at`) whose
//! result is exact for every elapsed value, and the public methods promise
//! what holds of every outcome: the frame is one of the family's frames.

use vstd::prelude::*;
use vstd::string::StringExecFns;

verus! {

#[verifier::external_type_specification]
#[verifier::external_body]
pub struct ExInstant(std::time::Instant);

/// Relies on std::time::Instant::now: an opaque timestamp of the call.
#[verifier::external_body]
fn instant_now() -> std::time::Instant {
    std::time::Instant::now()
}

/// Relies on std::time::Instant::elapsed: the wall-clock time since
/// `start`, as whole milliseconds (truncated into a u64).
#[verifier::external_body]
fn elapsed_millis(start: &std::time::Instant) -> u64 {
    start.elapsed().as_millis() as u64
}

/// The spin-style frame shown at slot `slot` of its cycle.
pub open spec fn spec_spin_frame(slot: int) -> Seq<char> {
    if slot == 0 {
        "⠋"@
    } else if slot == 1 {
        "⠙"@
    } else if slot == 2 {
        "⠹"@
    } else if slot == 3 {
        "⠸"@
    } else if slot == 4 {
        "⠼"@
    } else if slot == 5 {
        "⠴"@
    } else if slot == 6 {
        "⠦"@
    } else if slot == 7 {
        "⠧"@
    } else if slot == 8 {
        "⠇"@
    } else {
        "⠏"@
    }
}

/// The dots-style frame shown at slot `slot` of its cycle.
pub open spec fn spec_dots_frame(slot: int) -> Seq<char> {
    if slot == 0 {
        "⣾"@
    } else if slot == 1 {
        "⣽"@
    } else if slot == 2 {
        "⣻"@
    } else if slot == 3 {
        "⢿"@
    } else if slot == 4 {
        "⡿"@
    } else if slot == 5 {
        "⣟"@
    } else if slot == 6 {
        "⣯"@
    } else {
        "⣷"@
    }
}

/// The blocks-style frame shown at slot `slot` of its cycle.
pub open spec fn spec_blocks_frame(slot: int) -> Seq<char> {
    if slot == 0 {
        "▁"@
    } else if slot == 1 {
        "▂"@
    } else if slot == 2 {
        "▃"@
    } else if slot == 3 {
        "▄"@
    } else if slot == 4 {
        "▅"@
    } else if slot == 5 {
        "▆"@
    } else if slot == 6 {
        "▇"@
    } else if slot == 7 {
        "█"@
    } else if slot == 8 {
        "▇"@
    } else if slot == 9 {
        "▆"@
    } else if slot == 10 {
        "▅"@
    } else if slot == 11 {
        "▄"@
    } else if slot == 12 {
        "▃"@
    } else {
        "▂"@
    }
}

/// The circle-style frame shown at slot `slot` of its cycle.
pub open spec fn spec_circle_frame(slot: int) -> Seq<char> {
    if slot == 0 {
        "◐"@
    } else if slot == 1 {
        "◓"@
    } else if slot == 2 {
        "◑"@
    } else {
        "◒"@
    }
}

/// The loading-style frame shown at slot `slot` of its cycle.
pub open spec fn spec_loading_frame(slot: int) -> Seq<char> {
    if slot == 0 {
        "⡀"@
    } else if slot == 1 {
        "⠄"@
    } else if slot == 2 {
        "⠂"@
    } else if slot == 3 {
        "⠁"@
    } else if slot == 4 {
        "⠈"@
    } else if slot == 5 {
        "⠐"@
    } else if slot == 6 {
        "⠠"@
    } else {
        "⢀"@
    }
}
/// Animation state for one spinner: when it started and how long one frame
/// of the main style lasts.
pub struct Spinner {
    start: std::time::Instant,
    frame_ms: u64,
}

impl Spinner {
    /// The length of one frame of the main style, in milliseconds.
    pub closed spec fn period(self) -> u64 {
        self.frame_ms
    }

    /// A spinner starting now, with the standard 100 ms frame.
    pub fn new() -> (r: Self)
        ensures
            r.period() == 100,
    {
        Spinner { start: instant_now(), frame_ms: 100 }
    }

    /// The spin-style frame for a cycle slot.
    fn spin_slot_frame(slot: u64) -> (r: &'static str)
        requires
            slot < 10,
        ensures
            r@ == spec_spin_frame(slot as int),
    {
        match slot {
            0 => "⠋",
            1 => "⠙",
            2 => "⠹",
            3 => "⠸",
            4 => "⠼",
            5 => "⠴",
            6 => "⠦",
            7 => "⠧",
            8 => "⠇",
            _ => "⠏",
        }
    }

    /// The dots-style frame for a cycle slot.
    fn dots_slot_frame(slot: u64) -> (r: &'static str)
        requires
            slot < 8,
        ensures
            r@ == spec_dots_frame(slot as int),
    {
        match slot {
            0 => "⣾",
            1 => "⣽",
            2 => "⣻",
            3 => "⢿",
            4 => "⡿",
            5 => "⣟",
            6 => "⣯",
            _ => "⣷",
        }
    }

    /// The blocks-style frame for a cycle slot.
    fn blocks_slot_frame(slot: u64) -> (r: &'static str)
        requires
            slot < 14,
        ensures
            r@ == spec_blocks_frame(slot as int),
    {
        match slot {
            0 => "▁",
            1 => "▂",
            2 => "▃",
            3 => "▄",
            4 => "▅",
            5 => "▆",
            6 => "▇",
            7 => "█",
            8 => "▇",
            9 => "▆",
            10 => "▅",
            11 => "▄",
            12 => "▃",
            _ => "▂",
        }
    }

    /// The circle-style frame for a cycle slot.
    fn circle_slot_frame(slot: u64) -> (r: &'static str)
        requires
            slot < 4,
        ensures
            r@ == spec_circle_frame(slot as int),
    {
        match slot {
            0 => "◐",
            1 => "◓",
            2 => "◑",
            _ => "◒",
        }
    }

    /// The loading-style frame for a cycle slot.
    fn loading_slot_frame(slot: u64) -> (r: &'static str)
        requires
            slot < 8,
        ensures
            r@ == spec_loading_frame(slot as int),
    {
        match slot {
            0 => "⡀",
            1 => "⠄",
            2 => "⠂",
            3 => "⠁",
            4 => "⠈",
            5 => "⠐",
            6 => "⠠",
            _ => "⢀",
        }
    }

    /// The current frame of the main braille spinner; always one of its ten
    /// frames, advancing one slot per period.
    pub fn frame(&self) -> (r: &'static str)
        requires
            self.period() > 0,
        ensures
            exists|slot: int| 0 <= slot < 10 && r@ == spec_spin_frame(slot),
    {
        let elapsed = elapsed_millis(&self.start);
        Self::spin_slot_frame((elapsed / self.frame_ms) % 10)
    }

    /// The current frame of the dotted spinner (80 ms per frame); always
    /// one of its eight frames.
    pub fn dots_frame(&self) -> (r: &'static str)
        ensures
            exists|slot: int| 0 <= slot < 8 && r@ == spec_dots_frame(slot),
    {
        let elapsed = elapsed_millis(&self.start);
        Self::dots_slot_frame((elapsed / 80) % 8)
    }

    /// The current frame of the rising-and-falling block spinner (60 ms per
    /// frame); always one of its fourteen frames.
    pub fn blocks_frame(&self) -> (r: &'static str)
        ensures
            exists|slot: int| 0 <= slot < 14 && r@ == spec_blocks_frame(slot),
    {
        let elapsed = elapsed_millis(&self.start);
        Self::blocks_slot_frame((elapsed / 60) % 14)
    }

    /// The current frame of the circle spinner (120 ms per frame); always
    /// one of its four frames.
    pub fn circle_frame(&self) -> (r: &'static str)
        ensures
            exists|slot: int| 0 <= slot < 4 && r@ == spec_circle_frame(slot),
    {
        let elapsed = elapsed_millis(&self.start);
        Self::circle_slot_frame((elapsed / 120) % 4)
    }

    /// The current frame of the loading spinner (90 ms per frame); always
    /// one of its eight frames.
    pub fn loading_frame(&self) -> (r: &'static str)
        ensures
            exists|slot: int| 0 <= slot < 8 && r@ == spec_loading_frame(slot),
    {
        let elapsed = elapsed_millis(&self.start);
        Self::loading_slot_frame((elapsed / 90) % 8)
    }
}

impl Default for Spinner {
    /// The same spinner `new` builds.
    fn default() -> (r: Self)
        ensures
            r.period() == 100,
    {
        Self::new()
    }
}

/// Whether a pulse that started `elapsed_ms` ago, cycling every `cycle_ms`,
/// is in the bright half of its cycle: the first half, borders excluded,
/// where the sinusoidal opacity stands above one half.
pub open spec fn spec_is_bright_at(elapsed_ms: u64, cycle_ms: u64) -> bool {
    cycle_ms > 0 && {
        let r = elapsed_ms as int % cycle_ms as int;
        r > 0 && 2 * r < cycle_ms
    }
}

/// A periodic pulse for highlighting: when it started and how long one full
/// cycle lasts.
pub struct Pulse {
    start: std::time::Instant,
    cycle_ms: u64,
}

impl Pulse {
    /// The length of one full pulse cycle, in milliseconds.
    pub closed spec fn cycle(self) -> u64 {
        self.cycle_ms
    }

    /// A pulse starting now with the given cycle length.
    pub fn new(duration_ms: u64) -> (r: Self)
        ensures
            r.cycle() == duration_ms,
    {
        Pulse { start: instant_now(), cycle_ms: duration_ms }
    }

    /// Whether the moment `elapsed_ms` into the pulse is bright.
    pub fn bright_at(elapsed_ms: u64, cycle_ms: u64) -> (r: bool)
        ensures
            r == spec_is_bright_at(elapsed_ms, cycle_ms),
    {
        if cycle_ms == 0 {
            false
        } else {
            let rem = elapsed_ms % cycle_ms;
            rem > 0 && rem < cycle_ms - rem
        }
    }

    /// Whether the pulse is currently in its bright phase.
    pub fn is_bright(&self) -> bool {
        let elapsed = elapsed_millis(&self.start);
        Self::bright_at(elapsed, self.cycle_ms)
    }
}

impl Default for Pulse {
    /// A pulse with the standard one-second cycle.
    fn default() -> (r: Self)
        ensures
            r.cycle() == 1000,
    {
        Self::new(1000)
    }
}

/// `n` copies of the character `c`.
pub open spec fn repeat_char(c: char, n: nat) -> Seq<char> {
    Seq::new(n, |i: int| c)
}

/// The eighth-block character for a partial cell, by eighths (defined for
/// 1..6).
pub open spec fn spec_partial_char(idx: int) -> Seq<char> {
    if idx == 1 {
        "▎"@
    } else if idx == 2 {
        "▍"@
    } else if idx == 3 {
        "▌"@
    } else if idx == 4 {
        "▋"@
    } else if idx == 5 {
        "▊"@
    } else {
        "▉"@
    }
}

/// The rendering of a progress bar of `width` cells at `p` percent: the
/// filled cells, then — when the remainder warrants one and room remains —
/// a partial cell, then the empty cells.
pub open spec fn spec_progress_bar(p: int, width: int) -> Seq<char> {
    let filled = width * p / 100;
    let empty = if width >= filled {
        width - filled
    } else {
        0
    };
    let pidx = (width * p) % 100 * 7 / 100;
    repeat_char('█', filled as nat) + if 0 < pidx < 7 && empty > 0 {
        spec_partial_char(pidx) + repeat_char('░', (empty - 1) as nat)
    } else {
        repeat_char('░', empty as nat)
    }
}

/// Renders a textual progress bar of `width` cells at `percentage` percent,
/// with a partial-block character at the boundary when the percentage does
/// not land on a whole cell.
#[verifier::loop_isolation(false)]
pub fn progress_bar(percentage: u16, width: usize) -> (r: String)
    requires
        width * percentage <= u64::MAX,
        width * percentage / 100 <= usize::MAX,
    ensures
        r@ =~= spec_progress_bar(percentage as int, width as int),
{
    proof {
        reveal_strlit("█");
        reveal_strlit("░");
    }
    let scaled: u64 = (width as u64) * (percentage as u64);
    let filled: usize = (scaled / 100) as usize;
    let empty: usize = if width >= filled {
        width - filled
    } else {
        0
    };
    let partial_index: u64 = scaled % 100 * 7 / 100;

    let mut bar = String::new();
    for i in 0..filled
        invariant
            bar@ =~= repeat_char('█', i as nat),
    {
        bar.append("█");
        proof {
            assert(bar@ =~= repeat_char('█', (i + 1) as nat));
        }
    }
    let tail_len: usize = if partial_index > 0 && partial_index < 7 && empty > 0 {
        bar.append(partial_str(partial_index));
        empty - 1
    } else {
        empty
    };
    let ghost mid = bar@;
    for i in 0..tail_len
        invariant
            bar@ =~= mid + repeat_char('░', i as nat),
    {
        bar.append("░");
        proof {
            assert(bar@ =~= mid + repeat_char('░', (i + 1) as nat));
        }
    }
    bar
}

/// The partial-block character for eighth `idx`.
fn partial_str(idx: u64) -> (r: &'static str)
    requires
        0 < idx < 7,
    ensures
        r@ == spec_partial_char(idx as int),
{
    match idx {
        1 => "▎",
        2 => "▍",
        3 => "▌",
        4 => "▋",
        5 => "▊",
        _ => "▉",
    }
}

} // verus!
