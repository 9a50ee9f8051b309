//! The lamp-mode state machine.
//!
//! Cycles normally drive the instruments. After five instrument cycles in a
//! row the machine enters lamp mode, in which only the lamps are driven, and
//! stays there until 120 seconds have passed since it entered. The mode is
//! decided once, at the start of a cycle, and holds for the whole cycle.
//!
//! The machine is in lamp mode exactly while `lamp_mode_start` is set.

use vstd::prelude::*;

verus! {

/// Instrument cycles in a row after which lamp mode is entered.
pub const LAMP_ENTRY_COUNT: u32 = 5;

/// Seconds after which lamp mode is left.
pub const LAMP_TIMEOUT_SECS: u64 = 120;

/// What a cycle drives.
#[derive(Clone, Copy, Debug, PartialEq, Eq, Structural)]
pub enum Mode {
    Instrument,
    Lamp,
}

/// The counters behind the mode decision.
#[derive(Clone, Copy, Debug, PartialEq, Eq)]
pub struct LampModeState {
    /// Instrument cycles completed since the last lamp cycle.
    pub consecutive_count: u32,
    /// When lamp mode was entered, in seconds; unset outside lamp mode.
    pub lamp_mode_start: Option<u64>,
}

/// Seconds from `start` to `now`; none if the clock went back.
pub open spec fn elapsed(start: u64, now: u64) -> int {
    if now >= start {
        now - start
    } else {
        0
    }
}

impl LampModeState {
    /// The mode the machine is in.
    pub open spec fn mode(self) -> Mode {
        if self.lamp_mode_start is Some {
            Mode::Lamp
        } else {
            Mode::Instrument
        }
    }

    /// The state after the decision taken at `now`.
    ///
    /// In lamp mode the machine leaves once the timeout has passed, clearing
    /// both counters; outside it the machine enters once the count has
    /// reached the threshold, recording `now`. Otherwise nothing changes.
    pub open spec fn decided(self, now: u64) -> LampModeState {
        match self.lamp_mode_start {
            Some(start) => if elapsed(start, now) >= LAMP_TIMEOUT_SECS {
                LampModeState { consecutive_count: 0, lamp_mode_start: None }
            } else {
                self
            },
            None => if self.consecutive_count >= LAMP_ENTRY_COUNT {
                LampModeState {
                    consecutive_count: self.consecutive_count,
                    lamp_mode_start: Some(now),
                }
            } else {
                self
            },
        }
    }

    /// The state after a cycle that ran in mode `ran`: an instrument cycle
    /// adds one to the count, which stops at the largest `u32`; a lamp cycle
    /// resets it.
    pub open spec fn completed(self, ran: Mode) -> LampModeState {
        LampModeState {
            consecutive_count: match ran {
                Mode::Instrument => if self.consecutive_count < u32::MAX {
                    (self.consecutive_count + 1) as u32
                } else {
                    self.consecutive_count
                },
                Mode::Lamp => 0,
            },
            lamp_mode_start: self.lamp_mode_start,
        }
    }

    /// The state at start-up: instrument mode, nothing counted.
    pub fn new() -> (state: LampModeState)
        ensures
            state == (LampModeState { consecutive_count: 0, lamp_mode_start: None }),
    {
        LampModeState { consecutive_count: 0, lamp_mode_start: None }
    }

    /// Whether the machine is in lamp mode.
    pub fn is_lamp_mode(&self) -> (lamp: bool)
        ensures
            lamp == (self.mode() == Mode::Lamp),
    {
        self.lamp_mode_start.is_some()
    }

    /// Decides the mode of the cycle that starts at `now` seconds.
    pub fn decide(&mut self, now: u64) -> (mode: Mode)
        ensures
            *final(self) == old(self).decided(now),
            mode == final(self).mode(),
    {
        match self.lamp_mode_start {
            Some(start) => {
                let passed = now.saturating_sub(start);
                if passed >= LAMP_TIMEOUT_SECS {
                    self.lamp_mode_start = None;
                    self.consecutive_count = 0;
                    Mode::Instrument
                } else {
                    Mode::Lamp
                }
            },
            None => {
                if self.consecutive_count >= LAMP_ENTRY_COUNT {
                    self.lamp_mode_start = Some(now);
                    Mode::Lamp
                } else {
                    Mode::Instrument
                }
            },
        }
    }

    /// Records that a cycle has run in mode `ran`.
    pub fn complete_cycle(&mut self, ran: Mode)
        ensures
            *final(self) == old(self).completed(ran),
    {
        match ran {
            Mode::Instrument => {
                if self.consecutive_count < u32::MAX {
                    self.consecutive_count = self.consecutive_count + 1;
                }
            },
            Mode::Lamp => {
                self.consecutive_count = 0;
            },
        }
    }
}

/// Entry: in instrument mode with the count at the threshold, the next
/// decision is lamp mode, and it records the time of entry.
pub proof fn lemma_lamp_entry(state: LampModeState, now: u64)
    requires
        state.mode() == Mode::Instrument,
        state.consecutive_count >= LAMP_ENTRY_COUNT,
    ensures
        state.decided(now).mode() == Mode::Lamp,
        state.decided(now).lamp_mode_start == Some(now),
{
}

/// Exit: in lamp mode, once 120 seconds have passed since entry, the next
/// decision is instrument mode, and it clears the count and the time of
/// entry.
pub proof fn lemma_lamp_exit(state: LampModeState, start: u64, now: u64)
    requires
        state.lamp_mode_start == Some(start),
        now - start >= LAMP_TIMEOUT_SECS,
    ensures
        state.decided(now).mode() == Mode::Instrument,
        state.decided(now).consecutive_count == 0,
        state.decided(now).lamp_mode_start is None,
{
}

/// No flapping: the decision changes nothing while lamp mode is younger
/// than its timeout, nor while the count is below the threshold in
/// instrument mode; and a cycle's end never changes the mode.
pub proof fn lemma_mode_is_held(state: LampModeState, now: u64, ran: Mode)
    ensures
        state.lamp_mode_start matches Some(start) && elapsed(start, now) < LAMP_TIMEOUT_SECS
            ==> state.decided(now) == state,
        state.lamp_mode_start is None && state.consecutive_count < LAMP_ENTRY_COUNT
            ==> state.decided(now) == state,
        state.completed(ran).mode() == state.mode(),
{
}

/// From start-up, five instrument cycles lead into lamp mode at the sixth
/// decision, and not before.
pub proof fn lemma_five_cycles_to_lamp(now: u64)
    ensures
        ({
            let fresh = LampModeState { consecutive_count: 0, lamp_mode_start: None };
            let one = fresh.decided(now).completed(Mode::Instrument);
            let two = one.decided(now).completed(Mode::Instrument);
            let three = two.decided(now).completed(Mode::Instrument);
            let four = three.decided(now).completed(Mode::Instrument);
            let five = four.decided(now).completed(Mode::Instrument);
            &&& fresh.decided(now).mode() == Mode::Instrument
            &&& one.decided(now).mode() == Mode::Instrument
            &&& two.decided(now).mode() == Mode::Instrument
            &&& three.decided(now).mode() == Mode::Instrument
            &&& four.decided(now).mode() == Mode::Instrument
            &&& five.decided(now).mode() == Mode::Lamp
        }),
{
}

} // verus!
