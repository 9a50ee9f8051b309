//! The transmission scheduler, as the decisions it takes.
//!
//! Sending a message alternates waiting (for the serial line, for the tempo)
//! with deciding what comes next. The waiting belongs to the program that
//! runs the loop; the deciding is here, as steps from state to state:
//!
//! * [`Scheduler`] opens and closes a cycle: it settles the mode and the
//!   tempo.
//! * [`select_message`] picks the message of the cycle.
//! * [`Transmission`] walks through the message's Morse code, one symbol
//!   per step, and stops for good when the configuration has changed.
//! * [`settle`] records a send on the message, if it was completed.

use crate::draw::DrawSource;
use crate::lamp_mode::{LampModeState, Mode};
use crate::frame::Symbol;
use crate::message_transformer::{
    convert_space_message, dash_frame, dot_frame, is_frame_of, TransformerConfig,
};
use vstd::prelude::*;
use vstd::string::StrSliceExecFns;

verus! {

/// Tempo used where the configuration offers none, in milliseconds.
pub const DEFAULT_TEMPO_MS: u64 = 700;

/// Pause between two cycles, in seconds.
pub const INTER_CYCLE_DELAY_SECS: u64 = 5;

/// Tempo units that follow a dash, a space or a line break; a dot is
/// followed by one.
pub const LONG_PAUSE_UNITS: u64 = 4;

/// A message of the pool. Times are counted from the Unix epoch.
#[derive(Clone, Debug)]
pub struct Message {
    pub id: String,
    pub text: String,
    pub morse_code: String,
    pub created_at: i64,
    /// When the message was last sent in full; unset until then.
    pub last_sent: Option<i64>,
    /// How often the message was sent in full.
    pub send_count: u32,
}

impl Message {
    /// The message after a full send at `now`: the time is recorded and the
    /// count goes up by one, stopping at the largest `u32`.
    pub open spec fn sent_at(self, now: i64) -> Message {
        Message {
            last_sent: Some(now),
            send_count: if self.send_count < u32::MAX {
                (self.send_count + 1) as u32
            } else {
                self.send_count
            },
            ..self
        }
    }

    /// Records a full send at `now`.
    pub fn mark_sent(&mut self, now: i64)
        ensures
            *final(self) == old(self).sent_at(now),
    {
        self.last_sent = Some(now);
        if self.send_count < u32::MAX {
            self.send_count = self.send_count + 1;
        }
    }
}

/// Some message of the pool was never sent.
pub open spec fn has_unsent(pool: Seq<Message>) -> bool {
    exists|i: int| 0 <= i < pool.len() && (#[trigger] pool[i]).last_sent is None
}

/// The message at `index` is up for selection: it was never sent, or none
/// is left that was never sent.
pub open spec fn is_candidate(pool: Seq<Message>, index: int) -> bool {
    0 <= index < pool.len() && (pool[index].last_sent is None || !has_unsent(pool))
}

/// `indices` lists the candidates of the pool, each once, in rising order.
pub open spec fn lists_candidates(pool: Seq<Message>, indices: Seq<usize>) -> bool {
    &&& forall|j: int, k: int| 0 <= j < k < indices.len() ==> indices[j] < indices[k]
    &&& forall|k: int| 0 <= k < indices.len() ==> is_candidate(pool, #[trigger] indices[k] as int)
    &&& forall|i: int| #[trigger] is_candidate(pool, i) ==> indices.contains(i as usize)
}

/// Positions of the pool, in rising order: those of the messages never
/// sent when `only_unsent` holds, all positions otherwise.
fn positions(pool: &Vec<Message>, only_unsent: bool) -> (indices: Vec<usize>)
    ensures
        forall|j: int, k: int| 0 <= j < k < indices.len() ==> indices[j] < indices[k],
        forall|k: int|
            0 <= k < indices.len() ==> (#[trigger] indices[k]) < pool.len() && (only_unsent
                ==> pool[indices[k] as int].last_sent is None),
        forall|i: int|
            0 <= i < pool.len() && (only_unsent ==> (#[trigger] pool[i]).last_sent is None)
                ==> indices@.contains(i as usize),
{
    let mut indices: Vec<usize> = Vec::new();
    let mut i: usize = 0;
    while i < pool.len()
        invariant
            i <= pool.len(),
            forall|j: int, k: int| 0 <= j < k < indices.len() ==> indices[j] < indices[k],
            forall|k: int|
                0 <= k < indices.len() ==> (#[trigger] indices[k]) < i && (only_unsent
                    ==> pool[indices[k] as int].last_sent is None),
            forall|j: int|
                0 <= j < i && (only_unsent ==> (#[trigger] pool[j]).last_sent is None)
                    ==> indices@.contains(j as usize),
        decreases pool.len() - i,
    {
        if !only_unsent || pool[i].last_sent.is_none() {
            let ghost before = indices@;
            indices.push(i);
            proof {
                assert forall|j: int|
                    0 <= j < i + 1 && (only_unsent ==> (#[trigger] pool[j]).last_sent is None)
                    implies indices@.contains(j as usize) by {
                    if j < i {
                        let k = choose|k: int| 0 <= k < before.len() && before[k] == j as usize;
                        assert(indices@[k] == j as usize);
                    } else {
                        assert(indices@[before.len() as int] == j as usize);
                    }
                }
            }
        }
        i += 1;
    }
    indices
}

/// The messages up for selection: those never sent, or all of them once
/// every message has been sent.
pub fn candidates(pool: &Vec<Message>) -> (indices: Vec<usize>)
    ensures
        lists_candidates(pool@, indices@),
        indices.len() == 0 <==> pool.len() == 0,
{
    let unsent = positions(pool, true);
    if unsent.len() > 0 {
        proof {
            assert(pool[unsent[0] as int].last_sent is None);
        }
        unsent
    } else {
        let all = positions(pool, false);
        proof {
            assert forall|i: int| 0 <= i < pool.len() implies (#[trigger] pool[i]).last_sent
                is Some by {
                if pool[i].last_sent is None {
                    assert(unsent@.contains(i as usize));
                }
            }
            if pool.len() > 0 {
                assert(pool[0].last_sent is Some);
                assert(all@.contains(0usize));
            }
            if all.len() > 0 {
                assert(all[0] < pool.len());
            }
        }
        all
    }
}

/// Picks the message of a cycle: one never sent, each equally likely, or,
/// when all were sent, any one, each equally likely. An empty pool gives
/// none.
pub fn select_message(pool: &Vec<Message>, source: &mut DrawSource) -> (selected: Option<usize>)
    ensures
        selected is None <==> pool.len() == 0,
        selected matches Some(index) ==> is_candidate(pool@, index as int),
{
    let indices = candidates(pool);
    let selected = source.pick(&indices);
    proof {
        if selected is Some {
            let k = choose|k: int| 0 <= k < indices.len() && indices[k] == selected->0;
            assert(is_candidate(pool@, indices[k] as int));
        }
    }
    selected
}

/// Where exactly one message was never sent, every candidate is that
/// message: selection cannot return another.
pub proof fn lemma_single_unsent_is_selected(pool: Seq<Message>, unsent: int, index: int)
    requires
        0 <= unsent < pool.len(),
        pool[unsent].last_sent is None,
        forall|i: int| 0 <= i < pool.len() && i != unsent ==> (#[trigger] pool[i]).last_sent is Some,
        is_candidate(pool, index),
    ensures
        index == unsent,
{
}

/// A tempo for the next cycle: one of `tempo_choices`, each equally likely,
/// or the default where there is none to choose from.
pub fn generate_random_tempo(tempo_choices: &Vec<u64>, source: &mut DrawSource) -> (tempo: u64)
    ensures
        tempo_choices.len() == 0 ==> tempo == DEFAULT_TEMPO_MS,
        tempo_choices.len() > 0 ==> tempo_choices@.contains(tempo),
{
    match source.pick(tempo_choices) {
        Some(tempo) => tempo,
        None => DEFAULT_TEMPO_MS,
    }
}

/// The symbol that a character of Morse code stands for, if any.
pub open spec fn symbol_of(c: char) -> Option<Symbol> {
    if c == '.' {
        Some(Symbol::Dot)
    } else if c == '-' {
        Some(Symbol::Dash)
    } else if c == ' ' {
        Some(Symbol::Space)
    } else if c == '\n' {
        Some(Symbol::LineBreak)
    } else {
        None
    }
}

/// Reads one character of Morse code: `.`, `-`, a space or a line feed.
/// Any other character stands for nothing and is passed over.
pub fn classify(c: char) -> (symbol: Option<Symbol>)
    ensures
        symbol == symbol_of(c),
{
    if c == '.' {
        Some(Symbol::Dot)
    } else if c == '-' {
        Some(Symbol::Dash)
    } else if c == ' ' {
        Some(Symbol::Space)
    } else if c == '\n' {
        Some(Symbol::LineBreak)
    } else {
        None
    }
}

/// Milliseconds to wait after `symbol` at the given tempo: one unit after a
/// dot, four after anything else, and never more than a `u64` holds.
pub open spec fn pause_of(symbol: Symbol, tempo_ms: u64) -> u64 {
    if symbol == Symbol::Dot {
        tempo_ms
    } else if tempo_ms * LONG_PAUSE_UNITS <= u64::MAX {
        (tempo_ms * LONG_PAUSE_UNITS) as u64
    } else {
        u64::MAX
    }
}

/// Milliseconds to wait after `symbol` at the given tempo.
pub fn pause_ms(symbol: Symbol, tempo_ms: u64) -> (pause: u64)
    ensures
        pause == pause_of(symbol, tempo_ms),
{
    match symbol {
        Symbol::Dot => tempo_ms,
        _ => {
            if tempo_ms <= u64::MAX / LONG_PAUSE_UNITS {
                tempo_ms * LONG_PAUSE_UNITS
            } else {
                u64::MAX
            }
        },
    }
}

/// The signal that the configuration was replaced. Whoever replaces it
/// raises the flag; a running transmission lowers it when it notices.
#[derive(Clone, Copy, Debug, PartialEq, Eq, Structural)]
pub struct ChangeFlag {
    pub raised: bool,
}

impl ChangeFlag {
    /// A lowered flag.
    pub fn new() -> (flag: ChangeFlag)
        ensures
            !flag.raised,
    {
        ChangeFlag { raised: false }
    }

    /// Raises the flag.
    pub fn raise(&mut self)
        ensures
            final(self).raised,
    {
        self.raised = true;
    }

    /// Lowers the flag and tells whether it was raised.
    pub fn consume(&mut self) -> (was_raised: bool)
        ensures
            was_raised == old(self).raised,
            !final(self).raised,
    {
        let was_raised = self.raised;
        self.raised = false;
        was_raised
    }
}

/// What the sender is to do next.
#[derive(Clone, Debug, PartialEq, Eq)]
pub enum Step {
    /// Send the frame, then wait.
    Send { frame: String, pause_ms: u64 },
    /// Send nothing and wait.
    Pause { pause_ms: u64 },
    /// The character stood for nothing: go on at once.
    Skip,
    /// The configuration changed: send nothing more of this message.
    Interrupted,
    /// The whole message was sent.
    Finished,
}

/// One message on its way out.
#[derive(Clone, Debug)]
pub struct Transmission {
    /// The message's Morse code, character by character.
    pub code: Vec<char>,
    /// How many characters have been dealt with.
    pub position: usize,
    /// The tempo of this send, in milliseconds.
    pub tempo_ms: u64,
    /// Whether this send drives the lamps only.
    pub lamp_mode: bool,
    /// Whether a change of configuration has stopped this send.
    pub interrupted: bool,
}

/// What a step hands out for the character `c`.
pub open spec fn is_step_for(
    step: Step,
    c: char,
    config: TransformerConfig,
    lamp_mode: bool,
    tempo_ms: u64,
) -> bool {
    match symbol_of(c) {
        None => step == Step::Skip,
        Some(Symbol::LineBreak) => step == (Step::Pause {
            pause_ms: pause_of(Symbol::LineBreak, tempo_ms),
        }),
        Some(symbol) => {
            &&& step matches Step::Send { frame, pause_ms }
            &&& is_frame_of(frame@, symbol, config, lamp_mode)
            &&& pause_ms == pause_of(symbol, tempo_ms)
        },
    }
}

impl Transmission {
    /// The position lies within the code.
    pub open spec fn wf(self) -> bool {
        self.position <= self.code@.len()
    }

    /// Nothing more will be sent: the send was stopped or has reached the
    /// end.
    pub open spec fn is_over(self) -> bool {
        self.interrupted || self.position == self.code@.len()
    }

    /// The message was sent in full.
    pub open spec fn is_complete(self) -> bool {
        !self.interrupted && self.position == self.code@.len()
    }

    /// The state after one step, given whether the flag was found raised.
    /// A send that is over stays as it is; a raised flag stops the send
    /// where it stands; otherwise one character is dealt with.
    pub open spec fn after_step(self, raised: bool) -> Transmission {
        if self.is_over() {
            self
        } else if raised {
            Transmission { interrupted: true, ..self }
        } else {
            Transmission { position: (self.position + 1) as usize, ..self }
        }
    }

    /// A send of `morse_code` that has not begun.
    pub fn new(morse_code: &str, tempo_ms: u64, lamp_mode: bool) -> (transmission: Transmission)
        ensures
            transmission.code@ == morse_code@,
            transmission.position == 0,
            transmission.tempo_ms == tempo_ms,
            transmission.lamp_mode == lamp_mode,
            !transmission.interrupted,
            transmission.wf(),
    {
        let length = morse_code.unicode_len();
        let mut code: Vec<char> = Vec::new();
        let mut i: usize = 0;
        while i < length
            invariant
                i <= length,
                length == morse_code@.len(),
                code@ == morse_code@.subrange(0, i as int),
            decreases length - i,
        {
            code.push(morse_code.get_char(i));
            i += 1;
        }
        Transmission { code, position: 0, tempo_ms, lamp_mode, interrupted: false }
    }

    /// Whether the message was sent in full.
    pub fn finished(&self) -> (complete: bool)
        ensures
            complete == self.is_complete(),
    {
        !self.interrupted && self.position == self.code.len()
    }

    /// Takes the next decision of the send.
    ///
    /// A send that is over answers `Finished` or `Interrupted` and leaves
    /// the flag alone. Otherwise the flag is looked at first: if it is
    /// raised it is lowered and the send stops, with nothing sent for the
    /// character at hand. If not, that character is dealt with: a frame,
    /// drawn afresh from `config`, and a pause for a dot, a dash or a space;
    /// a pause alone for a line break; nothing for any other character.
    pub fn step(
        &mut self,
        flag: &mut ChangeFlag,
        config: &TransformerConfig,
        source: &mut DrawSource,
    ) -> (step: Step)
        requires
            old(self).wf(),
            config.is_valid(),
        ensures
            final(self).wf(),
            *final(self) == old(self).after_step(old(flag).raised),
            final(flag).raised == (old(flag).raised && old(self).is_over()),
            old(self).is_complete() ==> step == Step::Finished,
            old(self).interrupted ==> step == Step::Interrupted,
            !old(self).is_over() && old(flag).raised ==> step == Step::Interrupted,
            !old(self).is_over() && !old(flag).raised ==> is_step_for(
                step,
                old(self).code@[old(self).position as int],
                *config,
                old(self).lamp_mode,
                old(self).tempo_ms,
            ),
    {
        if self.interrupted {
            return Step::Interrupted;
        }
        if self.position >= self.code.len() {
            return Step::Finished;
        }
        if flag.consume() {
            self.interrupted = true;
            return Step::Interrupted;
        }
        let c = self.code[self.position];
        self.position = self.position + 1;
        match classify(c) {
            Some(Symbol::Dot) => Step::Send {
                frame: dot_frame(config, self.lamp_mode, source),
                pause_ms: pause_ms(Symbol::Dot, self.tempo_ms),
            },
            Some(Symbol::Dash) => Step::Send {
                frame: dash_frame(config, self.lamp_mode, source),
                pause_ms: pause_ms(Symbol::Dash, self.tempo_ms),
            },
            Some(Symbol::Space) => Step::Send {
                frame: convert_space_message(config),
                pause_ms: pause_ms(Symbol::Space, self.tempo_ms),
            },
            Some(Symbol::LineBreak) => Step::Pause {
                pause_ms: pause_ms(Symbol::LineBreak, self.tempo_ms),
            },
            None => Step::Skip,
        }
    }
}

/// The message after the send `transmission` has come to rest: marked as
/// sent at `now` if the send was completed, untouched if it was not.
pub open spec fn settled(message: Message, transmission: Transmission, now: i64) -> Message {
    if transmission.is_complete() {
        message.sent_at(now)
    } else {
        message
    }
}

/// Records the send on the message, if it was completed, and tells whether
/// it was.
pub fn settle(message: &mut Message, transmission: &Transmission, now: i64) -> (recorded: bool)
    ensures
        recorded == transmission.is_complete(),
        *final(message) == settled(*old(message), *transmission, now),
{
    if transmission.finished() {
        message.mark_sent(now);
        true
    } else {
        false
    }
}

/// Interruption: a running send that finds the flag raised stops before
/// the character at hand, stays stopped whatever the flag shows later, and
/// leaves the message as it was.
pub proof fn lemma_interruption_skips_the_rest(
    transmission: Transmission,
    message: Message,
    later: bool,
    now: i64,
)
    requires
        transmission.wf(),
        !transmission.is_over(),
    ensures
        transmission.after_step(true).interrupted,
        transmission.after_step(true).position == transmission.position,
        transmission.after_step(true).after_step(later) == transmission.after_step(true),
        !transmission.after_step(true).is_complete(),
        settled(message, transmission.after_step(true), now) == message,
{
}

/// The send after `steps` steps during which the flag stays lowered.
pub open spec fn after_steps(transmission: Transmission, steps: nat) -> Transmission
    decreases steps,
{
    if steps == 0 {
        transmission
    } else {
        after_steps(transmission.after_step(false), (steps - 1) as nat)
    }
}

/// Completion: as long as the flag stays lowered, a send takes one step
/// for each character that is left and is then complete, so that the
/// message is marked as sent.
pub proof fn lemma_send_runs_to_the_end(transmission: Transmission, message: Message, now: i64)
    requires
        transmission.wf(),
        !transmission.interrupted,
    ensures
        ({
            let left = (transmission.code@.len() - transmission.position) as nat;
            &&& after_steps(transmission, left).is_complete()
            &&& after_steps(transmission, left).code == transmission.code
            &&& settled(message, after_steps(transmission, left), now) == message.sent_at(now)
        }),
    decreases transmission.code@.len() - transmission.position,
{
    if transmission.position < transmission.code@.len() {
        assert(transmission.code.len() == transmission.code@.len());
        lemma_send_runs_to_the_end(transmission.after_step(false), message, now);
    }
}

/// Mode and tempo of the cycles.
#[derive(Clone, Copy, Debug, PartialEq, Eq)]
pub struct Scheduler {
    pub lamp: LampModeState,
    /// The tempo in force, in milliseconds.
    pub tempo_ms: u64,
}

impl Scheduler {
    /// The scheduler at start-up: instrument mode, with a tempo drawn from
    /// the configuration.
    pub fn new(config: &TransformerConfig, source: &mut DrawSource) -> (scheduler: Scheduler)
        ensures
            scheduler.lamp == (LampModeState { consecutive_count: 0, lamp_mode_start: None }),
            config.tempo_choices.len() == 0 ==> scheduler.tempo_ms == DEFAULT_TEMPO_MS,
            config.tempo_choices.len() > 0 ==> config.tempo_choices@.contains(scheduler.tempo_ms),
    {
        Scheduler {
            lamp: LampModeState::new(),
            tempo_ms: generate_random_tempo(&config.tempo_choices, source),
        }
    }

    /// Opens the cycle that starts at `now` seconds: decides its mode, and
    /// in lamp mode puts the lamp tempo in force.
    pub fn begin_cycle(&mut self, config: &TransformerConfig, now: u64) -> (mode: Mode)
        ensures
            final(self).lamp == old(self).lamp.decided(now),
            mode == final(self).lamp.mode(),
            final(self).tempo_ms == if mode == Mode::Lamp {
                config.lamp_tempo_ms
            } else {
                old(self).tempo_ms
            },
    {
        let mode = self.lamp.decide(now);
        match mode {
            Mode::Lamp => {
                self.tempo_ms = config.lamp_tempo_ms;
            },
            Mode::Instrument => {},
        }
        mode
    }

    /// Closes a cycle that ran in mode `ran`: draws the tempo of the next
    /// one and counts the cycle.
    pub fn end_cycle(&mut self, config: &TransformerConfig, ran: Mode, source: &mut DrawSource)
        ensures
            final(self).lamp == old(self).lamp.completed(ran),
            config.tempo_choices.len() == 0 ==> final(self).tempo_ms == DEFAULT_TEMPO_MS,
            config.tempo_choices.len() > 0 ==> config.tempo_choices@.contains(final(self).tempo_ms),
    {
        self.tempo_ms = generate_random_tempo(&config.tempo_choices, source);
        self.lamp.complete_cycle(ran);
    }

    /// Picks the message of the cycle and readies its send at the tempo and
    /// in the mode in force; `None` for an empty pool.
    pub fn start_transmission(&self, pool: &Vec<Message>, source: &mut DrawSource) -> (started:
        Option<(usize, Transmission)>)
        ensures
            started is None <==> pool.len() == 0,
            started matches Some((index, transmission)) ==> {
                &&& is_candidate(pool@, index as int)
                &&& transmission.code@ == pool[index as int].morse_code@
                &&& transmission.position == 0
                &&& !transmission.interrupted
                &&& transmission.tempo_ms == self.tempo_ms
                &&& transmission.lamp_mode == (self.lamp.mode() == Mode::Lamp)
                &&& transmission.wf()
            },
    {
        match select_message(pool, source) {
            Some(index) => {
                let transmission = Transmission::new(
                    pool[index].morse_code.as_str(),
                    self.tempo_ms,
                    self.lamp.is_lamp_mode(),
                );
                Some((index, transmission))
            },
            None => None,
        }
    }
}

} // verus!
