//! The frame encoder: one Morse symbol becomes one 26-channel frame, drawn
//! at random under a configuration.
//!
//! Encoding has two halves. The draws are made here, in the order and under
//! the conditions that the configuration sets; the frame then follows from
//! the draws alone. So the contracts of this module describe every frame
//! that can come out: which channels are off, which digits a channel may
//! carry, and that an instrument frame is never silent.

use crate::draw::{weight_total, weights_usable, DrawSource};
use crate::frame::{
    blank_frame, digit_of_pick, framed, instrument_frame, instrument_frame_of, lamp_frame,
    lamp_frame_of, silent, space_frame, InstrumentDraws, Symbol, CHANNELS, CHOICES, FRAME_LEN,
    INSTRUMENT_LAST, LAMPS, PERCUSSION_LAST,
};
use vstd::prelude::*;

verus! {

/// Tempo of lamp-only cycles unless configured otherwise, in milliseconds.
pub const DEFAULT_LAMP_TEMPO_MS: u64 = 1000;

/// A chance, held as a ratio of two integers.
#[derive(Clone, Copy, Debug, PartialEq, Eq, Structural)]
pub struct Probability {
    pub numerator: u32,
    pub denominator: u32,
}

impl Probability {
    /// A ratio is a chance when it lies between zero and one.
    pub open spec fn is_valid(self) -> bool {
        0 < self.denominator && self.numerator <= self.denominator
    }

    /// The chance `numerator / denominator`, or `None` where that is no
    /// chance.
    pub fn new(numerator: u32, denominator: u32) -> (chance: Option<Probability>)
        ensures
            chance == if 0 < denominator && numerator <= denominator {
                Some(Probability { numerator, denominator })
            } else {
                None
            },
    {
        if 0 < denominator && numerator <= denominator {
            Some(Probability { numerator, denominator })
        } else {
            None
        }
    }

    /// Whether this ratio is a chance.
    pub fn check(&self) -> (valid: bool)
        ensures
            valid == self.is_valid(),
    {
        0 < self.denominator && self.numerator <= self.denominator
    }
}

/// How one lamp behaves in lamp mode.
#[derive(Clone, Copy, Debug, PartialEq, Eq, Structural)]
pub struct LampConfig {
    /// Chance that the lamp lights for a symbol.
    pub probability: Probability,
}

/// What a configuration can be refused for, in the order in which a
/// configuration is examined.
#[derive(Clone, Copy, Debug, PartialEq, Eq, Structural)]
pub enum ConfigError {
    /// A probability does not lie between zero and one.
    InvalidProbability,
    /// The dot weights are all zero.
    DotWeightsAllZero,
    /// The dot weights add up to more than a `u32` holds.
    DotWeightsOverflow,
    /// The dash weights are all zero.
    DashWeightsAllZero,
    /// The dash weights add up to more than a `u32` holds.
    DashWeightsOverflow,
}

/// Everything that shapes the frames and the pacing.
#[derive(Clone, Debug)]
pub struct TransformerConfig {
    /// Tempos, in milliseconds, from which each cycle draws one.
    pub tempo_choices: Vec<u64>,
    /// Tempo of a lamp-only cycle, in milliseconds.
    pub lamp_tempo_ms: u64,
    /// Chance that a percussion channel sounds on a dot.
    pub dot_percussion_probability: Probability,
    pub dot_choice_1_weight: u32,
    pub dot_choice_2_weight: u32,
    pub dot_choice_3_weight: u32,
    /// Chance that a string channel sounds on a dash.
    pub dash_string_probability: Probability,
    pub dash_choice_1_weight: u32,
    pub dash_choice_2_weight: u32,
    pub dash_choice_3_weight: u32,
    pub dash_choice_4_weight: u32,
    /// The six lamps on a dot; a lit lamp carries `1`.
    pub lamp_dot_configs: [LampConfig; 6],
    /// The six lamps on a dash; a lit lamp carries `2`.
    pub lamp_dash_configs: [LampConfig; 6],
}

/// Every lamp of the table has a chance as its probability.
pub open spec fn lamps_valid(lamps: [LampConfig; 6]) -> bool {
    forall|i: int| 0 <= i < 6 ==> (#[trigger] lamps[i]).probability.is_valid()
}

impl TransformerConfig {
    /// The weights of the three dot digits, in the order of the digits.
    pub open spec fn dot_weights(&self) -> Seq<u32> {
        seq![self.dot_choice_1_weight, self.dot_choice_2_weight, self.dot_choice_3_weight]
    }

    /// The weights of the four dash digits, in the order of the digits.
    pub open spec fn dash_weights(&self) -> Seq<u32> {
        seq![
            self.dash_choice_1_weight,
            self.dash_choice_2_weight,
            self.dash_choice_3_weight,
            self.dash_choice_4_weight,
        ]
    }

    /// Sum of the dot weights.
    pub open spec fn dot_total(&self) -> int {
        self.dot_choice_1_weight + self.dot_choice_2_weight + self.dot_choice_3_weight
    }

    /// Sum of the dash weights.
    pub open spec fn dash_total(&self) -> int {
        self.dash_choice_1_weight + self.dash_choice_2_weight + self.dash_choice_3_weight
            + self.dash_choice_4_weight
    }

    /// All probabilities of the configuration are chances.
    pub open spec fn probabilities_valid(&self) -> bool {
        &&& self.dot_percussion_probability.is_valid()
        &&& self.dash_string_probability.is_valid()
        &&& lamps_valid(self.lamp_dot_configs)
        &&& lamps_valid(self.lamp_dash_configs)
    }

    /// The first reason to refuse the configuration, if there is one.
    pub open spec fn fault(&self) -> Option<ConfigError> {
        if !self.probabilities_valid() {
            Some(ConfigError::InvalidProbability)
        } else if self.dot_total() == 0 {
            Some(ConfigError::DotWeightsAllZero)
        } else if self.dot_total() > u32::MAX {
            Some(ConfigError::DotWeightsOverflow)
        } else if self.dash_total() == 0 {
            Some(ConfigError::DashWeightsAllZero)
        } else if self.dash_total() > u32::MAX {
            Some(ConfigError::DashWeightsOverflow)
        } else {
            None
        }
    }

    /// A configuration from which every symbol can be encoded: its
    /// probabilities are chances and both weight tables support a draw.
    pub open spec fn is_valid(&self) -> bool {
        &&& self.probabilities_valid()
        &&& 0 < self.dot_total() <= u32::MAX
        &&& 0 < self.dash_total() <= u32::MAX
    }

    /// Examines the configuration, as is due whenever one is loaded or
    /// replaced, and names the first fault.
    pub fn validate(&self) -> (outcome: Result<(), ConfigError>)
        ensures
            outcome is Ok <==> self.is_valid(),
            outcome == match self.fault() {
                Some(fault) => Err::<(), ConfigError>(fault),
                None => Ok(()),
            },
    {
        if !self.dot_percussion_probability.check() || !self.dash_string_probability.check()
            || !check_lamps(&self.lamp_dot_configs) || !check_lamps(&self.lamp_dash_configs) {
            return Err(ConfigError::InvalidProbability);
        }
        let dot_total: u64 = self.dot_choice_1_weight as u64 + self.dot_choice_2_weight as u64
            + self.dot_choice_3_weight as u64;
        if dot_total == 0 {
            return Err(ConfigError::DotWeightsAllZero);
        }
        if dot_total > u32::MAX as u64 {
            return Err(ConfigError::DotWeightsOverflow);
        }
        let dash_total: u64 = self.dash_choice_1_weight as u64 + self.dash_choice_2_weight as u64
            + self.dash_choice_3_weight as u64 + self.dash_choice_4_weight as u64;
        if dash_total == 0 {
            return Err(ConfigError::DashWeightsAllZero);
        }
        if dash_total > u32::MAX as u64 {
            return Err(ConfigError::DashWeightsOverflow);
        }
        Ok(())
    }
}

/// Whether every lamp of the table has a chance as its probability.
fn check_lamps(lamps: &[LampConfig; 6]) -> (valid: bool)
    ensures
        valid == lamps_valid(*lamps),
{
    let mut i: usize = 0;
    while i < 6
        invariant
            i <= 6,
            forall|j: int| 0 <= j < i ==> (#[trigger] lamps[j]).probability.is_valid(),
        decreases 6 - i,
    {
        if !lamps[i].probability.check() {
            return false;
        }
        i += 1;
    }
    true
}

impl Default for TransformerConfig {
    /// Tempos of 400, 700 and 1000 ms; a percussion chance of 12 in 100 with
    /// dot weights 70, 20, 10; a string chance of 20 in 100 with dash weights
    /// 20, 20, 30, 30; every lamp at 30 in 100.
    fn default() -> (config: TransformerConfig)
        ensures
            config.tempo_choices@ == seq![400u64, 700u64, 1000u64],
            config.lamp_tempo_ms == DEFAULT_LAMP_TEMPO_MS,
            config.dot_percussion_probability == (Probability { numerator: 12, denominator: 100 }),
            config.dot_weights() == seq![70u32, 20u32, 10u32],
            config.dash_string_probability == (Probability { numerator: 20, denominator: 100 }),
            config.dash_weights() == seq![20u32, 20u32, 30u32, 30u32],
            forall|i: int|
                0 <= i < 6 ==> (#[trigger] config.lamp_dot_configs[i]).probability == (Probability {
                    numerator: 30,
                    denominator: 100,
                }),
            forall|i: int|
                0 <= i < 6 ==> (#[trigger] config.lamp_dash_configs[i]).probability == (Probability {
                    numerator: 30,
                    denominator: 100,
                }),
            config.is_valid(),
    {
        let lamp = LampConfig { probability: Probability { numerator: 30, denominator: 100 } };
        TransformerConfig {
            tempo_choices: vec![400, 700, 1000],
            lamp_tempo_ms: DEFAULT_LAMP_TEMPO_MS,
            dot_percussion_probability: Probability { numerator: 12, denominator: 100 },
            dot_choice_1_weight: 70,
            dot_choice_2_weight: 20,
            dot_choice_3_weight: 10,
            dash_string_probability: Probability { numerator: 20, denominator: 100 },
            dash_choice_1_weight: 20,
            dash_choice_2_weight: 20,
            dash_choice_3_weight: 30,
            dash_choice_4_weight: 30,
            lamp_dot_configs: [lamp, lamp, lamp, lamp, lamp, lamp],
            lamp_dash_configs: [lamp, lamp, lamp, lamp, lamp, lamp],
        }
    }
}

/// `digit` is one that a weighted draw from `weights` can give: the digit of
/// a position whose weight is not zero, `1` standing for the first position.
pub open spec fn drawable(digit: char, weights: Seq<u32>) -> bool {
    let index = digit as int - '1' as int;
    0 <= index < weights.len() && weights[index] > 0
}

/// The frames that instrument mode can give for a symbol whose active
/// channels run from `first` to `last`.
///
/// Outside the active channels everything is off. An active channel is off
/// or carries a drawable digit, and at least one of them is on. With a
/// chance of zero exactly one is on; with a chance of one all of them are.
pub open spec fn is_instrument_frame(
    frame: Seq<char>,
    first: int,
    last: int,
    chance: Probability,
    weights: Seq<u32>,
) -> bool {
    &&& framed(frame)
    &&& forall|k: int| 1 <= k <= CHANNELS && !(first <= k <= last) ==> frame[k] == '0'
    &&& forall|k: int| first <= k <= last ==> frame[k] == '0' || drawable(frame[k], weights)
    &&& exists|k: int| first <= k <= last && frame[k] != '0'
    &&& chance.numerator == 0 ==> forall|j: int, k: int|
        first <= j <= last && first <= k <= last && frame[j] != '0' && frame[k] != '0' ==> j == k
    &&& chance.numerator == chance.denominator ==> forall|k: int|
        first <= k <= last ==> frame[k] != '0'
}

/// The frames that a dot can give in instrument mode: signal on percussion
/// only.
pub open spec fn is_dot_frame(frame: Seq<char>, config: TransformerConfig) -> bool {
    is_instrument_frame(
        frame,
        1,
        PERCUSSION_LAST as int,
        config.dot_percussion_probability,
        config.dot_weights(),
    )
}

/// The frames that a dash can give in instrument mode: signal on strings
/// only.
pub open spec fn is_dash_frame(frame: Seq<char>, config: TransformerConfig) -> bool {
    is_instrument_frame(
        frame,
        PERCUSSION_LAST + 1,
        INSTRUMENT_LAST as int,
        config.dash_string_probability,
        config.dash_weights(),
    )
}

/// The frames that lamp mode can give: every instrument is off, and each
/// lamp is off or carries `marker`. A lamp with a chance of zero is off, one
/// with a chance of one is lit.
pub open spec fn is_lamp_frame(frame: Seq<char>, marker: char, lamps: [LampConfig; 6]) -> bool {
    &&& framed(frame)
    &&& silent(frame, 1, INSTRUMENT_LAST as int)
    &&& forall|k: int|
        INSTRUMENT_LAST < k <= CHANNELS ==> {
            let digit = #[trigger] frame[k];
            let chance = lamps[k - INSTRUMENT_LAST - 1].probability;
            &&& digit == '0' || digit == marker
            &&& chance.numerator == 0 ==> digit == '0'
            &&& chance.numerator == chance.denominator ==> digit == marker
        }
}

/// The frames that `symbol` can give under `config`.
pub open spec fn is_frame_of(
    frame: Seq<char>,
    symbol: Symbol,
    config: TransformerConfig,
    lamp_mode: bool,
) -> bool {
    match symbol {
        Symbol::Dot => if lamp_mode {
            is_lamp_frame(frame, '1', config.lamp_dot_configs)
        } else {
            is_dot_frame(frame, config)
        },
        Symbol::Dash => if lamp_mode {
            is_lamp_frame(frame, '2', config.lamp_dash_configs)
        } else {
            is_dash_frame(frame, config)
        },
        Symbol::Space => frame == space_frame(),
        Symbol::LineBreak => false,
    }
}

/// What holds of the draws of an instrument frame, however they fall.
///
/// Every pick is a choice whose weight is not zero. With a chance of zero
/// no channel sounds of itself, with a chance of one every channel does.
/// A channel is forced exactly when none sounds of itself, and its choice
/// too has a weight that is not zero.
pub open spec fn draws_follow(draws: InstrumentDraws, chance: Probability, weights: Seq<u32>) -> bool {
    &&& forall|i: int|
        0 <= i < draws.picks@.len() ==> (#[trigger] draws.picks@[i] matches Some(choice)
            ==> choice < weights.len() && weights[choice as int] > 0)
    &&& chance.numerator == 0 ==> draws.all_rest()
    &&& chance.numerator == chance.denominator ==> forall|i: int|
        0 <= i < draws.picks@.len() ==> #[trigger] draws.picks@[i] is Some
    &&& draws.forced is Some <==> draws.all_rest()
    &&& draws.forced matches Some((position, choice)) ==> choice < weights.len()
        && weights[choice as int] > 0
}

/// The sum of three weights, as the weighted draw computes it.
proof fn lemma_total_of_three(a: u32, b: u32, c: u32)
    ensures
        weight_total(seq![a, b, c]) == a + b + c,
{
    let all = seq![a, b, c];
    assert(all.drop_last() =~= seq![a, b]);
    assert(all.drop_last().drop_last() =~= seq![a]);
    assert(all.drop_last().drop_last().drop_last() =~= Seq::<u32>::empty());
    reveal_with_fuel(weight_total, 4);
}

/// The sum of four weights, as the weighted draw computes it.
proof fn lemma_total_of_four(a: u32, b: u32, c: u32, d: u32)
    ensures
        weight_total(seq![a, b, c, d]) == a + b + c + d,
{
    let all = seq![a, b, c, d];
    assert(all.drop_last() =~= seq![a, b, c]);
    lemma_total_of_three(a, b, c);
}

/// Draws that fit the active channels and follow chance and weights give
/// one of the frames of instrument mode.
pub proof fn lemma_draws_give_instrument_frame(
    first: int,
    last: int,
    draws: InstrumentDraws,
    chance: Probability,
    weights: Seq<u32>,
)
    requires
        draws.fits(first, last),
        draws_follow(draws, chance, weights),
    ensures
        is_instrument_frame(instrument_frame_of(first, last, draws), first, last, chance, weights),
{
    let frame = instrument_frame_of(first, last, draws);
    let picks = draws.picks@;
    assert forall|k: int| first <= k <= last implies frame[k] == '0' || drawable(
        frame[k],
        weights,
    ) by {
        assert(frame[k] == digit_of_pick(picks[k - first]) || draws.forced is Some);
    }
    if draws.all_rest() {
        let (position, choice) = draws.forced->0;
        assert(frame[position as int] != '0');
        assert forall|j: int| first <= j <= last && j != position implies frame[j] == '0' by {
            assert(picks[j - first] is None);
        }
    } else {
        let i = choose|i: int| 0 <= i < picks.len() && picks[i] is Some;
        assert(frame[first + i] != '0');
    }
    if chance.numerator == chance.denominator {
        assert forall|k: int| first <= k <= last implies frame[k] != '0' by {
            assert(picks[k - first] is Some);
        }
    }
}

/// Whatever lamps are lit, a lamp frame is one of the frames of lamp mode,
/// as long as the lamps without a chance are off and the lamps that are
/// certain are lit.
pub proof fn lemma_lit_lamps_give_lamp_frame(marker: char, lit: [bool; 6], lamps: [LampConfig; 6])
    requires
        forall|i: int|
            0 <= i < LAMPS ==> {
                let chance = (#[trigger] lamps[i]).probability;
                &&& chance.numerator == 0 ==> !lit[i]
                &&& chance.numerator == chance.denominator ==> lit[i]
            },
    ensures
        is_lamp_frame(lamp_frame_of(marker, lit), marker, lamps),
{
}

/// Draws the choices of an instrument frame whose active channels run from
/// `first` to `last`.
///
/// Each active channel sounds with the given chance, and a channel that
/// sounds gets a choice drawn by weight. Should none sound, one active
/// channel is drawn, each equally likely, and a choice for it; that is done
/// once.
pub fn draw_instrument(
    first: usize,
    last: usize,
    chance: Probability,
    weights: &Vec<u32>,
    source: &mut DrawSource,
) -> (draws: InstrumentDraws)
    requires
        1 <= first <= last <= INSTRUMENT_LAST,
        chance.is_valid(),
        weights_usable(weights@),
        weights.len() <= CHOICES,
    ensures
        draws.fits(first as int, last as int),
        draws_follow(draws, chance, weights@),
{
    let mut picks: Vec<Option<usize>> = Vec::new();
    let mut sounding: bool = false;
    let mut k: usize = first;
    while k <= last
        invariant
            1 <= first <= k <= last + 1,
            last <= INSTRUMENT_LAST,
            chance.is_valid(),
            weights_usable(weights@),
            weights.len() <= CHOICES,
            picks.len() == k - first,
            forall|i: int|
                0 <= i < picks.len() ==> (#[trigger] picks@[i] matches Some(choice) ==> choice
                    < weights.len() && weights[choice as int] > 0),
            chance.numerator == 0 ==> !sounding,
            chance.numerator == chance.denominator ==> forall|i: int|
                0 <= i < picks.len() ==> #[trigger] picks@[i] is Some,
            sounding <==> exists|i: int| 0 <= i < picks.len() && #[trigger] picks@[i] is Some,
        decreases last + 1 - k,
    {
        let ghost before = picks@;
        if source.ratio(chance.numerator, chance.denominator) {
            let choice = source.weighted(weights);
            picks.push(Some(choice));
            sounding = true;
            assert(picks@[k - first] is Some);
        } else {
            picks.push(None);
            proof {
                if exists|i: int| 0 <= i < picks.len() && #[trigger] picks@[i] is Some {
                    let i = choose|i: int| 0 <= i < picks.len() && #[trigger] picks@[i] is Some;
                    assert(before[i] is Some);
                }
                if sounding {
                    let i = choose|i: int| 0 <= i < before.len() && #[trigger] before[i] is Some;
                    assert(picks@[i] is Some);
                }
            }
        }
        k += 1;
    }
    let forced = if sounding {
        None
    } else {
        let position = source.between(first, last);
        let choice = source.weighted(weights);
        Some((position, choice))
    };
    InstrumentDraws { picks, forced }
}

/// Draws which lamps are lit: each with its own chance.
pub fn draw_lamps(lamps: &[LampConfig; 6], source: &mut DrawSource) -> (lit: [bool; 6])
    requires
        lamps_valid(*lamps),
    ensures
        forall|i: int|
            0 <= i < LAMPS ==> {
                let chance = (#[trigger] lamps[i]).probability;
                &&& chance.numerator == 0 ==> !lit[i]
                &&& chance.numerator == chance.denominator ==> lit[i]
            },
{
    let mut lit: [bool; 6] = [false, false, false, false, false, false];
    let mut i: usize = 0;
    while i < LAMPS
        invariant
            i <= LAMPS,
            lamps_valid(*lamps),
            forall|j: int|
                0 <= j < i ==> {
                    let chance = (#[trigger] lamps[j]).probability;
                    &&& chance.numerator == 0 ==> !lit[j]
                    &&& chance.numerator == chance.denominator ==> lit[j]
                },
        decreases LAMPS - i,
    {
        let chance = lamps[i].probability;
        let hit = source.ratio(chance.numerator, chance.denominator);
        lit[i] = hit;
        i += 1;
    }
    lit
}

/// The frame of a dot, drawn from `source`.
///
/// In lamp mode the instruments are off and each lamp carries `1` with its
/// own chance. Otherwise each percussion channel sounds with the configured
/// chance and carries a digit from `1` to `3` drawn by the dot weights;
/// strings and lamps are off, and at least one percussion channel is on.
pub fn dot_frame(config: &TransformerConfig, lamp_mode: bool, source: &mut DrawSource) -> (frame:
    String)
    requires
        config.is_valid(),
    ensures
        is_frame_of(frame@, Symbol::Dot, *config, lamp_mode),
{
    if lamp_mode {
        let lit = draw_lamps(&config.lamp_dot_configs, source);
        proof {
            lemma_lit_lamps_give_lamp_frame('1', lit, config.lamp_dot_configs);
        }
        lamp_frame('1', &lit)
    } else {
        let weights: Vec<u32> = vec![
            config.dot_choice_1_weight,
            config.dot_choice_2_weight,
            config.dot_choice_3_weight,
        ];
        proof {
            assert(weights@ =~= config.dot_weights());
            lemma_total_of_three(
                config.dot_choice_1_weight,
                config.dot_choice_2_weight,
                config.dot_choice_3_weight,
            );
        }
        let draws = draw_instrument(
            1,
            PERCUSSION_LAST,
            config.dot_percussion_probability,
            &weights,
            source,
        );
        proof {
            lemma_draws_give_instrument_frame(
                1,
                PERCUSSION_LAST as int,
                draws,
                config.dot_percussion_probability,
                weights@,
            );
        }
        instrument_frame(1, PERCUSSION_LAST, &draws)
    }
}

/// The frame of a dash, drawn from `source`.
///
/// In lamp mode the instruments are off and each lamp carries `2` with its
/// own chance. Otherwise percussion rests, each string channel sounds with
/// the configured chance and carries a digit from `1` to `4` drawn by the
/// dash weights; the lamps are off, and at least one string channel is on.
pub fn dash_frame(config: &TransformerConfig, lamp_mode: bool, source: &mut DrawSource) -> (frame:
    String)
    requires
        config.is_valid(),
    ensures
        is_frame_of(frame@, Symbol::Dash, *config, lamp_mode),
{
    if lamp_mode {
        let lit = draw_lamps(&config.lamp_dash_configs, source);
        proof {
            lemma_lit_lamps_give_lamp_frame('2', lit, config.lamp_dash_configs);
        }
        lamp_frame('2', &lit)
    } else {
        let weights: Vec<u32> = vec![
            config.dash_choice_1_weight,
            config.dash_choice_2_weight,
            config.dash_choice_3_weight,
            config.dash_choice_4_weight,
        ];
        proof {
            assert(weights@ =~= config.dash_weights());
            lemma_total_of_four(
                config.dash_choice_1_weight,
                config.dash_choice_2_weight,
                config.dash_choice_3_weight,
                config.dash_choice_4_weight,
            );
        }
        let draws = draw_instrument(
            PERCUSSION_LAST + 1,
            INSTRUMENT_LAST,
            config.dash_string_probability,
            &weights,
            source,
        );
        proof {
            lemma_draws_give_instrument_frame(
                PERCUSSION_LAST + 1,
                INSTRUMENT_LAST as int,
                draws,
                config.dash_string_probability,
                weights@,
            );
        }
        instrument_frame(PERCUSSION_LAST + 1, INSTRUMENT_LAST, &draws)
    }
}

/// The frame of a dot, drawn from a generator of its own.
pub fn convert_dot_message(config: &TransformerConfig, lamp_mode: bool) -> (frame: String)
    requires
        config.is_valid(),
    ensures
        is_frame_of(frame@, Symbol::Dot, *config, lamp_mode),
{
    let mut source = DrawSource::from_entropy();
    dot_frame(config, lamp_mode, &mut source)
}

/// The frame of a dash, drawn from a generator of its own.
pub fn convert_dash_message(config: &TransformerConfig, lamp_mode: bool) -> (frame: String)
    requires
        config.is_valid(),
    ensures
        is_frame_of(frame@, Symbol::Dash, *config, lamp_mode),
{
    let mut source = DrawSource::from_entropy();
    dash_frame(config, lamp_mode, &mut source)
}

/// The frame of a space: every channel off, whatever the configuration.
pub fn convert_space_message(_config: &TransformerConfig) -> (frame: String)
    ensures
        frame@ == space_frame(),
{
    blank_frame()
}

/// The frame to send for `symbol`; a line break has none.
pub fn encode(
    symbol: Symbol,
    config: &TransformerConfig,
    lamp_mode: bool,
    source: &mut DrawSource,
) -> (frame: Option<String>)
    requires
        config.is_valid(),
    ensures
        frame is None <==> symbol == Symbol::LineBreak,
        frame matches Some(text) ==> is_frame_of(text@, symbol, *config, lamp_mode),
{
    match symbol {
        Symbol::Dot => Some(dot_frame(config, lamp_mode, source)),
        Symbol::Dash => Some(dash_frame(config, lamp_mode, source)),
        Symbol::Space => Some(convert_space_message(config)),
        Symbol::LineBreak => None,
    }
}

/// Every frame has 29 characters: 28 up to the closing `>`, then the line
/// feed.
pub proof fn lemma_frame_length(
    frame: Seq<char>,
    symbol: Symbol,
    config: TransformerConfig,
    lamp_mode: bool,
)
    requires
        is_frame_of(frame, symbol, config, lamp_mode),
    ensures
        frame.len() == FRAME_LEN,
        framed(frame),
        frame.drop_last().len() == 28,
        frame.drop_last().last() == '>',
{
}

/// Every channel of a space frame is off.
pub proof fn lemma_space_frame_silent(
    frame: Seq<char>,
    config: TransformerConfig,
    lamp_mode: bool,
)
    requires
        is_frame_of(frame, Symbol::Space, config, lamp_mode),
    ensures
        silent(frame, 1, CHANNELS as int),
{
}

/// Outside lamp mode, no frame of a dot or a dash has a silent instrument
/// zone.
pub proof fn lemma_instrument_mode_sounds(
    frame: Seq<char>,
    symbol: Symbol,
    config: TransformerConfig,
)
    requires
        symbol == Symbol::Dot || symbol == Symbol::Dash,
        is_frame_of(frame, symbol, config, false),
    ensures
        !silent(frame, 1, INSTRUMENT_LAST as int),
{
    if symbol == Symbol::Dot {
        let k = choose|k: int| 1 <= k <= PERCUSSION_LAST && frame[k] != '0';
        assert(1 <= k <= INSTRUMENT_LAST && frame[k] != '0');
    } else {
        let k = choose|k: int| PERCUSSION_LAST + 1 <= k <= INSTRUMENT_LAST && frame[k] != '0';
        assert(1 <= k <= INSTRUMENT_LAST && frame[k] != '0');
    }
}

/// In lamp mode, every frame of a dot or a dash has a silent instrument
/// zone: the lamps alone are driven.
pub proof fn lemma_lamp_mode_rests(frame: Seq<char>, symbol: Symbol, config: TransformerConfig)
    requires
        symbol == Symbol::Dot || symbol == Symbol::Dash,
        is_frame_of(frame, symbol, config, true),
    ensures
        silent(frame, 1, INSTRUMENT_LAST as int),
{
}

} // verus!
