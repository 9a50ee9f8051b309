//! Frames, and how a frame follows from what was drawn for it.
//!
//! A frame on the wire is `<`, 26 channel digits, `>` and a line feed.
//! Channels 1 to 12 drive percussion, 13 to 20 strings and 21 to 26 lamps;
//! a channel's digit stands at the index of its number, and `0` means off.
//!
//! Nothing here is random. What chance decides is handed in as a value, so
//! each function says exactly which frame it gives.

use vstd::prelude::*;

verus! {

/// Number of channels in a frame.
pub const CHANNELS: usize = 26;

/// Last channel of the percussion zone, which starts at channel 1.
pub const PERCUSSION_LAST: usize = 12;

/// Last channel of the instrument zone (percussion, then strings).
pub const INSTRUMENT_LAST: usize = 20;

/// Number of lamps; they follow the instrument zone.
pub const LAMPS: usize = 6;

/// Most choices a channel has: the digits `1` to `4`.
pub const CHOICES: usize = 4;

/// Characters in a frame on the wire: both delimiters, the channels and the
/// closing line feed.
pub const FRAME_LEN: usize = 29;

/// One unit of a message's Morse code.
#[derive(Clone, Copy, Debug, PartialEq, Eq, Structural)]
pub enum Symbol {
    Dot,
    Dash,
    Space,
    /// A line feed: a pause for which no frame is sent.
    LineBreak,
}

/// The frame has its full length and its three delimiters.
pub open spec fn framed(frame: Seq<char>) -> bool {
    &&& frame.len() == FRAME_LEN
    &&& frame[0] == '<'
    &&& frame[CHANNELS + 1] == '>'
    &&& frame[CHANNELS + 2] == '\n'
}

/// Every channel from `first` to `last` is off.
pub open spec fn silent(frame: Seq<char>, first: int, last: int) -> bool {
    forall|k: int| first <= k <= last ==> frame[k] == '0'
}

/// The digit that stands for a choice: `1` for the first, `4` for the
/// fourth.
pub open spec fn digit_of(choice: int) -> char {
    if choice == 0 {
        '1'
    } else if choice == 1 {
        '2'
    } else if choice == 2 {
        '3'
    } else {
        '4'
    }
}

/// What was drawn for one instrument frame.
#[derive(Clone, Debug, PartialEq, Eq)]
pub struct InstrumentDraws {
    /// For each active channel in turn, the choice drawn for it if it
    /// sounds.
    pub picks: Vec<Option<usize>>,
    /// The channel and the choice drawn to carry the signal of a frame in
    /// which no channel sounds of itself.
    pub forced: Option<(usize, usize)>,
}

impl InstrumentDraws {
    /// The draws are of a frame whose active channels run from `first` to
    /// `last`: there is a pick for each of them, every choice is one of the
    /// four, and a forced channel is an active one.
    pub open spec fn fits(self, first: int, last: int) -> bool {
        &&& 1 <= first <= last <= INSTRUMENT_LAST
        &&& self.picks@.len() == last - first + 1
        &&& forall|i: int|
            0 <= i < self.picks@.len() ==> (#[trigger] self.picks@[i] matches Some(choice)
                ==> choice < CHOICES)
        &&& self.forced matches Some((position, choice)) ==> first <= position <= last && choice
            < CHOICES
    }

    /// No channel sounds of itself.
    pub open spec fn all_rest(self) -> bool {
        forall|i: int| 0 <= i < self.picks@.len() ==> #[trigger] self.picks@[i] is None
    }
}

/// The digit of a channel for which `pick` was drawn.
pub open spec fn digit_of_pick(pick: Option<usize>) -> char {
    match pick {
        Some(choice) => digit_of(choice as int),
        None => '0',
    }
}

/// Opening delimiter and channels as the picks alone give them: the active
/// channels carry their picks, every other channel is off.
pub open spec fn picked_channels(first: int, last: int, picks: Seq<Option<usize>>) -> Seq<char> {
    Seq::new(
        (CHANNELS + 1) as nat,
        |k: int|
            if k == 0 {
                '<'
            } else if first <= k <= last {
                digit_of_pick(picks[k - first])
            } else {
                '0'
            },
    )
}

/// The instrument frame that follows from the draws.
///
/// The picks are placed first. Where that leaves the whole instrument zone
/// off, the forced channel is given its choice; that is done once, and a
/// frame for which nothing was forced stays as the picks left it.
pub open spec fn instrument_frame_of(first: int, last: int, draws: InstrumentDraws) -> Seq<char> {
    let picked = picked_channels(first, last, draws.picks@);
    let channels = match draws.forced {
        Some((position, choice)) => if silent(picked, 1, INSTRUMENT_LAST as int) {
            picked.update(position as int, digit_of(choice as int))
        } else {
            picked
        },
        None => picked,
    };
    channels + seq!['>', '\n']
}

/// The lamp frame in which exactly the lamps of `lit` carry `marker`.
pub open spec fn lamp_frame_of(marker: char, lit: [bool; 6]) -> Seq<char> {
    Seq::new(
        FRAME_LEN as nat,
        |k: int|
            if k == 0 {
                '<'
            } else if k == CHANNELS + 1 {
                '>'
            } else if k == CHANNELS + 2 {
                '\n'
            } else if k > INSTRUMENT_LAST && lit[k - INSTRUMENT_LAST - 1] {
                marker
            } else {
                '0'
            },
    )
}

/// The one frame of a space: every channel off.
pub open spec fn space_frame() -> Seq<char> {
    seq!['<'] + Seq::new(CHANNELS as nat, |k: int| '0') + seq!['>', '\n']
}

/// The digit that stands for a choice.
fn digit_at(choice: usize) -> (digit: char)
    requires
        choice < CHOICES,
    ensures
        digit == digit_of(choice as int),
        digit != '0',
{
    if choice == 0 {
        '1'
    } else if choice == 1 {
        '2'
    } else if choice == 2 {
        '3'
    } else {
        '4'
    }
}

/// Whether the whole instrument zone is off.
fn instruments_silent(selected: &Vec<char>) -> (quiet: bool)
    requires
        selected.len() > INSTRUMENT_LAST,
    ensures
        quiet == silent(selected@, 1, INSTRUMENT_LAST as int),
{
    let mut k: usize = 1;
    while k <= INSTRUMENT_LAST
        invariant
            1 <= k <= INSTRUMENT_LAST + 1,
            selected.len() > INSTRUMENT_LAST,
            forall|j: int| 1 <= j < k ==> selected@[j] == '0',
        decreases INSTRUMENT_LAST + 1 - k,
    {
        if selected[k] != '0' {
            return false;
        }
        k += 1;
    }
    true
}

/// Closes the channels with `>` and a line feed and hands them out as text.
fn seal(selected: &Vec<char>) -> (frame: String)
    ensures
        frame@ == selected@ + seq!['>', '\n'],
{
    let mut frame = String::new();
    let mut k: usize = 0;
    while k < selected.len()
        invariant
            k <= selected.len(),
            frame@ == selected@.subrange(0, k as int),
        decreases selected.len() - k,
    {
        frame.push(selected[k]);
        k += 1;
    }
    frame.push('>');
    frame.push('\n');
    frame
}

/// The instrument frame that follows from the draws, for active channels
/// from `first` to `last`.
pub fn instrument_frame(first: usize, last: usize, draws: &InstrumentDraws) -> (frame: String)
    requires
        draws.fits(first as int, last as int),
    ensures
        frame@ == instrument_frame_of(first as int, last as int, *draws),
{
    let mut selected: Vec<char> = Vec::new();
    selected.push('<');
    let mut k: usize = 1;
    while k <= CHANNELS
        invariant
            1 <= k <= CHANNELS + 1,
            draws.fits(first as int, last as int),
            selected.len() == k,
            forall|j: int|
                0 <= j < k ==> selected@[j] == picked_channels(
                    first as int,
                    last as int,
                    draws.picks@,
                )[j],
        decreases CHANNELS + 1 - k,
    {
        let mut digit = '0';
        if first <= k && k <= last {
            match draws.picks[k - first] {
                Some(choice) => {
                    digit = digit_at(choice);
                },
                None => {},
            }
        }
        selected.push(digit);
        k += 1;
    }
    assert(selected@ =~= picked_channels(first as int, last as int, draws.picks@));
    if instruments_silent(&selected) {
        match draws.forced {
            Some((position, choice)) => {
                selected[position] = digit_at(choice);
            },
            None => {},
        }
    }
    seal(&selected)
}

/// The lamp frame in which exactly the lamps of `lit` carry `marker`.
pub fn lamp_frame(marker: char, lit: &[bool; 6]) -> (frame: String)
    ensures
        frame@ == lamp_frame_of(marker, *lit),
{
    let mut selected: Vec<char> = Vec::new();
    selected.push('<');
    let mut k: usize = 1;
    while k <= CHANNELS
        invariant
            1 <= k <= CHANNELS + 1,
            selected.len() == k,
            forall|j: int| 0 <= j < k ==> selected@[j] == lamp_frame_of(marker, *lit)[j],
        decreases CHANNELS + 1 - k,
    {
        if k > INSTRUMENT_LAST && lit[k - INSTRUMENT_LAST - 1] {
            selected.push(marker);
        } else {
            selected.push('0');
        }
        k += 1;
    }
    let frame = seal(&selected);
    assert(frame@ =~= lamp_frame_of(marker, *lit));
    frame
}

/// The frame of a space.
pub fn blank_frame() -> (frame: String)
    ensures
        frame@ == space_frame(),
{
    let mut selected: Vec<char> = Vec::new();
    selected.push('<');
    let mut k: usize = 1;
    while k <= CHANNELS
        invariant
            1 <= k <= CHANNELS + 1,
            selected.len() == k,
            selected@[0] == '<',
            forall|j: int| 1 <= j < k ==> selected@[j] == '0',
        decreases CHANNELS + 1 - k,
    {
        selected.push('0');
        k += 1;
    }
    let frame = seal(&selected);
    assert(frame@ =~= space_frame());
    frame
}

/// Whatever was drawn, an instrument frame is a frame: 29 characters
/// between its delimiters, with every channel outside the active ones off.
pub proof fn lemma_instrument_frame_shape(first: int, last: int, draws: InstrumentDraws)
    requires
        draws.fits(first, last),
    ensures
        framed(instrument_frame_of(first, last, draws)),
        forall|k: int|
            1 <= k <= CHANNELS && !(first <= k <= last) ==> instrument_frame_of(
                first,
                last,
                draws,
            )[k] == '0',
{
}

/// An instrument frame carries a signal as soon as one channel sounds of
/// itself or one was forced.
pub proof fn lemma_instrument_frame_sounds(first: int, last: int, draws: InstrumentDraws)
    requires
        draws.fits(first, last),
        !draws.all_rest() || draws.forced is Some,
    ensures
        !silent(instrument_frame_of(first, last, draws), 1, INSTRUMENT_LAST as int),
{
    let picked = picked_channels(first, last, draws.picks@);
    let frame = instrument_frame_of(first, last, draws);
    if silent(picked, 1, INSTRUMENT_LAST as int) {
        if !draws.all_rest() {
            let i = choose|i: int| 0 <= i < draws.picks@.len() && draws.picks@[i] is Some;
            assert(picked[first + i] == digit_of_pick(draws.picks@[i]));
            assert(false);
        }
        let (position, choice) = draws.forced->0;
        assert(frame[position as int] == digit_of(choice as int));
    } else {
        let k = choose|k: int| 1 <= k <= INSTRUMENT_LAST && picked[k] != '0';
        assert(frame[k] == picked[k]);
    }
}

/// A lamp frame is a frame whose instrument zone is off.
pub proof fn lemma_lamp_frame_shape(marker: char, lit: [bool; 6])
    ensures
        framed(lamp_frame_of(marker, lit)),
        silent(lamp_frame_of(marker, lit), 1, INSTRUMENT_LAST as int),
{
}

/// The space frame is a frame in which every channel is off.
pub proof fn lemma_space_frame_shape()
    ensures
        framed(space_frame()),
        silent(space_frame(), 1, CHANNELS as int),
{
}

} // verus!
