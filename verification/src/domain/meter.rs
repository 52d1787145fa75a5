//! Audio level metering — the values behind the mixer volume meters.
//!
//! OBS reports levels as linear multipliers, three per channel, roughly twenty
//! times a second. This module holds the decibel form of those readings (as
//! the bit patterns of the `f64` values) and the meter's zones and labels.

use vstd::prelude::*;
use crate::assoc::StrMap;
use crate::text::{decimal, decimal_string, join2, owned};

verus! {

/// Which of the meter's three zones a level falls in.
///
/// The thresholds match OBS Studio's own volume meter, so a level that looks
/// safe in OBS looks safe here.
#[derive(Debug, Clone, Copy, PartialEq, Eq, PartialOrd, Ord, Structural)]
pub enum MeterZone {
    /// Green: background music, alerts, and anything that should stay under
    /// the voice.
    Nominal,
    /// Yellow: speech sits in the upper part of this zone, game audio lower.
    Warning,
    /// Red: close to clipping. Speech peaks may touch the lower edge.
    Error,
}

impl Default for MeterZone {
    fn default() -> (z: MeterZone)
        ensures
            z == MeterZone::Nominal,
    {
        MeterZone::Nominal
    }
}

impl MeterZone {
    /// Style class used by the meter legend.
    pub fn css_class(self) -> (s: &'static str)
        ensures
            s@ == match self {
                MeterZone::Nominal => "audio-meter-nominal"@,
                MeterZone::Warning => "audio-meter-warning"@,
                MeterZone::Error => "audio-meter-error"@,
            },
    {
        match self {
            MeterZone::Nominal => "audio-meter-nominal",
            MeterZone::Warning => "audio-meter-warning",
            MeterZone::Error => "audio-meter-error",
        }
    }

    /// User-facing zone name.
    pub fn label(self) -> (s: String)
        ensures
            s@ == match self {
                MeterZone::Nominal => "Nominal"@,
                MeterZone::Warning => "Warning"@,
                MeterZone::Error => "Error"@,
            },
    {
        owned(
            match self {
                MeterZone::Nominal => "Nominal",
                MeterZone::Warning => "Warning",
                MeterZone::Error => "Error",
            },
        )
    }
}

/// Bit pattern of negative infinity, the decibel value of digital silence.
pub const SILENT_DB_BITS: u64 = 0xfff0_0000_0000_0000;

/// One channel's reading from a single OBS volume-meter update, in decibels
/// relative to full scale (bit patterns of `f64` values; negative infinity
/// for digital silence).
#[derive(Debug, Clone, Copy, PartialEq, Eq, Structural)]
pub struct ChannelLevel {
    /// Sound pressure — the closest of the three to perceived loudness.
    pub magnitude_db: u64,
    /// Sample peak after OBS applies the input's fader.
    pub peak_db: u64,
    /// Sample peak before the fader, so it shows what the device sends in.
    pub input_peak_db: u64,
}

impl ChannelLevel {
    /// Silence, used before the first reading arrives.
    pub fn silent() -> (c: ChannelLevel)
        ensures
            c == (ChannelLevel { magnitude_db: SILENT_DB_BITS, peak_db: SILENT_DB_BITS, input_peak_db: SILENT_DB_BITS }),
    {
        ChannelLevel { magnitude_db: SILENT_DB_BITS, peak_db: SILENT_DB_BITS, input_peak_db: SILENT_DB_BITS }
    }
}

/// The channels reported for one input in a single update.
///
/// Channel order is OBS's: mono has one, stereo is left then right, and
/// surround runs front left, front right, front centre, LFE, rear left, rear
/// right, side left, side right.
#[derive(Debug, Clone, PartialEq, Eq)]
pub struct InputLevels {
    /// Input the reading belongs to.
    pub input: String,
    /// One entry per active channel.
    pub channels: Vec<ChannelLevel>,
}

impl InputLevels {
    /// How many channels this input reports.
    pub fn channel_count(&self) -> (n: usize)
        ensures
            n == self.channels@.len(),
    {
        self.channels.len()
    }
}

/// Readings of one update by input name; a later reading for the same input
/// replaces an earlier one.
pub open spec fn readings_by_input(levels: Seq<InputLevels>) -> Map<Seq<char>, Seq<ChannelLevel>>
    decreases levels.len(),
{
    if levels.len() == 0 {
        Map::empty()
    } else {
        readings_by_input(levels.drop_last()).insert(levels.last().input@, levels.last().channels@)
    }
}

/// The counter after one more update, wrapping at the end of `u64`.
pub open spec fn next_sequence(n: u64) -> u64 {
    if n == u64::MAX {
        0
    } else {
        (n + 1) as u64
    }
}

/// The most recent levels for every input OBS is currently metering.
///
/// Meter widgets poll this rather than being pushed to: OBS sends one update
/// for every active input about twenty times a second, and a widget only
/// needs its own input's row on the frames it actually draws. The sequence
/// number tells a widget whether it has already consumed the reading it is
/// looking at, which is what lets an input that stopped reporting decay to
/// silence instead of freezing on its last value.
#[derive(Debug)]
pub struct InputLevelSnapshot {
    sequence: u64,
    levels: StrMap<InputLevels>,
}

impl InputLevelSnapshot {
    /// Each reading is filed under its own input's name.
    #[verifier::type_invariant]
    spec fn filed_by_input(self) -> bool {
        forall|k: Seq<char>| #[trigger] self.levels@.contains_key(k) ==> self.levels@[k].input@ == k
    }

    /// Channel readings by input name.
    pub closed spec fn readings(&self) -> Map<Seq<char>, Seq<ChannelLevel>> {
        Map::new(|k: Seq<char>| self.levels@.contains_key(k), |k: Seq<char>| self.levels@[k].channels@)
    }

    /// Counter that changes on every update.
    pub closed spec fn sequence_spec(&self) -> u64 {
        self.sequence
    }

    /// An empty snapshot.
    pub fn new() -> (s: InputLevelSnapshot)
        ensures
            s.readings() == Map::<Seq<char>, Seq<ChannelLevel>>::empty(),
            s.sequence_spec() == 0,
    {
        let s = InputLevelSnapshot { sequence: 0, levels: StrMap::new() };
        assert(s.readings() =~= Map::<Seq<char>, Seq<ChannelLevel>>::empty());
        s
    }

    /// Replace the snapshot with a fresh set of readings.
    pub fn update(&mut self, levels: Vec<InputLevels>)
        ensures
            final(self).readings() == readings_by_input(levels@),
            final(self).sequence_spec() == next_sequence(old(self).sequence_spec()),
    {
        proof {
            use_type_invariant(&*self);
        }
        self.sequence = if self.sequence == u64::MAX { 0 } else { self.sequence + 1 };
        let mut map: StrMap<InputLevels> = StrMap::new();
        let mut i: usize = 0;
        while i < levels.len()
            invariant
                i <= levels@.len(),
                Map::new(|k: Seq<char>| map@.contains_key(k), |k: Seq<char>| map@[k].channels@)
                    == readings_by_input(levels@.take(i as int)),
                forall|k: Seq<char>| #[trigger] map@.contains_key(k) ==> map@[k].input@ == k,
            decreases levels@.len() - i,
        {
            proof {
                assert(levels@.take(i + 1).drop_last() =~= levels@.take(i as int));
            }
            let key = owned(levels[i].input.as_str());
            map.insert(key, levels[i].clone_levels());
            proof {
                assert(Map::new(|k: Seq<char>| map@.contains_key(k), |k: Seq<char>| map@[k].channels@)
                    =~= readings_by_input(levels@.take(i + 1)));
            }
            i = i + 1;
        }
        assert(levels@.take(levels@.len() as int) =~= levels@);
        self.levels = map;
    }

    /// Forget every reading, e.g. when the OBS connection drops. The
    /// sequence moves only if there was something to forget.
    pub fn clear(&mut self)
        ensures
            final(self).readings() == Map::<Seq<char>, Seq<ChannelLevel>>::empty(),
            final(self).sequence_spec() == if old(self).readings().len() == 0 {
                old(self).sequence_spec()
            } else {
                next_sequence(old(self).sequence_spec())
            },
    {
        proof {
            use_type_invariant(&*self);
            assert(self.readings().dom() =~= self.levels@.dom());
        }
        if self.levels.len() == 0 {
            self.levels = StrMap::new();
            assert(self.readings() =~= Map::<Seq<char>, Seq<ChannelLevel>>::empty());
            return;
        }
        self.sequence = if self.sequence == u64::MAX { 0 } else { self.sequence + 1 };
        self.levels = StrMap::new();
        assert(self.readings() =~= Map::<Seq<char>, Seq<ChannelLevel>>::empty());
    }

    /// Counter that changes on every update, including one that clears
    /// levels.
    pub fn sequence(&self) -> (n: u64)
        ensures
            n == self.sequence_spec(),
    {
        self.sequence
    }

    /// Latest reading for one input, if OBS reported it in the last update.
    pub fn get(&self, input: &str) -> (r: Option<&InputLevels>)
        ensures
            match r {
                Some(l) => self.readings().contains_key(input@) && l.channels@ == self.readings()[input@]
                && l.input@ == input@,
                None => !self.readings().contains_key(input@),
            },
    {
        proof {
            use_type_invariant(self);
        }
        self.levels.get(input)
    }

    /// Whether any input reported levels in the last update.
    pub fn is_empty(&self) -> (b: bool)
        ensures
            b == (self.readings().len() == 0),
    {
        proof {
            assert(self.readings().dom() =~= self.levels@.dom());
        }
        self.levels.len() == 0
    }
}

impl Default for InputLevelSnapshot {
    fn default() -> (s: InputLevelSnapshot)
        ensures
            s.readings() == Map::<Seq<char>, Seq<ChannelLevel>>::empty(),
            s.sequence_spec() == 0,
    {
        InputLevelSnapshot::new()
    }
}

impl InputLevels {
    /// A copy with the same contents.
    pub fn clone_levels(&self) -> (c: InputLevels)
        ensures
            c.input == self.input,
            c.channels@ == self.channels@,
    {
        let mut channels: Vec<ChannelLevel> = Vec::new();
        let mut i: usize = 0;
        while i < self.channels.len()
            invariant
                i <= self.channels@.len(),
                channels@ == self.channels@.take(i as int),
            decreases self.channels@.len() - i,
        {
            channels.push(self.channels[i]);
            assert(channels@ =~= self.channels@.take(i + 1));
            i = i + 1;
        }
        assert(channels@ =~= self.channels@);
        InputLevels { input: self.input.clone(), channels }
    }
}

/// Name of a channel position, given the input's channel count.
pub open spec fn channel_text(channel: nat, channel_count: nat) -> Seq<char> {
    if channel_count <= 1 {
        "Mono"@
    } else if channel_count == 2 {
        if channel == 0 { "Left"@ } else { "Right"@ }
    } else if channel == 0 {
        "Front left"@
    } else if channel == 1 {
        "Front right"@
    } else if channel == 2 {
        "Front center"@
    } else if channel == 3 {
        "LFE"@
    } else if channel == 4 {
        "Rear left"@
    } else if channel == 5 {
        "Rear right"@
    } else if channel == 6 {
        "Side left"@
    } else if channel == 7 {
        "Side right"@
    } else {
        "Channel "@ + decimal(channel + 1)
    }
}

/// User-facing name for a channel position, given the input's channel count.
///
/// Mono and stereo get plain names; anything wider uses the surround order
/// OBS documents, and unexpected extra channels fall back to their 1-based
/// index.
pub fn channel_label(channel: usize, channel_count: usize) -> (s: String)
    requires
        channel < usize::MAX,
    ensures
        s@ == channel_text(channel as nat, channel_count as nat),
{
    if channel_count <= 1 {
        return owned("Mono");
    }
    if channel_count == 2 {
        return if channel == 0 { owned("Left") } else { owned("Right") };
    }
    match channel {
        0 => owned("Front left"),
        1 => owned("Front right"),
        2 => owned("Front center"),
        3 => owned("LFE"),
        4 => owned("Rear left"),
        5 => owned("Rear right"),
        6 => owned("Side left"),
        7 => owned("Side right"),
        other => {
            let index = decimal_string((other + 1) as u64);
            join2("Channel ", index.as_str())
        },
    }
}

} // verus!
