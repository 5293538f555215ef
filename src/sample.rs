use vstd::prelude::*;

verus! {

/// The format tag of a channel that cannot be sampled.
pub const FORMAT_INVALID: u8 = 0;

/// The format tag of a channel that holds one integer counter.
pub const FORMAT_SIMPLE: u8 = 1;

/// The format tag of a channel that holds one residency counter per state.
pub const FORMAT_STATE: u8 = 2;

/// A decoded snapshot of one channel.
#[derive(Debug, Clone)]
pub enum ChannelState {
    /// The format is unknown or the channel cannot be sampled.
    Invalid,
    /// One counter value.
    Simple(u64),
    /// One cumulative residency count per state slot, in slot order.
    State(Vec<u64>),
}

/// The mathematical value of a `ChannelState`.
pub enum StateModel {
    Invalid,
    Simple(u64),
    State(Seq<u64>),
}

impl ChannelState {
    pub open spec fn view(&self) -> StateModel {
        match self {
            ChannelState::Invalid => StateModel::Invalid,
            ChannelState::Simple(v) => StateModel::Simple(*v),
            ChannelState::State(buckets) => StateModel::State(buckets@),
        }
    }
}

/// Which payload accessor of the native service a sample of a given format
/// is read with.
#[derive(PartialEq, Eq, Structural, Clone, Copy, Debug)]
pub enum Payload {
    /// Nothing beyond the format tag is read.
    Nothing,
    /// One 64-bit integer value is read.
    Integer,
    /// A 32-bit bucket count is read, then that many 64-bit residencies.
    Residencies,
}

/// What was read off one sampled channel: its format tag and the payload that
/// the tag calls for (left at zero or empty where the tag calls for none).
pub struct RawSample {
    pub format: u8,
    pub integer_value: u64,
    pub residencies: Vec<u64>,
}

/// The decoded value of a sample with format tag `format`.
pub open spec fn decoded(format: u8, integer_value: u64, residencies: Seq<u64>) -> StateModel {
    if format == FORMAT_SIMPLE {
        StateModel::Simple(integer_value)
    } else if format == FORMAT_STATE {
        StateModel::State(residencies)
    } else {
        StateModel::Invalid
    }
}

/// Whether `format` is one of the three tags that the decoder knows.
pub open spec fn known_format(format: u8) -> bool {
    format == FORMAT_INVALID || format == FORMAT_SIMPLE || format == FORMAT_STATE
}

/// The payload to read for a sample with format tag `format`.
pub fn payload_for(format: u8) -> (r: Payload)
    ensures
        format == FORMAT_SIMPLE ==> r == Payload::Integer,
        format == FORMAT_STATE ==> r == Payload::Residencies,
        format != FORMAT_SIMPLE && format != FORMAT_STATE ==> r == Payload::Nothing,
{
    if format == FORMAT_SIMPLE {
        Payload::Integer
    } else if format == FORMAT_STATE {
        Payload::Residencies
    } else {
        Payload::Nothing
    }
}

/// Whether the decoder knows `format`; an unknown tag decodes to `Invalid`
/// and is worth one diagnostic line.
pub fn is_known_format(format: u8) -> (r: bool)
    ensures
        r == known_format(format),
{
    format == FORMAT_INVALID || format == FORMAT_SIMPLE || format == FORMAT_STATE
}

impl RawSample {
    /// Decodes the sample: `Simple` for tag 1, `State` for tag 2, `Invalid`
    /// for tag 0 and for every tag the decoder does not know.
    pub fn get_state(&self) -> (r: ChannelState)
        ensures
            r@ == decoded(self.format, self.integer_value, self.residencies@),
    {
        if self.format == FORMAT_SIMPLE {
            ChannelState::Simple(self.integer_value)
        } else if self.format == FORMAT_STATE {
            let buckets = self.residencies.clone();
            assert(buckets@ =~= self.residencies@);
            ChannelState::State(buckets)
        } else {
            ChannelState::Invalid
        }
    }
}

/// Decoding is a function of the sample alone: two decodings of one sample
/// agree, and a sample of tag 0 or of an unknown tag decodes to `Invalid`.
pub proof fn lemma_decoding_is_deterministic(raw: &RawSample, first: StateModel, second: StateModel)
    requires
        first == decoded(raw.format, raw.integer_value, raw.residencies@),
        second == decoded(raw.format, raw.integer_value, raw.residencies@),
    ensures
        first == second,
        (raw.format == FORMAT_INVALID || !known_format(raw.format)) ==> first == StateModel::Invalid,
{
}

} // verus!
