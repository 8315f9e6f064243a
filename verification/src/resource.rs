//! The capability every pluggable sound source implements, and two sources
//! of the library's own.

use vstd::prelude::*;

use crate::sample::{clamp_sample, clamp_spec};
use crate::stream::StreamInfo;

verus! {

/// A pluggable audio source. Once registered it is owned by the registry and
/// asked, once per output slot, for its contribution to the mix.
///
/// A source is pure with respect to its inputs aside from its own state:
/// [`AudioResource::sample`] is the contribution it makes at its current
/// state and [`AudioResource::next_state`] the state it moves to, and
/// `tick` must return exactly that, within the nominal normalized range.
/// A source that cannot produce a sample substitutes silence instead of
/// failing the mixing pipeline.
pub trait AudioResource: Sized {
    /// The contribution this source makes at its current state.
    spec fn sample(self, info: StreamInfo) -> int;

    /// The state this source moves to after producing one sample.
    spec fn next_state(self, info: StreamInfo) -> Self;

    /// Produce one normalized fixed-point sample for the current tick.
    /// Runs on the time-critical audio path: it must be bounded-time and
    /// must never block or abort.
    fn tick(&mut self, info: &StreamInfo) -> (s: i32)
        ensures
            s as int == old(self).sample(*info),
            *final(self) == old(self).next_state(*info),
            -32768 <= s as int <= 32768,
    ;
}

/// Why a source could not produce a sample. Such a failure never aborts a
/// mix pass: the slot becomes silence.
#[derive(Clone, Copy, PartialEq, Eq, Structural, Debug)]
pub enum ProduceError {
    /// The source ran out of data.
    Exhausted,
    /// The source's backing data could not be decoded.
    Decode,
}

/// The silence-on-failure rule of the time-critical path: a successful
/// production contributes its (clamped) sample, a failed one contributes
/// exactly silence.
pub fn silence_on_error(outcome: Result<i32, ProduceError>) -> (s: i32)
    ensures
        outcome matches Ok(v) ==> s as int == clamp_spec(v as int),
        outcome is Err ==> s == 0,
        -32768 <= s as int <= 32768,
{
    match outcome {
        Ok(v) => clamp_sample(v),
        Err(_) => 0,
    }
}

/// A source that contributes the same value on every tick.
#[derive(Clone, Copy, PartialEq, Eq, Structural, Debug)]
pub struct ConstantSource {
    /// The contributed value; it is clamped to the nominal range when the
    /// sample is produced.
    pub value: i32,
}

impl ConstantSource {
    /// A source contributing `value` (clamped to the nominal range) forever.
    pub fn new(value: i32) -> (s: ConstantSource)
        ensures
            s.value == value,
    {
        ConstantSource { value }
    }
}

impl AudioResource for ConstantSource {
    open spec fn sample(self, info: StreamInfo) -> int {
        clamp_spec(self.value as int)
    }

    open spec fn next_state(self, info: StreamInfo) -> ConstantSource {
        self
    }

    fn tick(&mut self, info: &StreamInfo) -> (s: i32) {
        clamp_sample(self.value)
    }
}

/// A source that replays a pre-staged script of production outcomes, then is
/// exhausted. Each failed outcome contributes exactly silence, as a real
/// fallible source (say, a file reader hitting a decode error) must.
pub struct ScriptedSource {
    /// The outcomes still to be produced, in order.
    pub outcomes: Vec<Result<i32, ProduceError>>,
    /// How many outcomes have been produced so far.
    pub pos: usize,
}

/// What one scripted outcome contributes to the mix.
pub open spec fn outcome_sample(outcome: Result<i32, ProduceError>) -> int {
    match outcome {
        Ok(v) => clamp_spec(v as int),
        Err(_) => 0,
    }
}

impl ScriptedSource {
    /// A source that will produce exactly the given outcomes, then silence.
    pub fn new(outcomes: Vec<Result<i32, ProduceError>>) -> (s: ScriptedSource)
        ensures
            s.outcomes == outcomes,
            s.pos == 0,
    {
        ScriptedSource { outcomes, pos: 0 }
    }
}

impl AudioResource for ScriptedSource {
    open spec fn sample(self, info: StreamInfo) -> int {
        if self.pos < self.outcomes@.len() {
            outcome_sample(self.outcomes@[self.pos as int])
        } else {
            0
        }
    }

    open spec fn next_state(self, info: StreamInfo) -> ScriptedSource {
        if self.pos < self.outcomes@.len() {
            ScriptedSource { outcomes: self.outcomes, pos: (self.pos + 1) as usize }
        } else {
            self
        }
    }

    fn tick(&mut self, info: &StreamInfo) -> (s: i32) {
        if self.pos < self.outcomes.len() {
            let outcome = self.outcomes[self.pos];
            self.pos = self.pos + 1;
            silence_on_error(outcome)
        } else {
            0
        }
    }
}

} // verus!
