//! Orchestration of one stream session: lifecycle state machine, the shared
//! registry handle the audio callback mixes through, and the session's error
//! taxonomy.

use vstd::prelude::*;

use crate::registry::SharedRegistry;
use crate::resource::AudioResource;
use crate::stream::StreamInfo;

verus! {

/// Fatal setup and lifecycle failures, surfaced synchronously to the caller
/// that constructs the system or runs the stream. Per-resource production
/// failures are never reported this way: they become silence instead.
#[derive(Clone, Copy, PartialEq, Eq, Structural, Debug)]
pub enum AudioError {
    /// No output device could be found.
    DeviceUnavailable,
    /// The device offered no usable output format.
    ConfigNegotiation,
    /// The hardware stream could not be constructed.
    StreamBuild,
    /// The hardware stream could not be started.
    StreamStart,
    /// The shutdown channel was torn down without ever signalling, so the
    /// stream would never learn when to stop.
    ShutdownChannelClosed,
}

/// The native sample representation the hardware negotiated for one session.
#[derive(Clone, Copy, PartialEq, Eq, Structural, Debug)]
pub enum SampleFormat {
    /// Signed 16-bit integer samples.
    I16,
    /// Unsigned 16-bit integer samples.
    U16,
    /// Native float samples: the normalized signal passes through unscaled.
    Float,
}

/// Lifecycle of one stream session; once stopped, a session never streams
/// again.
#[derive(Clone, Copy, PartialEq, Eq, Structural, Debug)]
pub enum SystemState {
    /// Format negotiated; resources may be registered.
    Configured,
    /// The hardware stream is running and mixing callbacks are being served.
    Streaming,
    /// The stream has been stopped; the session is over.
    Stopped,
}

/// Where a shutdown event takes a session, and whether the hardware stream
/// must be stopped on its account.
pub open spec fn shutdown_step(s: SystemState) -> (SystemState, bool) {
    (SystemState::Stopped, s == SystemState::Streaming)
}

/// A shutdown stops the session, and stopping is idempotent: the session
/// always ends `Stopped`, a stop is issued exactly when the session was
/// streaming, and handling a second shutdown never issues a second stop.
pub proof fn lemma_shutdown_idempotent(s: SystemState)
    ensures
        shutdown_step(s).0 == SystemState::Stopped,
        shutdown_step(s).1 == (s == SystemState::Streaming),
        !shutdown_step(shutdown_step(s).0).1,
{
}

/// The global audio system for one stream session: it owns the negotiated
/// format, the registry of resources to mix, and the session lifecycle.
pub struct AudioSystem<R> {
    /// The negotiated output format.
    pub info: StreamInfo,
    /// The native sample representation the hardware expects.
    pub format: SampleFormat,
    /// Where the session stands in its lifecycle.
    pub state: SystemState,
    /// The resources to mix, shared with the audio callback.
    pub registry: SharedRegistry<R>,
}

impl<R: AudioResource> AudioSystem<R> {
    /// A freshly configured system for one negotiated session, with an empty
    /// registry. Negotiation itself is the device collaborator's work: it
    /// hands over the format as plain values.
    pub fn new(info: StreamInfo, format: SampleFormat) -> (s: AudioSystem<R>)
        requires
            info.valid(),
        ensures
            s.info == info,
            s.format == format,
            s.state == SystemState::Configured,
    {
        AudioSystem { info, format, state: SystemState::Configured, registry: SharedRegistry::new() }
    }

    /// Transfer a resource into the system. Safe to call while a mix pass is
    /// in flight: the resource is visible to mixing no later than the next
    /// pass and never midway through the current one.
    pub fn add_resource(&mut self, resource: R)
        ensures
            *final(self) == *old(self),
    {
        self.registry.add(resource);
    }

    /// A registry handle for the audio callback's execution context: it
    /// refers to the very registry this system owns, so what the control
    /// thread registers is what the callback mixes.
    pub fn registry_handle(&self) -> (h: SharedRegistry<R>)
        ensures
            h == self.registry,
    {
        self.registry.clone_handle()
    }

    /// Start streaming: the session moves from `Configured` to `Streaming`
    /// and the caller learns which native branch to drive. The hardware
    /// stream itself is the device collaborator's work; it keeps mixing
    /// through the registry handle until a shutdown is handled.
    pub fn run(&mut self) -> (format: SampleFormat)
        requires
            old(self).state == SystemState::Configured,
        ensures
            final(self).state == SystemState::Streaming,
            format == old(self).format,
            final(self).info == old(self).info,
            final(self).format == old(self).format,
            final(self).registry == old(self).registry,
    {
        self.state = SystemState::Streaming;
        self.format
    }

    /// Handle the one-shot shutdown signal: the session ends, and the caller
    /// must stop the hardware stream exactly when one was streaming — so a
    /// repeated delivery never stops anything twice.
    pub fn handle_shutdown(&mut self) -> (stop: bool)
        ensures
            final(self).state == shutdown_step(old(self).state).0,
            stop == shutdown_step(old(self).state).1,
            final(self).info == old(self).info,
            final(self).format == old(self).format,
            final(self).registry == old(self).registry,
    {
        let stop = self.state == SystemState::Streaming;
        self.state = SystemState::Stopped;
        stop
    }
}

} // verus!
