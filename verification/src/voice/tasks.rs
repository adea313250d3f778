//! The child tasks and audio devices of a voice connection: what runs, and what a change asks
//! for.
use crate::text::{same_optional_text, text_view};
use crate::voice::session::{AudioSourcesView, VoiceAudioSources};
use vstd::prelude::*;
use vstd::string::*;

verus! {

/// A slot for a child task. The task that it holds is aborted when it is replaced or torn down,
/// and that is logged under the slot's label.
#[derive(Clone, Copy, Debug)]
pub struct ManagedTask {
    pub label: &'static str,
    pub running: bool,
}

pub struct SlotView {
    pub label: Seq<char>,
    pub running: bool,
}

impl View for ManagedTask {
    type V = SlotView;

    open spec fn view(&self) -> SlotView {
        SlotView { label: self.label@, running: self.running }
    }
}

impl SlotView {
    pub open spec fn empty(label: Seq<char>) -> SlotView {
        SlotView { label, running: false }
    }

    pub open spec fn filled(self) -> SlotView {
        SlotView { running: true, ..self }
    }

    pub open spec fn emptied(self) -> SlotView {
        SlotView { running: false, ..self }
    }

    /// What is logged where the slot's task is replaced.
    pub open spec fn replace_log(self) -> Option<Seq<char>> {
        if self.running {
            Some("aborting previous "@ + self.label)
        } else {
            None
        }
    }

    /// What is logged where the slot is emptied.
    pub open spec fn abort_log(self) -> Option<Seq<char>> {
        if self.running {
            Some("aborting "@ + self.label)
        } else {
            None
        }
    }
}

impl ManagedTask {
    pub fn new(label: &'static str) -> (slot: Self)
        ensures
            slot@ == SlotView::empty(label@),
    {
        ManagedTask { label, running: false }
    }

    /// What is to be logged when the slot's task is replaced: nothing where there is none.
    pub fn replace_log(&self) -> (text: Option<String>)
        ensures
            text_view(text) == self@.replace_log(),
    {
        if self.running {
            Some(prefixed("aborting previous ", self.label))
        } else {
            None
        }
    }

    /// What is to be logged when the slot is emptied: nothing where it holds no task.
    pub fn abort_log(&self) -> (text: Option<String>)
        ensures
            text_view(text) == self@.abort_log(),
    {
        if self.running {
            Some(prefixed("aborting ", self.label))
        } else {
            None
        }
    }

    /// Puts a task into the slot, and says whether the one before it must be aborted.
    pub fn replace(&mut self) -> (abort_previous: bool)
        ensures
            abort_previous == old(self)@.running,
            final(self)@ == old(self)@.filled(),
    {
        let abort_previous = self.running;
        self.running = true;
        abort_previous
    }

    /// Empties the slot, and says whether its task must be aborted.
    pub fn abort(&mut self) -> (abort_task: bool)
        ensures
            abort_task == old(self)@.running,
            final(self)@ == old(self)@.emptied(),
    {
        let abort_task = self.running;
        self.running = false;
        abort_task
    }
}

/// What is captured and transmitted. The epoch counts the changes of the transmit flag, so that
/// a change is seen even where a later one hides it.
#[derive(Clone, Copy, Debug, PartialEq, Eq, Structural)]
pub struct VoiceCaptureGate {
    pub transmit_epoch: u64,
    pub capture_enabled: bool,
    pub transmit_enabled: bool,
    pub use_voice_activity: bool,
    pub noise_suppression: bool,
    /// Milliseconds of sound that the microphone buffers, where not left to the system.
    pub microphone_buffer_ms: Option<u32>,
    /// Decibels below full scale.
    pub microphone_sensitivity: i8,
    /// Per cent.
    pub microphone_volume: u8,
}

/// What is played.
#[derive(Clone, Copy, Debug, PartialEq, Eq, Structural)]
pub struct VoicePlaybackGate {
    pub enabled: bool,
    /// Per cent.
    pub volume: u8,
}

/// The number after `epoch`, which wraps around.
pub open spec fn next_epoch(epoch: u64) -> u64 {
    if epoch == u64::MAX {
        0
    } else {
        (epoch + 1) as u64
    }
}

impl VoiceCaptureGate {
    /// What tells the transmit task to finish.
    pub open spec fn stopped(self) -> VoiceCaptureGate {
        VoiceCaptureGate {
            transmit_epoch: next_epoch(self.transmit_epoch),
            capture_enabled: false,
            transmit_enabled: false,
            ..self
        }
    }

    /// What holds after a new gate was asked for: all but the epoch is taken over.
    pub open spec fn replaced_by(self, gate: VoiceCaptureGate) -> VoiceCaptureGate {
        VoiceCaptureGate {
            transmit_epoch: if self.transmit_enabled != gate.transmit_enabled {
                next_epoch(self.transmit_epoch)
            } else {
                self.transmit_epoch
            },
            ..gate
        }
    }
}

/// What runs for a voice connection.
#[derive(Debug)]
pub struct VoiceChildTasks {
    pub heartbeat: ManagedTask,
    pub udp_ping: ManagedTask,
    pub udp_receive: ManagedTask,
    pub udp_transmit: bool,
    /// What the transmit task was last told.
    pub transmit_gate: Option<VoiceCaptureGate>,
    pub playback_enabled: Option<bool>,
    pub playback_volume: Option<u8>,
    /// Whether captured frames have a destination.
    pub microphone_pcm: bool,
    pub opus_decode: ManagedTask,
    pub audio_output: bool,
    /// Whether decoded frames have a destination.
    pub decoded_audio_output: bool,
    pub microphone_capture: bool,
    pub microphone_source: Option<String>,
    pub microphone_buffer_ms: Option<u32>,
    pub output_source: Option<String>,
}

pub struct TasksView {
    pub heartbeat: SlotView,
    pub udp_ping: SlotView,
    pub udp_receive: SlotView,
    pub udp_transmit: bool,
    pub transmit_gate: Option<VoiceCaptureGate>,
    pub playback_enabled: Option<bool>,
    pub playback_volume: Option<u8>,
    pub microphone_pcm: bool,
    pub opus_decode: SlotView,
    pub audio_output: bool,
    pub decoded_audio_output: bool,
    pub microphone_capture: bool,
    pub microphone_source: Option<Seq<char>>,
    pub microphone_buffer_ms: Option<u32>,
    pub output_source: Option<Seq<char>>,
}

impl View for VoiceChildTasks {
    type V = TasksView;

    open spec fn view(&self) -> TasksView {
        TasksView {
            heartbeat: self.heartbeat@,
            udp_ping: self.udp_ping@,
            udp_receive: self.udp_receive@,
            udp_transmit: self.udp_transmit,
            transmit_gate: self.transmit_gate,
            playback_enabled: self.playback_enabled,
            playback_volume: self.playback_volume,
            microphone_pcm: self.microphone_pcm,
            opus_decode: self.opus_decode@,
            audio_output: self.audio_output,
            decoded_audio_output: self.decoded_audio_output,
            microphone_capture: self.microphone_capture,
            microphone_source: text_view(self.microphone_source),
            microphone_buffer_ms: self.microphone_buffer_ms,
            output_source: text_view(self.output_source),
        }
    }
}

/// What stopping the transmit task asks for.
#[derive(Clone, Copy, Debug, PartialEq, Eq, Structural)]
pub struct TransmitStop {
    /// Whether a task is to be waited for.
    pub wait: bool,
    /// What the task is told.
    pub gate: Option<VoiceCaptureGate>,
}

/// How waiting for the transmit task ended.
#[derive(Clone, Copy, Debug, PartialEq, Eq, Structural)]
pub enum TransmitWait {
    Finished,
    Failed,
    TimedOut,
}

impl TransmitWait {
    /// Whether the task must be aborted: only where it did not end by itself.
    pub fn needs_abort(self) -> (abort: bool)
        ensures
            abort == (self == TransmitWait::TimedOut),
    {
        self == TransmitWait::TimedOut
    }
}

/// What tearing everything down asks for.
#[derive(Clone, Copy, Debug, PartialEq, Eq, Structural)]
pub struct AbortActions {
    pub heartbeat: bool,
    pub udp_ping: bool,
    pub udp_receive: bool,
    pub udp_transmit: bool,
    /// What the transmit task is told before it is aborted.
    pub gate: Option<VoiceCaptureGate>,
    pub opus_decode: bool,
    /// Whether decoded frames must be cut off from the output.
    pub detach_output: bool,
}

/// What a new decoder asks for.
#[derive(Clone, Copy, Debug, PartialEq, Eq, Structural)]
pub struct DecodeReplaced {
    pub detach_output: bool,
    pub abort_previous: bool,
}

/// What a change asks of the microphone.
#[derive(Clone, Copy, Debug, PartialEq, Eq, Structural)]
pub enum MicrophonePlan {
    Keep,
    Start,
    Replace,
    Stop,
}

/// What became of a new gate.
#[derive(Debug, PartialEq, Eq)]
pub struct TransmitGateOutcome {
    /// What the transmit task is told.
    pub told: Option<VoiceCaptureGate>,
    /// What is to be logged as an error.
    pub error: Option<String>,
}

/// What a change of devices asks for.
#[derive(Clone, Copy, Debug, PartialEq, Eq, Structural)]
pub struct AudioSourcesPlan {
    pub start_microphone: bool,
    pub start_output: bool,
}

/// What became of a change of devices.
#[derive(Debug, PartialEq, Eq)]
pub struct VoiceAudioSourcesApplyOutcome {
    pub active_sources: VoiceAudioSources,
    pub error: Option<String>,
}

pub struct ApplyOutcomeView {
    pub active_sources: AudioSourcesView,
    pub error: Option<Seq<char>>,
}

impl View for VoiceAudioSourcesApplyOutcome {
    type V = ApplyOutcomeView;

    open spec fn view(&self) -> ApplyOutcomeView {
        ApplyOutcomeView { active_sources: self.active_sources@, error: text_view(self.error) }
    }
}

/// Why a device could not be started.
pub open spec fn start_error(start: Result<(), String>) -> Option<Seq<char>> {
    match start {
        Ok(_) => None,
        Err(message) => Some(message@),
    }
}

impl TasksView {
    pub open spec fn after_stop_signal(self) -> TasksView {
        TasksView {
            microphone_capture: false,
            microphone_pcm: false,
            transmit_gate: None,
            ..self
        }
    }

    pub open spec fn stop_gate(self) -> Option<VoiceCaptureGate> {
        match self.transmit_gate {
            Some(gate) => Some(gate.stopped()),
            None => None,
        }
    }

    /// Nothing runs any more and nothing is played. A destination of captured frames without
    /// a transmit task stays.
    pub open spec fn after_abort(self) -> TasksView {
        let told = if self.udp_transmit {
            self.after_stop_signal()
        } else {
            self
        };
        TasksView {
            heartbeat: self.heartbeat.emptied(),
            udp_ping: self.udp_ping.emptied(),
            udp_receive: self.udp_receive.emptied(),
            udp_transmit: false,
            opus_decode: self.opus_decode.emptied(),
            audio_output: false,
            decoded_audio_output: false,
            playback_enabled: None,
            playback_volume: None,
            microphone_capture: false,
            ..told
        }
    }

    /// A capture runs only where it is wanted and has a destination. A running one is replaced
    /// for a new buffer size.
    pub open spec fn microphone_plan(self, enabled: bool, buffer_ms: Option<u32>) -> MicrophonePlan {
        if enabled && self.microphone_pcm {
            if !self.microphone_capture {
                MicrophonePlan::Start
            } else if self.microphone_buffer_ms != buffer_ms {
                MicrophonePlan::Replace
            } else {
                MicrophonePlan::Keep
            }
        } else if self.microphone_capture {
            MicrophonePlan::Stop
        } else {
            MicrophonePlan::Keep
        }
    }

    pub open spec fn after_microphone(
        self,
        enabled: bool,
        buffer_ms: Option<u32>,
        error: Option<Seq<char>>,
    ) -> TasksView {
        match self.microphone_plan(enabled, buffer_ms) {
            MicrophonePlan::Start | MicrophonePlan::Replace => if error is None {
                TasksView { microphone_capture: true, microphone_buffer_ms: buffer_ms, ..self }
            } else {
                self
            },
            MicrophonePlan::Stop => TasksView { microphone_capture: false, ..self },
            MicrophonePlan::Keep => self,
        }
    }

    /// What is logged where a capture could not be started.
    pub open spec fn microphone_error(
        self,
        enabled: bool,
        buffer_ms: Option<u32>,
        error: Option<Seq<char>>,
    ) -> Option<Seq<char>> {
        match (self.microphone_plan(enabled, buffer_ms), error) {
            (MicrophonePlan::Start, Some(error)) => Some(
                "voice microphone capture unavailable: "@ + error,
            ),
            (MicrophonePlan::Replace, Some(error)) => Some(
                "voice microphone buffer change failed; previous capture remains active: "@ + error,
            ),
            _ => None,
        }
    }

    /// The transmit task is told first.
    pub open spec fn after_gate(self, gate: VoiceCaptureGate) -> TasksView {
        TasksView {
            transmit_gate: match self.transmit_gate {
                Some(current) => Some(current.replaced_by(gate)),
                None => None,
            },
            ..self
        }
    }

    pub open spec fn after_playback_gate(self, gate: VoicePlaybackGate) -> TasksView {
        TasksView {
            playback_enabled: match self.playback_enabled {
                Some(_) => Some(gate.enabled),
                None => None,
            },
            playback_volume: match self.playback_volume {
                Some(_) => Some(gate.volume),
                None => None,
            },
            ..self
        }
    }

    /// Whether decoded frames can be given a new output.
    pub open spec fn can_replace_output(self) -> bool {
        self.decoded_audio_output && self.playback_enabled is Some && self.playback_volume is Some
    }

    /// A changed device is started where it is, or would be, in use.
    pub open spec fn sources_plan(
        self,
        sources: AudioSourcesView,
        gate: VoiceCaptureGate,
    ) -> AudioSourcesPlan {
        AudioSourcesPlan {
            start_microphone: self.microphone_source != sources.input && self.microphone_pcm && (
            self.microphone_capture || gate.capture_enabled),
            start_output: self.output_source != sources.output && self.can_replace_output(),
        }
    }

    /// A device that could not be started leaves the one before it in use.
    pub open spec fn after_input(
        self,
        sources: AudioSourcesView,
        gate: VoiceCaptureGate,
        error: Option<Seq<char>>,
    ) -> TasksView {
        if !self.sources_plan(sources, gate).start_microphone {
            TasksView { microphone_source: sources.input, ..self }
        } else if error is None {
            TasksView {
                microphone_capture: true,
                microphone_source: sources.input,
                microphone_buffer_ms: gate.microphone_buffer_ms,
                ..self
            }
        } else {
            self
        }
    }

    pub open spec fn after_output(
        self,
        sources: AudioSourcesView,
        gate: VoiceCaptureGate,
        error: Option<Seq<char>>,
    ) -> TasksView {
        if !self.sources_plan(sources, gate).start_output {
            TasksView { output_source: sources.output, ..self }
        } else if error is None {
            TasksView { audio_output: true, output_source: sources.output, ..self }
        } else {
            self
        }
    }

    pub open spec fn active_sources(self) -> AudioSourcesView {
        AudioSourcesView { input: self.microphone_source, output: self.output_source }
    }

    pub open spec fn input_error(
        self,
        sources: AudioSourcesView,
        gate: VoiceCaptureGate,
        error: Option<Seq<char>>,
    ) -> Option<Seq<char>> {
        if self.sources_plan(sources, gate).start_microphone && error is Some {
            Some(
                "Could not switch voice input source. The previous source remains active: "@
                    + error->Some_0,
            )
        } else {
            None
        }
    }

    pub open spec fn output_error(
        self,
        sources: AudioSourcesView,
        gate: VoiceCaptureGate,
        error: Option<Seq<char>>,
    ) -> Option<Seq<char>> {
        if self.sources_plan(sources, gate).start_output && error is Some {
            Some(
                "Could not switch voice output source. The previous source remains active: "@
                    + error->Some_0,
            )
        } else {
            None
        }
    }
}

/// Two optional errors in one line.
pub open spec fn joined_errors(a: Option<Seq<char>>, b: Option<Seq<char>>) -> Option<Seq<char>> {
    match (a, b) {
        (Some(a), Some(b)) => Some(a + " "@ + b),
        (Some(_), None) => a,
        (None, _) => b,
    }
}

impl Default for VoiceChildTasks {
    fn default() -> (tasks: Self)
        ensures
            tasks@ == (TasksView {
                heartbeat: SlotView::empty("voice heartbeat task"@),
                udp_ping: SlotView::empty("voice UDP ping task"@),
                udp_receive: SlotView::empty("voice UDP receive task"@),
                udp_transmit: false,
                transmit_gate: None,
                playback_enabled: None,
                playback_volume: None,
                microphone_pcm: false,
                opus_decode: SlotView::empty("voice Opus decode task"@),
                audio_output: false,
                decoded_audio_output: false,
                microphone_capture: false,
                microphone_source: None,
                microphone_buffer_ms: None,
                output_source: None,
            }),
    {
        VoiceChildTasks {
            heartbeat: ManagedTask::new("voice heartbeat task"),
            udp_ping: ManagedTask::new("voice UDP ping task"),
            udp_receive: ManagedTask::new("voice UDP receive task"),
            udp_transmit: false,
            transmit_gate: None,
            playback_enabled: None,
            playback_volume: None,
            microphone_pcm: false,
            opus_decode: ManagedTask::new("voice Opus decode task"),
            audio_output: false,
            decoded_audio_output: false,
            microphone_capture: false,
            microphone_source: None,
            microphone_buffer_ms: None,
            output_source: None,
        }
    }
}

impl VoiceChildTasks {
    /// Puts a new task into its slot, and says whether the one before it must be aborted.
    pub fn replace_heartbeat(&mut self) -> (abort_previous: bool)
        ensures
            abort_previous == old(self)@.heartbeat.running,
            final(self)@ == (TasksView {
                heartbeat: old(self)@.heartbeat.filled(),
                ..old(self)@
            }),
    {
        self.heartbeat.replace()
    }

    pub fn replace_udp_receive(&mut self) -> (abort_previous: bool)
        ensures
            abort_previous == old(self)@.udp_receive.running,
            final(self)@ == (TasksView {
                udp_receive: old(self)@.udp_receive.filled(),
                ..old(self)@
            }),
    {
        self.udp_receive.replace()
    }

    pub fn replace_udp_ping(&mut self) -> (abort_previous: bool)
        ensures
            abort_previous == old(self)@.udp_ping.running,
            final(self)@ == (TasksView {
                udp_ping: old(self)@.udp_ping.filled(),
                ..old(self)@
            }),
    {
        self.udp_ping.replace()
    }

    /// Takes over a transmit task that was told `gate`. The one before it should be gone.
    pub fn install_udp_transmit(&mut self, gate: VoiceCaptureGate)
        ensures
            final(self)@ == (TasksView {
                udp_transmit: true,
                transmit_gate: Some(gate),
                microphone_pcm: true,
                ..old(self)@
            }),
    {
        self.udp_transmit = true;
        self.transmit_gate = Some(gate);
        self.microphone_pcm = true;
    }

    /// Tells the transmit task to finish, and cuts it off. Gives what the task is told.
    pub fn signal_udp_transmit_stop(&mut self) -> (gate: Option<VoiceCaptureGate>)
        ensures
            gate == old(self)@.stop_gate(),
            final(self)@ == old(self)@.after_stop_signal(),
    {
        let gate = match self.transmit_gate {
            Some(current) => Some(
                VoiceCaptureGate {
                    transmit_epoch: current.transmit_epoch.wrapping_add(1),
                    capture_enabled: false,
                    transmit_enabled: false,
                    ..current
                },
            ),
            None => None,
        };
        self.microphone_capture = false;
        self.microphone_pcm = false;
        self.transmit_gate = None;
        gate
    }

    /// Begins to stop the transmit task, which is to be waited for where there is one.
    pub fn stop_udp_transmit_gracefully(&mut self) -> (stop: TransmitStop)
        ensures
            stop == (TransmitStop {
                wait: old(self)@.udp_transmit,
                gate: old(self)@.stop_gate(),
            }),
            final(self)@ == (TasksView { udp_transmit: false, ..old(self)@.after_stop_signal() }),
    {
        let wait = self.udp_transmit;
        self.udp_transmit = false;
        let gate = self.signal_udp_transmit_stop();
        TransmitStop { wait, gate }
    }

    /// Takes over a new decoder, with or without an output, and what it was told to play.
    pub fn replace_opus_decode(&mut self, has_output: bool, playback: VoicePlaybackGate) -> (replaced:
        DecodeReplaced)
        ensures
            replaced == (DecodeReplaced {
                detach_output: old(self)@.decoded_audio_output,
                abort_previous: old(self)@.opus_decode.running,
            }),
            final(self)@ == (TasksView {
                opus_decode: old(self)@.opus_decode.filled(),
                audio_output: has_output,
                decoded_audio_output: true,
                playback_enabled: Some(playback.enabled),
                playback_volume: Some(playback.volume),
                ..old(self)@
            }),
    {
        let detach_output = self.decoded_audio_output;
        self.audio_output = has_output;
        self.decoded_audio_output = true;
        self.playback_enabled = Some(playback.enabled);
        self.playback_volume = Some(playback.volume);
        let abort_previous = self.opus_decode.replace();
        DecodeReplaced { detach_output, abort_previous }
    }

    /// Tears everything down, and says what must be aborted for it.
    pub fn abort_all(&mut self) -> (actions: AbortActions)
        ensures
            final(self)@ == old(self)@.after_abort(),
            actions == (AbortActions {
                heartbeat: old(self)@.heartbeat.running,
                udp_ping: old(self)@.udp_ping.running,
                udp_receive: old(self)@.udp_receive.running,
                udp_transmit: old(self)@.udp_transmit,
                gate: if old(self)@.udp_transmit {
                    old(self)@.stop_gate()
                } else {
                    None
                },
                opus_decode: old(self)@.opus_decode.running,
                detach_output: old(self)@.decoded_audio_output,
            }),
    {
        let heartbeat = self.heartbeat.abort();
        let udp_ping = self.udp_ping.abort();
        let udp_receive = self.udp_receive.abort();
        let udp_transmit = self.udp_transmit;
        let mut gate = None;
        if udp_transmit {
            self.udp_transmit = false;
            gate = self.signal_udp_transmit_stop();
        }
        let opus_decode = self.opus_decode.abort();
        let detach_output = self.decoded_audio_output;
        self.decoded_audio_output = false;
        self.audio_output = false;
        self.playback_enabled = None;
        self.playback_volume = None;
        self.microphone_capture = false;
        AbortActions {
            heartbeat,
            udp_ping,
            udp_receive,
            udp_transmit,
            gate,
            opus_decode,
            detach_output,
        }
    }

    /// What the wish for a capture asks of the microphone.
    pub fn microphone_plan(&self, enabled: bool, microphone_buffer_ms: Option<u32>) -> (plan:
        MicrophonePlan)
        ensures
            plan == self@.microphone_plan(enabled, microphone_buffer_ms),
    {
        let buffer_changed = self.microphone_buffer_ms != microphone_buffer_ms;
        match (enabled && self.microphone_pcm, self.microphone_capture, buffer_changed) {
            (true, false, _) => MicrophonePlan::Start,
            (true, true, true) => MicrophonePlan::Replace,
            (false, true, _) => MicrophonePlan::Stop,
            _ => MicrophonePlan::Keep,
        }
    }

    /// Takes over what came of `microphone_plan`. `start` is how starting a capture ended, and
    /// counts only where the plan starts one. Gives what is to be logged as an error.
    pub fn set_microphone_capture_enabled(
        &mut self,
        enabled: bool,
        microphone_buffer_ms: Option<u32>,
        start: Result<(), String>,
    ) -> (error: Option<String>)
        ensures
            final(self)@ == old(self)@.after_microphone(
                enabled,
                microphone_buffer_ms,
                start_error(start),
            ),
            text_view(error) == old(self)@.microphone_error(
                enabled,
                microphone_buffer_ms,
                start_error(start),
            ),
    {
        match self.microphone_plan(enabled, microphone_buffer_ms) {
            MicrophonePlan::Start => match start {
                Ok(_) => {
                    self.microphone_capture = true;
                    self.microphone_buffer_ms = microphone_buffer_ms;
                    None
                },
                Err(error) => Some(
                    prefixed("voice microphone capture unavailable: ", error.as_str()),
                ),
            },
            MicrophonePlan::Replace => match start {
                Ok(_) => {
                    self.microphone_capture = true;
                    self.microphone_buffer_ms = microphone_buffer_ms;
                    None
                },
                Err(error) => Some(
                    prefixed(
                        "voice microphone buffer change failed; previous capture remains active: ",
                        error.as_str(),
                    ),
                ),
            },
            MicrophonePlan::Stop => {
                self.microphone_capture = false;
                None
            },
            MicrophonePlan::Keep => None,
        }
    }

    /// What the transmit task is told of a new gate, where there is one. It is told first.
    pub fn transmit_gate_told(&self, capture_gate: VoiceCaptureGate) -> (told: Option<
        VoiceCaptureGate,
    >)
        ensures
            told == self@.after_gate(capture_gate).transmit_gate,
    {
        match self.transmit_gate {
            Some(current) => {
                let changed = current.transmit_enabled != capture_gate.transmit_enabled;
                let transmit_epoch: u64 = if changed {
                    current.transmit_epoch.wrapping_add(1)
                } else {
                    current.transmit_epoch
                };
                Some(VoiceCaptureGate { transmit_epoch, ..capture_gate })
            },
            None => None,
        }
    }

    /// What a new gate asks of the microphone.
    pub fn transmit_gate_plan(&self, capture_gate: VoiceCaptureGate) -> (plan: MicrophonePlan)
        ensures
            plan == self@.after_gate(capture_gate).microphone_plan(
                capture_gate.capture_enabled,
                capture_gate.microphone_buffer_ms,
            ),
    {
        self.microphone_plan(capture_gate.capture_enabled, capture_gate.microphone_buffer_ms)
    }

    /// Takes over a new gate: the transmit task is told, and the microphone follows as
    /// `transmit_gate_plan` says. `start` is how starting a capture ended, and counts only where
    /// the plan starts one.
    pub fn set_voice_transmit_gate(
        &mut self,
        capture_gate: VoiceCaptureGate,
        start: Result<(), String>,
    ) -> (outcome: TransmitGateOutcome)
        ensures
            final(self)@ == old(self)@.after_gate(capture_gate).after_microphone(
                capture_gate.capture_enabled,
                capture_gate.microphone_buffer_ms,
                start_error(start),
            ),
            outcome.told == old(self)@.after_gate(capture_gate).transmit_gate,
            text_view(outcome.error) == old(self)@.after_gate(capture_gate).microphone_error(
                capture_gate.capture_enabled,
                capture_gate.microphone_buffer_ms,
                start_error(start),
            ),
    {
        let told = self.transmit_gate_told(capture_gate);
        self.transmit_gate = told;
        let error = self.set_microphone_capture_enabled(
            capture_gate.capture_enabled,
            capture_gate.microphone_buffer_ms,
            start,
        );
        TransmitGateOutcome { told, error }
    }

    /// Takes over what is to be played, where something is.
    pub fn set_voice_playback_gate(&mut self, playback_gate: VoicePlaybackGate)
        ensures
            final(self)@ == old(self)@.after_playback_gate(playback_gate),
    {
        if self.playback_enabled.is_some() {
            self.playback_enabled = Some(playback_gate.enabled);
        }
        if self.playback_volume.is_some() {
            self.playback_volume = Some(playback_gate.volume);
        }
    }

    /// What a change of devices asks for.
    pub fn audio_sources_plan(&self, sources: &VoiceAudioSources, capture_gate: VoiceCaptureGate) -> (plan:
        AudioSourcesPlan)
        ensures
            plan == self@.sources_plan(sources@, capture_gate),
    {
        AudioSourcesPlan {
            start_microphone: !same_optional_text(&self.microphone_source, &sources.input)
                && self.microphone_pcm && (self.microphone_capture || capture_gate.capture_enabled),
            start_output: !same_optional_text(&self.output_source, &sources.output)
                && self.can_replace_output(),
        }
    }

    fn can_replace_output(&self) -> (can: bool)
        ensures
            can == self@.can_replace_output(),
    {
        self.decoded_audio_output && self.playback_enabled.is_some()
            && self.playback_volume.is_some()
    }

    /// Takes over a new output for decoded frames, where they can be given one. `start` is how
    /// starting it ended.
    pub fn replace_voice_audio_output(&mut self, start: Result<(), String>) -> (result: Result<
        (),
        String,
    >)
        ensures
            result == if old(self)@.can_replace_output() {
                start
            } else {
                Ok(())
            },
            final(self)@ == (TasksView {
                audio_output: old(self)@.audio_output || (old(self)@.can_replace_output()
                    && start is Ok),
                ..old(self)@
            }),
    {
        if !self.can_replace_output() {
            return Ok(());
        }
        if start.is_ok() {
            self.audio_output = true;
        }
        start
    }

    /// Takes over what came of `audio_sources_plan`. `microphone` and `output` are how starting
    /// the devices ended, and count only where the plan starts them.
    pub fn set_voice_audio_sources(
        &mut self,
        sources: VoiceAudioSources,
        capture_gate: VoiceCaptureGate,
        microphone: Result<(), String>,
        output: Result<(), String>,
    ) -> (outcome: VoiceAudioSourcesApplyOutcome)
        ensures
            final(self)@ == old(self)@.after_input(
                sources@,
                capture_gate,
                start_error(microphone),
            ).after_output(sources@, capture_gate, start_error(output)),
            outcome@.active_sources == final(self)@.active_sources(),
            outcome@.error == joined_errors(
                old(self)@.input_error(sources@, capture_gate, start_error(microphone)),
                old(self)@.output_error(sources@, capture_gate, start_error(output)),
            ),
    {
        let plan = self.audio_sources_plan(&sources, capture_gate);
        let mut input_error: Option<String> = None;
        if plan.start_microphone {
            match microphone {
                Ok(_) => {
                    self.microphone_capture = true;
                    self.microphone_source = sources.input;
                    self.microphone_buffer_ms = capture_gate.microphone_buffer_ms;
                },
                Err(error) => {
                    input_error = Some(
                        prefixed(
                            "Could not switch voice input source. The previous source remains active: ",
                            error.as_str(),
                        ),
                    );
                },
            }
        } else {
            self.microphone_source = sources.input;
        }
        let mut output_error: Option<String> = None;
        if !same_optional_text(&self.output_source, &sources.output) {
            match self.replace_voice_audio_output(output) {
                Ok(_) => {
                    self.output_source = sources.output;
                },
                Err(error) => {
                    output_error = Some(
                        prefixed(
                            "Could not switch voice output source. The previous source remains active: ",
                            error.as_str(),
                        ),
                    );
                },
            }
        }
        VoiceAudioSourcesApplyOutcome {
            active_sources: VoiceAudioSources {
                input: self.microphone_source.clone(),
                output: self.output_source.clone(),
            },
            error: join_errors(input_error, output_error),
        }
    }
}

fn prefixed(prefix: &str, error: &str) -> (text: String)
    ensures
        text@ == prefix@ + error@,
{
    let mut text = prefix.to_owned();
    text.append(error);
    text
}

fn join_errors(a: Option<String>, b: Option<String>) -> (joined: Option<String>)
    ensures
        text_view(joined) == joined_errors(text_view(a), text_view(b)),
{
    match a {
        Some(mut first) => match b {
            Some(second) => {
                first.append(" ");
                first.append(second.as_str());
                Some(first)
            },
            None => Some(first),
        },
        None => b,
    }
}

/// A microphone is captured only where that is wanted and the frames have a destination.
pub proof fn law_capture_needs_destination(
    tasks: TasksView,
    enabled: bool,
    buffer_ms: Option<u32>,
    error: Option<Seq<char>>,
)
    requires
        !enabled || !tasks.microphone_pcm,
    ensures
        !tasks.after_microphone(enabled, buffer_ms, error).microphone_capture,
        tasks.after_microphone(enabled, buffer_ms, error).microphone_buffer_ms
            == tasks.microphone_buffer_ms,
{
}

/// After a new gate the microphone is captured only where capture is wanted and the frames have
/// a destination.
pub proof fn law_microphone_follows_gate(
    tasks: TasksView,
    gate: VoiceCaptureGate,
    error: Option<Seq<char>>,
)
    ensures
        ({
            let after = tasks.after_gate(gate).after_microphone(
                gate.capture_enabled,
                gate.microphone_buffer_ms,
                error,
            );
            &&& after.microphone_capture ==> gate.capture_enabled && tasks.microphone_pcm
            &&& gate.capture_enabled && tasks.microphone_pcm && error is None
                ==> after.microphone_capture && (tasks.microphone_capture
                || after.microphone_buffer_ms == gate.microphone_buffer_ms)
        }),
{
}

/// A capture that could not be replaced stays in use.
pub proof fn law_failed_start_keeps_capture(
    tasks: TasksView,
    buffer_ms: Option<u32>,
    error: Seq<char>,
)
    requires
        tasks.microphone_pcm,
    ensures
        tasks.after_microphone(true, buffer_ms, Some(error)) == tasks,
{
}

/// The epoch moves exactly where the transmit flag changes, so that muting and
/// unmuting again is seen as two changes.
pub proof fn law_epoch_counts_transmit_changes(
    current: VoiceCaptureGate,
    first: VoiceCaptureGate,
    second: VoiceCaptureGate,
)
    ensures
        current.replaced_by(first).transmit_epoch == current.transmit_epoch <==>
            current.transmit_enabled == first.transmit_enabled,
        current.transmit_enabled != first.transmit_enabled && first.transmit_enabled
            != second.transmit_enabled ==> current.replaced_by(first).replaced_by(
            second,
        ).transmit_epoch != current.transmit_epoch,
{
}

/// Stopping ends capture and transmission, and is seen as a change.
pub proof fn law_stop_closes_gate(gate: VoiceCaptureGate)
    ensures
        !gate.stopped().capture_enabled,
        !gate.stopped().transmit_enabled,
        gate.stopped().transmit_epoch != gate.transmit_epoch,
{
}

/// A slot keeps its label, whatever becomes of its task, and what is logged names it.
pub proof fn law_slot_keeps_label(slot: SlotView)
    ensures
        slot.filled().label == slot.label,
        slot.emptied().label == slot.label,
        slot.filled().replace_log() == Some("aborting previous "@ + slot.label),
        slot.filled().abort_log() == Some("aborting "@ + slot.label),
        slot.emptied().replace_log() is None,
        slot.emptied().abort_log() is None,
{
}

/// After a teardown nothing runs, and tearing down again changes nothing.
pub proof fn law_abort_leaves_nothing_running(tasks: TasksView)
    ensures
        ({
            let after = tasks.after_abort();
            &&& !after.heartbeat.running && !after.udp_ping.running && !after.udp_receive.running
            &&& !after.udp_transmit && !after.opus_decode.running && !after.audio_output && !after.decoded_audio_output
            &&& !after.microphone_capture
            &&& tasks.udp_transmit ==> after.transmit_gate is None && !after.microphone_pcm
            &&& after.after_abort() == after
        }),
{
}

/// Devices that could be started are in use, without an error.
pub proof fn law_started_devices_are_active(
    tasks: TasksView,
    sources: AudioSourcesView,
    gate: VoiceCaptureGate,
)
    ensures
        tasks.after_input(sources, gate, None).after_output(sources, gate, None).active_sources()
            == sources,
        joined_errors(
            tasks.input_error(sources, gate, None),
            tasks.output_error(sources, gate, None),
        ) is None,
{
}

/// A device that could not be started leaves the one before it in use, and is reported; the
/// other device does not suffer from it.
pub proof fn law_failed_device_keeps_previous(
    tasks: TasksView,
    sources: AudioSourcesView,
    gate: VoiceCaptureGate,
    error: Seq<char>,
)
    ensures
        tasks.sources_plan(sources, gate).start_microphone ==> ({
            let after = tasks.after_input(sources, gate, Some(error)).after_output(
                sources,
                gate,
                None,
            );
            &&& after.microphone_source == tasks.microphone_source
            &&& after.microphone_capture == tasks.microphone_capture
            &&& after.output_source == sources.output
            &&& tasks.input_error(sources, gate, Some(error)) is Some
        }),
        tasks.sources_plan(sources, gate).start_output ==> ({
            let after = tasks.after_input(sources, gate, None).after_output(
                sources,
                gate,
                Some(error),
            );
            &&& after.output_source == tasks.output_source
            &&& after.audio_output == tasks.audio_output
            &&& after.microphone_source == sources.input
            &&& tasks.output_error(sources, gate, Some(error)) is Some
        }),
{
}

} // verus!
