//! What holds of connections: their addresses, who speaks in them, and what runs for them.
use crate::ids::{ChannelId, UserId};
use crate::payload::VoiceScope;
use crate::voice::gateway::{
    close_action, gateway_url, is_whitespace, without_leading_space, without_prefix,
    without_trailing_slashes, without_trailing_space, VoiceCloseAction,
};
use crate::voice::session::{AudioSourcesView, DescriptionView, SessionView};
use crate::voice::speaking::TrackerView;
use crate::voice::tasks::{MicrophonePlan, TasksView, VoiceCaptureGate, VoicePlaybackGate};
use crate::voice::time::MonotonicTime;
use vstd::prelude::*;

verus! {

/// The text holds nothing but white space.
pub open spec fn is_blank(text: Seq<char>) -> bool {
    forall|i: int| 0 <= i < text.len() ==> is_whitespace(#[trigger] text[i])
}

/// The text holds nothing but slashes.
pub open spec fn is_slashes(text: Seq<char>) -> bool {
    forall|i: int| 0 <= i < text.len() ==> #[trigger] text[i] == '/'
}

pub open spec fn starts_with(text: Seq<char>, prefix: Seq<char>) -> bool {
    prefix.len() <= text.len() && text.take(prefix.len() as int) == prefix
}

/// A host that needs no cleaning.
pub open spec fn is_clean_host(host: Seq<char>) -> bool {
    &&& host.len() > 0
    &&& !is_whitespace(host[0])
    &&& !is_whitespace(host.last())
    &&& host.last() != '/'
    &&& !starts_with(host, "wss://"@)
    &&& !starts_with(host, "https://"@)
}

proof fn lemma_leading(blank: Seq<char>, text: Seq<char>)
    requires
        is_blank(blank),
        text.len() == 0 || !is_whitespace(text[0]),
    ensures
        without_leading_space(blank + text) == text,
    decreases blank.len(),
{
    if blank.len() == 0 {
        assert(blank + text =~= text);
    } else {
        assert((blank + text)[0] == blank[0]);
        assert((blank + text).skip(1) =~= blank.skip(1) + text);
        assert forall|i: int| 0 <= i < blank.skip(1).len() implies is_whitespace(
            #[trigger] blank.skip(1)[i],
        ) by {
            assert(blank.skip(1)[i] == blank[i + 1]);
        }
        lemma_leading(blank.skip(1), text);
    }
}

proof fn lemma_trailing(text: Seq<char>, blank: Seq<char>)
    requires
        is_blank(blank),
        text.len() == 0 || !is_whitespace(text.last()),
    ensures
        without_trailing_space(text + blank) == text,
    decreases blank.len(),
{
    if blank.len() == 0 {
        assert(text + blank =~= text);
    } else {
        assert((text + blank).last() == blank.last());
        assert((text + blank).drop_last() =~= text + blank.drop_last());
        assert forall|i: int| 0 <= i < blank.drop_last().len() implies is_whitespace(
            #[trigger] blank.drop_last()[i],
        ) by {
            assert(blank.drop_last()[i] == blank[i]);
        }
        lemma_trailing(text, blank.drop_last());
    }
}

proof fn lemma_slashes(text: Seq<char>, slashes: Seq<char>)
    requires
        is_slashes(slashes),
        text.len() == 0 || text.last() != '/',
    ensures
        without_trailing_slashes(text + slashes) == text,
    decreases slashes.len(),
{
    if slashes.len() == 0 {
        assert(text + slashes =~= text);
    } else {
        assert((text + slashes).last() == slashes.last());
        assert((text + slashes).drop_last() =~= text + slashes.drop_last());
        assert forall|i: int| 0 <= i < slashes.drop_last().len() implies (
        #[trigger] slashes.drop_last()[i]) == '/' by {
            assert(slashes.drop_last()[i] == slashes[i]);
        }
        lemma_slashes(text, slashes.drop_last());
    }
}

/// An endpoint with white space around it, with either scheme or none, and with slashes at its
/// end is the same gateway as its bare host.
pub proof fn law_endpoints_are_cleaned(
    before: Seq<char>,
    scheme: Seq<char>,
    host: Seq<char>,
    slashes: Seq<char>,
    after: Seq<char>,
)
    requires
        is_blank(before),
        is_blank(after),
        is_slashes(slashes),
        scheme.len() == 0 || scheme == "wss://"@ || scheme == "https://"@,
        is_clean_host(host),
        !starts_with(host + slashes, "wss://"@),
        !starts_with(host + slashes, "https://"@),
    ensures
        gateway_url(before + scheme + host + slashes + after) == Ok::<Seq<char>, Seq<char>>(
            "wss://"@ + host + "/?v=9"@,
        ),
{
    reveal_strlit("wss://");
    reveal_strlit("https://");
    let bare = host + slashes;
    let core = scheme + bare;
    let endpoint = before + scheme + host + slashes + after;
    assert(endpoint =~= before + (core + after));
    assert(core[0] == if scheme.len() > 0 {
        scheme[0]
    } else {
        host[0]
    });
    assert(!is_whitespace(core[0]));
    assert((core + after)[0] == core[0]);
    lemma_leading(before, core + after);
    assert(core.last() == if slashes.len() > 0 {
        slashes.last()
    } else {
        host.last()
    });
    if slashes.len() > 0 {
        assert(slashes[slashes.len() - 1] == '/');
    }
    lemma_trailing(core, after);
    let no_wss = without_prefix(core, "wss://"@);
    if scheme == "wss://"@ {
        assert(core.take(6) =~= "wss://"@);
        assert(core.skip(6) =~= bare);
        assert(no_wss == bare);
        assert(without_prefix(bare, "https://"@) == bare);
    } else if scheme == "https://"@ {
        if starts_with(core, "wss://"@) {
            assert(core.take(6)[0] == 'w');
            assert(core[0] == 'h');
        }
        assert(no_wss == core);
        assert(core.take(8) =~= "https://"@);
        assert(core.skip(8) =~= bare);
        assert(without_prefix(core, "https://"@) == bare);
    } else {
        assert(core =~= bare);
    }
    lemma_slashes(host, slashes);
}

/// Nothing but white space and slashes is no endpoint.
pub proof fn law_empty_endpoints_are_refused(
    before: Seq<char>,
    slashes: Seq<char>,
    after: Seq<char>,
)
    requires
        is_blank(before),
        is_blank(after),
        is_slashes(slashes),
    ensures
        gateway_url(before + slashes + after) == Err::<Seq<char>, Seq<char>>(
            "voice endpoint is empty"@,
        ),
{
    reveal_strlit("wss://");
    reveal_strlit("https://");
    assert(before + slashes + after =~= before + (slashes + after));
    if slashes.len() > 0 {
        assert(slashes[0] == '/' && slashes[slashes.len() - 1] == '/');
        assert((slashes + after)[0] == slashes[0]);
        lemma_leading(before, slashes + after);
        lemma_trailing(slashes, after);
        if starts_with(slashes, "wss://"@) {
            assert(slashes.take(6)[0] == 'w');
        }
        if starts_with(slashes, "https://"@) {
            assert(slashes.take(8)[0] == 'h');
        }
    } else {
        let blank = before + after;
        assert(before + (slashes + after) =~= blank + Seq::empty());
        assert forall|i: int| 0 <= i < blank.len() implies is_whitespace(#[trigger] blank[i]) by {
            if i >= before.len() {
                assert(blank[i] == after[i - before.len()]);
            }
        }
        lemma_leading(blank, Seq::empty());
        assert(slashes =~= Seq::empty());
    }
    lemma_slashes(Seq::empty(), slashes);
    assert(Seq::<char>::empty() + slashes =~= slashes);
}

/// A session is given up for good after three codes, resumed after two, and made anew after every
/// other.
pub proof fn law_close_codes(code: u16)
    ensures
        close_action(code) == VoiceCloseAction::Stop <==> code == 4014 || code == 4021 || code
            == 4022,
        close_action(code) == VoiceCloseAction::Resume <==> code == 4013 || code == 4015,
{
}

/// Sessions are the same exactly where every credential is.
pub proof fn law_every_credential_counts(a: SessionView, b: SessionView)
    ensures
        a.same_credentials(b) <==> a == (SessionView { connection_id: a.connection_id, ..b }),
{
}

/// A reported end is a session's own exactly where all that it names is the session's.
pub proof fn law_own_ends_match(
    session: SessionView,
    connection_id: u64,
    scope: VoiceScope,
    channel_id: ChannelId,
    session_id: Seq<char>,
    endpoint: Seq<char>,
)
    ensures
        session.matches_connection_end(connection_id, scope, channel_id, session_id, endpoint)
            <==> session == (SessionView {
            connection_id,
            scope,
            channel_id,
            session_id,
            endpoint,
            ..session
        }),
{
}

/// A transport is another one where the mode or the key is.
pub proof fn law_other_transports_differ(a: DescriptionView, b: DescriptionView)
    ensures
        a.mode != b.mode || a.secret_key != b.secret_key ==> !a.uses_same_transport(b),
        a.mode == b.mode && a.secret_key == b.secret_key ==> a.uses_same_transport(b),
{
}

/// Somebody else who speaks is tracked until half a second after they were heard; who stops is
/// forgotten at once. Nobody else's deadline changes.
pub proof fn law_speakers_are_tracked(
    tracker: TrackerView,
    user_id: UserId,
    now: MonotonicTime,
    other: u64,
)
    requires
        user_id != tracker.local_user_id,
        now.nanos <= 0xffff_ffff_ffff_ffff - 500_000_000,
    ensures
        ({
            let speaks = tracker.after_remote(user_id, true, now).remote_deadlines;
            let stops = tracker.after_remote(user_id, false, now).remote_deadlines;
            &&& speaks.contains_key(user_id.value) && speaks[user_id.value].nanos == now.nanos
                + 500_000_000
            &&& !stops.contains_key(user_id.value)
            &&& other != user_id.value ==> speaks.get(other) == tracker.remote_deadlines.get(other)
                && stops.get(other) == tracker.remote_deadlines.get(other)
        }),
{
}

/// A change is reported where somebody else starts who was not tracked, or stops who was.
pub proof fn law_speaking_changes(tracker: TrackerView, user_id: UserId)
    requires
        user_id != tracker.local_user_id,
    ensures
        tracker.remote_edge(user_id, true) == Some(true) <==> !tracker.remote_deadlines.contains_key(
            user_id.value,
        ),
        tracker.remote_edge(user_id, false) == Some(false) <==>
            tracker.remote_deadlines.contains_key(user_id.value),
        tracker.remote_edge(user_id, true) != Some(false),
        tracker.remote_edge(user_id, false) != Some(true),
{
}

/// The others are given up whose deadline is not later than `now`; everybody tracked speaks, and
/// so does the local user while they do.
pub proof fn law_speakers(tracker: TrackerView, user_id: u64, now: MonotonicTime)
    ensures
        tracker.expired(now).contains(user_id) <==> tracker.remote_deadlines.contains_key(user_id)
            && tracker.remote_deadlines[user_id].nanos <= now.nanos,
        tracker.speakers().contains(user_id) <==> tracker.remote_deadlines.contains_key(user_id) || (
        tracker.local_speaking && user_id == tracker.local_user_id.value),
{
}

/// A microphone that is wanted and has a destination is started where it does not run, replaced
/// where it runs with another buffer size, and else kept. One that is not wanted, or has no
/// destination, is stopped where it runs.
pub proof fn law_microphone_plans(tasks: TasksView, enabled: bool, buffer_ms: Option<u32>)
    ensures
        ({
            let plan = tasks.microphone_plan(enabled, buffer_ms);
            let wanted = enabled && tasks.microphone_pcm;
            &&& plan == MicrophonePlan::Start <==> wanted && !tasks.microphone_capture
            &&& plan == MicrophonePlan::Replace <==> wanted && tasks.microphone_capture
                && tasks.microphone_buffer_ms != buffer_ms
            &&& plan == MicrophonePlan::Stop <==> !wanted && tasks.microphone_capture
        }),
{
}

/// A capture that was started runs with the buffer size that was asked for, one that was stopped
/// does not run, and nothing else changes.
pub proof fn law_microphone_runs_as_planned(
    tasks: TasksView,
    enabled: bool,
    buffer_ms: Option<u32>,
    error: Option<Seq<char>>,
)
    ensures
        ({
            let plan = tasks.microphone_plan(enabled, buffer_ms);
            let after = tasks.after_microphone(enabled, buffer_ms, error);
            let starts = plan == MicrophonePlan::Start || plan == MicrophonePlan::Replace;
            &&& starts && error is None ==> after == TasksView {
                microphone_capture: true,
                microphone_buffer_ms: buffer_ms,
                ..tasks
            }
            &&& starts && error is Some ==> after == tasks
            &&& plan == MicrophonePlan::Stop ==> after == TasksView {
                microphone_capture: false,
                ..tasks
            }
            &&& plan == MicrophonePlan::Keep ==> after == tasks
            &&& tasks.microphone_error(enabled, buffer_ms, error) is Some <==> starts
                && error is Some
        }),
{
}

/// A new gate is taken over but for its epoch, where a task is there to be told.
pub proof fn law_gates_are_taken_over(tasks: TasksView, gate: VoiceCaptureGate)
    ensures
        ({
            let after = tasks.after_gate(gate);
            &&& after == TasksView { transmit_gate: after.transmit_gate, ..tasks }
            &&& tasks.transmit_gate is None ==> after.transmit_gate is None
            &&& tasks.transmit_gate is Some ==> after.transmit_gate is Some && after.transmit_gate
                == Some(
                (VoiceCaptureGate {
                    transmit_epoch: after.transmit_gate->Some_0.transmit_epoch,
                    ..gate
                }),
            )
            &&& tasks.transmit_gate is Some ==> {
                let epoch = tasks.transmit_gate->Some_0.transmit_epoch;
                let changed = tasks.transmit_gate->Some_0.transmit_enabled != gate.transmit_enabled;
                after.transmit_gate->Some_0.transmit_epoch == if changed {
                    (epoch + 1) % 0x1_0000_0000_0000_0000
                } else {
                    epoch as int
                }
            }
        }),
{
}

/// What is played follows a new gate where something is played.
pub proof fn law_playback_follows_gate(tasks: TasksView, gate: VoicePlaybackGate)
    ensures
        ({
            let after = tasks.after_playback_gate(gate);
            &&& after == TasksView {
                playback_enabled: after.playback_enabled,
                playback_volume: after.playback_volume,
                ..tasks
            }
            &&& tasks.playback_enabled is Some ==> after.playback_enabled == Some(gate.enabled)
            &&& tasks.playback_enabled is None ==> after.playback_enabled is None
            &&& tasks.playback_volume is Some ==> after.playback_volume == Some(gate.volume)
            &&& tasks.playback_volume is None ==> after.playback_volume is None
        }),
{
}

/// A changed microphone is started where its frames have a destination and it runs or is wanted; a
/// changed output where something is decoded and played. An unchanged device is left alone.
pub proof fn law_changed_devices_are_started(
    tasks: TasksView,
    sources: AudioSourcesView,
    gate: VoiceCaptureGate,
)
    ensures
        ({
            let plan = tasks.sources_plan(sources, gate);
            &&& plan.start_microphone <==> {
                &&& sources.input != tasks.microphone_source
                &&& tasks.microphone_pcm
                &&& tasks.microphone_capture || gate.capture_enabled
            }
            &&& plan.start_output <==> {
                &&& sources.output != tasks.output_source
                &&& tasks.decoded_audio_output
                &&& tasks.playback_enabled is Some
                &&& tasks.playback_volume is Some
            }
            &&& !plan.start_microphone ==> tasks.after_input(sources, gate, None) == (TasksView {
                microphone_source: sources.input,
                ..tasks
            })
            &&& plan.start_microphone ==> tasks.after_input(sources, gate, None) == (TasksView {
                microphone_source: sources.input,
                microphone_capture: true,
                microphone_buffer_ms: gate.microphone_buffer_ms,
                ..tasks
            })
            &&& !plan.start_output ==> tasks.after_output(sources, gate, None) == (TasksView {
                output_source: sources.output,
                ..tasks
            })
            &&& plan.start_output ==> tasks.after_output(sources, gate, None) == (TasksView {
                output_source: sources.output,
                audio_output: true,
                ..tasks
            })
        }),
{
}

/// Stopping the transmit task cuts off its microphone and its frames, and tells it to finish.
pub proof fn law_stop_cuts_off(tasks: TasksView)
    ensures
        ({
            let after = tasks.after_stop_signal();
            &&& !after.microphone_capture && !after.microphone_pcm && after.transmit_gate is None
            &&& after == TasksView {
                microphone_capture: false,
                microphone_pcm: false,
                transmit_gate: None,
                ..tasks
            }
            &&& tasks.stop_gate() is Some <==> tasks.transmit_gate is Some
            &&& tasks.stop_gate() is Some ==> {
                let told = tasks.stop_gate()->Some_0;
                let gate = tasks.transmit_gate->Some_0;
                &&& told.transmit_epoch == (gate.transmit_epoch + 1) % 0x1_0000_0000_0000_0000
                &&& told == VoiceCaptureGate {
                    transmit_epoch: told.transmit_epoch,
                    capture_enabled: false,
                    transmit_enabled: false,
                    ..gate
                }
            }
        }),
{
}

} // verus!
