//! Handling an audio message: it is downloaded, saved, transcribed and handed to the chat, or
//! answered with what went wrong.

use vstd::prelude::*;

use crate::audio::{
    audio_caption, audio_format, audio_kind_label, body_filename, infer_audio_kind,
    inferred_filename, is_known_format, is_plain_file_name, kind_label,
    known_formats_are_alphanumeric, saved_audio_filename, saved_name,
    saved_name_is_a_plain_file_name, AudioMessage, ChannelMessageKind,
};
use crate::message::{ChannelMessageMeta, MetaModel};
use crate::text::{
    borrowed, copied, is_white, opt_view, same_text, trim, trimmed, trimming_takes_the_white_space_off,
};

verus! {

/// How far an audio message has been handled.
#[derive(Debug)]
pub enum AudioState {
    /// Whether transcription is available is being asked.
    Probing,
    /// The recording is being downloaded.
    Downloading,
    /// The recording is being saved.
    Saving,
    /// The recording is being transcribed; with the name it was saved under.
    Transcribing { saved_as: Option<String> },
    /// Nothing is left to do.
    Finished,
}

/// What came back from outside.
#[derive(Debug)]
pub enum AudioEvent {
    /// Whether transcription is available.
    SttAvailable(bool),
    /// Whether the recording could be downloaded.
    Downloaded(bool),
    /// The name the recording was saved under, if it was saved.
    Saved(Option<String>),
    /// The transcription, if there is one.
    Transcribed(Option<String>),
}

/// What is to be done next.
#[derive(Debug)]
pub enum AudioAction {
    /// Download the recording.
    Download,
    /// Save the recording under a name.
    Save { filename: String },
    /// Transcribe the recording.
    Transcribe { format: &'static str },
    /// Send a text to the room.
    Reply(String),
    /// Hand a text to the chat.
    Dispatch { body: String, meta: ChannelMessageMeta },
    /// Do nothing more.
    Stop,
}

/// What is said to the chat about a recording, given its transcription, if there is one.
pub open spec fn recording_body(audio: AudioMessage, transcription: Option<Seq<char>>) -> Seq<char> {
    let label = kind_label(Some(audio.spec_kind()));
    match transcription {
        Some(text) => if trimmed(text).len() == 0 {
            "["@ + label + " message - could not transcribe]"@
        } else {
            match audio.spec_caption() {
                Some(caption) => caption + "\n\n[Audio message]: "@ + trimmed(text),
                None => trimmed(text),
            }
        },
        None => match audio.spec_caption() {
            Some(caption) => caption,
            None => "["@ + label + " message - transcription unavailable]"@,
        },
    }
}

/// What the chat is told about a recording: its kind, and the name it was saved under.
pub open spec fn recording_meta(
    audio: AudioMessage,
    meta: MetaModel,
    saved_as: Option<Seq<char>>,
) -> MetaModel {
    MetaModel { message_kind: Some(audio.spec_kind()), audio_filename: saved_as, ..meta }
}

/// The name a recording is saved under.
pub open spec fn recording_name(audio: AudioMessage, event_id: Seq<char>) -> Seq<char> {
    saved_name(
        event_id,
        opt_view(audio.filename),
        body_filename(audio.body@),
        audio.spec_format(),
    )
}

/// The state an event leads to.
pub open spec fn next_audio_state(before: AudioState, event: AudioEvent) -> AudioState {
    match (before, event) {
        (AudioState::Probing, AudioEvent::SttAvailable(true)) => AudioState::Downloading,
        (AudioState::Downloading, AudioEvent::Downloaded(true)) => AudioState::Saving,
        (AudioState::Saving, AudioEvent::Saved(saved_as)) => AudioState::Transcribing { saved_as },
        _ => AudioState::Finished,
    }
}

/// What an event leads to being done.
pub open spec fn audio_action_follows(
    audio: AudioMessage,
    event_id: Seq<char>,
    meta: MetaModel,
    before: AudioState,
    event: AudioEvent,
    action: AudioAction,
) -> bool {
    match (before, event) {
        (AudioState::Probing, AudioEvent::SttAvailable(available)) => if available {
            action is Download
        } else {
            action matches AudioAction::Reply(text) && text@
                == "I received your audio message but voice transcription is not available. Please visit Settings -> Voice."@
        },
        (AudioState::Downloading, AudioEvent::Downloaded(downloaded)) => if downloaded {
            action matches AudioAction::Save { filename } && filename@ == recording_name(
                audio,
                event_id,
            )
        } else {
            action matches AudioAction::Reply(text) && text@
                == "I received your audio message but couldn't download the audio. Please try again."@
        },
        (AudioState::Saving, AudioEvent::Saved(_)) => {
            action matches AudioAction::Transcribe { format } && format@ == audio.spec_format()
        },
        (
            AudioState::Transcribing { saved_as },
            AudioEvent::Transcribed(transcription),
        ) => action matches AudioAction::Dispatch { body, meta: told } && {
            &&& body@ == recording_body(audio, opt_view(transcription))
            &&& told@ == recording_meta(audio, meta, opt_view(saved_as))
        },
        _ => action is Stop,
    }
}

fn body_of_recording(audio: &AudioMessage, transcription: Option<String>) -> (res: String)
    ensures
        res@ == recording_body(*audio, opt_view(transcription)),
{
    let label = audio_kind_label(Some(infer_audio_kind(audio)));
    match transcription {
        Some(transcription) => {
            let text = trim(transcription.as_str());
            if text.is_empty() {
                "[".to_owned().concat(label).concat(" message - could not transcribe]")
            } else {
                match audio_caption(audio) {
                    Some(caption) => caption.concat("\n\n[Audio message]: ").concat(text),
                    None => text.to_owned(),
                }
            }
        },
        None => match audio_caption(audio) {
            Some(caption) => caption,
            None => "[".to_owned().concat(label).concat(" message - transcription unavailable]"),
        },
    }
}

/// Moves an audio message on. Handling starts in `AudioState::Probing`, by asking whether
/// transcription is available.
pub fn step_audio(
    audio: &AudioMessage,
    event_id: &str,
    meta: &ChannelMessageMeta,
    state: AudioState,
    event: AudioEvent,
) -> (res: (AudioState, AudioAction))
    ensures
        res.0 == next_audio_state(state, event),
        audio_action_follows(*audio, event_id@, meta@, state, event, res.1),
{
    match (state, event) {
        (AudioState::Probing, AudioEvent::SttAvailable(available)) => if available {
            (AudioState::Downloading, AudioAction::Download)
        } else {
            (
                AudioState::Finished,
                AudioAction::Reply(
                    "I received your audio message but voice transcription is not available. Please visit Settings -> Voice.".to_owned(),
                ),
            )
        },
        (AudioState::Downloading, AudioEvent::Downloaded(downloaded)) => if downloaded {
            let filename = saved_audio_filename(
                event_id,
                borrowed(&audio.filename),
                inferred_filename(audio.body.as_str()),
                audio_format(audio),
            );
            (AudioState::Saving, AudioAction::Save { filename })
        } else {
            (
                AudioState::Finished,
                AudioAction::Reply(
                    "I received your audio message but couldn't download the audio. Please try again.".to_owned(),
                ),
            )
        },
        (AudioState::Saving, AudioEvent::Saved(saved_as)) => {
            (
                AudioState::Transcribing { saved_as },
                AudioAction::Transcribe { format: audio_format(audio) },
            )
        },
        (
            AudioState::Transcribing { saved_as },
            AudioEvent::Transcribed(transcription),
        ) => {
            let body = body_of_recording(audio, transcription);
            let told = ChannelMessageMeta {
                channel_type: meta.channel_type,
                sender_name: copied(&meta.sender_name),
                username: copied(&meta.username),
                message_kind: Some(infer_audio_kind(audio)),
                model: copied(&meta.model),
                audio_filename: saved_as,
            };
            (AudioState::Finished, AudioAction::Dispatch { body, meta: told })
        },
        _ => (AudioState::Finished, AudioAction::Stop),
    }
}

// ---- laws ------------------------------------------------------------------

/// The answers that are waited for: whatever they are, something is said about the recording or
/// the next thing is done. A recording is never dropped without a word.
pub proof fn recordings_are_never_dropped_silently(
    audio: AudioMessage,
    event_id: Seq<char>,
    meta: MetaModel,
    before: AudioState,
    event: AudioEvent,
    action: AudioAction,
)
    requires
        audio_action_follows(audio, event_id, meta, before, event, action),
        match before {
            AudioState::Probing => event is SttAvailable,
            AudioState::Downloading => event is Downloaded,
            AudioState::Saving => event is Saved,
            AudioState::Transcribing { .. } => event is Transcribed,
            AudioState::Finished => false,
        },
    ensures
        action !is Stop,
        next_audio_state(before, event) is Finished <==> action is Reply || action is Dispatch,
        action matches AudioAction::Dispatch { body, .. } ==> body@.len() > 0,
{
    reveal_strlit("[");
    if let AudioAction::Dispatch { body, .. } = action {
        assert(body@.len() > 0);
    }
}

/// Whatever a recording is called, it is saved under a plain file name.
pub proof fn recordings_are_saved_under_plain_names(audio: AudioMessage, event_id: Seq<char>)
    ensures
        is_plain_file_name(recording_name(audio, event_id)),
{
    assert(is_known_format(audio.spec_format()));
    known_formats_are_alphanumeric(audio.spec_format());
    saved_name_is_a_plain_file_name(
        event_id,
        opt_view(audio.filename),
        body_filename(audio.body@),
        audio.spec_format(),
    );
}

/// The chat is told of a recording what it was told of the message, but for the kind and the name
/// of the saved file.
pub proof fn recordings_keep_the_rest_of_the_meta(
    audio: AudioMessage,
    meta: MetaModel,
    saved_as: Option<Seq<char>>,
)
    ensures
        recording_meta(audio, meta, saved_as).channel_type == meta.channel_type,
        recording_meta(audio, meta, saved_as).sender_name == meta.sender_name,
        recording_meta(audio, meta, saved_as).username == meta.username,
        recording_meta(audio, meta, saved_as).model == meta.model,
{
}

/// Whatever the kind of a recording, a transcription that is not blank reaches the chat as it is,
/// without the white space around it: alone where the recording has no caption, behind the caption
/// where it has one.
pub proof fn transcriptions_reach_the_chat(
    audio: &AudioMessage,
    event_id: &str,
    meta: &ChannelMessageMeta,
    saved_as: Option<String>,
    transcription: String,
    before: Seq<char>,
    words: Seq<char>,
    after: Seq<char>,
    caption: Option<String>,
    res: (AudioState, AudioAction),
)
    requires
        call_ensures(
            step_audio,
            (
                audio,
                event_id,
                meta,
                (AudioState::Transcribing { saved_as }),
                AudioEvent::Transcribed(Some(transcription)),
            ),
            res,
        ),
        transcription@ == before + words + after,
        forall|i: int| 0 <= i < before.len() ==> is_white(#[trigger] before[i]),
        forall|i: int| 0 <= i < after.len() ==> is_white(#[trigger] after[i]),
        words.len() > 0,
        !is_white(words.first()) && !is_white(words.last()),
        call_ensures(audio_caption, (audio,), caption),
    ensures
        res.0 is Finished,
        res.1 matches AudioAction::Dispatch { body, .. } && match caption {
            None => body@ == words,
            Some(text) => body@ == text@ + "\n\n[Audio message]: "@ + words,
        },
{
    trimming_takes_the_white_space_off(before, words, after);
}

/// A recording whose transcription is blank, or that could not be transcribed, is spoken of in the
/// chat: with its caption where there is one and nothing was transcribed, else as the kind of
/// message it is.
pub proof fn missing_transcriptions_are_spoken_of(
    audio: &AudioMessage,
    event_id: &str,
    meta: &ChannelMessageMeta,
    saved_as: Option<String>,
    transcription: Option<String>,
    kind: ChannelMessageKind,
    label: &'static str,
    caption: Option<String>,
    res: (AudioState, AudioAction),
)
    requires
        call_ensures(
            step_audio,
            (
                audio,
                event_id,
                meta,
                (AudioState::Transcribing { saved_as }),
                AudioEvent::Transcribed(transcription),
            ),
            res,
        ),
        transcription matches Some(text) ==> forall|i: int|
            0 <= i < text@.len() ==> is_white(#[trigger] text@[i]),
        call_ensures(infer_audio_kind, (audio,), kind),
        call_ensures(audio_kind_label, (Some(kind),), label),
        call_ensures(audio_caption, (audio,), caption),
    ensures
        res.0 is Finished,
        res.1 matches AudioAction::Dispatch { body, .. } && match (transcription, caption) {
            (Some(_), _) => body@ == "["@ + label@ + " message - could not transcribe]"@,
            (None, Some(text)) => body@ == text@,
            (None, None) => body@ == "["@ + label@ + " message - transcription unavailable]"@,
        },
{
    if let Some(text) = transcription {
        trimming_takes_the_white_space_off(text@, Seq::empty(), Seq::empty());
        assert(text@ + Seq::<char>::empty() + Seq::<char>::empty() =~= text@);
    }
}

/// The chat is told the kind of a recording and the name it was saved under, and of the rest what
/// it was told of the message.
pub proof fn the_chat_is_told_how_a_recording_was_saved(
    audio: &AudioMessage,
    event_id: &str,
    meta: &ChannelMessageMeta,
    saved_as: Option<String>,
    transcription: Option<String>,
    kind: ChannelMessageKind,
    res: (AudioState, AudioAction),
)
    requires
        call_ensures(
            step_audio,
            (
                audio,
                event_id,
                meta,
                (AudioState::Transcribing { saved_as }),
                AudioEvent::Transcribed(transcription),
            ),
            res,
        ),
        call_ensures(infer_audio_kind, (audio,), kind),
    ensures
        res.1 matches AudioAction::Dispatch { meta: told, .. } && {
            &&& told.message_kind == Some(kind)
            &&& told.channel_type == meta.channel_type
            &&& same_text(told.audio_filename, saved_as)
            &&& same_text(told.sender_name, meta.sender_name)
            &&& same_text(told.username, meta.username)
            &&& same_text(told.model, meta.model)
        },
{
}

/// A recording is downloaded only where it can be transcribed, saved under the name made from its
/// own, and transcribed in its own format; where the first two fail the sender is told so.
pub proof fn recordings_are_saved_and_transcribed(
    audio: &AudioMessage,
    event_id: &str,
    meta: &ChannelMessageMeta,
    filename: Option<&str>,
    body: &str,
    read: Option<&str>,
    format: &'static str,
    name: String,
    saved_as: Option<String>,
    ok: bool,
    probed: (AudioState, AudioAction),
    downloaded: (AudioState, AudioAction),
    saved: (AudioState, AudioAction),
)
    requires
        call_ensures(
            step_audio,
            (audio, event_id, meta, AudioState::Probing, AudioEvent::SttAvailable(ok)),
            probed,
        ),
        call_ensures(
            step_audio,
            (audio, event_id, meta, AudioState::Downloading, AudioEvent::Downloaded(ok)),
            downloaded,
        ),
        call_ensures(
            step_audio,
            (audio, event_id, meta, AudioState::Saving, AudioEvent::Saved(saved_as)),
            saved,
        ),
        match filename {
            Some(given) => audio.filename is Some && given@ == audio.filename->0@,
            None => audio.filename is None,
        },
        body@ == audio.body@,
        call_ensures(inferred_filename, (body,), read),
        call_ensures(audio_format, (audio,), format),
        call_ensures(saved_audio_filename, (event_id, filename, read, format), name),
    ensures
        ok ==> probed.0 is Downloading && probed.1 is Download,
        !ok ==> probed.0 is Finished && (probed.1 matches AudioAction::Reply(text) && text@
            == "I received your audio message but voice transcription is not available. Please visit Settings -> Voice."@),
        ok ==> downloaded.0 is Saving && (downloaded.1 matches AudioAction::Save { filename: under }
            && under@ == name@),
        !ok ==> downloaded.0 is Finished && (downloaded.1 matches AudioAction::Reply(text) && text@
            == "I received your audio message but couldn't download the audio. Please try again."@),
        saved.0 == (AudioState::Transcribing { saved_as }),
        saved.1 matches AudioAction::Transcribe { format: named } && named@ == format@,
{
}

/// An answer that was not waited for ends a recording with nothing done.
pub proof fn unexpected_answers_end_a_recording(
    audio: &AudioMessage,
    event_id: &str,
    meta: &ChannelMessageMeta,
    state: AudioState,
    event: AudioEvent,
    res: (AudioState, AudioAction),
)
    requires
        call_ensures(step_audio, (audio, event_id, meta, state, event), res),
        match state {
            AudioState::Probing => event !is SttAvailable,
            AudioState::Downloading => event !is Downloaded,
            AudioState::Saving => event !is Saved,
            AudioState::Transcribing { .. } => event !is Transcribed,
            AudioState::Finished => true,
        },
    ensures
        res.0 is Finished,
        res.1 is Stop,
{
}

} // verus!
