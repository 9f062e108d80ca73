use moltis::audio::{AudioMessage, ChannelMessageKind};
use moltis::message::{ChannelMessageMeta, ChannelType};
use moltis::voice::{step_audio, AudioAction, AudioEvent, AudioState};

fn recording(body: &str, filename: Option<&str>) -> AudioMessage {
    AudioMessage {
        body: body.to_string(),
        filename: filename.map(str::to_string),
        mimetype: None,
    }
}

fn meta() -> ChannelMessageMeta {
    ChannelMessageMeta {
        channel_type: ChannelType::Matrix,
        sender_name: Some("Alice".to_string()),
        username: Some("@alice:example.org".to_string()),
        message_kind: None,
        model: Some("o3".to_string()),
        audio_filename: None,
    }
}

fn step(audio: &AudioMessage, state: AudioState, event: AudioEvent) -> (AudioState, AudioAction) {
    step_audio(audio, "$ev:example.org", &meta(), state, event)
}

fn dispatched(audio: &AudioMessage, transcription: Option<&str>) -> (String, ChannelMessageMeta) {
    let (state, action) = step(audio, AudioState::Probing, AudioEvent::SttAvailable(true));
    assert!(matches!(action, AudioAction::Download));
    let (state, action) = step(audio, state, AudioEvent::Downloaded(true));
    let filename = match action {
        AudioAction::Save { filename } => filename,
        other => panic!("{other:?}"),
    };
    let (state, action) = step(audio, state, AudioEvent::Saved(Some(filename)));
    assert!(matches!(action, AudioAction::Transcribe { .. }));
    let transcription = transcription.map(str::to_string);
    match step(audio, state, AudioEvent::Transcribed(transcription)) {
        (AudioState::Finished, AudioAction::Dispatch { body, meta }) => (body, meta),
        other => panic!("{other:?}"),
    }
}

#[test]
fn recordings_without_transcription_are_answered_with_a_hint() {
    match step(&recording("a.ogg", None), AudioState::Probing, AudioEvent::SttAvailable(false)) {
        (AudioState::Finished, AudioAction::Reply(text)) => assert_eq!(
            text,
            "I received your audio message but voice transcription is not available. Please visit Settings -> Voice."
        ),
        other => panic!("{other:?}"),
    }
}

#[test]
fn failed_downloads_are_answered() {
    let audio = recording("a.ogg", None);
    match step(&audio, AudioState::Downloading, AudioEvent::Downloaded(false)) {
        (AudioState::Finished, AudioAction::Reply(text)) => assert_eq!(
            text,
            "I received your audio message but couldn't download the audio. Please try again."
        ),
        other => panic!("{other:?}"),
    }
}

#[test]
fn transcriptions_go_to_the_chat_behind_the_caption() {
    let (body, meta) = dispatched(&recording("look", Some("my song.mp3")), Some(" la la \n"));
    assert_eq!(body, "look\n\n[Audio message]: la la");
    assert_eq!(meta.message_kind, Some(ChannelMessageKind::Audio));
    assert_eq!(meta.audio_filename.as_deref(), Some("my_song.mp3"));
    assert_eq!(meta.sender_name.as_deref(), Some("Alice"));
    assert_eq!(meta.username.as_deref(), Some("@alice:example.org"));
    assert_eq!(meta.model.as_deref(), Some("o3"));

    let (body, meta) = dispatched(&recording("note.opus", None), Some("hello"));
    assert_eq!(body, "hello");
    assert_eq!(meta.message_kind, Some(ChannelMessageKind::Voice));
    assert_eq!(meta.audio_filename.as_deref(), Some("note.opus"));
}

#[test]
fn missing_transcriptions_are_said_to_be_missing() {
    let voice = recording("note.opus", None);
    assert_eq!(dispatched(&voice, Some("  ")).0, "[voice message - could not transcribe]");
    assert_eq!(dispatched(&voice, None).0, "[voice message - transcription unavailable]");
    let song = recording("look", Some("song.mp3"));
    assert_eq!(dispatched(&song, Some("")).0, "[audio message - could not transcribe]");
    assert_eq!(dispatched(&song, None).0, "look");
    let song = recording("song.mp3", Some("song.mp3"));
    assert_eq!(dispatched(&song, None).0, "[audio message - transcription unavailable]");
}

#[test]
fn recordings_are_transcribed_in_their_format() {
    let audio = recording("song.FLAC", None);
    match step(&audio, AudioState::Saving, AudioEvent::Saved(None)) {
        (AudioState::Transcribing { saved_as: None }, AudioAction::Transcribe { format }) => {
            assert_eq!(format, "flac");
        },
        other => panic!("{other:?}"),
    }
    match step(&recording("hi", None), AudioState::Downloading, AudioEvent::Downloaded(true)) {
        (AudioState::Saving, AudioAction::Save { filename }) => {
            assert_eq!(filename, "voice-matrix-evexampleorg.ogg");
        },
        other => panic!("{other:?}"),
    }
}

#[test]
fn out_of_turn_answers_end_a_recording() {
    let audio = recording("a.ogg", None);
    match step(&audio, AudioState::Probing, AudioEvent::Downloaded(true)) {
        (AudioState::Finished, AudioAction::Stop) => {},
        other => panic!("{other:?}"),
    }
}
