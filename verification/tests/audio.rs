use moltis::audio::{
    audio_caption, audio_format, audio_format_from_extension, audio_format_from_metadata,
    audio_format_from_mimetype, audio_kind_label, infer_audio_kind, inferred_filename,
    saved_audio_filename, AudioMessage, ChannelMessageKind,
};

fn audio(body: &str, filename: Option<&str>, mimetype: Option<&str>) -> AudioMessage {
    AudioMessage {
        body: body.to_string(),
        filename: filename.map(str::to_string),
        mimetype: mimetype.map(str::to_string),
    }
}

#[test]
fn audio_format_prefers_mimetype_then_filename() {
    assert_eq!(audio_format_from_metadata(Some("audio/webm"), Some("voice.ogg")), "webm");
    assert_eq!(audio_format_from_metadata(None, Some("voice-note.opus")), "opus");
    assert_eq!(audio_format_from_metadata(None, None), "ogg");
}

#[test]
fn infer_audio_kind_treats_opus_as_voice() {
    let audio = audio("voice-note.opus", None, None);

    assert!(matches!(infer_audio_kind(&audio), ChannelMessageKind::Voice));
}

#[test]
fn saved_audio_filename_uses_cleaned_original_name() {
    assert_eq!(
        saved_audio_filename("$event:example.org", Some("nested/path voice"), None, "ogg"),
        "path_voice.ogg"
    );
}

#[test]
fn every_media_type_has_its_format() {
    for (mimetype, format) in [
        ("audio/ogg", "ogg"),
        ("audio/ogg; codecs=opus", "ogg"),
        ("audio/opus", "opus"),
        ("audio/mpeg", "mp3"),
        ("audio/mp3", "mp3"),
        ("audio/mp4", "m4a"),
        ("audio/m4a", "m4a"),
        ("audio/x-m4a", "m4a"),
        ("audio/aac", "m4a"),
        ("audio/wav", "wav"),
        ("audio/x-wav", "wav"),
        ("audio/webm", "webm"),
        ("audio/flac", "flac"),
        ("audio/x-flac", "flac"),
    ] {
        assert_eq!(audio_format_from_mimetype(mimetype), Some(format));
    }
    assert_eq!(audio_format_from_mimetype("audio/OGG"), None);
    assert_eq!(audio_format_from_mimetype(""), None);
}

#[test]
fn extensions_are_read_in_any_case() {
    for (extension, format) in [
        ("ogg", "ogg"),
        ("OpUs", "opus"),
        ("MP3", "mp3"),
        ("m4a", "m4a"),
        ("AAC", "m4a"),
        ("wav", "wav"),
        ("webm", "webm"),
        ("Flac", "flac"),
    ] {
        assert_eq!(audio_format_from_extension(extension), Some(format));
    }
    assert_eq!(audio_format_from_extension("txt"), None);
    assert_eq!(audio_format_from_extension(""), None);
}

#[test]
fn unknown_metadata_falls_through() {
    assert_eq!(audio_format_from_metadata(Some("audio/unknown"), Some("song.MP3")), "mp3");
    assert_eq!(audio_format_from_metadata(Some("audio/unknown"), Some("notes.txt")), "ogg");
    assert_eq!(audio_format_from_metadata(None, Some("dir.flac/song")), "ogg");
}

#[test]
fn bodies_are_read_as_file_names() {
    assert_eq!(inferred_filename("  song.mp3 \n"), Some("song.mp3"));
    assert_eq!(inferred_filename("listen to this"), None);
    assert_eq!(inferred_filename("two\nlines.mp3"), None);
    assert_eq!(inferred_filename("notes.txt"), None);
    assert_eq!(inferred_filename("   "), None);
    assert_eq!(inferred_filename(".mp3"), None);
}

#[test]
fn captions_need_a_file_name_that_differs() {
    assert_eq!(audio_caption(&audio("hello", None, None)), None);
    assert_eq!(audio_caption(&audio("a.ogg", Some("a.ogg"), None)), None);
    assert_eq!(
        audio_caption(&audio("  hello there ", Some("a.ogg"), None)),
        Some("hello there".to_string())
    );
    assert_eq!(audio_caption(&audio("  ", Some("a.ogg"), None)), None);
}

#[test]
fn formats_and_kinds_of_messages() {
    let song = audio("look", Some("song.mp3"), None);
    assert_eq!(audio_format(&song), "mp3");
    assert_eq!(infer_audio_kind(&song), ChannelMessageKind::Audio);
    let typed = audio("look", Some("song.mp3"), Some("audio/ogg"));
    assert_eq!(audio_format(&typed), "ogg");
    assert_eq!(infer_audio_kind(&typed), ChannelMessageKind::Voice);
    // A given file name counts even where its extension says nothing.
    assert_eq!(audio_format(&audio("song.mp3", Some("upload"), None)), "ogg");
    assert_eq!(audio_kind_label(Some(ChannelMessageKind::Voice)), "voice");
    assert_eq!(audio_kind_label(Some(ChannelMessageKind::Audio)), "audio");
    assert_eq!(audio_kind_label(None), "audio");
}

#[test]
fn saved_names_are_plain_file_names() {
    let name = |filename, body| saved_audio_filename("$ev:ex.org", filename, body, "ogg");
    assert_eq!(name(None, None), "voice-matrix-evexorg.ogg");
    assert_eq!(name(Some("   "), Some("song.mp3")), "voice-matrix-evexorg.ogg");
    assert_eq!(name(None, Some("song.mp3")), "song.mp3");
    assert_eq!(name(Some("../../etc/passwd"), None), "passwd.ogg");
    assert_eq!(name(Some("C:\\temp\\my song.wav"), None), "my_song.wav");
    assert_eq!(name(Some("dir/"), None), "voice-matrix-evexorg.ogg");
    assert_eq!(name(Some(".hidden"), None), ".hidden.ogg");
    assert_eq!(name(Some(".."), None), "...ogg");
    assert_eq!(name(Some("."), None), "..ogg");
    assert_eq!(name(Some("naïve.ogg"), None), "na_ve.ogg");
    assert_eq!(name(Some("a."), None), "a.");
    assert_eq!(saved_audio_filename("$ev", Some("a b"), None, "tar.gz"), "a_b.tar.gz");
    assert_eq!(saved_audio_filename("$ev", None, None, "aiff"), "voice-matrix-ev.aiff");
}
