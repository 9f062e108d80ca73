//! Audio messages: format detection, captions and the name a recording is saved under.

use matrix_sdk::ruma::events::room::message::AudioMessageEventContent;
use matrix_sdk::ruma::OwnedMxcUri;
use vstd::prelude::*;

use crate::path::{extension, extension_of, file_name};
use crate::text::{
    after_last, ascii_alphanumeric, behind_last, borrowed, contains_char, is_alphanumeric, is_white,
    last_index, last_index_is_last, lowered, opt_str_view, opt_view, the_last_index_splits, to_lower,
    trim, trimmed, trimming_takes_the_white_space_off,
};

verus! {

/// What an audio message says about itself.
#[derive(Debug, Clone)]
pub struct AudioMessage {
    /// The textual body: a caption or the file name.
    pub body: String,
    /// The original file name, where the sender gave one.
    pub filename: Option<String>,
    /// The declared media type.
    pub mimetype: Option<String>,
}

/// What kind of message a user sent.
#[derive(Debug, Clone, Copy, PartialEq, Eq, Structural)]
pub enum ChannelMessageKind {
    Text,
    Voice,
    Audio,
    Photo,
    Document,
    Video,
    Location,
}

// ---- formats ---------------------------------------------------------------

/// The format that a media type stands for.
pub open spec fn mimetype_format(mimetype: Seq<char>) -> Option<Seq<char>> {
    if mimetype == "audio/ogg"@ || mimetype == "audio/ogg; codecs=opus"@ {
        Some("ogg"@)
    } else if mimetype == "audio/opus"@ {
        Some("opus"@)
    } else if mimetype == "audio/mpeg"@ || mimetype == "audio/mp3"@ {
        Some("mp3"@)
    } else if mimetype == "audio/mp4"@ || mimetype == "audio/m4a"@ || mimetype == "audio/x-m4a"@
        || mimetype == "audio/aac"@ {
        Some("m4a"@)
    } else if mimetype == "audio/wav"@ || mimetype == "audio/x-wav"@ {
        Some("wav"@)
    } else if mimetype == "audio/webm"@ {
        Some("webm"@)
    } else if mimetype == "audio/flac"@ || mimetype == "audio/x-flac"@ {
        Some("flac"@)
    } else {
        None
    }
}

/// The format that a file extension in lower case stands for.
pub open spec fn lowercase_extension_format(ext: Seq<char>) -> Option<Seq<char>> {
    if ext == "ogg"@ || ext == "opus"@ || ext == "mp3"@ {
        Some(ext)
    } else if ext == "m4a"@ || ext == "aac"@ {
        Some("m4a"@)
    } else if ext == "wav"@ || ext == "webm"@ || ext == "flac"@ {
        Some(ext)
    } else {
        None
    }
}

/// The format that a file extension stands for, in whatever case it is written.
pub open spec fn extension_format(ext: Seq<char>) -> Option<Seq<char>> {
    lowercase_extension_format(lowered(ext))
}

/// The format that a file name stands for.
pub open spec fn filename_format(filename: Seq<char>) -> Option<Seq<char>> {
    match extension(filename) {
        Some(ext) => extension_format(ext),
        None => None,
    }
}

/// The format of a recording: by its media type, else by its file name, else `ogg`.
pub open spec fn metadata_format(
    mimetype: Option<Seq<char>>,
    filename: Option<Seq<char>>,
) -> Seq<char> {
    if mimetype is Some && mimetype_format(mimetype->0) is Some {
        mimetype_format(mimetype->0)->0
    } else if filename is Some && filename_format(filename->0) is Some {
        filename_format(filename->0)->0
    } else {
        "ogg"@
    }
}

/// The formats a recording can be found to have.
pub open spec fn is_known_format(format: Seq<char>) -> bool {
    ||| format == "ogg"@
    ||| format == "opus"@
    ||| format == "mp3"@
    ||| format == "m4a"@
    ||| format == "wav"@
    ||| format == "webm"@
    ||| format == "flac"@
}

/// The body of a message read as a file name: one line whose extension is a known audio format.
pub open spec fn body_filename(body: Seq<char>) -> Option<Seq<char>> {
    let candidate = trimmed(body);
    if candidate.len() == 0 || candidate.contains('\n') || filename_format(candidate) is None {
        None
    } else {
        Some(candidate)
    }
}

impl AudioMessage {
    /// The file name the sender gave, else the one read from the body.
    pub open spec fn spec_filename(self) -> Option<Seq<char>> {
        match self.filename {
            Some(name) => Some(name@),
            None => body_filename(self.body@),
        }
    }

    pub open spec fn spec_format(self) -> Seq<char> {
        metadata_format(opt_view(self.mimetype), self.spec_filename())
    }

    pub open spec fn spec_kind(self) -> ChannelMessageKind {
        if self.spec_format() == "ogg"@ || self.spec_format() == "opus"@ {
            ChannelMessageKind::Voice
        } else {
            ChannelMessageKind::Audio
        }
    }

    /// The caption without surrounding white space: the body, where a file name is given that
    /// differs from it.
    pub open spec fn spec_caption(self) -> Option<Seq<char>> {
        match media_caption(self.body@, opt_view(self.filename)) {
            Some(caption) => if trimmed(caption).len() == 0 {
                None
            } else {
                Some(trimmed(caption))
            },
            None => None,
        }
    }
}

pub fn audio_format_from_mimetype(mimetype: &str) -> (res: Option<&'static str>)
    ensures
        opt_str_view(res) == mimetype_format(mimetype@),
{
    if *mimetype == *"audio/ogg" || *mimetype == *"audio/ogg; codecs=opus" {
        Some("ogg")
    } else if *mimetype == *"audio/opus" {
        Some("opus")
    } else if *mimetype == *"audio/mpeg" || *mimetype == *"audio/mp3" {
        Some("mp3")
    } else if *mimetype == *"audio/mp4" || *mimetype == *"audio/m4a" || *mimetype == *"audio/x-m4a"
        || *mimetype == *"audio/aac" {
        Some("m4a")
    } else if *mimetype == *"audio/wav" || *mimetype == *"audio/x-wav" {
        Some("wav")
    } else if *mimetype == *"audio/webm" {
        Some("webm")
    } else if *mimetype == *"audio/flac" || *mimetype == *"audio/x-flac" {
        Some("flac")
    } else {
        None
    }
}

pub fn audio_format_from_extension(extension: &str) -> (res: Option<&'static str>)
    ensures
        opt_str_view(res) == extension_format(extension@),
{
    let lowered = to_lower(extension);
    let ext = lowered.as_str();
    if *ext == *"ogg" {
        Some("ogg")
    } else if *ext == *"opus" {
        Some("opus")
    } else if *ext == *"mp3" {
        Some("mp3")
    } else if *ext == *"m4a" || *ext == *"aac" {
        Some("m4a")
    } else if *ext == *"wav" {
        Some("wav")
    } else if *ext == *"webm" {
        Some("webm")
    } else if *ext == *"flac" {
        Some("flac")
    } else {
        None
    }
}

fn audio_format_from_filename(filename: &str) -> (res: Option<&'static str>)
    ensures
        opt_str_view(res) == filename_format(filename@),
{
    match extension_of(filename) {
        Some(ext) => audio_format_from_extension(ext),
        None => None,
    }
}

/// The format of a recording: by its media type, else by its file name, else `ogg`.
pub fn audio_format_from_metadata(mimetype: Option<&str>, filename: Option<&str>) -> (res:
    &'static str)
    ensures
        res@ == metadata_format(opt_str_view(mimetype), opt_str_view(filename)),
{
    if let Some(mimetype) = mimetype {
        if let Some(format) = audio_format_from_mimetype(mimetype) {
            return format;
        }
    }
    if let Some(filename) = filename {
        if let Some(format) = audio_format_from_filename(filename) {
            return format;
        }
    }
    "ogg"
}

/// Reads the body of a message as a file name.
pub fn inferred_filename(body: &str) -> (res: Option<&str>)
    ensures
        opt_str_view(res) == body_filename(body@),
{
    let candidate = trim(body);
    if candidate.is_empty() || contains_char(candidate, '\n') {
        return None;
    }
    match audio_format_from_filename(candidate) {
        Some(_) => Some(candidate),
        None => None,
    }
}

// ---- captions and kinds ----------------------------------------------------

/// The caption of a media message: its body, where a file name is given that differs from it.
pub open spec fn media_caption(body: Seq<char>, filename: Option<Seq<char>>) -> Option<Seq<char>> {
    if filename is Some && filename->0 != body {
        Some(body)
    } else {
        None
    }
}

/// `AudioMessageEventContent::caption`: the body, if the file name is set and differs from it,
/// else nothing. The message is built with an empty media URL, which the caption does not read.
#[verifier::external_body]
fn matrix_caption(body: &str, filename: Option<&str>) -> (res: Option<String>)
    ensures
        opt_view(res) == media_caption(body@, opt_str_view(filename)),
{
    let mut content = AudioMessageEventContent::plain(body.to_string(), OwnedMxcUri::from(""));
    content.filename = filename.map(|name| name.to_string());
    content.caption().map(|caption| caption.to_string())
}

/// The caption without surrounding white space, if anything is left of it.
pub fn audio_caption(audio: &AudioMessage) -> (res: Option<String>)
    ensures
        opt_view(res) == audio.spec_caption(),
{
    match matrix_caption(audio.body.as_str(), borrowed(&audio.filename)) {
        Some(caption) => {
            let text = trim(caption.as_str());
            if text.is_empty() {
                None
            } else {
                Some(text.to_owned())
            }
        },
        None => None,
    }
}

pub fn audio_format(audio: &AudioMessage) -> (res: &'static str)
    ensures
        res@ == audio.spec_format(),
{
    let filename = match &audio.filename {
        Some(name) => Some(name.as_str()),
        None => inferred_filename(audio.body.as_str()),
    };
    audio_format_from_metadata(borrowed(&audio.mimetype), filename)
}

/// Ogg and Opus recordings are voice messages; every other one is audio.
pub fn infer_audio_kind(audio: &AudioMessage) -> (res: ChannelMessageKind)
    ensures
        res == audio.spec_kind(),
{
    let format = audio_format(audio);
    if *format == *"ogg" || *format == *"opus" {
        ChannelMessageKind::Voice
    } else {
        ChannelMessageKind::Audio
    }
}

/// How a kind of audio message is called in replies.
pub open spec fn kind_label(kind: Option<ChannelMessageKind>) -> Seq<char> {
    if kind == Some(ChannelMessageKind::Voice) {
        "voice"@
    } else {
        "audio"@
    }
}

pub fn audio_kind_label(kind: Option<ChannelMessageKind>) -> (res: &'static str)
    ensures
        res@ == kind_label(kind),
{
    match kind {
        Some(ChannelMessageKind::Voice) => "voice",
        _ => "audio",
    }
}

// ---- saved file names ------------------------------------------------------

/// The characters kept in the name of a saved recording.
pub open spec fn is_name_char(c: char) -> bool {
    is_alphanumeric(c) || c == '.' || c == '-' || c == '_'
}

/// A character kept in a saved name, or the underscore that stands in for it.
pub open spec fn name_char(c: char) -> char {
    if is_name_char(c) {
        c
    } else {
        '_'
    }
}

/// The last segment of a path, whichever slash it is written with, in safe characters.
pub open spec fn cleaned_name(name: Seq<char>) -> Seq<char> {
    after_last(after_last(name, '/'), '\\').map_values(|c: char| name_char(c))
}

/// The name a sender gave, else the one read from the body, without surrounding white space.
pub open spec fn given_name(filename: Option<Seq<char>>, body_filename: Option<Seq<char>>) -> Seq<
    char,
> {
    if filename is Some {
        trimmed(filename->0)
    } else if body_filename is Some {
        trimmed(body_filename->0)
    } else {
        Seq::empty()
    }
}

/// The name a recording is saved under.
pub open spec fn saved_name(
    event_id: Seq<char>,
    filename: Option<Seq<char>>,
    body_filename: Option<Seq<char>>,
    format: Seq<char>,
) -> Seq<char> {
    let cleaned = cleaned_name(given_name(filename, body_filename));
    if cleaned.len() > 0 {
        if extension(cleaned) is Some {
            cleaned
        } else {
            cleaned + "."@ + format
        }
    } else {
        "voice-matrix-"@ + event_id.filter(|c: char| is_alphanumeric(c)) + "."@ + format
    }
}

fn clean_name(name: &str) -> (res: String)
    ensures
        res@ == cleaned_name(name@),
{
    let segment = behind_last(behind_last(name, '/'), '\\');
    let mut out = String::new();
    for c in it: segment.chars()
        invariant
            it.seq() == segment@,
            out@ == segment@.take(it.index() as int).map_values(|c: char| name_char(c)),
    {
        if ascii_alphanumeric(c) || c == '.' || c == '-' || c == '_' {
            out.push(c);
        } else {
            out.push('_');
        }
    }
    out
}

fn alphanumerics(text: &str) -> (res: String)
    ensures
        res@ == text@.filter(|c: char| is_alphanumeric(c)),
{
    let mut out = String::new();
    let ghost keep = |c: char| is_alphanumeric(c);
    assert(text@.take(0).filter(keep) =~= Seq::<char>::empty()) by {
        reveal(Seq::filter);
    }
    for c in it: text.chars()
        invariant
            it.seq() == text@,
            keep == (|c: char| is_alphanumeric(c)),
            out@ == text@.take(it.index() as int).filter(keep),
    {
        proof {
            let n = it.index() as int;
            assert(text@.take(n + 1).drop_last() =~= text@.take(n));
            assert(text@.take(n + 1).last() == c);
            reveal(Seq::filter);
        }
        if ascii_alphanumeric(c) {
            out.push(c);
        }
    }
    assert(text@.take(text@.len() as int) =~= text@);
    out
}

/// The name a recording is saved under: the sender's file name in safe characters, else one made
/// from the event.
pub fn saved_audio_filename(
    event_id: &str,
    filename: Option<&str>,
    body_filename: Option<&str>,
    format: &str,
) -> (res: String)
    ensures
        res@ == saved_name(
            event_id@,
            opt_str_view(filename),
            opt_str_view(body_filename),
            format@,
        ),
{
    let given = match filename {
        Some(name) => Some(name),
        None => body_filename,
    };
    if let Some(name) = given {
        let cleaned = clean_name(trim(name));
        if !cleaned.as_str().is_empty() {
            if extension_of(cleaned.as_str()).is_some() {
                return cleaned;
            }
            return cleaned.concat(".").concat(format);
        }
    }
    let suffix = alphanumerics(event_id);
    "voice-matrix-".to_owned().concat(suffix.as_str()).concat(".").concat(format)
}

// ---- laws ------------------------------------------------------------------

/// Whatever a message declares, its recording has one of the known formats.
pub proof fn format_is_known(mimetype: Option<Seq<char>>, filename: Option<Seq<char>>)
    ensures
        is_known_format(metadata_format(mimetype, filename)),
{
}

/// A media type that is known decides the format alone.
pub proof fn known_media_type_decides(mimetype: Seq<char>, filename: Option<Seq<char>>)
    requires
        mimetype_format(mimetype) is Some,
    ensures
        metadata_format(Some(mimetype), filename) == mimetype_format(mimetype)->0,
{
}

/// Without a known media type the file name decides, where its extension is known.
pub proof fn file_name_decides_next(mimetype: Option<Seq<char>>, filename: Seq<char>)
    requires
        mimetype is Some ==> mimetype_format(mimetype->0) is None,
        filename_format(filename) is Some,
    ensures
        metadata_format(mimetype, Some(filename)) == filename_format(filename)->0,
{
}

/// The case in which an extension is written does not matter.
pub proof fn extension_case_does_not_matter(a: Seq<char>, b: Seq<char>)
    requires
        lowered(a) == lowered(b),
    ensures
        extension_format(a) == extension_format(b),
{
}

/// A name read from a body is trimmed, stands on one line and has a known audio extension.
pub proof fn body_filename_is_an_audio_name(body: Seq<char>)
    ensures
        body_filename(body) matches Some(name) ==> {
            &&& name == trimmed(body)
            &&& !name.contains('\n')
            &&& filename_format(name) is Some
            &&& is_known_format(filename_format(name)->0)
        },
{
}

/// The known formats are written in letters and digits.
pub proof fn known_formats_are_alphanumeric(format: Seq<char>)
    requires
        is_known_format(format),
    ensures
        format.len() > 0,
        forall|i: int| 0 <= i < format.len() ==> is_alphanumeric(#[trigger] format[i]),
{
    reveal_strlit("ogg");
    reveal_strlit("opus");
    reveal_strlit("mp3");
    reveal_strlit("m4a");
    reveal_strlit("wav");
    reveal_strlit("webm");
    reveal_strlit("flac");
}

/// A name without slashes that is neither `.` nor `..` is its own file name.
proof fn lemma_plain_file_name(name: Seq<char>)
    requires
        name.len() > 0,
        !name.contains('/'),
        name != "."@,
        name != ".."@,
    ensures
        file_name(name) == Some(name),
{
    last_index_is_last(name, '/');
    let at = last_index(name, '/');
    if at >= 0 {
        assert(name.contains(name[at]));
    }
    assert(after_last(name, '/') =~= name);
}

/// Safe characters only, a single path component, and an extension.
pub open spec fn is_plain_file_name(name: Seq<char>) -> bool {
    &&& forall|i: int| 0 <= i < name.len() ==> is_name_char(#[trigger] name[i])
    &&& file_name(name) == Some(name)
    &&& extension(name) is Some
}

proof fn lemma_kept_name(name: Seq<char>)
    requires
        forall|i: int| 0 <= i < name.len() ==> is_name_char(#[trigger] name[i]),
        extension(name) is Some,
    ensures
        is_plain_file_name(name),
{
    last_index_is_last(name, '/');
    assert(after_last(name, '/') =~= name);
}

proof fn lemma_joined_name(stem: Seq<char>, format: Seq<char>)
    requires
        stem.len() > 0,
        forall|i: int| 0 <= i < stem.len() ==> is_name_char(#[trigger] stem[i]),
        format.len() > 0,
        forall|i: int| 0 <= i < format.len() ==> is_name_char(#[trigger] format[i]),
    ensures
        is_plain_file_name(stem + "."@ + format),
{
    reveal_strlit(".");
    reveal_strlit("..");
    let name = stem + "."@ + format;
    let dot = stem.len() as int;
    assert forall|i: int| 0 <= i < name.len() implies is_name_char(#[trigger] name[i]) by {
        if i > dot {
            assert(name[i] == format[i - dot - 1]);
        } else if i < dot {
            assert(name[i] == stem[i]);
        }
    }
    assert(!name.contains('/'));
    lemma_plain_file_name(name);
    last_index_is_last(name, '.');
    assert(name[dot] == '.');
}

proof fn lemma_event_stem(event_id: Seq<char>)
    ensures
        ({
            let stem = "voice-matrix-"@ + event_id.filter(|c: char| is_alphanumeric(c));
            &&& stem.len() > 0
            &&& forall|i: int| 0 <= i < stem.len() ==> is_name_char(#[trigger] stem[i])
        }),
{
    reveal_strlit("voice-matrix-");
    let letters = event_id.filter(|c: char| is_alphanumeric(c));
    broadcast use Seq::lemma_filter_pred;
    let stem = "voice-matrix-"@ + letters;
    assert forall|i: int| 0 <= i < stem.len() implies is_name_char(#[trigger] stem[i]) by {
        if i >= "voice-matrix-"@.len() {
            assert(stem[i] == letters[i - "voice-matrix-"@.len()]);
        }
    }
}

/// With a format in safe characters, a saved name is a plain file name: safe characters only, a
/// single path component, and an extension.
pub proof fn saved_name_is_a_plain_file_name(
    event_id: Seq<char>,
    filename: Option<Seq<char>>,
    body_filename: Option<Seq<char>>,
    format: Seq<char>,
)
    requires
        format.len() > 0,
        forall|i: int| 0 <= i < format.len() ==> is_name_char(#[trigger] format[i]),
    ensures
        is_plain_file_name(saved_name(event_id, filename, body_filename, format)),
{
    let cleaned = cleaned_name(given_name(filename, body_filename));
    if cleaned.len() > 0 {
        if extension(cleaned) is Some {
            lemma_kept_name(cleaned);
        } else {
            lemma_joined_name(cleaned, format);
        }
    } else {
        lemma_event_stem(event_id);
        lemma_joined_name(
            "voice-matrix-"@ + event_id.filter(|c: char| is_alphanumeric(c)),
            format,
        );
    }
}

/// Each known media type has its format, and no other media type has one.
pub proof fn media_types_have_their_formats(mimetype: &str, res: Option<&'static str>)
    requires
        call_ensures(audio_format_from_mimetype, (mimetype,), res),
    ensures
        mimetype@ == "audio/ogg"@ || mimetype@ == "audio/ogg; codecs=opus"@ ==> opt_str_view(res)
            == Some("ogg"@),
        mimetype@ == "audio/opus"@ ==> opt_str_view(res) == Some("opus"@),
        mimetype@ == "audio/mpeg"@ || mimetype@ == "audio/mp3"@ ==> opt_str_view(res) == Some(
            "mp3"@,
        ),
        mimetype@ == "audio/mp4"@ || mimetype@ == "audio/m4a"@ || mimetype@ == "audio/x-m4a"@
            || mimetype@ == "audio/aac"@ ==> opt_str_view(res) == Some("m4a"@),
        mimetype@ == "audio/wav"@ || mimetype@ == "audio/x-wav"@ ==> opt_str_view(res) == Some(
            "wav"@,
        ),
        mimetype@ == "audio/webm"@ ==> opt_str_view(res) == Some("webm"@),
        mimetype@ == "audio/flac"@ || mimetype@ == "audio/x-flac"@ ==> opt_str_view(res) == Some(
            "flac"@,
        ),
        res is Some ==> {
            ||| mimetype@ == "audio/ogg"@
            ||| mimetype@ == "audio/ogg; codecs=opus"@
            ||| mimetype@ == "audio/opus"@
            ||| mimetype@ == "audio/mpeg"@
            ||| mimetype@ == "audio/mp3"@
            ||| mimetype@ == "audio/mp4"@
            ||| mimetype@ == "audio/m4a"@
            ||| mimetype@ == "audio/x-m4a"@
            ||| mimetype@ == "audio/aac"@
            ||| mimetype@ == "audio/wav"@
            ||| mimetype@ == "audio/x-wav"@
            ||| mimetype@ == "audio/webm"@
            ||| mimetype@ == "audio/flac"@
            ||| mimetype@ == "audio/x-flac"@
        },
{
    reveal_strlit("audio/ogg");
    reveal_strlit("audio/ogg; codecs=opus");
    reveal_strlit("audio/opus");
    reveal_strlit("audio/mpeg");
    reveal_strlit("audio/mp3");
    reveal_strlit("audio/mp4");
    reveal_strlit("audio/m4a");
    reveal_strlit("audio/x-m4a");
    reveal_strlit("audio/aac");
    reveal_strlit("audio/wav");
    reveal_strlit("audio/x-wav");
    reveal_strlit("audio/webm");
    reveal_strlit("audio/flac");
    reveal_strlit("audio/x-flac");
    assert("audio/opus"@[7] != "audio/ogg"@[7]);
    assert("audio/mp3"@[8] != "audio/ogg"@[8]);
    assert("audio/mp4"@[8] != "audio/ogg"@[8] && "audio/mp4"@[8] != "audio/mp3"@[8]);
    assert("audio/m4a"@[7] != "audio/ogg"@[7] && "audio/m4a"@[7] != "audio/mp3"@[7]);
    assert("audio/aac"@[6] != "audio/ogg"@[6] && "audio/aac"@[6] != "audio/mp3"@[6]);
    assert("audio/wav"@[6] != "audio/ogg"@[6] && "audio/wav"@[6] != "audio/mp3"@[6]
        && "audio/wav"@[6] != "audio/mp4"@[6] && "audio/wav"@[6] != "audio/m4a"@[6]
        && "audio/wav"@[6] != "audio/aac"@[6]);
    assert("audio/x-wav"@[8] != "audio/x-m4a"@[8]);
    assert("audio/mpeg"@[6] != "audio/opus"@[6]);
    assert("audio/webm"@[6] != "audio/opus"@[6] && "audio/webm"@[6] != "audio/mpeg"@[6]);
    assert("audio/flac"@[6] != "audio/opus"@[6] && "audio/flac"@[6] != "audio/mpeg"@[6]
        && "audio/flac"@[6] != "audio/webm"@[6]);
    assert("audio/mp3"@.len() == 9 && "audio/mp4"@.len() == 9 && "audio/m4a"@.len() == 9);
    assert("audio/ogg"@.len() == 9 && "audio/aac"@.len() == 9 && "audio/wav"@.len() == 9);
    assert("audio/webm"@.len() == 10 && "audio/flac"@.len() == 10 && "audio/opus"@.len() == 10);
    assert("audio/x-m4a"@.len() == 11 && "audio/x-wav"@.len() == 11);
    assert("audio/x-flac"@.len() == 12 && "audio/ogg; codecs=opus"@.len() == 22);
}

/// Each known extension has its format, in whatever case it is written, and no other has one.
pub proof fn extensions_have_their_formats(ext: &str, low: String, res: Option<&'static str>)
    requires
        call_ensures(audio_format_from_extension, (ext,), res),
        call_ensures(to_lower, (ext,), low),
    ensures
        low@ == "ogg"@ ==> opt_str_view(res) == Some("ogg"@),
        low@ == "opus"@ ==> opt_str_view(res) == Some("opus"@),
        low@ == "mp3"@ ==> opt_str_view(res) == Some("mp3"@),
        low@ == "m4a"@ || low@ == "aac"@ ==> opt_str_view(res) == Some("m4a"@),
        low@ == "wav"@ ==> opt_str_view(res) == Some("wav"@),
        low@ == "webm"@ ==> opt_str_view(res) == Some("webm"@),
        low@ == "flac"@ ==> opt_str_view(res) == Some("flac"@),
        res is Some ==> {
            ||| low@ == "ogg"@
            ||| low@ == "opus"@
            ||| low@ == "mp3"@
            ||| low@ == "m4a"@
            ||| low@ == "aac"@
            ||| low@ == "wav"@
            ||| low@ == "webm"@
            ||| low@ == "flac"@
        },
{
    reveal_strlit("ogg");
    reveal_strlit("opus");
    reveal_strlit("mp3");
    reveal_strlit("m4a");
    reveal_strlit("aac");
    reveal_strlit("wav");
    reveal_strlit("webm");
    reveal_strlit("flac");
    assert("wav"@[0] != "m4a"@[0] && "wav"@[0] != "aac"@[0]);
}

/// A media type that is known decides the format alone; without one the extension of the file
/// name does, where it is known; else the format is `ogg`.
pub proof fn the_first_thing_known_decides_the_format(
    mimetype: Option<&str>,
    filename: Option<&str>,
    by_type: Option<&'static str>,
    ext: Option<&str>,
    by_extension: Option<&'static str>,
    res: &'static str,
)
    requires
        call_ensures(audio_format_from_metadata, (mimetype, filename), res),
        match mimetype {
            Some(mimetype) => call_ensures(audio_format_from_mimetype, (mimetype,), by_type),
            None => by_type is None,
        },
        match filename {
            Some(filename) => call_ensures(extension_of, (filename,), ext),
            None => ext is None,
        },
        match ext {
            Some(ext) => call_ensures(audio_format_from_extension, (ext,), by_extension),
            None => by_extension is None,
        },
    ensures
        match (by_type, by_extension) {
            (Some(format), _) => res@ == format@,
            (None, Some(format)) => res@ == format@,
            (None, None) => res@ == "ogg"@,
        },
{
}

/// A body is read as a file name exactly when, without the white space around it, it is one line
/// that ends in a known extension.
pub proof fn bodies_that_are_audio_names_are_read_as_such(
    body: &str,
    name: &str,
    ext: Option<&str>,
    format: Option<&'static str>,
    res: Option<&str>,
)
    requires
        call_ensures(inferred_filename, (body,), res),
        call_ensures(trim, (body,), name),
        call_ensures(extension_of, (name,), ext),
        match ext {
            Some(ext) => call_ensures(audio_format_from_extension, (ext,), format),
            None => format is None,
        },
    ensures
        res is Some <==> name@.len() > 0 && !name@.contains('\n') && format is Some,
        res matches Some(found) ==> found@ == name@,
{
}

/// The format of a recording is that of its media type and its file name: the one the sender gave,
/// or, only where none was given, the one read from the body.
pub proof fn recordings_have_the_format_they_declare(
    audio: &AudioMessage,
    mimetype: Option<&str>,
    body: &str,
    read: Option<&str>,
    filename: Option<&str>,
    declared: &'static str,
    res: &'static str,
)
    requires
        call_ensures(audio_format, (audio,), res),
        match mimetype {
            Some(mimetype) => audio.mimetype is Some && mimetype@ == audio.mimetype->0@,
            None => audio.mimetype is None,
        },
        body@ == audio.body@,
        call_ensures(inferred_filename, (body,), read),
        match audio.filename {
            Some(given) => filename is Some && filename->0@ == given@,
            None => filename == read,
        },
        call_ensures(audio_format_from_metadata, (mimetype, filename), declared),
    ensures
        res@ == declared@,
{
}

/// Recordings in Ogg and Opus are voice messages, all others audio, and they are called so.
pub proof fn ogg_and_opus_are_voice(
    audio: &AudioMessage,
    format: &'static str,
    kind: ChannelMessageKind,
    label: &'static str,
)
    requires
        call_ensures(audio_format, (audio,), format),
        call_ensures(infer_audio_kind, (audio,), kind),
        call_ensures(audio_kind_label, (Some(kind),), label),
    ensures
        format@ == "ogg"@ || format@ == "opus"@ ==> kind == ChannelMessageKind::Voice && label@
            == "voice"@,
        format@ != "ogg"@ && format@ != "opus"@ ==> kind == ChannelMessageKind::Audio && label@
            == "audio"@,
{
}

/// Only voice messages are called voice messages.
pub proof fn all_but_voice_is_called_audio(kind: Option<ChannelMessageKind>, label: &'static str)
    requires
        call_ensures(audio_kind_label, (kind,), label),
    ensures
        kind == Some(ChannelMessageKind::Voice) ==> label@ == "voice"@,
        kind != Some(ChannelMessageKind::Voice) ==> label@ == "audio"@,
{
}

/// The caption of a recording is its body without the white space around it, exactly where a file
/// name is given, the body is something else than that name, and it is not blank.
pub proof fn captions_are_bodies_beside_a_file_name(
    audio: &AudioMessage,
    body: &str,
    text: &str,
    res: Option<String>,
)
    requires
        call_ensures(audio_caption, (audio,), res),
        body@ == audio.body@,
        call_ensures(trim, (body,), text),
    ensures
        res is Some <==> (audio.filename matches Some(name) && name@ != audio.body@) && text@.len()
            > 0,
        res matches Some(caption) ==> caption@ == text@,
{
}

proof fn lemma_last_segment(directory: Seq<char>, name: Seq<char>)
    requires
        directory.len() > 0 ==> directory.last() == '/' || directory.last() == '\\',
        !name.contains('/'),
        !name.contains('\\'),
    ensures
        after_last(after_last(directory + name, '/'), '\\') == name,
{
    if directory.len() == 0 {
        assert(directory + name =~= name);
        the_last_index_splits(directory, '/', name);
        the_last_index_splits(directory, '\\', name);
    } else if directory.last() == '/' {
        assert(directory + name =~= directory.drop_last() + seq!['/'] + name);
        the_last_index_splits(directory.drop_last(), '/', name);
        the_last_index_splits(directory, '\\', name);
    } else {
        let at = last_index(directory, '/');
        last_index_is_last(directory, '/');
        let segment = directory.skip(at + 1);
        assert(!(segment + name).contains('/')) by {
            if (segment + name).contains('/') {
                let k = choose|k: int|
                    0 <= k < (segment + name).len() && (segment + name)[k] == '/';
                if k < segment.len() {
                    assert(directory[at + 1 + k] == '/');
                } else {
                    assert(name.contains(name[k - segment.len()]));
                }
            }
        }
        if at >= 0 {
            assert(directory + name =~= directory.take(at) + seq!['/'] + (segment + name));
        } else {
            assert(directory + name =~= segment + name);
        }
        the_last_index_splits(directory.take(at), '/', segment + name);
        assert(segment.last() == '\\');
        assert(segment + name =~= segment.drop_last() + seq!['\\'] + name);
        the_last_index_splits(segment.drop_last(), '\\', name);
    }
}

proof fn lemma_has_extension(name: Seq<char>)
    requires
        name.len() > 0,
        !name.contains('/'),
    ensures
        extension(name) is Some <==> name != seq!['.', '.'] && exists|k: int|
            0 < k < name.len() && #[trigger] name[k] == '.',
{
    reveal_strlit(".");
    reveal_strlit("..");
    the_last_index_splits(Seq::empty(), '/', name);
    last_index_is_last(name, '.');
    if name == seq!['.', '.'] {
        assert(name =~= ".."@);
    } else if name != "."@ {
        assert(name != ".."@) by {
            if name == ".."@ {
                assert(name =~= seq!['.', '.']);
            }
        }
        lemma_plain_file_name(name);
    }
}

/// A recording with a file name is saved under the last part of that name, its letters, digits,
/// dots, hyphens and underscores kept and every other character turned into an underscore; the
/// format is appended exactly where the name has no extension. A name read from the body counts
/// only where the sender gave none.
pub proof fn recordings_are_saved_under_their_own_names(
    event_id: &str,
    filename: Option<&str>,
    body_filename: Option<&str>,
    format: &str,
    given: &str,
    before: Seq<char>,
    directory: Seq<char>,
    name: Seq<char>,
    after: Seq<char>,
    cleaned: Seq<char>,
    res: String,
)
    requires
        call_ensures(saved_audio_filename, (event_id, filename, body_filename, format), res),
        filename == Some(given) || filename is None && body_filename == Some(given),
        given@ == before + (directory + name) + after,
        forall|i: int| 0 <= i < before.len() ==> is_white(#[trigger] before[i]),
        forall|i: int| 0 <= i < after.len() ==> is_white(#[trigger] after[i]),
        !is_white((directory + name).first()) && !is_white((directory + name).last()),
        directory.len() > 0 ==> directory.last() == '/' || directory.last() == '\\',
        name.len() > 0,
        !name.contains('/'),
        !name.contains('\\'),
        cleaned.len() == name.len(),
        forall|i: int|
            0 <= i < name.len() ==> #[trigger] cleaned[i] == if 'a' <= name[i] <= 'z' || 'A'
                <= name[i] <= 'Z' || '0' <= name[i] <= '9' || name[i] == '.' || name[i] == '-'
                || name[i] == '_' {
                name[i]
            } else {
                '_'
            },
    ensures
        res@ == if cleaned != seq!['.', '.'] && exists|k: int|
            0 < k < cleaned.len() && #[trigger] cleaned[k] == '.' {
            cleaned
        } else {
            cleaned + seq!['.'] + format@
        },
{
    reveal_strlit(".");
    assert("."@ =~= seq!['.']);
    trimming_takes_the_white_space_off(before, directory + name, after);
    lemma_last_segment(directory, name);
    assert(cleaned_name(directory + name) =~= cleaned);
    assert(!cleaned.contains('/'));
    lemma_has_extension(cleaned);
}

/// A recording without a name, or whose name ends in a slash or is blank, is saved under one made
/// from the letters and digits of its event: other characters in the event's ID make no
/// difference.
pub proof fn nameless_recordings_are_saved_by_their_event(
    event_id: &str,
    filename: Option<&str>,
    body_filename: Option<&str>,
    format: &str,
    given: Seq<char>,
    res: String,
)
    requires
        call_ensures(saved_audio_filename, (event_id, filename, body_filename, format), res),
        match (filename, body_filename) {
            (Some(name), _) => trimmed(name@) == given,
            (None, Some(name)) => trimmed(name@) == given,
            (None, None) => given.len() == 0,
        },
        given.len() > 0 ==> given.last() == '/' || given.last() == '\\',
    ensures
        res@ == "voice-matrix-"@ + event_id@.filter(|c: char| is_alphanumeric(c)) + seq!['.']
            + format@,
        (forall|i: int|
            0 <= i < event_id@.len() ==> is_alphanumeric(#[trigger] event_id@[i])) ==> res@
            == "voice-matrix-"@ + event_id@ + seq!['.'] + format@,
        forall|i: int|
            13 <= i < res@.len() - format@.len() - 1 ==> is_alphanumeric(#[trigger] res@[i]),
{
    reveal_strlit(".");
    reveal_strlit("voice-matrix-");
    assert("."@ =~= seq!['.']);
    lemma_last_segment(given, Seq::empty());
    assert(given + Seq::<char>::empty() =~= given);
    assert(cleaned_name(given).len() == 0);
    broadcast use Seq::lemma_filter_pred;

    lemma_alphanumerics_are_kept(event_id@);
    let letters = event_id@.filter(|c: char| is_alphanumeric(c));
    assert forall|i: int| 13 <= i < res@.len() - format@.len() - 1 implies is_alphanumeric(
        #[trigger] res@[i],
    ) by {
        assert(res@[i] == letters[i - 13]);
    }
}

proof fn lemma_alphanumerics_are_kept(s: Seq<char>)
    ensures
        (forall|i: int| 0 <= i < s.len() ==> is_alphanumeric(#[trigger] s[i])) ==> s.filter(
            |c: char| is_alphanumeric(c),
        ) == s,
    decreases s.len(),
{
    reveal(Seq::filter);
    if s.len() > 0 {
        lemma_alphanumerics_are_kept(s.drop_last());
        assert(s =~= s.drop_last().push(s.last()));
    }
}

} // verus!
