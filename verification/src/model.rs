//! Data model of the orchestration layer: resources, tasks, chat records and
//! their string encodings, plus the classification of an input path as a URL,
//! a video platform, or an audio/video file.
use vstd::prelude::*;
use vstd::string::StringExecFns;
use crate::strutil;
use crate::strutil::{is_prefix, is_substring, lower_seq};

verus! {

/// Whether a resource holds audio or video.
#[derive(Debug, Clone, Copy, PartialEq, Eq, Structural)]
pub enum ResourceType {
    Audio,
    Video,
}

/// Where a resource came from: a local file or a URL.
#[derive(Debug, Clone, Copy, PartialEq, Eq, Structural)]
pub enum SourceType {
    File,
    Url,
}

/// The video platform a URL belongs to.
#[derive(Debug, Clone, Copy, PartialEq, Eq, Structural)]
pub enum Platform {
    Youtube,
    Bilibili,
    Other,
}

/// Compares two string slices by their characters.
pub fn str_eq(a: &str, b: &str) -> (r: bool)
    ensures
        r == (a@ == b@),
{
    let va = strutil::chars_of(a);
    let vb = strutil::chars_of(b);
    strutil::vec_eq(&va, &vb)
}

/// The stored encoding of a resource type.
pub open spec fn resource_type_str(t: ResourceType) -> Seq<char> {
    match t {
        ResourceType::Audio => "audio"@,
        ResourceType::Video => "video"@,
    }
}

/// Encodes a resource type for storage.
pub fn resource_type_to_string(t: &ResourceType) -> (r: String)
    ensures
        r@ == resource_type_str(*t),
{
    match t {
        ResourceType::Audio => String::from_str("audio"),
        ResourceType::Video => String::from_str("video"),
    }
}

/// Decodes a stored resource type; anything unrecognized falls back to audio.
pub fn string_to_resource_type(s: &str) -> (r: ResourceType)
    ensures
        r == if s@ == "video"@ {
            ResourceType::Video
        } else {
            ResourceType::Audio
        },
{
    if str_eq(s, "video") {
        ResourceType::Video
    } else {
        ResourceType::Audio
    }
}

/// The stored encoding of a source type.
pub open spec fn source_type_str(t: SourceType) -> Seq<char> {
    match t {
        SourceType::File => "file"@,
        SourceType::Url => "url"@,
    }
}

/// Encodes a source type for storage.
pub fn source_type_to_string(t: &SourceType) -> (r: String)
    ensures
        r@ == source_type_str(*t),
{
    match t {
        SourceType::File => String::from_str("file"),
        SourceType::Url => String::from_str("url"),
    }
}

/// Decodes a stored source type; anything unrecognized falls back to file.
pub fn string_to_source_type(s: &str) -> (r: SourceType)
    ensures
        r == if s@ == "url"@ {
            SourceType::Url
        } else {
            SourceType::File
        },
{
    if str_eq(s, "url") {
        SourceType::Url
    } else {
        SourceType::File
    }
}

/// The stored encoding of a platform.
pub open spec fn platform_str(p: Platform) -> Seq<char> {
    match p {
        Platform::Youtube => "youtube"@,
        Platform::Bilibili => "bilibili"@,
        Platform::Other => "other"@,
    }
}

/// Encodes an optional platform for storage.
pub fn platform_to_string(p: &Option<Platform>) -> (r: Option<String>)
    ensures
        match p {
            Some(pp) => r is Some && r.unwrap()@ == platform_str(*pp),
            None => r is None,
        },
{
    match p {
        Some(Platform::Youtube) => Some(String::from_str("youtube")),
        Some(Platform::Bilibili) => Some(String::from_str("bilibili")),
        Some(Platform::Other) => Some(String::from_str("other")),
        None => None,
    }
}

/// Decodes a stored platform; an unrecognized encoding yields `None`.
pub fn string_to_platform(s: &Option<String>) -> (r: Option<Platform>)
    ensures
        r == match s {
            Some(ss) => if ss@ == "youtube"@ {
                Some(Platform::Youtube)
            } else if ss@ == "bilibili"@ {
                Some(Platform::Bilibili)
            } else if ss@ == "other"@ {
                Some(Platform::Other)
            } else {
                None
            },
            None => None::<Platform>,
        },
{
    match s {
        Some(ss) => {
            if str_eq(ss.as_str(), "youtube") {
                Some(Platform::Youtube)
            } else if str_eq(ss.as_str(), "bilibili") {
                Some(Platform::Bilibili)
            } else if str_eq(ss.as_str(), "other") {
                Some(Platform::Other)
            } else {
                None
            }
        },
        None => None,
    }
}

/// Whether `s`, lowercased, starts with an HTTP or HTTPS scheme.
pub open spec fn is_url_spec(s: Seq<char>) -> bool {
    is_prefix(lower_seq(s), "http://"@) || is_prefix(lower_seq(s), "https://"@)
}

/// Whether a path is a URL rather than a local file path.
pub fn is_url(path: &str) -> (r: bool)
    ensures
        r == is_url_spec(path@),
{
    let chars = strutil::chars_of(path);
    let lower = strutil::to_lower(&chars);
    let http = strutil::chars_of("http://");
    let https = strutil::chars_of("https://");
    strutil::starts_with(&lower, &http) || strutil::starts_with(&lower, &https)
}

/// The platform a URL belongs to: known video sites by their host names,
/// any other HTTP(S) URL as `Other`, and `None` for what is no URL at all.
pub open spec fn detect_url_platform_spec(s: Seq<char>) -> Option<Platform> {
    let l = lower_seq(s);
    if is_substring(l, "youtube.com"@) || is_substring(l, "youtu.be"@) {
        Some(Platform::Youtube)
    } else if is_substring(l, "bilibili.com"@) || is_substring(l, "b23.tv"@) {
        Some(Platform::Bilibili)
    } else if is_prefix(l, "http://"@) || is_prefix(l, "https://"@) {
        Some(Platform::Other)
    } else {
        None
    }
}

/// Classifies a URL by platform, as `detect_url_platform_spec` describes.
pub fn detect_url_platform(url: &str) -> (r: Option<Platform>)
    ensures
        r == detect_url_platform_spec(url@),
{
    let chars = strutil::chars_of(url);
    let lower = strutil::to_lower(&chars);
    let youtube = strutil::chars_of("youtube.com");
    let youtu_be = strutil::chars_of("youtu.be");
    if strutil::contains_sub(&lower, &youtube) || strutil::contains_sub(&lower, &youtu_be) {
        return Some(Platform::Youtube);
    }
    let bilibili = strutil::chars_of("bilibili.com");
    let b23 = strutil::chars_of("b23.tv");
    if strutil::contains_sub(&lower, &bilibili) || strutil::contains_sub(&lower, &b23) {
        return Some(Platform::Bilibili);
    }
    let http = strutil::chars_of("http://");
    let https = strutil::chars_of("https://");
    if strutil::starts_with(&lower, &http) || strutil::starts_with(&lower, &https) {
        return Some(Platform::Other);
    }
    None
}

/// Index of the last occurrence of `c` in `s`, or `-1` when absent.
pub open spec fn rfind_at(s: Seq<char>, c: char) -> int
    decreases s.len(),
{
    if s.len() == 0 {
        -1
    } else if s.last() == c {
        s.len() - 1
    } else {
        rfind_at(s.drop_last(), c)
    }
}

/// Any index holding `c` with none after it is `rfind_at`; a sequence without
/// `c` has `rfind_at` equal to `-1`.
pub proof fn lemma_rfind_unique(s: Seq<char>, c: char, i: int)
    requires
        -1 <= i < s.len(),
        i >= 0 ==> s[i] == c,
        forall|k: int| i < k < s.len() ==> s[k] != c,
    ensures
        rfind_at(s, c) == i,
    decreases s.len(),
{
    if s.len() > 0 && i < s.len() - 1 {
        assert(s.last() != c);
        assert(forall|k: int| i < k < s.len() - 1 ==> s.drop_last()[k] == s[k]);
        if i >= 0 {
            assert(s.drop_last()[i] == s[i]);
        }
        lemma_rfind_unique(s.drop_last(), c, i);
    }
}

/// Last occurrence of `c`, as `rfind_at` gives it: `None` when absent.
pub fn rfind(s: &Vec<char>, c: char) -> (r: Option<usize>)
    ensures
        match r {
            Some(i) => i == rfind_at(s@, c) && i < s@.len() && s@[i as int] == c && (forall|k: int|
                i < k < s@.len() ==> s@[k] != c),
            None => rfind_at(s@, c) == -1 && (forall|k: int| 0 <= k < s@.len() ==> s@[k] != c),
        },
{
    let n = s.len();
    let mut i: usize = n;
    while i > 0
        invariant
            n == s@.len(),
            i <= n,
            forall|k: int| i <= k < n ==> s@[k] != c,
        decreases i,
    {
        i = i - 1;
        if s[i] == c {
            proof {
                lemma_rfind_unique(s@, c, i as int);
            }
            return Some(i);
        }
    }
    proof {
        lemma_rfind_unique(s@, c, -1);
    }
    None
}

/// The extension of a path: what follows the last dot of the last path
/// component, provided that dot is not the component's first character.
pub open spec fn extension_of(s: Seq<char>) -> Option<Seq<char>> {
    let name_start = rfind_at(s, '/') + 1;
    let d = rfind_at(s, '.');
    if d > name_start {
        Some(s.subrange(d + 1, s.len() as int))
    } else {
        None
    }
}

/// The extensions treated as video files.
pub open spec fn is_video_extension(e: Seq<char>) -> bool {
    e == "mp4"@ || e == "avi"@ || e == "mov"@ || e == "mkv"@ || e == "wmv"@ || e == "flv"@ || e
        == "webm"@ || e == "m4v"@ || e == "3gp"@
}

/// A URL counts as video; otherwise the lowercased file extension decides,
/// and anything unrecognized counts as audio.
pub open spec fn detect_resource_type_spec(s: Seq<char>) -> ResourceType {
    if is_url_spec(s) {
        ResourceType::Video
    } else {
        match extension_of(s) {
            Some(e) => if is_video_extension(lower_seq(e)) {
                ResourceType::Video
            } else {
                ResourceType::Audio
            },
            None => ResourceType::Audio,
        }
    }
}

/// Classifies a path, as `detect_resource_type_spec` describes.
pub fn detect_resource_type(file_path: &str) -> (r: ResourceType)
    ensures
        r == detect_resource_type_spec(file_path@),
{
    if is_url(file_path) {
        return ResourceType::Video;
    }
    let chars = strutil::chars_of(file_path);
    let slash = rfind(&chars, '/');
    let dot = rfind(&chars, '.');
    let name_start: usize = match slash {
        Some(i) => i + 1,
        None => 0,
    };
    proof {
        assert(name_start as int == rfind_at(chars@, '/') + 1);
    }
    match dot {
        Some(d) => {
            // the dot must lie strictly inside the final path component
            if d > name_start {
                let n = chars.len();
                proof {
                    assert(d < n);
                }
                let ext = strutil::subvec(&chars, d + 1, n);
                let lower = strutil::to_lower(&ext);
                proof {
                    assert(extension_of(file_path@) == Some(ext@));
                }
                if is_video_ext(&lower) {
                    ResourceType::Video
                } else {
                    ResourceType::Audio
                }
            } else {
                ResourceType::Audio
            }
        },
        None => ResourceType::Audio,
    }
}

/// A transcription resource: an audio/video file or URL under a caller-chosen id.
#[derive(Debug, Clone)]
pub struct TranscriptionResource {
    pub id: String,
    pub name: String,
    pub file_path: String,
    pub resource_type: ResourceType,
    pub source_type: SourceType,
    pub platform: Option<Platform>,
    pub extracted_audio_path: Option<String>,
    pub latest_completed_task_id: Option<String>,
    pub created_at: String,
    pub updated_at: String,
}

/// Transcription parameters handed to the external tool. Only the model,
/// language and translation switch steer the supervised command line.
#[derive(Debug, Clone)]
pub struct TranscriptionParams {
    pub model: Option<String>,
    pub language: Option<String>,
    pub device: Option<String>,
    pub compute_type: Option<String>,
    pub beam_size: Option<u32>,
    pub best_of: Option<u32>,
    pub condition_on_previous_text: Option<bool>,
    pub initial_prompt: Option<String>,
    pub word_timestamps: Option<bool>,
    pub translate: Option<bool>,
}

/// A transcription task over one resource, with its externally persisted
/// status: `pending`, `running`, `completed` or `failed`.
#[derive(Debug, Clone)]
pub struct TranscriptionTask {
    pub id: String,
    pub resource_id: String,
    pub status: String,
    pub created_at: String,
    pub completed_at: Option<String>,
    pub result: Option<String>,
    pub error: Option<String>,
    pub log: Option<String>,
    pub params: TranscriptionParams,
}

/// A fresh file-backed resource: typed by its path, not yet transcribed.
pub fn new_file_resource(id: String, name: String, file_path: String, now: String) -> (r:
    TranscriptionResource)
    ensures
        r.id == id,
        r.name == name,
        r.file_path == file_path,
        r.resource_type == detect_resource_type_spec(file_path@),
        r.source_type == SourceType::File,
        r.platform is None,
        r.extracted_audio_path is None,
        r.latest_completed_task_id is None,
        r.created_at == now,
        r.updated_at == now,
{
    let resource_type = detect_resource_type(file_path.as_str());
    TranscriptionResource {
        id,
        name,
        file_path,
        resource_type,
        source_type: SourceType::File,
        platform: None,
        extracted_audio_path: None,
        latest_completed_task_id: None,
        created_at: now.clone(),
        updated_at: now,
    }
}

/// A fresh URL-backed resource; rejected exactly when the text is no
/// HTTP(S) URL. URL resources count as video and carry their platform.
pub fn new_url_resource(id: String, name: String, url: String, now: String) -> (r: Result<
    TranscriptionResource,
    String,
>)
    ensures
        r is Ok <==> is_url_spec(url@),
        r matches Err(e) ==> e@ == "invalid URL: expected a link starting with http:// or https://"@,
        r matches Ok(res) ==> {
            &&& res.id == id
            &&& res.name == name
            &&& res.file_path == url
            &&& res.resource_type == ResourceType::Video
            &&& res.source_type == SourceType::Url
            &&& res.platform == detect_url_platform_spec(url@)
            &&& res.extracted_audio_path is None
            &&& res.latest_completed_task_id is None
            &&& res.created_at == now
            &&& res.updated_at == now
        },
{
    if !is_url(url.as_str()) {
        return Err(String::from_str("invalid URL: expected a link starting with http:// or https://"));
    }
    let platform = detect_url_platform(url.as_str());
    Ok(TranscriptionResource {
        id,
        name,
        file_path: url,
        resource_type: ResourceType::Video,
        source_type: SourceType::Url,
        platform,
        extracted_audio_path: None,
        latest_completed_task_id: None,
        created_at: now.clone(),
        updated_at: now,
    })
}

/// A fresh task in the `pending` state.
pub fn new_task(id: String, resource_id: String, params: TranscriptionParams, now: String) -> (r:
    TranscriptionTask)
    ensures
        r.id == id,
        r.resource_id == resource_id,
        r.status@ == "pending"@,
        r.created_at == now,
        r.completed_at is None,
        r.result is None,
        r.error is None,
        r.log is None,
        r.params == params,
{
    TranscriptionTask {
        id,
        resource_id,
        status: String::from_str("pending"),
        created_at: now,
        completed_at: None,
        result: None,
        error: None,
        log: None,
        params,
    }
}

/// Marks a task as running; every other field stays as it was.
pub fn mark_task_running(task: &mut TranscriptionTask)
    ensures
        final(task).status@ == "running"@,
        *final(task) == (TranscriptionTask { status: final(task).status, ..*old(task) }),
{
    task.status = String::from_str("running");
}

/// Marks a task completed with its result path, completion time and log.
pub fn complete_task(task: &mut TranscriptionTask, result_path: String, log: Option<String>, now: String)
    ensures
        final(task).status@ == "completed"@,
        final(task).result == Some(result_path),
        final(task).completed_at == Some(now),
        final(task).log == log,
        *final(task) == (TranscriptionTask {
            status: final(task).status,
            result: final(task).result,
            completed_at: final(task).completed_at,
            log: final(task).log,
            ..*old(task)
        }),
{
    task.status = String::from_str("completed");
    task.result = Some(result_path);
    task.completed_at = Some(now);
    task.log = log;
}

/// Marks a task failed with its error text and completion time.
pub fn fail_task(task: &mut TranscriptionTask, error: String, now: String)
    ensures
        final(task).status@ == "failed"@,
        final(task).error == Some(error),
        final(task).completed_at == Some(now),
        *final(task) == (TranscriptionTask {
            status: final(task).status,
            error: final(task).error,
            completed_at: final(task).completed_at,
            ..*old(task)
        }),
{
    task.status = String::from_str("failed");
    task.error = Some(error);
    task.completed_at = Some(now);
}

/// Records on a resource which task last completed, stamping the update time.
pub fn record_completed_task(resource: &mut TranscriptionResource, task_id: String, now: String)
    ensures
        final(resource).latest_completed_task_id == Some(task_id),
        final(resource).updated_at == now,
        *final(resource) == (TranscriptionResource {
            latest_completed_task_id: final(resource).latest_completed_task_id,
            updated_at: final(resource).updated_at,
            ..*old(resource)
        }),
{
    resource.latest_completed_task_id = Some(task_id);
    resource.updated_at = now;
}

/// An OpenAI-compatible endpoint configuration.
#[derive(Debug, Clone)]
pub struct AIConfig {
    pub id: String,
    pub name: String,
    pub base_url: String,
    pub api_key: String,
    pub model: String,
    pub created_at: String,
    pub updated_at: String,
}

/// A fresh endpoint configuration, created and updated `now`.
pub fn new_ai_config(id: String, name: String, base_url: String, api_key: String, model: String, now: String) -> (r: AIConfig)
    ensures
        r.id == id,
        r.name == name,
        r.base_url == base_url,
        r.api_key == api_key,
        r.model == model,
        r.created_at == now,
        r.updated_at == now,
{
    AIConfig { id, name, base_url, api_key, model, created_at: now.clone(), updated_at: now }
}

/// The stored configuration after an edit: fields replaced, creation time
/// kept, update time stamped.
pub fn updated_ai_config(existing: &AIConfig, name: String, base_url: String, api_key: String, model: String, now: String) -> (r: AIConfig)
    ensures
        r.id == existing.id,
        r.name == name,
        r.base_url == base_url,
        r.api_key == api_key,
        r.model == model,
        r.created_at == existing.created_at,
        r.updated_at == now,
{
    AIConfig {
        id: existing.id.clone(),
        name,
        base_url,
        api_key,
        model,
        created_at: existing.created_at.clone(),
        updated_at: now,
    }
}

/// A chat thread.
#[derive(Debug, Clone)]
pub struct Chat {
    pub id: String,
    pub title: String,
    pub created_at: String,
    pub updated_at: String,
}

/// One message in a chat thread.
#[derive(Debug, Clone)]
pub struct Message {
    pub id: String,
    pub chat_id: String,
    pub role: String,
    pub content: String,
    pub tool_calls: Option<String>,
    pub tool_call_id: Option<String>,
    pub name: Option<String>,
    pub reasoning: Option<String>,
    pub created_at: String,
}

/// A chat thread as listed, with its last-message time and message count.
#[derive(Debug, Clone)]
pub struct ChatListItem {
    pub id: String,
    pub title: String,
    pub created_at: String,
    pub updated_at: String,
    pub last_message_at: Option<String>,
    pub message_count: i32,
}

/// The resource type assumed for records that predate typing: audio.
pub fn default_resource_type() -> (r: ResourceType)
    ensures
        r == ResourceType::Audio,
{
    ResourceType::Audio
}

/// The source type assumed for records that predate typing: a local file.
pub fn default_source_type() -> (r: SourceType)
    ensures
        r == SourceType::File,
{
    SourceType::File
}

/// A chat thread as listed, from its record and its message statistics.
pub fn chat_list_item(chat: &Chat, last_message_at: Option<String>, message_count: i32) -> (r:
    ChatListItem)
    ensures
        r.id == chat.id,
        r.title == chat.title,
        r.created_at == chat.created_at,
        r.updated_at == chat.updated_at,
        r.last_message_at == last_message_at,
        r.message_count == message_count,
{
    ChatListItem {
        id: chat.id.clone(),
        title: chat.title.clone(),
        created_at: chat.created_at.clone(),
        updated_at: chat.updated_at.clone(),
        last_message_at,
        message_count,
    }
}

/// Retitles a chat thread, stamping the update time.
pub fn retitle_chat(chat: &mut Chat, title: String, now: String)
    ensures
        final(chat).id == old(chat).id,
        final(chat).created_at == old(chat).created_at,
        final(chat).title == title,
        final(chat).updated_at == now,
{
    chat.title = title;
    chat.updated_at = now;
}

/// Stamps a chat thread's update time, as saving a message does.
pub fn touch_chat(chat: &mut Chat, now: String)
    ensures
        final(chat).id == old(chat).id,
        final(chat).title == old(chat).title,
        final(chat).created_at == old(chat).created_at,
        final(chat).updated_at == now,
{
    chat.updated_at = now;
}

/// A fresh chat thread.
pub fn new_chat(id: String, title: String, now: String) -> (r: Chat)
    ensures
        r.id == id,
        r.title == title,
        r.created_at == now,
        r.updated_at == now,
{
    Chat { id, title, created_at: now.clone(), updated_at: now }
}

/// A fresh message for a chat thread.
pub fn new_message(id: String, chat_id: String, role: String, content: String, tool_calls: Option<String>, tool_call_id: Option<String>, name: Option<String>, reasoning: Option<String>, now: String) -> (r: Message)
    ensures
        r.id == id,
        r.chat_id == chat_id,
        r.role == role,
        r.content == content,
        r.tool_calls == tool_calls,
        r.tool_call_id == tool_call_id,
        r.name == name,
        r.reasoning == reasoning,
        r.created_at == now,
{
    Message { id, chat_id, role, content, tool_calls, tool_call_id, name, reasoning, created_at: now }
}

/// Outcome of probing for the transcription tool: where it was found, or why not.
#[derive(Debug)]
pub struct FastWhisperStatus {
    pub whisper_cli_available: bool,
    pub whisper_cli_path: Option<String>,
    pub error: Option<String>,
}

/// Status for a probe outcome: a found path makes the tool available; a
/// probe error is carried through with the tool unavailable.
pub fn fast_whisper_status(found: Result<String, String>) -> (r: FastWhisperStatus)
    ensures
        match found {
            Ok(path) => r.whisper_cli_available && r.whisper_cli_path == Some(path) && r.error
                is None,
            Err(e) => !r.whisper_cli_available && r.whisper_cli_path is None && r.error == Some(e),
        },
{
    match found {
        Ok(path) => FastWhisperStatus {
            whisper_cli_available: true,
            whisper_cli_path: Some(path),
            error: None,
        },
        Err(e) => FastWhisperStatus {
            whisper_cli_available: false,
            whisper_cli_path: None,
            error: Some(e),
        },
    }
}

/// One downloadable model and whether it is on disk.
#[derive(Debug)]
pub struct ModelInfo {
    pub name: String,
    pub size: Option<u64>,
    pub downloaded: bool,
}

/// Model listing entry: downloaded exactly when a size was measured.
pub fn model_info(name: String, size: Option<u64>) -> (r: ModelInfo)
    ensures
        r.name == name,
        r.size == size,
        r.downloaded == (size is Some),
{
    let downloaded = size.is_some();
    ModelInfo { name, size, downloaded }
}

/// The on-disk file name of a model: `ggml-<name>.bin`.
pub fn model_file_name(name: &str) -> (r: String)
    ensures
        r@ == "ggml-"@ + name@ + ".bin"@,
{
    let mut s = String::from_str("ggml-");
    s.append(name);
    s.append(".bin");
    proof {
        assert(s@ =~= "ggml-"@ + name@ + ".bin"@);
    }
    s
}

/// The download URL of a model file.
pub fn model_download_url(file_name: &str) -> (r: String)
    ensures
        r@ == "https://huggingface.co/ggerganov/whisper.cpp/resolve/main/"@ + file_name@,
{
    let mut s = String::from_str("https://huggingface.co/ggerganov/whisper.cpp/resolve/main/");
    s.append(file_name);
    s
}

/// What running one external command produced.
#[derive(Debug)]
pub struct CommandExecutionResult {
    pub exit_code: Option<i32>,
    pub stdout: String,
    pub stderr: String,
    pub success: bool,
}

/// Packages a finished command's exit code and captured output; it succeeded
/// exactly when the exit code is zero.
pub fn command_result(exit_code: Option<i32>, stdout: String, stderr: String) -> (r:
    CommandExecutionResult)
    ensures
        r.exit_code == exit_code,
        r.stdout == stdout,
        r.stderr == stderr,
        r.success == (exit_code == Some(0i32)),
{
    let success = match exit_code {
        Some(c) => c == 0,
        None => false,
    };
    CommandExecutionResult { exit_code, stdout, stderr, success }
}

/// Where the record store lives under the application data directory.
pub fn get_db_path(app_data_dir: &str) -> (r: String)
    ensures
        r@ == strutil::join_path_spec(app_data_dir@, "transcription.db"@),
{
    strutil::join_path(app_data_dir, "transcription.db")
}

/// Whether `e` is one of the video extensions.
fn is_video_ext(e: &Vec<char>) -> (r: bool)
    ensures
        r == is_video_extension(e@),
{
    let mp4 = strutil::chars_of("mp4");
    let avi = strutil::chars_of("avi");
    let mov = strutil::chars_of("mov");
    let mkv = strutil::chars_of("mkv");
    let wmv = strutil::chars_of("wmv");
    let flv = strutil::chars_of("flv");
    let webm = strutil::chars_of("webm");
    let m4v = strutil::chars_of("m4v");
    let g3 = strutil::chars_of("3gp");
    strutil::vec_eq(e, &mp4) || strutil::vec_eq(e, &avi) || strutil::vec_eq(e, &mov)
        || strutil::vec_eq(e, &mkv) || strutil::vec_eq(e, &wmv) || strutil::vec_eq(e, &flv)
        || strutil::vec_eq(e, &webm) || strutil::vec_eq(e, &m4v) || strutil::vec_eq(e, &g3)
}

} // verus!
