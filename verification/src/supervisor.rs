//! Process-supervision decisions: whether a start request spawns or joins a
//! running job, how the exit of a supervised process is classified, how a
//! stop request transitions state even when the process has vanished, and
//! the exact command lines handed to the external tools.
use vstd::prelude::*;
use vstd::string::StringExecFns;
use crate::model;
use crate::model::{Platform, ResourceType, SourceType, TranscriptionResource, TranscriptionTask};
use crate::registry::Registry;
use crate::strutil;

verus! {

/// The exit code recorded when a job's registry entry vanished while it was
/// being awaited: the job was stopped rather than observed to exit.
pub const INTERRUPTED_EXIT_CODE: i32 = 130;

/// What a start request does: join the job already registered under the key,
/// or spawn a new process.
#[derive(Debug, Clone, Copy, PartialEq, Eq, Structural)]
pub enum StartDecision {
    AlreadyRunning,
    Spawn,
}

/// A key that is present joins the running job; only an absent key spawns.
pub open spec fn start_decision_spec(present: bool) -> StartDecision {
    if present {
        StartDecision::AlreadyRunning
    } else {
        StartDecision::Spawn
    }
}

/// Decides a start request against the registry, as `start_decision_spec`
/// describes: spawn exactly when the key is absent.
pub fn plan_start<H>(reg: &Registry<H>, key: &String) -> (r: StartDecision)
    requires
        reg.wf(),
    ensures
        r == start_decision_spec(reg@.contains_key(key@)),
        r is Spawn <==> !reg@.contains_key(key@),
{
    if reg.contains(key) {
        StartDecision::AlreadyRunning
    } else {
        StartDecision::Spawn
    }
}

/// Starting a job twice without an intervening stop never spawns twice: once
/// a handle is registered under a key, a second start request for that key
/// decides `AlreadyRunning`, whatever the registry held before.
pub proof fn lemma_second_start_never_spawns<H>(m: Map<Seq<char>, H>, k: Seq<char>, h: H)
    ensures
        start_decision_spec(m.insert(k, h).contains_key(k)) == StartDecision::AlreadyRunning,
{
}

/// One round of awaiting a supervised process.
#[derive(Debug, Clone, Copy, PartialEq, Eq, Structural)]
pub enum PollStep {
    /// The process exited with this code; its entry is to be removed.
    Exited(i32),
    /// The entry vanished: a concurrent stop took the job; finish with
    /// `INTERRUPTED_EXIT_CODE`.
    Interrupted,
    /// Still running: release the handle and retry after a short sleep.
    KeepWaiting,
}

/// A vanished entry means interruption; otherwise a reaped exit code ends the
/// wait and anything else keeps polling.
pub open spec fn poll_step_spec(present: bool, exited: Option<i32>) -> PollStep {
    if !present {
        PollStep::Interrupted
    } else {
        match exited {
            Some(code) => PollStep::Exited(code),
            None => PollStep::KeepWaiting,
        }
    }
}

/// Decides one poll round from whether the key is still registered and what a
/// non-blocking wait on the handle returned, as `poll_step_spec` describes.
pub fn poll_step(present: bool, exited: Option<i32>) -> (r: PollStep)
    ensures
        r == poll_step_spec(present, exited),
{
    if !present {
        PollStep::Interrupted
    } else {
        match exited {
            Some(code) => PollStep::Exited(code),
            None => PollStep::KeepWaiting,
        }
    }
}

/// What a stop request does.
#[derive(Debug, Clone, Copy, PartialEq, Eq, Structural)]
pub enum StopPlan {
    /// The recorded status is not `running`: the request is refused.
    NotRunning,
    /// A live handle is registered: kill it, await it, remove the entry.
    KillAndRemove,
    /// The status says running but no handle is registered (the process
    /// vanished): still transition the status to its terminal state.
    AlreadyGone,
}

/// Stopping is refused unless the recorded status is `running`; with it
/// running, a present handle is killed and removed, and an absent one is
/// treated as already stopped rather than as an error.
pub open spec fn stop_plan_spec(status_running: bool, present: bool) -> StopPlan {
    if !status_running {
        StopPlan::NotRunning
    } else if present {
        StopPlan::KillAndRemove
    } else {
        StopPlan::AlreadyGone
    }
}

/// Decides a stop request, as `stop_plan_spec` describes.
pub fn plan_stop<H>(reg: &Registry<H>, task: &TranscriptionTask, key: &String) -> (r: StopPlan)
    requires
        reg.wf(),
    ensures
        r == stop_plan_spec(task.status@ == "running"@, reg@.contains_key(key@)),
{
    if !model::str_eq(task.status.as_str(), "running") {
        StopPlan::NotRunning
    } else if reg.contains(key) {
        StopPlan::KillAndRemove
    } else {
        StopPlan::AlreadyGone
    }
}

/// A stop request for a job whose registry entry is already absent — the
/// process crashed or exited untracked — is not an error: it is carried out
/// and still reaches the terminal status transition.
pub proof fn lemma_stop_after_crash_not_an_error()
    ensures
        stop_plan_spec(true, false) == StopPlan::AlreadyGone,
        !(stop_plan_spec(true, false) is NotRunning),
{
}

/// Applies a stop request. Refused — with nothing changed — exactly when the
/// recorded status is not `running`. Otherwise the task is marked failed as
/// user-stopped, the key is absent from the registry afterwards, and any
/// handle that was registered is handed back for the caller to kill and await.
pub fn apply_stop<H>(
    reg: &mut Registry<H>,
    task: &mut TranscriptionTask,
    key: &String,
    now: String,
) -> (r: Result<Option<H>, String>)
    requires
        old(reg).wf(),
    ensures
        final(reg).wf(),
        r is Err <==> old(task).status@ != "running"@,
        r matches Err(e) ==> e@ == "the task is not running"@,
        r is Err ==> *final(task) == *old(task) && final(reg)@ == old(reg)@,
        r is Ok ==> {
            &&& final(task).status@ == "failed"@
            &&& final(task).error matches Some(e) && e@ == "task stopped by the user"@
            &&& final(task).completed_at == Some(now)
            &&& final(reg)@ == old(reg)@.remove(key@)
            &&& !final(reg)@.contains_key(key@)
        },
        r matches Ok(h) ==> h == (if old(reg)@.contains_key(key@) {
            Some(old(reg)@[key@])
        } else {
            Option::<H>::None
        }),
{
    if !model::str_eq(task.status.as_str(), "running") {
        return Err(String::from_str("the task is not running"));
    }
    let handle = reg.remove(key);
    model::fail_task(task, String::from_str("task stopped by the user"), now);
    Ok(handle)
}

/// How a finished job is reported.
#[derive(Debug)]
pub enum ExitClass {
    /// The process succeeded and the expected output artifact exists.
    Completed,
    /// The process failed, or it claimed success without producing the
    /// expected artifact; carries the diagnostic text.
    Failed(String),
}

/// The diagnostic for a failed process: its trimmed stderr when any, else its
/// trimmed stdout, else a fixed notice.
pub open spec fn failure_diagnostic(stdout: Seq<char>, stderr: Seq<char>) -> Seq<char> {
    if stderr.len() > 0 {
        strutil::trim_spec(stderr)
    } else if stdout.len() > 0 {
        strutil::trim_spec(stdout)
    } else {
        "the process failed and produced no output"@
    }
}

/// Classifies a finished job. A non-zero exit is a failure carrying
/// `failure_diagnostic`; a zero exit without the expected artifact is also a
/// failure — the exit code alone is not trusted; only a zero exit with the
/// artifact present completes.
pub fn classify_exit(success: bool, artifact_exists: bool, stdout: &str, stderr: &str) -> (r:
    ExitClass)
    ensures
        !success ==> (r matches ExitClass::Failed(e) && e@ == failure_diagnostic(
            stdout@,
            stderr@,
        )),
        success && !artifact_exists ==> (r matches ExitClass::Failed(e) && e@
            == "the process exited successfully but its output file is missing"@),
        success && artifact_exists ==> r is Completed,
{
    if !success {
        let err_chars = strutil::chars_of(stderr);
        let out_chars = strutil::chars_of(stdout);
        if err_chars.len() > 0 {
            let t = strutil::trim_vec(&err_chars);
            ExitClass::Failed(strutil::string_of(&t))
        } else if out_chars.len() > 0 {
            let t = strutil::trim_vec(&out_chars);
            ExitClass::Failed(strutil::string_of(&t))
        } else {
            ExitClass::Failed(String::from_str("the process failed and produced no output"))
        }
    } else if !artifact_exists {
        ExitClass::Failed(
            String::from_str("the process exited successfully but its output file is missing"),
        )
    } else {
        ExitClass::Completed
    }
}

/// The transcript stored with a finished job: the stdout section when any,
/// then the stderr section when any, separated by a blank line.
pub open spec fn merged_log(stdout: Seq<char>, stderr: Seq<char>) -> Seq<char> {
    let out_part: Seq<char> = if stdout.len() > 0 {
        "=== STDOUT ===\n"@ + stdout
    } else {
        Seq::empty()
    };
    if stderr.len() > 0 {
        (if out_part.len() > 0 {
            out_part + "\n"@
        } else {
            out_part
        }) + "=== STDERR ===\n"@ + stderr
    } else {
        out_part
    }
}

/// Merges the two captured streams, as `merged_log` describes.
pub fn merge_log(stdout: &str, stderr: &str) -> (r: String)
    ensures
        r@ == merged_log(stdout@, stderr@),
{
    let mut s = String::new();
    if !stdout.is_empty() {
        s.append("=== STDOUT ===\n");
        s.append(stdout);
    }
    if !stderr.is_empty() {
        if !s.as_str().is_empty() {
            s.append("\n");
        }
        s.append("=== STDERR ===\n");
        s.append(stderr);
    }
    proof {
        assert(s@ =~= merged_log(stdout@, stderr@));
    }
    s
}

/// Where a transcription reads its audio: a video resource must have had its
/// audio extracted first; an audio resource is read directly.
pub fn transcription_input(resource: &TranscriptionResource) -> (r: Result<String, String>)
    ensures
        match resource.resource_type {
            ResourceType::Video => match resource.extracted_audio_path {
                Some(p) => r matches Ok(path) && path == p,
                None => r is Err,
            },
            ResourceType::Audio => r matches Ok(path) && path == resource.file_path,
        },
{
    match resource.resource_type {
        ResourceType::Video => match &resource.extracted_audio_path {
            Some(p) => Ok(p.clone()),
            None => Err(
                String::from_str("the video's audio has not been extracted yet; extract it first"),
            ),
        },
        ResourceType::Audio => Ok(resource.file_path.clone()),
    }
}

/// How a URL resource is transcribed: only via subtitles fetched from a
/// known video site; other URLs are refused, and file resources take the
/// supervised transcription path.
#[derive(Debug, Clone, Copy, PartialEq, Eq, Structural)]
pub enum UrlRoute {
    NotUrl,
    FetchSubtitles,
    UnsupportedUrl,
}

/// A URL resource goes through subtitle fetching when its platform says so,
/// or — with no recorded platform — when the lowercased URL names the site.
pub open spec fn url_route_spec(r: TranscriptionResource) -> UrlRoute {
    if !(r.source_type is Url) {
        UrlRoute::NotUrl
    } else {
        let by_url = strutil::is_substring(strutil::lower_seq(r.file_path@), "youtube.com"@)
            || strutil::is_substring(strutil::lower_seq(r.file_path@), "youtu.be"@);
        let is_site = match r.platform {
            Some(p) => p is Youtube,
            None => by_url,
        };
        if is_site {
            UrlRoute::FetchSubtitles
        } else {
            UrlRoute::UnsupportedUrl
        }
    }
}

/// Routes a resource, as `url_route_spec` describes.
pub fn url_route(resource: &TranscriptionResource) -> (r: UrlRoute)
    ensures
        r == url_route_spec(*resource),
{
    match resource.source_type {
        SourceType::File => UrlRoute::NotUrl,
        SourceType::Url => {
            let is_site = match resource.platform {
                Some(p) => match p {
                    Platform::Youtube => true,
                    _ => false,
                },
                None => {
                    let chars = strutil::chars_of(resource.file_path.as_str());
                    let lower = strutil::to_lower(&chars);
                    let a = strutil::chars_of("youtube.com");
                    let b = strutil::chars_of("youtu.be");
                    strutil::contains_sub(&lower, &a) || strutil::contains_sub(&lower, &b)
                },
            };
            if is_site {
                UrlRoute::FetchSubtitles
            } else {
                UrlRoute::UnsupportedUrl
            }
        },
    }
}

/// What an audio-extraction request does.
#[derive(Debug, Clone, PartialEq, Eq)]
pub enum ExtractionPlan {
    /// The resource is audio: nothing to extract.
    NotVideo,
    /// URL resources take the subtitle path and never extract audio.
    UrlResource,
    /// Extracted audio already exists at this path.
    AlreadyExtracted(String),
    /// An extraction for this resource is already registered.
    InProgress,
    /// Spawn the extraction.
    Spawn,
}

/// Extraction is refused for audio and URL resources; an existing extracted
/// file short-circuits; a registered extraction is joined; otherwise spawn.
pub open spec fn extraction_plan_spec(
    r: TranscriptionResource,
    audio_exists: bool,
    present: bool,
) -> ExtractionPlan {
    if r.resource_type is Audio {
        ExtractionPlan::NotVideo
    } else if r.source_type is Url || model::is_url_spec(r.file_path@) {
        ExtractionPlan::UrlResource
    } else if r.extracted_audio_path is Some && audio_exists {
        ExtractionPlan::AlreadyExtracted(r.extracted_audio_path.unwrap())
    } else if present {
        ExtractionPlan::InProgress
    } else {
        ExtractionPlan::Spawn
    }
}

/// Decides an extraction request, as `extraction_plan_spec` describes;
/// `audio_exists` reports whether the recorded extracted file is on disk and
/// `present` whether the registry already tracks this resource.
pub fn plan_extraction(resource: &TranscriptionResource, audio_exists: bool, present: bool) -> (r:
    ExtractionPlan)
    ensures
        r == extraction_plan_spec(*resource, audio_exists, present),
{
    match resource.resource_type {
        ResourceType::Audio => ExtractionPlan::NotVideo,
        ResourceType::Video => {
            let is_url_resource = match resource.source_type {
                SourceType::Url => true,
                SourceType::File => model::is_url(resource.file_path.as_str()),
            };
            if is_url_resource {
                ExtractionPlan::UrlResource
            } else {
                match &resource.extracted_audio_path {
                    Some(p) if audio_exists => ExtractionPlan::AlreadyExtracted(p.clone()),
                    _ => {
                        if present {
                            ExtractionPlan::InProgress
                        } else {
                            ExtractionPlan::Spawn
                        }
                    },
                }
            }
        },
    }
}

/// The arguments handed to the transcription tool: model file, language,
/// input audio, JSON output, output base path, and the translation switch.
pub fn whisper_args(
    model_path: &str,
    language: &str,
    audio_path: &str,
    output_base: &str,
    translate: bool,
) -> (r: Vec<String>)
    ensures
        r@.len() == (if translate {
            10int
        } else {
            9int
        }),
        r@[0]@ == "-m"@,
        r@[1]@ == model_path@,
        r@[2]@ == "-l"@,
        r@[3]@ == language@,
        r@[4]@ == "-f"@,
        r@[5]@ == audio_path@,
        r@[6]@ == "-oj"@,
        r@[7]@ == "-of"@,
        r@[8]@ == output_base@,
        translate ==> r@[9]@ == "-tr"@,
{
    let mut v: Vec<String> = Vec::new();
    v.push(String::from_str("-m"));
    v.push(String::from_str(model_path));
    v.push(String::from_str("-l"));
    v.push(String::from_str(language));
    v.push(String::from_str("-f"));
    v.push(String::from_str(audio_path));
    v.push(String::from_str("-oj"));
    v.push(String::from_str("-of"));
    v.push(String::from_str(output_base));
    if translate {
        v.push(String::from_str("-tr"));
    }
    v
}

/// The arguments handed to the audio extractor: strip video, encode 16 kHz
/// mono PCM, overwrite the output.
pub fn ffmpeg_extract_args(input: &str, output: &str) -> (r: Vec<String>)
    ensures
        r@.len() == 11,
        r@[0]@ == "-i"@,
        r@[1]@ == input@,
        r@[2]@ == "-vn"@,
        r@[3]@ == "-acodec"@,
        r@[4]@ == "pcm_s16le"@,
        r@[5]@ == "-ar"@,
        r@[6]@ == "16000"@,
        r@[7]@ == "-ac"@,
        r@[8]@ == "1"@,
        r@[9]@ == "-y"@,
        r@[10]@ == output@,
{
    let mut v: Vec<String> = Vec::new();
    v.push(String::from_str("-i"));
    v.push(String::from_str(input));
    v.push(String::from_str("-vn"));
    v.push(String::from_str("-acodec"));
    v.push(String::from_str("pcm_s16le"));
    v.push(String::from_str("-ar"));
    v.push(String::from_str("16000"));
    v.push(String::from_str("-ac"));
    v.push(String::from_str("1"));
    v.push(String::from_str("-y"));
    v.push(String::from_str(output));
    v
}

/// The arguments handed to the subtitle fetcher: skip the video itself,
/// take all subtitles converted to SRT, and write to the given output path.
pub fn ytdlp_subtitle_args(output: &str, url: &str) -> (r: Vec<String>)
    ensures
        r@.len() == 8,
        r@[0]@ == "--skip-download"@,
        r@[1]@ == "--write-auto-sub"@,
        r@[2]@ == "--all-subs"@,
        r@[3]@ == "--convert-subs"@,
        r@[4]@ == "srt"@,
        r@[5]@ == "-o"@,
        r@[6]@ == output@,
        r@[7]@ == url@,
{
    let mut v: Vec<String> = Vec::new();
    v.push(String::from_str("--skip-download"));
    v.push(String::from_str("--write-auto-sub"));
    v.push(String::from_str("--all-subs"));
    v.push(String::from_str("--convert-subs"));
    v.push(String::from_str("srt"));
    v.push(String::from_str("-o"));
    v.push(String::from_str(output));
    v.push(String::from_str(url));
    v
}

/// Whether a file in the subtitle directory belongs to this fetch: it starts
/// with the fetch's id and names a subtitle format (the fetcher may add
/// language tags and change the extension).
pub open spec fn subtitle_candidate_spec(file_name: Seq<char>, subtitle_id: Seq<char>) -> bool {
    strutil::is_prefix(file_name, subtitle_id) && (strutil::is_substring(
        strutil::lower_seq(file_name),
        ".srt"@,
    ) || strutil::is_substring(strutil::lower_seq(file_name), ".vtt"@))
}

/// Recognizes this fetch's subtitle files, as `subtitle_candidate_spec`
/// describes.
pub fn subtitle_candidate(file_name: &str, subtitle_id: &str) -> (r: bool)
    ensures
        r == subtitle_candidate_spec(file_name@, subtitle_id@),
{
    let name = strutil::chars_of(file_name);
    let id = strutil::chars_of(subtitle_id);
    if !strutil::starts_with(&name, &id) {
        return false;
    }
    let lower = strutil::to_lower(&name);
    let srt = strutil::chars_of(".srt");
    let vtt = strutil::chars_of(".vtt");
    strutil::contains_sub(&lower, &srt) || strutil::contains_sub(&lower, &vtt)
}

/// Whether a subtitle file is in VTT form, judged by its lowercased name.
pub fn is_vtt_name(file_name: &str) -> (r: bool)
    ensures
        r == strutil::is_substring(strutil::lower_seq(file_name@), ".vtt"@),
{
    let name = strutil::chars_of(file_name);
    let lower = strutil::to_lower(&name);
    let vtt = strutil::chars_of(".vtt");
    strutil::contains_sub(&lower, &vtt)
}

/// Settles a subtitle fetch. Filesystem evidence outranks the exit code: a
/// found subtitle file succeeds whatever the tool reported; with none found,
/// a failing exit is an error carrying both captured streams, and a
/// successful exit falls back to the expected output path.
pub fn resolve_fetch_outcome(
    success: bool,
    found: Option<String>,
    expected: String,
    stdout: &str,
    stderr: &str,
) -> (r: Result<String, String>)
    ensures
        match found {
            Some(f) => r matches Ok(p) && p == f,
            None => if success {
                r matches Ok(p) && p == expected
            } else {
                r matches Err(e) && e@ == "subtitle fetch failed and no subtitle file was found: "@
                    + stderr@ + "\n"@ + stdout@
            },
        },
{
    match found {
        Some(f) => Ok(f),
        None => {
            if success {
                Ok(expected)
            } else {
                let mut e = String::from_str(
                    "subtitle fetch failed and no subtitle file was found: ",
                );
                e.append(stderr);
                e.append("\n");
                e.append(stdout);
                proof {
                    assert(e@ =~= "subtitle fetch failed and no subtitle file was found: "@
                        + stderr@ + "\n"@ + stdout@);
                }
                Err(e)
            }
        },
    }
}

/// The output artifact of a transcription task: `<task_id>.json`.
pub fn task_output_file_name(task_id: &str) -> (r: String)
    ensures
        r@ == task_id@ + ".json"@,
{
    let mut s = String::from_str(task_id);
    s.append(".json");
    s
}

/// The output artifact of an audio extraction: `<resource_id>.wav`.
pub fn extraction_output_file_name(resource_id: &str) -> (r: String)
    ensures
        r@ == resource_id@ + ".wav"@,
{
    let mut s = String::from_str(resource_id);
    s.append(".wav");
    s
}

} // verus!
