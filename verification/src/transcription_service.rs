//! Speech-to-text backends behind one interface, and the two ways the app
//! combines them: a cascade of tiers tried in order, and a primary service
//! retried a few times before an optional fallback.

use crate::models::Language;
use crate::text::{push_str, replace_all, replace_str, same_text, trim, trimmed};
use vstd::prelude::*;

verus! {

broadcast use vstd::string::group_string_axioms;

/// Abstracts any speech-to-text backend (server or local).
pub trait TranscriptionService: Send + Sync {
    /// Whether `r` is an answer this service gives when asked to transcribe
    /// `file_path` in `language` (`None` for auto-detect). A service that
    /// does not define it promises nothing of its answers; code that holds
    /// some service learns of its answers only through this relation.
    closed spec fn answers(
        &self,
        file_path: Seq<char>,
        language: Option<Seq<char>>,
        r: Result<Seq<char>, Seq<char>>,
    ) -> bool {
        true
    }

    /// Transcribe an audio file.
    /// - `file_path`: path to the WAV file.
    /// - `language_code`: BCP-47 code (e.g. "ru", "en") or `None` for auto-detect.
    fn transcribe(&self, file_path: &str, language_code: Option<&str>) -> (r: Result<
        String,
        String,
    >)
        ensures
            self.answers(file_path@, language_view(language_code), outcome(r)),
    ;
}

/// A language code, as text.
pub open spec fn language_view(language_code: Option<&str>) -> Option<Seq<char>> {
    match language_code {
        Some(l) => Some(l@),
        None => None,
    }
}

/// A transcription answer, as text.
pub open spec fn outcome(r: Result<String, String>) -> Result<Seq<char>, Seq<char>> {
    match r {
        Ok(t) => Ok(t@),
        Err(e) => Err(e@),
    }
}

/// `e`, or `default` where `e` is empty.
pub open spec fn or_default(e: Seq<char>, default: Seq<char>) -> Seq<char> {
    if e.len() == 0 {
        default
    } else {
        e
    }
}

// ---------------------------------------------------------------------------
// Cascade
// ---------------------------------------------------------------------------

/// Whether a tier's answer ends the cascade: any success, except an empty
/// one when empty answers do not stop it.
pub open spec fn stops(o: Result<Seq<char>, Seq<char>>, stop_on_empty: bool) -> bool {
    match o {
        Ok(t) => stop_on_empty || t.len() > 0,
        Err(_) => false,
    }
}

/// The error a tier leaves behind when the cascade goes on past it.
pub open spec fn tier_error(o: Result<Seq<char>, Seq<char>>) -> Seq<char> {
    match o {
        Ok(_) => "empty result"@,
        Err(e) => e,
    }
}

/// `r` is what a cascade of `n` tiers answers when the tiers it called
/// answered `outs`, in order: every tier but the last one called went on, and
/// either the last one stopped the cascade with its answer, or every tier was
/// called and the error of the last one is returned.
pub open spec fn cascade_answer(
    outs: Seq<Result<Seq<char>, Seq<char>>>,
    n: nat,
    stop_on_empty: bool,
    r: Result<Seq<char>, Seq<char>>,
) -> bool {
    &&& 1 <= outs.len() <= n
    &&& forall|i: int| 0 <= i < outs.len() - 1 ==> !stops(#[trigger] outs[i], stop_on_empty)
    &&& if stops(outs.last(), stop_on_empty) {
        r == outs.last()
    } else {
        &&& outs.len() == n
        &&& r == Err::<Seq<char>, Seq<char>>(
            or_default(tier_error(outs.last()), "All transcription tiers failed"@),
        )
    }
}

/// The tiers called answered `outs`, each asked for `file_path` in
/// `language`, in the order of the cascade.
pub open spec fn tiers_answered(
    tiers: Seq<Box<dyn TranscriptionService>>,
    file_path: Seq<char>,
    language: Option<Seq<char>>,
    outs: Seq<Result<Seq<char>, Seq<char>>>,
) -> bool {
    &&& outs.len() <= tiers.len()
    &&& forall|i: int|
        0 <= i < outs.len() ==> (#[trigger] tiers[i]).answers(file_path, language, outs[i])
}

/// What the cascade does with one tier's answer.
pub enum CascadeStep {
    /// Return this answer.
    Stop(Result<String, String>),
    /// Go on to the next tier, remembering this error.
    Continue(String),
}

/// Decides what one tier's answer does to the cascade.
pub fn cascade_step(answer: Result<String, String>, stop_on_empty: bool) -> (r: CascadeStep)
    ensures
        match r {
            CascadeStep::Stop(a) => stops(outcome(answer), stop_on_empty) && outcome(a) == outcome(
                answer,
            ),
            CascadeStep::Continue(e) => !stops(outcome(answer), stop_on_empty) && e@ == tier_error(
                outcome(answer),
            ),
        },
{
    match answer {
        Ok(text) => {
            if text.as_str().is_empty() && !stop_on_empty {
                CascadeStep::Continue("empty result".to_string())
            } else {
                CascadeStep::Stop(Ok(text))
            }
        },
        Err(e) => CascadeStep::Continue(e),
    }
}

/// The error returned when every tier failed, given the last tier's error.
pub fn cascade_failure(last_error: String) -> (r: String)
    ensures
        r@ == or_default(last_error@, "All transcription tiers failed"@),
{
    if last_error.as_str().is_empty() {
        "All transcription tiers failed".to_string()
    } else {
        last_error
    }
}

/// Cascades through an ordered list of transcription services.
/// Tries each tier in order; returns `Ok` on the first success, or the last
/// error if every tier fails. By default, an empty `Ok("")` from any tier also
/// stops the cascade (silence is silence). Set `stop_on_empty` to `false` to
/// keep trying after an empty result.
pub struct CascadeTranscriber {
    tiers: Vec<Box<dyn TranscriptionService>>,
    stop_on_empty: bool,
}

impl CascadeTranscriber {
    /// The tiers, in the order they are tried.
    pub closed spec fn tiers(&self) -> Seq<Box<dyn TranscriptionService>> {
        self.tiers@
    }

    /// Whether an empty answer stops the cascade.
    pub closed spec fn stops_on_empty(&self) -> bool {
        self.stop_on_empty
    }

    /// Create a new cascade. By default, empty results stop the cascade.
    pub fn new(tiers: Vec<Box<dyn TranscriptionService>>) -> (r: Self)
        ensures
            r.tiers() == tiers@,
            r.stops_on_empty(),
    {
        CascadeTranscriber { tiers, stop_on_empty: true }
    }

    /// Builder-style setter for `stop_on_empty`.
    pub fn with_stop_on_empty(self, stop_on_empty: bool) -> (r: Self)
        ensures
            r.tiers() == self.tiers(),
            r.stops_on_empty() == stop_on_empty,
    {
        CascadeTranscriber { tiers: self.tiers, stop_on_empty }
    }

    /// Number of tiers in the cascade.
    pub fn len(&self) -> (r: usize)
        ensures
            r == self.tiers().len(),
    {
        self.tiers.len()
    }

    /// Is the cascade empty?
    pub fn is_empty(&self) -> (r: bool)
        ensures
            r == (self.tiers().len() == 0),
    {
        self.tiers.len() == 0
    }

    /// Try each tier in order. Returns the first `Ok` (an empty one only when
    /// `stop_on_empty` holds), or the last error if all fail.
    pub fn transcribe(&self, file_path: &str, language_code: Option<&str>) -> (r: Result<
        String,
        String,
    >)
        ensures
            self.tiers().len() == 0 ==> outcome(r) == Err::<Seq<char>, Seq<char>>(
                "no transcription tiers configured"@,
            ),
            self.tiers().len() > 0 ==> exists|outs: Seq<Result<Seq<char>, Seq<char>>>|
                tiers_answered(self.tiers(), file_path@, language_view(language_code), outs)
                    && cascade_answer(outs, self.tiers().len(), self.stops_on_empty(), outcome(r)),
    {
        if self.tiers.len() == 0 {
            return Err("no transcription tiers configured".to_string());
        }
        let n: usize = self.tiers.len();
        let mut last_error = String::new();
        let ghost mut outs: Seq<Result<Seq<char>, Seq<char>>> = Seq::empty();
        let mut idx: usize = 0;
        while idx < n
            invariant
                n == self.tiers@.len(),
                n > 0,
                idx <= n,
                outs.len() == idx,
                tiers_answered(self.tiers@, file_path@, language_view(language_code), outs),
                forall|i: int| 0 <= i < idx ==> !stops(#[trigger] outs[i], self.stop_on_empty),
                idx > 0 ==> last_error@ == tier_error(outs.last()),
            decreases n - idx,
        {
            let answer = self.tiers[idx].transcribe(file_path, language_code);
            let ghost o = outcome(answer);
            match cascade_step(answer, self.stop_on_empty) {
                CascadeStep::Stop(a) => {
                    proof {
                        let full = outs.push(o);
                        assert(full.last() == o);
                        assert(forall|i: int|
                            0 <= i < full.len() - 1 ==> #[trigger] full[i] == outs[i]);
                        assert(cascade_answer(
                            full,
                            self.tiers().len(),
                            self.stops_on_empty(),
                            outcome(a),
                        ));
                        assert(tiers_answered(
                            self.tiers(),
                            file_path@,
                            language_view(language_code),
                            full,
                        ));
                    }
                    return a;
                },
                CascadeStep::Continue(e) => {
                    last_error = e;
                    proof {
                        let prev = outs;
                        outs = outs.push(o);
                        assert(forall|i: int| 0 <= i < idx ==> #[trigger] outs[i] == prev[i]);
                    }
                },
            }
            idx = idx + 1;
        }
        let r = cascade_failure(last_error);
        proof {
            assert(cascade_answer(
                outs,
                self.tiers().len(),
                self.stops_on_empty(),
                outcome(Err(r)),
            ));
            assert(tiers_answered(self.tiers(), file_path@, language_view(language_code), outs));
        }
        Err(r)
    }
}

// ---------------------------------------------------------------------------
// Retry with fallback
// ---------------------------------------------------------------------------

/// `r` is what a retrying transcriber with `max` attempts answers when its
/// primary service answered `primary`, in order, and its fallback answered
/// `fallback` (`None` where the fallback was not called): the primary is
/// called until it succeeds or `max` attempts have failed; only then is the
/// fallback, where there is one, called once. When everything fails, the last
/// primary error is returned.
pub open spec fn retry_answer(
    primary: Seq<Result<Seq<char>, Seq<char>>>,
    max: nat,
    has_fallback: bool,
    fallback: Option<Result<Seq<char>, Seq<char>>>,
    r: Result<Seq<char>, Seq<char>>,
) -> bool {
    &&& 1 <= primary.len() <= max
    &&& forall|i: int| 0 <= i < primary.len() - 1 ==> (#[trigger] primary[i]) is Err
    &&& match primary.last() {
        Ok(t) => fallback is None && r == Ok::<Seq<char>, Seq<char>>(t),
        Err(e) => {
            &&& primary.len() == max
            &&& (fallback is Some <==> has_fallback)
            &&& match fallback {
                Some(Ok(t)) => r == Ok::<Seq<char>, Seq<char>>(t),
                _ => r == Err::<Seq<char>, Seq<char>>(
                    or_default(e, "All transcription attempts failed"@),
                ),
            }
        },
    }
}

/// Orchestrates transcription with automatic retries and an optional fallback.
pub struct RetryTranscriber {
    /// Always `Some` (see the type invariant): the slot is filled once, by
    /// `new`, and keeps the service as it was handed over.
    primary: Option<Box<dyn TranscriptionService>>,
    fallback: Option<Box<dyn TranscriptionService>>,
    max_attempts: usize,
}

impl RetryTranscriber {
    #[verifier::type_invariant]
    spec fn tries_at_least_once(&self) -> bool {
        self.max_attempts >= 1 && self.primary is Some
    }

    /// How many times the primary service is tried.
    pub closed spec fn attempts(&self) -> nat {
        self.max_attempts as nat
    }

    /// Whether a fallback service is configured.
    pub closed spec fn has_fallback(&self) -> bool {
        self.fallback is Some
    }

    /// Whether `r` is an answer the primary service gives when asked for
    /// `file_path` in `language`.
    pub closed spec fn primary_answers(
        &self,
        file_path: Seq<char>,
        language: Option<Seq<char>>,
        r: Result<Seq<char>, Seq<char>>,
    ) -> bool {
        match self.primary {
            Some(p) => p.answers(file_path, language, r),
            None => false,
        }
    }

    /// The service tried once after every attempt of the primary failed.
    pub closed spec fn fallback_service(&self) -> Option<Box<dyn TranscriptionService>> {
        self.fallback
    }

    /// Every answer in `primary` is one the primary service gives when asked
    /// for `file_path` in `language`, and so is the fallback's answer, where
    /// it was asked.
    pub open spec fn answered(
        &self,
        file_path: Seq<char>,
        language: Option<Seq<char>>,
        primary: Seq<Result<Seq<char>, Seq<char>>>,
        fallback: Option<Result<Seq<char>, Seq<char>>>,
    ) -> bool {
        &&& forall|i: int|
            0 <= i < primary.len() ==> self.primary_answers(file_path, language, #[trigger] primary[i])
        &&& match fallback {
            Some(o) => self.fallback_service() matches Some(f) && f.answers(file_path, language, o),
            None => true,
        }
    }

    /// The primary service is tried `max(max_attempts, 1)` times.
    pub fn new(
        primary: Box<dyn TranscriptionService>,
        fallback: Option<Box<dyn TranscriptionService>>,
        max_attempts: usize,
    ) -> (r: Self)
        ensures
            r.attempts() == if max_attempts == 0 {
                1
            } else {
                max_attempts as nat
            },
            r.has_fallback() == fallback is Some,
            forall|f: Seq<char>, l: Option<Seq<char>>, o: Result<Seq<char>, Seq<char>>|
                #[trigger] r.primary_answers(f, l, o) == primary.answers(f, l, o),
            r.fallback_service() == fallback,
    {
        let max_attempts: usize = if max_attempts == 0 {
            1
        } else {
            max_attempts
        };
        let slot = Some(primary);
        RetryTranscriber { primary: slot, fallback, max_attempts }
    }

    /// Attempt transcription up to `max_attempts` times with the primary
    /// service. If all attempts fail and a fallback is configured, try the
    /// fallback once. Returns the last primary error if everything fails.
    pub fn transcribe(&self, file_path: &str, language_code: Option<&str>) -> (r: Result<
        String,
        String,
    >)
        ensures
            self.attempts() >= 1,
            exists|
                primary: Seq<Result<Seq<char>, Seq<char>>>,
                fallback: Option<Result<Seq<char>, Seq<char>>>,
            |
                {
                    &&& retry_answer(
                        primary,
                        self.attempts(),
                        self.has_fallback(),
                        fallback,
                        outcome(r),
                    )
                    &&& self.answered(file_path@, language_view(language_code), primary, fallback)
                },
    {
        proof {
            use_type_invariant(self);
        }
        let max: usize = self.max_attempts;
        let primary = self.primary.as_ref().unwrap();
        let mut last_error = String::new();
        let ghost mut tried: Seq<Result<Seq<char>, Seq<char>>> = Seq::empty();
        let mut attempt: usize = 0;
        while attempt < max
            invariant
                max == self.max_attempts,
                max >= 1,
                attempt <= max,
                tried.len() == attempt,
                forall|i: int| 0 <= i < attempt ==> (#[trigger] tried[i]) is Err,
                self.primary == Some(*primary),
                self.answered(file_path@, language_view(language_code), tried, None),
                attempt > 0 ==> tried.last() == Err::<Seq<char>, Seq<char>>(last_error@),
            decreases max - attempt,
        {
            let answer = primary.transcribe(file_path, language_code);
            let ghost o = outcome(answer);
            let ghost full = tried.push(o);
            proof {
                assert(forall|i: int| 0 <= i < full.len() - 1 ==> #[trigger] full[i] == tried[i]);
                assert(full[full.len() - 1] == o);
                assert forall|i: int| 0 <= i < full.len() implies self.primary_answers(
                    file_path@,
                    language_view(language_code),
                    #[trigger] full[i],
                ) by {
                    if i < full.len() - 1 {
                        assert(full[i] == tried[i]);
                    }
                }
                assert(self.answered(file_path@, language_view(language_code), full, None));
            }
            match answer {
                Ok(text) => {
                    proof {
                        assert(retry_answer(
                            full,
                            self.attempts(),
                            self.has_fallback(),
                            None,
                            outcome(Ok(text)),
                        ));
                    }
                    return Ok(text);
                },
                Err(e) => {
                    proof {
                        tried = full;
                    }
                    last_error = e;
                },
            }
            attempt = attempt + 1;
        }
        let ghost mut fb: Option<Result<Seq<char>, Seq<char>>> = None;
        match &self.fallback {
            Some(fallback) => {
                let answer = fallback.transcribe(file_path, language_code);
                proof {
                    fb = Some(outcome(answer));
                    assert(self.answered(file_path@, language_view(language_code), tried, fb));
                }
                if let Ok(text) = answer {
                    proof {
                        assert(retry_answer(
                            tried,
                            self.attempts(),
                            self.has_fallback(),
                            fb,
                            outcome(Ok(text)),
                        ));
                    }
                    return Ok(text);
                }
            },
            None => {},
        }
        let r = if last_error.as_str().is_empty() {
            "All transcription attempts failed".to_string()
        } else {
            last_error
        };
        proof {
            assert(retry_answer(tried, self.attempts(), self.has_fallback(), fb, outcome(Err(r))));
            assert(self.answered(file_path@, language_view(language_code), tried, fb));
        }
        Err(r)
    }
}

// ---------------------------------------------------------------------------
// Server requests
// ---------------------------------------------------------------------------

/// The language a server request is made in: the caller's code where it is
/// "ru" or "en", the configured language otherwise.
pub open spec fn request_language_spec(code: Option<Seq<char>>, configured: Language) -> Language {
    match code {
        Some(c) => if c == "ru"@ {
            Language::Ru
        } else if c == "en"@ {
            Language::En
        } else {
            configured
        },
        None => configured,
    }
}

/// Picks the language of a server transcription request from the caller's
/// language code and the service's configured language.
pub fn request_language(language_code: Option<&str>, configured: Language) -> (r: Language)
    ensures
        r == request_language_spec(
            match language_code {
                Some(c) => Some(c@),
                None => None,
            },
            configured,
        ),
{
    match language_code {
        Some(code) => {
            if same_text(code, "ru") {
                Language::Ru
            } else if same_text(code, "en") {
                Language::En
            } else {
                configured
            }
        },
        None => configured,
    }
}

/// Adapter that sends transcriptions to a Whisper-compatible server. It
/// holds what a request is made of; the request is sent by the application.
pub struct ServerTranscriptionService {
    transcriber: crate::remote::Transcriber,
    base_url: String,
    api_key: String,
    language: Language,
    model: Option<String>,
}

/// One transcription request: where it goes, its optional form fields and
/// its optional `Authorization` header. The audio file is sent as the
/// `file` part and `response_format` is `json`.
#[derive(Debug, Clone, PartialEq, Eq)]
pub struct ServerRequest {
    pub url: String,
    pub language: Option<String>,
    pub model: Option<String>,
    pub authorization: Option<String>,
}

impl ServerTranscriptionService {
    pub closed spec fn base_url(&self) -> Seq<char> {
        self.base_url@
    }

    pub closed spec fn api_key(&self) -> Seq<char> {
        self.api_key@
    }

    pub closed spec fn language(&self) -> Language {
        self.language
    }

    pub closed spec fn model(&self) -> Option<Seq<char>> {
        match self.model {
            Some(m) => Some(m@),
            None => None,
        }
    }

    /// A service for the given (effective) endpoint and key, language and
    /// model.
    pub fn new(
        transcriber: crate::remote::Transcriber,
        base_url: &str,
        api_key: &str,
        language: Language,
        model: Option<&str>,
    ) -> (r: Self)
        ensures
            r.base_url() == base_url@,
            r.api_key() == api_key@,
            r.language() == language,
            r.model() == match model {
                Some(m) => Some(m@),
                None => None,
            },
    {
        ServerTranscriptionService {
            transcriber,
            base_url: base_url.to_string(),
            api_key: api_key.to_string(),
            language,
            model: match model {
                Some(m) => Some(m.to_string()),
                None => None,
            },
        }
    }

    /// The request for one transcription in the caller's language (see
    /// `request_language`).
    pub fn request(&self, language_code: Option<&str>) -> (r: ServerRequest)
        ensures
            r.url@ == crate::settings::without_trailing_slashes(self.base_url())
                + "/audio/transcriptions"@,
            match crate::models::api_value_spec(
                request_language_spec(
                    match language_code {
                        Some(c) => Some(c@),
                        None => None,
                    },
                    self.language(),
                ),
            ) {
                Some(v) => r.language matches Some(l) && l@ == v,
                None => r.language is None,
            },
            match self.model() {
                Some(m) => if m.len() > 0 && m != "auto"@ {
                    r.model matches Some(f) && f@ == m
                } else {
                    r.model is None
                },
                None => r.model is None,
            },
            self.api_key().len() == 0 ==> r.authorization is None,
            self.api_key().len() > 0 ==> (r.authorization matches Some(h) && h@ == "Bearer "@
                + self.api_key()),
    {
        let url = crate::remote::endpoint_url(self.base_url.as_str(), "/audio/transcriptions");
        let lang = request_language(language_code, self.language);
        let language = match lang.api_value() {
            Some(v) => Some(v.to_string()),
            None => None,
        };
        let model = match &self.model {
            Some(m) => crate::remote::model_field(Some(m.as_str())),
            None => None,
        };
        let authorization = crate::remote::authorization(self.api_key.as_str());
        ServerRequest { url, language, model, authorization }
    }
}

// ---------------------------------------------------------------------------
// Local command provider
// ---------------------------------------------------------------------------

/// How paths are quoted for the shell that runs the command.
#[derive(Debug, Clone, Copy, PartialEq, Eq, Structural)]
pub enum ShellQuoting {
    /// `sh -c`: single quotes, with `'` written as `'\''`.
    Posix,
    /// `cmd /C`: double quotes, with `"` written as `\"`.
    Windows,
}

/// `value` quoted as one shell word.
pub open spec fn quoted(value: Seq<char>, quoting: ShellQuoting) -> Seq<char> {
    match quoting {
        ShellQuoting::Posix => "'"@ + replace_all(value, "'"@, "'\\''"@) + "'"@,
        ShellQuoting::Windows => "\""@ + replace_all(value, "\""@, "\\\""@) + "\""@,
    }
}

/// The command line: the template with `{input_path}`, `{output_path}`,
/// `{model_dir}`, `{model_path}` and `{language}` replaced, in that order.
/// Paths are quoted; a missing model directory is the empty string and a
/// missing language is "auto".
pub open spec fn rendered_command(
    template: Seq<char>,
    input: Seq<char>,
    output: Seq<char>,
    model_dir: Option<Seq<char>>,
    language: Option<Seq<char>>,
    quoting: ShellQuoting,
) -> Seq<char> {
    let dir = match model_dir {
        Some(d) => quoted(d, quoting),
        None => Seq::empty(),
    };
    let s1 = replace_all(template, "{input_path}"@, quoted(input, quoting));
    let s2 = replace_all(s1, "{output_path}"@, quoted(output, quoting));
    let s3 = replace_all(s2, "{model_dir}"@, dir);
    let s4 = replace_all(s3, "{model_path}"@, dir);
    replace_all(
        s4,
        "{language}"@,
        match language {
            Some(l) => l,
            None => "auto"@,
        },
    )
}

/// `value` as one shell word.
pub fn shell_quote(value: &str, quoting: ShellQuoting) -> (r: String)
    ensures
        r@ == quoted(value@, quoting),
{
    let (mark, pat, rep) = match quoting {
        ShellQuoting::Posix => ("'", "'", "'\\''"),
        ShellQuoting::Windows => ("\"", "\"", "\\\""),
    };
    proof {
        reveal_strlit("'");
        reveal_strlit("\"");
    }
    let inner = replace_str(value, pat, rep);
    let mut r = String::new();
    push_str(&mut r, mark);
    push_str(&mut r, inner.as_str());
    push_str(&mut r, mark);
    proof {
        assert(r@ =~= quoted(value@, quoting));
    }
    r
}

/// What running the command produced.
pub enum CommandRun {
    /// The command could not be started; the reason.
    NotStarted(String),
    /// The command ran. `stdout` is `None` where it was not UTF-8; `stderr`
    /// is decoded lossily; `status` is the exit status as text.
    Finished { succeeded: bool, status: String, stdout: Option<String>, stderr: String },
}

/// What the command provider answers after `run`, where `output_file` is
/// the text of the output file when it could be read.
pub open spec fn command_answer(run: CommandRun, output_file: Option<Seq<char>>) -> Result<
    Seq<char>,
    Seq<char>,
> {
    match run {
        CommandRun::NotStarted(e) => Err("failed to start local STT command: "@ + e@),
        CommandRun::Finished { succeeded, status, stdout, stderr } => {
            let text = trim(
                match output_file {
                    Some(f) => f,
                    None => match stdout {
                        Some(o) => o@,
                        None => Seq::empty(),
                    },
                },
            );
            if !succeeded {
                let details = trim(stderr@);
                if details.len() == 0 {
                    Err("local STT command exited with "@ + status@)
                } else {
                    Err("local STT command failed: "@ + details)
                }
            } else if text.len() == 0 {
                Err("local STT command returned empty result"@)
            } else {
                Ok(text)
            }
        },
    }
}

/// Turns what the command did into the provider's answer: the trimmed text
/// of the output file, or of standard output where there is no file.
pub fn command_result(run: CommandRun, output_file: Option<String>) -> (r: Result<String, String>)
    ensures
        outcome(r) == command_answer(
            run,
            match output_file {
                Some(f) => Some(f@),
                None => None,
            },
        ),
{
    match run {
        CommandRun::NotStarted(e) => {
            let mut m = "failed to start local STT command: ".to_string();
            push_str(&mut m, e.as_str());
            Err(m)
        },
        CommandRun::Finished { succeeded, status, stdout, stderr } => {
            let raw: String = match output_file {
                Some(f) => f,
                None => match stdout {
                    Some(o) => o,
                    None => String::new(),
                },
            };
            let text = trimmed(raw.as_str());
            if !succeeded {
                let details = trimmed(stderr.as_str());
                if details.as_str().is_empty() {
                    let mut m = "local STT command exited with ".to_string();
                    push_str(&mut m, status.as_str());
                    Err(m)
                } else {
                    let mut m = "local STT command failed: ".to_string();
                    push_str(&mut m, details.as_str());
                    Err(m)
                }
            } else if text.as_str().is_empty() {
                Err("local STT command returned empty result".to_string())
            } else {
                Ok(text)
            }
        },
    }
}

/// Runs a local STT command with `{input_path}`, `{output_path}` and
/// `{language}` placeholders. The command may write plain text to
/// `output_path`; standard output is accepted as a fallback so simple CLI
/// tools work too.
pub struct CommandTranscriptionService {
    command_template: String,
    model_dir: Option<String>,
}

impl CommandTranscriptionService {
    /// The command template.
    pub closed spec fn template(&self) -> Seq<char> {
        self.command_template@
    }

    /// The model directory, where one is set.
    pub closed spec fn model_dir(&self) -> Option<Seq<char>> {
        match self.model_dir {
            Some(d) => Some(d@),
            None => None,
        }
    }

    pub fn new(command_template: &str) -> (r: Self)
        ensures
            r.template() == command_template@,
            r.model_dir() is None,
    {
        CommandTranscriptionService { command_template: command_template.to_string(), model_dir: None }
    }

    pub fn with_model_dir(self, model_dir: &str) -> (r: Self)
        ensures
            r.template() == self.template(),
            r.model_dir() == Some(model_dir@),
    {
        CommandTranscriptionService {
            command_template: self.command_template,
            model_dir: Some(model_dir.to_string()),
        }
    }

    /// Whether a command is configured at all (the template is not blank).
    pub fn is_configured(&self) -> (r: bool)
        ensures
            r == (trim(self.template()).len() > 0),
    {
        let t = trimmed(self.command_template.as_str());
        !t.as_str().is_empty()
    }

    /// The error answered when no command is configured.
    pub fn not_configured_error() -> (r: String)
        ensures
            r@ == "local command provider is not configured"@,
    {
        "local command provider is not configured".to_string()
    }

    /// The command line for one call, with paths quoted as `quoting` asks.
    pub fn render_command_with(
        &self,
        quoting: ShellQuoting,
        input_path: &str,
        output_path: &str,
        language_code: Option<&str>,
    ) -> (r: String)
        ensures
            r@ == rendered_command(
                self.template(),
                input_path@,
                output_path@,
                self.model_dir(),
                match language_code {
                    Some(l) => Some(l@),
                    None => None,
                },
                quoting,
            ),
    {
        proof {
            reveal_strlit("{input_path}");
            reveal_strlit("{output_path}");
            reveal_strlit("{model_dir}");
            reveal_strlit("{model_path}");
            reveal_strlit("{language}");
        }
        let input = shell_quote(input_path, quoting);
        let output = shell_quote(output_path, quoting);
        let dir: String = match &self.model_dir {
            Some(d) => shell_quote(d.as_str(), quoting),
            None => String::new(),
        };
        let language: &str = match language_code {
            Some(l) => l,
            None => "auto",
        };
        let s1 = replace_str(self.command_template.as_str(), "{input_path}", input.as_str());
        let s2 = replace_str(s1.as_str(), "{output_path}", output.as_str());
        let s3 = replace_str(s2.as_str(), "{model_dir}", dir.as_str());
        let s4 = replace_str(s3.as_str(), "{model_path}", dir.as_str());
        replace_str(s4.as_str(), "{language}", language)
    }

    /// The command line for `sh -c`.
    pub fn render_command(&self, input_path: &str, output_path: &str, language_code: Option<&str>) -> (r:
        String)
        ensures
            r@ == rendered_command(
                self.template(),
                input_path@,
                output_path@,
                self.model_dir(),
                match language_code {
                    Some(l) => Some(l@),
                    None => None,
                },
                ShellQuoting::Posix,
            ),
    {
        self.render_command_with(ShellQuoting::Posix, input_path, output_path, language_code)
    }
}

} // verus!
