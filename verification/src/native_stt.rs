//! Apple Speech backend: a helper binary is spawned per dictation and
//! answers with one JSON line. What is decided here is which helper and
//! locale a call uses, and what the helper's output means.

use crate::text::{chars_of, push_str, string_of_range, trim, trimmed};
use vstd::prelude::*;

verus! {

broadcast use vstd::string::group_string_axioms;

/// How `{:?}` writes a string (quoted, with escapes).
pub uninterp spec fn debug_text(s: Seq<char>) -> Seq<char>;

/// What `serde_json` reads from a line: `Err` with the parser's message
/// where the line is not JSON, otherwise the string held under the key
/// `"text"` of the top-level object, if there is one.
pub uninterp spec fn json_text_field(line: Seq<char>) -> Result<Option<Seq<char>>, Seq<char>>;

/// Formats `s` with `{:?}`; the result depends on `s` alone and is only
/// named here.
#[verifier::external_body]
fn debug_quoted(s: &str) -> (r: String)
    ensures
        r@ == debug_text(s@),
{
    format!("{:?}", s)
}

/// Calls `serde_json::from_str::<serde_json::Value>` on `line`, then takes
/// the value under `"text"` (`Value::get`) where it is a JSON string. The
/// result is a function of `line` alone and is only named here.
#[verifier::external_body]
pub(crate) fn read_json_text(line: &str) -> (r: Result<Option<String>, String>)
    ensures
        match r {
            Ok(Some(t)) => json_text_field(line@) == Ok::<Option<Seq<char>>, Seq<char>>(Some(t@)),
            Ok(None) => json_text_field(line@) == Ok::<Option<Seq<char>>, Seq<char>>(None),
            Err(e) => json_text_field(line@) == Err::<Option<Seq<char>>, Seq<char>>(e@),
        },
{
    match serde_json::from_str::<serde_json::Value>(line) {
        Ok(value) => match value.get("text") {
            Some(serde_json::Value::String(t)) => Ok(Some(t.clone())),
            _ => Ok(None),
        },
        Err(e) => Err(e.to_string()),
    }
}

/// Wrapper that exposes Apple's speech recognizer as a transcription tier.
/// The recognition itself is done by a helper binary spawned per call.
pub struct NativeSttService {
    locale: String,
    /// Path to the helper binary. If `None`, the helper is looked up at call
    /// time.
    helper_path: Option<String>,
}

/// What one call hands to the helper.
pub struct NativeRequest {
    pub helper: String,
    pub locale: String,
}

/// The helper and locale of a call, or the error it ends with: a pinned
/// helper is used as it is, otherwise the lookup's answer; the caller's
/// language code wins over the configured locale; a missing audio file is
/// reported after the helper is resolved.
pub open spec fn native_plan(
    pinned_helper: Option<Seq<char>>,
    locale: Seq<char>,
    file_path: Seq<char>,
    language_code: Option<Seq<char>>,
    lookup: Result<Seq<char>, Seq<char>>,
    file_exists: bool,
) -> Result<(Seq<char>, Seq<char>), Seq<char>> {
    let helper = match pinned_helper {
        Some(p) => Ok::<Seq<char>, Seq<char>>(p),
        None => lookup,
    };
    match helper {
        Err(e) => Err(e),
        Ok(h) => if !file_exists {
            Err("audio file does not exist: "@ + debug_text(file_path))
        } else {
            Ok(
                (
                    h,
                    match language_code {
                        Some(l) => l,
                        None => locale,
                    },
                ),
            )
        },
    }
}

impl NativeSttService {
    /// The configured locale.
    pub closed spec fn locale(&self) -> Seq<char> {
        self.locale@
    }

    /// The pinned helper path, if any.
    pub closed spec fn pinned_helper(&self) -> Option<Seq<char>> {
        match self.helper_path {
            Some(p) => Some(p@),
            None => None,
        }
    }

    /// A service for `locale` (a BCP-47 code such as "ru" or "en", or "auto").
    pub fn new(locale: &str) -> (r: Self)
        ensures
            r.locale() == locale@,
            r.pinned_helper() is None,
    {
        NativeSttService { locale: locale.to_string(), helper_path: None }
    }

    /// A service whose helper path is given instead of looked up.
    pub fn new_for_test(locale: &str, helper_path: &str) -> (r: Self)
        ensures
            r.locale() == locale@,
            r.pinned_helper() == Some(helper_path@),
    {
        NativeSttService { locale: locale.to_string(), helper_path: Some(helper_path.to_string()) }
    }

    /// Whether this backend can run: only on macOS.
    pub fn is_available(on_macos: bool) -> (r: bool)
        ensures
            r == on_macos,
    {
        on_macos
    }

    /// Whether a call needs the helper to be looked up.
    pub fn needs_lookup(&self) -> (r: bool)
        ensures
            r == self.pinned_helper() is None,
    {
        self.helper_path.is_none()
    }

    /// The helper and locale one call uses, given the helper lookup's answer
    /// (used only when no helper is pinned) and whether the audio file exists.
    pub fn prepare(
        &self,
        file_path: &str,
        language_code: Option<&str>,
        lookup: Result<String, String>,
        file_exists: bool,
    ) -> (r: Result<NativeRequest, String>)
        ensures
            match r {
                Ok(req) => native_plan(
                    self.pinned_helper(),
                    self.locale(),
                    file_path@,
                    match language_code {
                        Some(l) => Some(l@),
                        None => None,
                    },
                    match lookup {
                        Ok(h) => Ok(h@),
                        Err(e) => Err(e@),
                    },
                    file_exists,
                ) == Ok::<(Seq<char>, Seq<char>), Seq<char>>((req.helper@, req.locale@)),
                Err(e) => native_plan(
                    self.pinned_helper(),
                    self.locale(),
                    file_path@,
                    match language_code {
                        Some(l) => Some(l@),
                        None => None,
                    },
                    match lookup {
                        Ok(h) => Ok(h@),
                        Err(e) => Err(e@),
                    },
                    file_exists,
                ) == Err::<(Seq<char>, Seq<char>), Seq<char>>(e@),
            },
    {
        let helper: String = match &self.helper_path {
            Some(p) => p.clone(),
            None => match lookup {
                Ok(h) => h,
                Err(e) => {
                    return Err(e);
                },
            },
        };
        let locale: String = match language_code {
            Some(l) => l.to_string(),
            None => self.locale.clone(),
        };
        if !file_exists {
            let mut m = "audio file does not exist: ".to_string();
            let q = debug_quoted(file_path);
            push_str(&mut m, q.as_str());
            return Err(m);
        }
        Ok(NativeRequest { helper, locale })
    }
}

/// The last line `str::lines` yields for `s`: lines end at `\n` or `\r\n`,
/// and a final line ending adds no empty line.
pub open spec fn last_line(s: Seq<char>) -> Option<Seq<char>> {
    if s.len() == 0 {
        None
    } else {
        let body = if s.last() == '\n' {
            s.drop_last()
        } else {
            s
        };
        let line = body.skip(line_start(body, body.len() as int));
        Some(
            if s.last() == '\n' && line.len() > 0 && line.last() == '\r' {
                line.drop_last()
            } else {
                line
            },
        )
    }
}

/// Index just after the last `\n` before `end` (0 where there is none).
pub open spec fn line_start(s: Seq<char>, end: int) -> int
    decreases end,
{
    if end <= 0 {
        0
    } else if s[end - 1] == '\n' {
        end
    } else {
        line_start(s, end - 1)
    }
}

proof fn lemma_line_start_bounds(s: Seq<char>, end: int)
    requires
        0 <= end <= s.len(),
    ensures
        0 <= line_start(s, end) <= end,
    decreases end,
{
    if end > 0 && s[end - 1] != '\n' {
        lemma_line_start_bounds(s, end - 1);
    }
}

/// The last line of `s`, as `str::lines().last()` gives it.
pub fn last_line_of(s: &str) -> (r: Option<String>)
    ensures
        match r {
            Some(l) => last_line(s@) == Some(l@),
            None => last_line(s@) is None,
        },
{
    let v = chars_of(s);
    let n = v.len();
    if n == 0 {
        return None;
    }
    let ends_nl = v[n - 1] == '\n';
    let end: usize = if ends_nl {
        n - 1
    } else {
        n
    };
    let ghost body = if ends_nl {
        s@.drop_last()
    } else {
        s@
    };
    assert(body =~= v@.take(end as int));
    let mut start: usize = end;
    while start > 0 && v[start - 1] != '\n'
        invariant
            v@ == s@,
            end <= v@.len(),
            start <= end,
            body == v@.take(end as int),
            line_start(body, end as int) == line_start(body, start as int),
        decreases start,
    {
        start = start - 1;
    }
    proof {
        lemma_line_start_bounds(body, end as int);
        assert(line_start(body, start as int) == start);
        assert(body.skip(start as int) =~= v@.subrange(start as int, end as int));
    }
    let mut stop: usize = end;
    if ends_nl && stop > start && v[stop - 1] == '\r' {
        stop = stop - 1;
    }
    let line = string_of_range(&v, start, stop);
    proof {
        let full = body.skip(start as int);
        if ends_nl && full.len() > 0 && full.last() == '\r' {
            assert(full.drop_last() =~= line@);
        } else {
            assert(full =~= line@);
        }
    }
    Some(line)
}

/// What the helper's output means.
pub open spec fn helper_answer(
    succeeded: bool,
    status: Seq<char>,
    stderr: Seq<char>,
    stdout: Seq<char>,
) -> Result<Seq<char>, Seq<char>> {
    if !succeeded {
        let err = trim(stderr);
        if err.len() == 0 {
            Err("native STT helper exited with status "@ + status)
        } else {
            Err("native STT helper failed: "@ + err)
        }
    } else {
        match last_line(stdout) {
            None => Err("native STT helper produced no output"@),
            Some(line) => match json_text_field(trim(line)) {
                Err(e) => Err(
                    "native STT helper: invalid JSON: "@ + e + " (line: "@ + debug_text(line)
                        + ")"@,
                ),
                Ok(None) => Err("native STT helper: JSON missing 'text' field"@),
                Ok(Some(t)) => Ok(trim(t)),
            },
        }
    }
}

/// Reads the helper's answer: on success the text of the JSON object on the
/// last line of standard output, trimmed; otherwise the error it reports.
/// `stderr` and `stdout` are decoded lossily; `status` is the exit status as
/// text.
pub fn helper_result(succeeded: bool, status: &str, stderr: &str, stdout: &str) -> (r: Result<
    String,
    String,
>)
    ensures
        match r {
            Ok(t) => helper_answer(succeeded, status@, stderr@, stdout@) == Ok::<
                Seq<char>,
                Seq<char>,
            >(t@),
            Err(e) => helper_answer(succeeded, status@, stderr@, stdout@) == Err::<
                Seq<char>,
                Seq<char>,
            >(e@),
        },
{
    if !succeeded {
        let err = trimmed(stderr);
        if err.as_str().is_empty() {
            let mut m = "native STT helper exited with status ".to_string();
            push_str(&mut m, status);
            return Err(m);
        }
        let mut m = "native STT helper failed: ".to_string();
        push_str(&mut m, err.as_str());
        return Err(m);
    }
    let line = match last_line_of(stdout) {
        Some(l) => l,
        None => {
            return Err("native STT helper produced no output".to_string());
        },
    };
    let body = trimmed(line.as_str());
    match read_json_text(body.as_str()) {
        Err(e) => {
            let mut m = "native STT helper: invalid JSON: ".to_string();
            push_str(&mut m, e.as_str());
            push_str(&mut m, " (line: ");
            let q = debug_quoted(line.as_str());
            push_str(&mut m, q.as_str());
            push_str(&mut m, ")");
            Err(m)
        },
        Ok(None) => Err("native STT helper: JSON missing 'text' field".to_string()),
        Ok(Some(t)) => Ok(trimmed(t.as_str())),
    }
}

} // verus!
