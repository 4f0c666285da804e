//! Post-transcription actions.
//!
//! An action is either a direct executable invocation or a file write. A
//! user-configured command line is never handed to a shell: each entry of
//! `arguments` is one process argument, and the recognized text is written
//! to the child's standard input. This module decides *whether* an action
//! runs and *with what*; performing it is left to the caller.

use crate::text::{
    starts_at, char_is_alphanumeric, char_lowercase, char_to_lowercase, chars_of, lead_count, push_char,
    push_str, skip_leading, skip_trailing, string_of, string_of_range, strip_end, strip_start,
    trail_count, trim, trim_bounds, unicode_alphanumeric, CharClass,
};
use vstd::prelude::*;
use vstd::utf8::encode_utf8;

verus! {

broadcast use vstd::string::group_string_axioms;

#[derive(Debug, Clone, Copy, PartialEq, Eq, Structural)]
pub enum AutomationTrigger {
    Keyword,
    FnControl,
}

impl Default for AutomationTrigger {
    fn default() -> (r: Self)
        ensures
            r == AutomationTrigger::Keyword,
    {
        AutomationTrigger::Keyword
    }
}

#[derive(Debug, Clone, Copy, PartialEq, Eq, Structural)]
pub enum KeywordPosition {
    Start,
    Anywhere,
    End,
}

impl Default for KeywordPosition {
    fn default() -> (r: Self)
        ensures
            r == KeywordPosition::Start,
    {
        KeywordPosition::Start
    }
}

#[derive(Debug, Clone, Copy, PartialEq, Eq, Structural)]
pub enum AutomationActionKind {
    Command,
    File,
}

impl Default for AutomationActionKind {
    fn default() -> (r: Self)
        ensures
            r == AutomationActionKind::Command,
    {
        AutomationActionKind::Command
    }
}

#[derive(Debug, Clone, Copy, PartialEq, Eq, Structural)]
pub enum FileWriteMode {
    Append,
    Overwrite,
}

impl Default for FileWriteMode {
    fn default() -> (r: Self)
        ensures
            r == FileWriteMode::Append,
    {
        FileWriteMode::Append
    }
}

/// Persisted automation configuration. `secret` is never part of a settings
/// view; a child process sees it only through `{secret}` and an environment
/// variable.
#[derive(Debug)]
pub struct AutomationConfig {
    pub enabled: bool,
    pub trigger: AutomationTrigger,
    pub keyword: String,
    pub keyword_position: KeywordPosition,
    pub action_kind: AutomationActionKind,
    pub command: String,
    pub arguments: Vec<String>,
    pub file_path: String,
    pub file_mode: FileWriteMode,
    pub secret: Option<String>,
}

impl Default for AutomationConfig {
    fn default() -> (r: Self)
        ensures
            !r.enabled,
            r.trigger == AutomationTrigger::Keyword,
            r.keyword@ == Seq::<char>::empty(),
            r.keyword_position == KeywordPosition::Start,
            r.action_kind == AutomationActionKind::Command,
            r.command@ == Seq::<char>::empty(),
            r.arguments@ == Seq::<String>::empty(),
            r.file_path@ == Seq::<char>::empty(),
            r.file_mode == FileWriteMode::Append,
            r.secret is None,
    {
        AutomationConfig {
            enabled: false,
            trigger: AutomationTrigger::Keyword,
            keyword: String::new(),
            keyword_position: KeywordPosition::Start,
            action_kind: AutomationActionKind::Command,
            command: String::new(),
            arguments: Vec::new(),
            file_path: String::new(),
            file_mode: FileWriteMode::Append,
            secret: None,
        }
    }
}

/// Why a configuration cannot run.
pub open spec fn validation_error(c: AutomationConfig, fn_control_supported: bool) -> Option<
    Seq<char>,
> {
    if !c.enabled {
        None
    } else if c.trigger == AutomationTrigger::Keyword && trim(c.keyword@).len() == 0 {
        Some("Enter a keyword for the automation trigger."@)
    } else if !fn_control_supported && c.trigger == AutomationTrigger::FnControl {
        Some(
            "Fn + Control automation is available on macOS only. Use a keyword trigger on this platform."@,
        )
    } else if c.action_kind == AutomationActionKind::Command && trim(c.command@).len() == 0 {
        Some("Enter the executable to run for this automation."@)
    } else if c.action_kind == AutomationActionKind::File && trim(c.file_path@).len() == 0 {
        Some("Enter a file path for this automation."@)
    } else {
        None
    }
}

/// `****` for short secrets, otherwise the first and last four characters.
pub open spec fn masked(secret: Seq<char>) -> Seq<char> {
    if secret.len() <= 8 {
        "****"@
    } else {
        secret.take(4) + "..."@ + secret.skip(secret.len() - 4)
    }
}

fn is_blank(s: &String) -> (r: bool)
    ensures
        r == (trim(s@).len() == 0),
{
    let v = chars_of(s.as_str());
    let (a, b) = trim_bounds(&v, 0, v.len());
    assert(v@.subrange(0, v@.len() as int) =~= s@);
    a == b
}

/// `str::trim` of `s` as an owned string.
pub fn trimmed_string(s: &String) -> (r: String)
    ensures
        r@ == trim(s@),
{
    let v = chars_of(s.as_str());
    let (a, b) = trim_bounds(&v, 0, v.len());
    assert(v@.subrange(0, v@.len() as int) =~= s@);
    string_of_range(&v, a, b)
}

/// The first and last four characters of `secret`, or `****`.
pub fn mask_secret(secret: &str) -> (r: String)
    ensures
        r@ == masked(secret@),
{
    let v = chars_of(secret);
    if v.len() <= 8 {
        return "****".to_owned();
    }
    let mut r = string_of_range(&v, 0, 4);
    push_str(&mut r, "...");
    let tail = string_of_range(&v, v.len() - 4, v.len());
    push_str(&mut r, tail.as_str());
    assert(v@.subrange(0, 4) =~= secret@.take(4));
    assert(v@.subrange(v@.len() - 4, v@.len() as int) =~= secret@.skip(secret@.len() - 4));
    r
}

impl AutomationConfig {
    pub fn requires_fn_control_monitor(&self) -> (r: bool)
        ensures
            r == (self.enabled && self.trigger == AutomationTrigger::FnControl),
    {
        self.enabled && self.trigger == AutomationTrigger::FnControl
    }

    /// Checks that an enabled configuration can run. `fn_control_supported`
    /// says whether the platform has the Fn + Control trigger (macOS).
    pub fn validate(&self, fn_control_supported: bool) -> (r: Result<(), String>)
        ensures
            match validation_error(*self, fn_control_supported) {
                None => r is Ok,
                Some(e) => r matches Err(m) && m@ == e,
            },
    {
        if !self.enabled {
            return Ok(());
        }
        if self.trigger == AutomationTrigger::Keyword && is_blank(&self.keyword) {
            return Err("Enter a keyword for the automation trigger.".to_owned());
        }
        if !fn_control_supported && self.trigger == AutomationTrigger::FnControl {
            return Err(
                "Fn + Control automation is available on macOS only. Use a keyword trigger on this platform.".to_owned(),
            );
        }
        match self.action_kind {
            AutomationActionKind::Command => {
                if is_blank(&self.command) {
                    return Err("Enter the executable to run for this automation.".to_owned());
                }
                Ok(())
            },
            AutomationActionKind::File => {
                if is_blank(&self.file_path) {
                    return Err("Enter a file path for this automation.".to_owned());
                }
                Ok(())
            },
        }
    }

    pub fn masked_secret(&self) -> (r: String)
        ensures
            match self.secret {
                Some(s) => r@ == masked(s@),
                None => r@ == "(not set)"@,
            },
    {
        match &self.secret {
            Some(s) => mask_secret(s.as_str()),
            None => "(not set)".to_owned(),
        }
    }
}

/// Settings view of an automation: the secret appears only as a flag and a mask.
#[derive(Debug)]
pub struct AutomationConfigView {
    pub enabled: bool,
    pub trigger: AutomationTrigger,
    pub keyword: String,
    pub keyword_position: KeywordPosition,
    pub action_kind: AutomationActionKind,
    pub command: String,
    pub arguments: Vec<String>,
    pub file_path: String,
    pub file_mode: FileWriteMode,
    pub secret_set: bool,
    pub secret_masked: String,
}

/// A copy of `v`, element by element.
pub fn clone_strings(v: &Vec<String>) -> (r: Vec<String>)
    ensures
        r@ == v@,
{
    let mut r: Vec<String> = Vec::new();
    let mut i: usize = 0;
    while i < v.len()
        invariant
            i <= v@.len(),
            r@ == v@.take(i as int),
        decreases v@.len() - i,
    {
        r.push(v[i].clone());
        assert(v@.take(i + 1) =~= v@.take(i as int).push(v@[i as int]));
        i = i + 1;
    }
    assert(v@.take(v@.len() as int) =~= v@);
    r
}

impl AutomationConfigView {
    pub fn from_config(config: &AutomationConfig) -> (r: Self)
        ensures
            r.enabled == config.enabled,
            r.trigger == config.trigger,
            r.keyword == config.keyword,
            r.keyword_position == config.keyword_position,
            r.action_kind == config.action_kind,
            r.command == config.command,
            r.arguments@ == config.arguments@,
            r.file_path == config.file_path,
            r.file_mode == config.file_mode,
            r.secret_set == (config.secret matches Some(s) && s@.len() > 0),
            match config.secret {
                Some(s) => r.secret_masked@ == masked(s@),
                None => r.secret_masked@ == "(not set)"@,
            },
    {
        let secret_set = match &config.secret {
            Some(s) => s.as_str().unicode_len() > 0,
            None => false,
        };
        AutomationConfigView {
            enabled: config.enabled,
            trigger: config.trigger,
            keyword: config.keyword.clone(),
            keyword_position: config.keyword_position,
            action_kind: config.action_kind,
            command: config.command.clone(),
            arguments: clone_strings(&config.arguments),
            file_path: config.file_path.clone(),
            file_mode: config.file_mode,
            secret_set,
            secret_masked: config.masked_secret(),
        }
    }
}

/// How a finished recording is delivered: the normal paste route, or the
/// `Fn+Control` route that sends the whole transcription to the automation.
#[derive(Debug, Clone, Copy, PartialEq, Eq, Structural)]
pub enum TranscriptDelivery {
    Paste,
    AutomationHotkey,
}

impl Default for TranscriptDelivery {
    fn default() -> (r: Self)
        ensures
            r == TranscriptDelivery::Paste,
    {
        TranscriptDelivery::Paste
    }
}

#[derive(Debug, Clone, PartialEq, Eq)]
pub enum AutomationPayload {
    NoMatch,
    Text(String),
    EmptyAfterKeyword,
}

/// `AutomationPayload` with its text as a character sequence.
pub enum PayloadModel {
    NoMatch,
    Text(Seq<char>),
    EmptyAfterKeyword,
}

impl View for AutomationPayload {
    type V = PayloadModel;

    open spec fn view(&self) -> PayloadModel {
        match self {
            AutomationPayload::NoMatch => PayloadModel::NoMatch,
            AutomationPayload::Text(s) => PayloadModel::Text(s@),
            AutomationPayload::EmptyAfterKeyword => PayloadModel::EmptyAfterKeyword,
        }
    }
}

/// Two characters are equal once each is mapped to its lowercase form.
pub open spec fn lower_eq(a: char, b: char) -> bool {
    char_lowercase(a) == char_lowercase(b)
}

/// `kw` occurs in `t` at character index `start`, ignoring case, as a whole
/// word (no alphanumeric character directly before or after it).
pub open spec fn keyword_at(t: Seq<char>, kw: Seq<char>, start: int) -> bool {
    &&& 0 <= start
    &&& start + kw.len() <= t.len()
    &&& forall|i: int| 0 <= i < kw.len() ==> lower_eq(#[trigger] t[start + i], kw[i])
    &&& !(start > 0 && unicode_alphanumeric(t[start - 1]))
    &&& !(start + kw.len() < t.len() && unicode_alphanumeric(t[start + kw.len()]))
}

/// The first start at or after `i` where `kw` occurs as a word.
pub open spec fn first_keyword_from(t: Seq<char>, kw: Seq<char>, i: int) -> Option<int>
    decreases t.len() - i,
{
    if i < 0 || i >= t.len() {
        None
    } else if keyword_at(t, kw, i) {
        Some(i)
    } else {
        first_keyword_from(t, kw, i + 1)
    }
}

/// The first start at or after `i` where `kw` occurs as a word ending at `end`.
pub open spec fn first_keyword_ending_from(t: Seq<char>, kw: Seq<char>, end: int, i: int) -> Option<
    int,
>
    decreases t.len() - i,
{
    if i < 0 || i >= t.len() {
        None
    } else if keyword_at(t, kw, i) && i + kw.len() == end {
        Some(i)
    } else {
        first_keyword_ending_from(t, kw, end, i + 1)
    }
}

/// `trim`, then `:` `,` `;` `-` `—` stripped from both ends, then `trim`.
pub open spec fn command_padding_trimmed(p: Seq<char>) -> Seq<char> {
    trim(strip_end(strip_start(trim(p), CharClass::CommandPunct), CharClass::CommandPunct))
}

/// The text that accompanies the keyword: after it for `Start`/`Anywhere`,
/// before it for `End` ("buy milk, task").
pub open spec fn keyword_raw_payload(t: Seq<char>, kw: Seq<char>, position: KeywordPosition) -> Option<
    Seq<char>,
> {
    match position {
        KeywordPosition::Start => {
            let leading = lead_count(t, CharClass::Whitespace) as int;
            if keyword_at(t, kw, leading) {
                Some(t.skip(leading + kw.len()))
            } else {
                None
            }
        },
        KeywordPosition::Anywhere => match first_keyword_from(t, kw, 0) {
            Some(s) => Some(t.skip(s + kw.len())),
            None => None,
        },
        KeywordPosition::End => {
            let end = t.len() - trail_count(t, CharClass::EndPadding);
            match first_keyword_ending_from(t, kw, end, 0) {
                Some(s) => Some(t.take(s)),
                None => None,
            }
        },
    }
}

pub open spec fn keyword_payload_model(
    transcript: Seq<char>,
    keyword: Seq<char>,
    position: KeywordPosition,
) -> PayloadModel {
    let kw = trim(keyword);
    if kw.len() == 0 {
        PayloadModel::NoMatch
    } else {
        match keyword_raw_payload(transcript, kw, position) {
            None => PayloadModel::NoMatch,
            Some(p) => {
                let q = command_padding_trimmed(p);
                if q.len() == 0 {
                    PayloadModel::EmptyAfterKeyword
                } else {
                    PayloadModel::Text(q)
                }
            },
        }
    }
}

pub open spec fn payload_model(
    c: AutomationConfig,
    delivery: TranscriptDelivery,
    transcript: Seq<char>,
) -> PayloadModel {
    if !c.enabled {
        PayloadModel::NoMatch
    } else {
        match (delivery, c.trigger) {
            (TranscriptDelivery::AutomationHotkey, AutomationTrigger::FnControl) => {
                if trim(transcript).len() == 0 {
                    PayloadModel::EmptyAfterKeyword
                } else {
                    PayloadModel::Text(trim(transcript))
                }
            },
            (TranscriptDelivery::Paste, AutomationTrigger::Keyword) => keyword_payload_model(
                transcript,
                c.keyword@,
                c.keyword_position,
            ),
            _ => PayloadModel::NoMatch,
        }
    }
}

/// Whether `kw` occurs in `t` at `start` as a whole word, ignoring case.
pub fn find_keyword_at(t: &Vec<char>, kw: &Vec<char>, start: usize) -> (r: bool)
    ensures
        r == keyword_at(t@, kw@, start as int),
{
    if start > t.len() || kw.len() > t.len() - start {
        return false;
    }
    let end: usize = start + kw.len();
    let mut i: usize = 0;
    while i < kw.len()
        invariant
            start + kw@.len() == end <= t@.len(),
            i <= kw@.len(),
            forall|k: int| 0 <= k < i ==> lower_eq(#[trigger] t@[start + k], kw@[k]),
        decreases kw@.len() - i,
    {
        let a = char_to_lowercase(t[start + i]);
        let b = char_to_lowercase(kw[i]);
        if a != b {
            assert(!lower_eq(t@[start + i], kw@[i as int]));
            return false;
        }
        i = i + 1;
    }
    if start > 0 && char_is_alphanumeric(t[start - 1]) {
        return false;
    }
    if end < t.len() && char_is_alphanumeric(t[end]) {
        return false;
    }
    true
}

/// The first character index where `kw` occurs as a word.
pub fn find_keyword(t: &Vec<char>, kw: &Vec<char>) -> (r: Option<usize>)
    ensures
        match r {
            Some(s) => first_keyword_from(t@, kw@, 0) == Some(s as int) && s < t@.len()
                && keyword_at(t@, kw@, s as int),
            None => first_keyword_from(t@, kw@, 0) is None,
        },
{
    let mut i: usize = 0;
    while i < t.len()
        invariant
            i <= t@.len(),
            first_keyword_from(t@, kw@, 0) == first_keyword_from(t@, kw@, i as int),
        decreases t@.len() - i,
    {
        if find_keyword_at(t, kw, i) {
            return Some(i);
        }
        i = i + 1;
    }
    None
}

/// The first character index where `kw` occurs as a word ending at `required_end`.
pub fn find_keyword_ending_at(t: &Vec<char>, kw: &Vec<char>, required_end: usize) -> (r: Option<
    usize,
>)
    ensures
        match r {
            Some(s) => first_keyword_ending_from(t@, kw@, required_end as int, 0) == Some(
                s as int,
            ) && s < t@.len() && keyword_at(t@, kw@, s as int),
            None => first_keyword_ending_from(t@, kw@, required_end as int, 0) is None,
        },
{
    let mut i: usize = 0;
    while i < t.len()
        invariant
            i <= t@.len(),
            first_keyword_ending_from(t@, kw@, required_end as int, 0)
                == first_keyword_ending_from(t@, kw@, required_end as int, i as int),
        decreases t@.len() - i,
    {
        if find_keyword_at(t, kw, i) && i + kw.len() == required_end {
            return Some(i);
        }
        i = i + 1;
    }
    None
}

/// Bounds of `command_padding_trimmed(v[lo..hi])` inside `v`.
pub fn trim_command_padding(v: &Vec<char>, lo: usize, hi: usize) -> (r: (usize, usize))
    requires
        lo <= hi <= v@.len(),
    ensures
        lo <= r.0 <= r.1 <= hi,
        v@.subrange(r.0 as int, r.1 as int) == command_padding_trimmed(
            v@.subrange(lo as int, hi as int),
        ),
{
    let (a, b) = trim_bounds(v, lo, hi);
    let c = skip_leading(v, a, b, CharClass::CommandPunct);
    let d = skip_trailing(v, c, b, CharClass::CommandPunct);
    let (e, f) = trim_bounds(v, c, d);
    proof {
        let p = v@.subrange(lo as int, hi as int);
        let s1 = trim(p);
        assert(s1 == v@.subrange(a as int, b as int));
        let s2 = strip_start(s1, CharClass::CommandPunct);
        assert(s2 =~= v@.subrange(c as int, b as int));
        let s3 = strip_end(s2, CharClass::CommandPunct);
        assert(s3 =~= v@.subrange(c as int, d as int));
    }
    (e, f)
}

/// Length of `v` once trailing whitespace and `. , ! ? : ; - —` are dropped.
pub fn trim_command_padding_end(v: &Vec<char>) -> (r: usize)
    ensures
        r == v@.len() - trail_count(v@, CharClass::EndPadding),
{
    let r = skip_trailing(v, 0, v.len(), CharClass::EndPadding);
    assert(v@.subrange(0, v@.len() as int) =~= v@);
    r
}

/// The automation payload carried by a keyword-triggered transcript: the
/// text after the keyword (`Start`, `Anywhere`) or before it (`End`), with
/// command punctuation and whitespace trimmed.
pub fn keyword_payload(transcript: &str, keyword: &str, position: KeywordPosition) -> (r:
    AutomationPayload)
    ensures
        r@ == keyword_payload_model(transcript@, keyword@, position),
{
    let kv = chars_of(keyword);
    let (ka, kb) = trim_bounds(&kv, 0, kv.len());
    assert(kv@.subrange(0, kv@.len() as int) =~= keyword@);
    if ka == kb {
        return AutomationPayload::NoMatch;
    }
    let kw = sub_chars(&kv, ka, kb);
    let t = chars_of(transcript);
    assert(t@.subrange(0, t@.len() as int) =~= t@);
    let bounds: Option<(usize, usize)> = match position {
        KeywordPosition::Start => {
            let leading = skip_leading(&t, 0, t.len(), CharClass::Whitespace);
            if find_keyword_at(&t, &kw, leading) {
                Some((leading + kw.len(), t.len()))
            } else {
                None
            }
        },
        KeywordPosition::Anywhere => match find_keyword(&t, &kw) {
            Some(s) => Some((s + kw.len(), t.len())),
            None => None,
        },
        KeywordPosition::End => {
            let end = trim_command_padding_end(&t);
            match find_keyword_ending_at(&t, &kw, end) {
                Some(s) => Some((0, s)),
                None => None,
            }
        },
    };
    match bounds {
        None => AutomationPayload::NoMatch,
        Some((lo, hi)) => {
            proof {
                if position == KeywordPosition::Start {
                    assert(t@.skip(lo as int) =~= t@.subrange(lo as int, hi as int));
                } else if position == KeywordPosition::Anywhere {
                    assert(t@.skip(lo as int) =~= t@.subrange(lo as int, hi as int));
                } else {
                    assert(t@.take(hi as int) =~= t@.subrange(lo as int, hi as int));
                }
            }
            let (a, b) = trim_command_padding(&t, lo, hi);
            if a == b {
                AutomationPayload::EmptyAfterKeyword
            } else {
                AutomationPayload::Text(string_of_range(&t, a, b))
            }
        },
    }
}

/// The characters of `v[lo..hi]` as a new vector.
fn sub_chars(v: &Vec<char>, lo: usize, hi: usize) -> (r: Vec<char>)
    requires
        lo <= hi <= v@.len(),
    ensures
        r@ == v@.subrange(lo as int, hi as int),
{
    let mut r: Vec<char> = Vec::new();
    let mut i: usize = lo;
    while i < hi
        invariant
            lo <= i <= hi <= v@.len(),
            r@ == v@.subrange(lo as int, i as int),
        decreases hi - i,
    {
        r.push(v[i]);
        assert(v@.subrange(lo as int, i + 1) =~= v@.subrange(lo as int, i as int).push(v@[i as int]));
        i = i + 1;
    }
    r
}

/// What an enabled automation receives for a finished transcript, if anything.
pub fn payload_for_transcript(
    config: &AutomationConfig,
    delivery: TranscriptDelivery,
    transcript: &str,
) -> (r: AutomationPayload)
    ensures
        r@ == payload_model(*config, delivery, transcript@),
{
    if !config.enabled {
        return AutomationPayload::NoMatch;
    }
    match (delivery, config.trigger) {
        (TranscriptDelivery::AutomationHotkey, AutomationTrigger::FnControl) => {
            let t = chars_of(transcript);
            let (a, b) = trim_bounds(&t, 0, t.len());
            assert(t@.subrange(0, t@.len() as int) =~= transcript@);
            if a == b {
                AutomationPayload::EmptyAfterKeyword
            } else {
                AutomationPayload::Text(string_of_range(&t, a, b))
            }
        },
        (TranscriptDelivery::Paste, AutomationTrigger::Keyword) => {
            keyword_payload(transcript, config.keyword.as_str(), config.keyword_position)
        },
        _ => AutomationPayload::NoMatch,
    }
}

/// Bytes left as they are by `percent_encode`: ASCII letters, digits, `- _ . ~`.
pub open spec fn is_unreserved(b: u8) -> bool {
    (48u8 <= b && b <= 57u8) || (65u8 <= b && b <= 90u8) || (97u8 <= b && b <= 122u8) || b == 45u8
        || b == 95u8 || b == 46u8 || b == 126u8
}

/// Upper-case hexadecimal digit of a value below 16.
pub open spec fn hex_digit(v: u8) -> char {
    if v <= 9 {
        ((48u8 as int) + v) as char
    } else {
        ((65u8 as int) + v - 10) as char
    }
}

/// `%XX` encoding of every byte outside the unreserved set.
pub open spec fn percent_encoded(bytes: Seq<u8>) -> Seq<char>
    decreases bytes.len(),
{
    if bytes.len() == 0 {
        Seq::empty()
    } else {
        let b = bytes.last();
        percent_encoded(bytes.drop_last()) + if is_unreserved(b) {
            seq![b as char]
        } else {
            seq!['%', hex_digit(b / 16), hex_digit(b % 16)]
        }
    }
}

/// Upper-case hexadecimal digit of `value`.
pub fn hex(value: u8) -> (r: char)
    requires
        value < 16,
    ensures
        r == hex_digit(value),
{
    if value <= 9 {
        (48u8 + value) as char
    } else {
        (65u8 + value - 10) as char
    }
}

/// Percent-encodes the UTF-8 bytes of `value`, keeping `A-Z a-z 0-9 - _ . ~`.
pub fn percent_encode(value: &str) -> (r: String)
    ensures
        r@ == percent_encoded(encode_utf8(value@)),
{
    let bytes = value.as_bytes();
    let mut encoded = String::new();
    let mut i: usize = 0;
    while i < bytes.len()
        invariant
            i <= bytes@.len(),
            bytes@ == encode_utf8(value@),
            encoded@ == percent_encoded(bytes@.take(i as int)),
        decreases bytes@.len() - i,
    {
        let byte = bytes[i];
        assert(bytes@.take(i + 1).drop_last() =~= bytes@.take(i as int));
        if (48u8 <= byte && byte <= 57u8) || (65u8 <= byte && byte <= 90u8) || (97u8 <= byte
            && byte <= 122u8) || byte == 45u8 || byte == 95u8 || byte == 46u8 || byte == 126u8 {
            push_char(&mut encoded, byte as char);
        } else {
            push_char(&mut encoded, '%');
            push_char(&mut encoded, hex(byte / 16));
            push_char(&mut encoded, hex(byte % 16));
        }
        i = i + 1;
    }
    assert(bytes@.take(bytes@.len() as int) =~= bytes@);
    encoded
}

/// Lowercase hexadecimal digit of `v` (below sixteen).
pub open spec fn hex_lower(v: int) -> char {
    if v < 10 {
        (v + 48) as char
    } else {
        (v + 87) as char
    }
}

/// How one character is written inside a JSON string: `"` and `\` and the
/// control characters below U+0020 are escaped (the short forms `\b \t
/// \n \f \r` where there is one, `\u00XX` in lowercase hex otherwise);
/// every other character is written as it is.
pub open spec fn json_escaped_char(c: char) -> Seq<char> {
    if c == '"' {
        seq!['\\', '"']
    } else if c == '\\' {
        seq!['\\', '\\']
    } else if c == '\u{8}' {
        seq!['\\', 'b']
    } else if c == '\t' {
        seq!['\\', 't']
    } else if c == '\n' {
        seq!['\\', 'n']
    } else if c == '\u{c}' {
        seq!['\\', 'f']
    } else if c == '\r' {
        seq!['\\', 'r']
    } else if (c as int) < 32 {
        seq!['\\', 'u', '0', '0', hex_lower((c as int) / 16), hex_lower((c as int) % 16)]
    } else {
        seq![c]
    }
}

/// The characters of `text`, each escaped for a JSON string.
pub open spec fn json_escaped(text: Seq<char>) -> Seq<char>
    decreases text.len(),
{
    if text.len() == 0 {
        Seq::empty()
    } else {
        json_escaped(text.drop_last()) + json_escaped_char(text.last())
    }
}

/// `text` as a JSON string literal.
pub open spec fn json_literal(text: Seq<char>) -> Seq<char> {
    seq!['"'] + json_escaped(text) + seq!['"']
}

/// Calls `serde_json::to_string` on a string slice. Serialising a `str`
/// cannot fail (it writes into a `Vec`), and serde_json escapes exactly the
/// characters `json_escaped_char` lists, with lowercase hex digits.
#[verifier::external_body]
fn json_encode_str(text: &str) -> (r: String)
    ensures
        r@ == json_literal(text@),
{
    serde_json::to_string(text).unwrap_or_default()
}

/// The placeholder for the text as a JSON string literal.
pub open spec fn text_json_tag() -> Seq<char> {
    seq!['{', 't', 'e', 'x', 't', '_', 'j', 's', 'o', 'n', '}']
}

/// The placeholder for the URL-encoded text.
pub open spec fn text_url_tag() -> Seq<char> {
    seq!['{', 't', 'e', 'x', 't', '_', 'u', 'r', 'l', '}']
}

/// The placeholder for the text as it is.
pub open spec fn text_tag() -> Seq<char> {
    seq!['{', 't', 'e', 'x', 't', '}']
}

/// The placeholder for the automation's secret.
pub open spec fn secret_tag() -> Seq<char> {
    seq!['{', 's', 'e', 'c', 'r', 'e', 't', '}']
}

/// Whether `t` begins with `p`.
pub open spec fn begins_with(t: Seq<char>, p: Seq<char>) -> bool {
    p.len() <= t.len() && t.take(p.len() as int) == p
}

/// `t` read once from left to right, each placeholder met replaced by its
/// value; an inserted value is never read again, so a placeholder inside
/// the text or the secret stays as it is.
pub open spec fn filled(
    t: Seq<char>,
    json: Seq<char>,
    url: Seq<char>,
    text: Seq<char>,
    secret: Seq<char>,
) -> Seq<char>
    decreases t.len(),
{
    if t.len() == 0 {
        t
    } else if begins_with(t, text_json_tag()) {
        json + filled(t.skip(text_json_tag().len() as int), json, url, text, secret)
    } else if begins_with(t, text_url_tag()) {
        url + filled(t.skip(text_url_tag().len() as int), json, url, text, secret)
    } else if begins_with(t, text_tag()) {
        text + filled(t.skip(text_tag().len() as int), json, url, text, secret)
    } else if begins_with(t, secret_tag()) {
        secret + filled(t.skip(secret_tag().len() as int), json, url, text, secret)
    } else {
        seq![t[0]] + filled(t.drop_first(), json, url, text, secret)
    }
}

/// `template` with `{text_json}`, `{text_url}`, `{text}` and `{secret}`
/// replaced in one pass: the secret reaches an argument only where the
/// configured template itself asks for it.
pub open spec fn placeholders_replaced(
    template: Seq<char>,
    text: Seq<char>,
    secret: Option<Seq<char>>,
) -> Seq<char> {
    filled(
        template,
        json_literal(text),
        percent_encoded(encode_utf8(text)),
        text,
        match secret {
            Some(x) => x,
            None => Seq::empty(),
        },
    )
}

/// Fills the placeholders of one argument template: the text as a JSON
/// string, URL-encoded, verbatim, and the secret.
pub fn replace_placeholders(template: &str, text: &str, secret: Option<&str>) -> (r: String)
    ensures
        r@ == placeholders_replaced(
            template@,
            text@,
            match secret {
                Some(x) => Some(x@),
                None => None,
            },
        ),
{
    proof {
        reveal_strlit("{text_json}");
        reveal_strlit("{text_url}");
        reveal_strlit("{text}");
        reveal_strlit("{secret}");
        reveal_strlit("");
    }
    let tj = chars_of("{text_json}");
    let tu = chars_of("{text_url}");
    let tt = chars_of("{text}");
    let ts = chars_of("{secret}");
    assert(tj@ =~= text_json_tag());
    assert(tu@ =~= text_url_tag());
    assert(tt@ =~= text_tag());
    assert(ts@ =~= secret_tag());
    let json = json_encode_str(text);
    let url = percent_encode(text);
    let secret_text: &str = match secret {
        Some(x) => x,
        None => "",
    };
    let ghost sv = match secret {
        Some(x) => Some(x@),
        None => None::<Seq<char>>,
    };
    assert(secret_text@ == match sv { Some(x) => x, None => Seq::<char>::empty() });
    let v = chars_of(template);
    let mut out = String::new();
    let mut i: usize = 0;
    assert(v@.skip(0) =~= v@);
    while i < v.len()
        invariant
            i <= v@.len(),
            tj@ == text_json_tag(),
            tu@ == text_url_tag(),
            tt@ == text_tag(),
            ts@ == secret_tag(),
            out@ + filled(v@.skip(i as int), json@, url@, text@, secret_text@) == filled(
                v@,
                json@,
                url@,
                text@,
                secret_text@,
            ),
        decreases v@.len() - i,
    {
        let ghost rest = v@.skip(i as int);
        assert(rest.len() > 0);
        if starts_at(&v, i, &tj) {
            push_str(&mut out, json.as_str());
            assert(rest.skip(tj@.len() as int) =~= v@.skip(i + tj@.len()));
            i = i + tj.len();
        } else if starts_at(&v, i, &tu) {
            push_str(&mut out, url.as_str());
            assert(rest.skip(tu@.len() as int) =~= v@.skip(i + tu@.len()));
            i = i + tu.len();
        } else if starts_at(&v, i, &tt) {
            push_str(&mut out, text);
            assert(rest.skip(tt@.len() as int) =~= v@.skip(i + tt@.len()));
            i = i + tt.len();
        } else if starts_at(&v, i, &ts) {
            push_str(&mut out, secret_text);
            assert(rest.skip(ts@.len() as int) =~= v@.skip(i + ts@.len()));
            i = i + ts.len();
        } else {
            push_char(&mut out, v[i]);
            assert(rest.drop_first() =~= v@.skip(i + 1));
            assert(rest[0] == v@[i as int]);
            i = i + 1;
        }
        proof {
            assert(out@ + filled(v@.skip(i as int), json@, url@, text@, secret_text@) =~= filled(
                v@,
                json@,
                url@,
                text@,
                secret_text@,
            ));
        }
    }
    proof {
        assert(v@.skip(i as int) =~= Seq::<char>::empty());
        assert(out@ + Seq::<char>::empty() =~= out@);
    }
    out
}

/// What a validated automation does with a payload.
#[derive(Debug)]
pub enum AutomationAction {
    /// Run `program` with `args` (no shell), `secret` in
    /// `VOICEPASTE_ACTION_SECRET`, and `input` written to standard input.
    Command { program: String, args: Vec<String>, secret: String, input: String },
    /// Write `contents` to `path`, appending or overwriting.
    File { path: String, mode: FileWriteMode, contents: String },
}

pub open spec fn secret_view(c: AutomationConfig) -> Option<Seq<char>> {
    match c.secret {
        Some(s) => Some(s@),
        None => None,
    }
}

/// The action `run` performs for `text`, or the validation message.
pub fn action_for(config: &AutomationConfig, text: &str, fn_control_supported: bool) -> (r: Result<
    AutomationAction,
    String,
>)
    ensures
        match validation_error(*config, fn_control_supported) {
            Some(e) => r matches Err(m) && m@ == e,
            None => match r {
                Err(_) => false,
                Ok(AutomationAction::Command { program, args, secret, input }) => {
                    &&& config.action_kind == AutomationActionKind::Command
                    &&& program@ == trim(config.command@)
                    &&& args@.len() == config.arguments@.len()
                    &&& forall|i: int|
                        0 <= i < args@.len() ==> (#[trigger] args@[i])@ == placeholders_replaced(
                            config.arguments@[i]@,
                            text@,
                            secret_view(*config),
                        )
                    &&& secret@ == match config.secret {
                        Some(s) => s@,
                        None => Seq::empty(),
                    }
                    &&& input@ == text@
                },
                Ok(AutomationAction::File { path, mode, contents }) => {
                    &&& config.action_kind == AutomationActionKind::File
                    &&& path@ == trim(config.file_path@)
                    &&& mode == config.file_mode
                    &&& contents@ == text@.push('\n')
                },
            },
        },
{
    match config.validate(fn_control_supported) {
        Err(e) => return Err(e),
        Ok(()) => {},
    }
    let secret: Option<&str> = match &config.secret {
        Some(s) => Some(s.as_str()),
        None => None,
    };
    match config.action_kind {
        AutomationActionKind::Command => {
            let mut args: Vec<String> = Vec::new();
            let mut i: usize = 0;
            while i < config.arguments.len()
                invariant
                    i <= config.arguments@.len(),
                    args@.len() == i,
                    match secret {
                        Some(x) => config.secret matches Some(s) && x@ == s@,
                        None => config.secret is None,
                    },
                    forall|k: int|
                        0 <= k < i ==> (#[trigger] args@[k])@ == placeholders_replaced(
                            config.arguments@[k]@,
                            text@,
                            secret_view(*config),
                        ),
                decreases config.arguments@.len() - i,
            {
                let arg = replace_placeholders(config.arguments[i].as_str(), text, secret);
                args.push(arg);
                i = i + 1;
            }
            let secret_value: String = match &config.secret {
                Some(s) => s.clone(),
                None => String::new(),
            };
            Ok(
                AutomationAction::Command {
                    program: trimmed_string(&config.command),
                    args,
                    secret: secret_value,
                    input: text.to_owned(),
                },
            )
        },
        AutomationActionKind::File => {
            let mut contents = text.to_owned();
            push_char(&mut contents, '\n');
            Ok(
                AutomationAction::File {
                    path: trimmed_string(&config.file_path),
                    mode: config.file_mode,
                    contents,
                },
            )
        },
    }
}

/// A word-start found by the scan is a whole-word occurrence.
proof fn lemma_first_keyword_is_a_match(t: Seq<char>, kw: Seq<char>, i: int)
    ensures
        first_keyword_from(t, kw, i) matches Some(s) ==> i <= s && keyword_at(t, kw, s),
    decreases t.len() - i,
{
    if 0 <= i < t.len() && !keyword_at(t, kw, i) {
        lemma_first_keyword_is_a_match(t, kw, i + 1);
    }
}

/// A word found by the scan for one ending at `end` is a whole-word
/// occurrence ending there.
proof fn lemma_first_keyword_ending_is_a_match(t: Seq<char>, kw: Seq<char>, end: int, i: int)
    ensures
        first_keyword_ending_from(t, kw, end, i) matches Some(s) ==> keyword_at(t, kw, s) && s
            + kw.len() == end,
    decreases t.len() - i,
{
    if 0 <= i < t.len() && !(keyword_at(t, kw, i) && i + kw.len() == end) {
        lemma_first_keyword_ending_is_a_match(t, kw, end, i + 1);
    }
}

/// A keyword triggers only as a whole word: whenever a transcript yields a
/// payload, the trimmed keyword occurs in it at some index `s`, ignoring
/// case, with neither the character before it nor the one after it (where
/// there are such) alphanumeric; the payload is what follows that
/// occurrence (`Start`, where it also comes right after the leading
/// whitespace, and `Anywhere`) or what precedes it (`End`), with the
/// command padding trimmed.
pub proof fn lemma_keyword_matches_whole_words(
    t: Seq<char>,
    keyword: Seq<char>,
    position: KeywordPosition,
)
    ensures
        !(keyword_payload_model(t, keyword, position) is NoMatch) ==> exists|s: int|
            #[trigger] payload_from_word_at(t, keyword, position, s),
{
    let kw = trim(keyword);
    if kw.len() > 0 {
        match position {
            KeywordPosition::Start => {
                let s = lead_count(t, CharClass::Whitespace) as int;
                if keyword_at(t, kw, s) {
                    assert(payload_from_word_at(t, keyword, position, s));
                }
            },
            KeywordPosition::Anywhere => {
                lemma_first_keyword_is_a_match(t, kw, 0);
                if let Some(s) = first_keyword_from(t, kw, 0) {
                    assert(payload_from_word_at(t, keyword, position, s));
                }
            },
            KeywordPosition::End => {
                let end = t.len() - trail_count(t, CharClass::EndPadding);
                lemma_first_keyword_ending_is_a_match(t, kw, end, 0);
                if let Some(s) = first_keyword_ending_from(t, kw, end, 0) {
                    assert(payload_from_word_at(t, keyword, position, s));
                }
            },
        }
    }
}

/// The trimmed keyword occurs in `t` at index `s`, ignoring case, with
/// neither the character before it nor the one after it (where there are
/// such) alphanumeric; under `Start` it comes right after the leading
/// whitespace; and the payload for `t` is what follows it (`Start`,
/// `Anywhere`) or what precedes it (`End`), with the command padding
/// trimmed.
pub open spec fn payload_from_word_at(
    t: Seq<char>,
    keyword: Seq<char>,
    position: KeywordPosition,
    s: int,
) -> bool {
    let kw = trim(keyword);
    let after = s + kw.len();
    &&& 0 <= s && after <= t.len() && kw.len() > 0
    &&& forall|k: int| 0 <= k < kw.len() ==> lower_eq(#[trigger] t[s + k], kw[k])
    &&& s == 0 || !unicode_alphanumeric(t[s - 1])
    &&& after == t.len() || !unicode_alphanumeric(t[after])
    &&& position == KeywordPosition::Start ==> s == lead_count(t, CharClass::Whitespace)
    &&& keyword_payload_model(t, keyword, position) == match position {
        KeywordPosition::End => payload_of(command_padding_trimmed(t.take(s))),
        _ => payload_of(command_padding_trimmed(t.skip(after))),
    }
}

/// The payload a trimmed command text gives: none left is an empty payload.
pub open spec fn payload_of(q: Seq<char>) -> PayloadModel {
    if q.len() == 0 {
        PayloadModel::EmptyAfterKeyword
    } else {
        PayloadModel::Text(q)
    }
}

} // verus!
