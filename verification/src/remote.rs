//! The Whisper-compatible HTTP API: what a request is made of and what a
//! response means. Sending the request is the caller's part.

use crate::native_stt::{json_text_field, read_json_text};
use crate::settings::{texts, without_trailing_slashes};
use crate::text::{lemma_text_le_total, lemma_text_le_transitive, text_le, text_le_exec, chars_of, push_char, push_str, same_text, string_of_range, strip_prefix_str, trim, trimmed};
use vstd::prelude::*;

verus! {

broadcast use vstd::string::group_string_axioms;

/// Server-side Whisper API transcription. The request itself is sent by
/// the application; this type only builds and reads it.
pub struct Transcriber;

impl Transcriber {
    pub fn new() -> (r: Self) {
        Transcriber
    }
}

/// `base` without trailing slashes, followed by `path`.
pub fn endpoint_url(base_url: &str, path: &str) -> (r: String)
    ensures
        r@ == without_trailing_slashes(base_url@) + path@,
{
    let v = chars_of(base_url);
    let mut end: usize = v.len();
    assert(v@.take(end as int) =~= v@);
    while end > 0 && v[end - 1] == '/'
        invariant
            end <= v@.len(),
            v@ == base_url@,
            without_trailing_slashes(v@.take(end as int)) == without_trailing_slashes(v@),
        decreases end,
    {
        assert(v@.take(end as int).drop_last() =~= v@.take(end - 1));
        end = end - 1;
    }
    let mut r = string_of_range(&v, 0, end);
    assert(r@ =~= v@.take(end as int));
    push_str(&mut r, path);
    r
}

/// The value an environment variable overrides a setting with: a non-empty
/// variable wins.
pub fn env_override(env: Option<&str>, configured: &str) -> (r: String)
    ensures
        r@ == match env {
            Some(e) => if e@.len() > 0 {
                e@
            } else {
                configured@
            },
            None => configured@,
        },
{
    match env {
        Some(e) => {
            if !e.is_empty() {
                return e.to_string();
            }
            configured.to_string()
        },
        None => configured.to_string(),
    }
}

/// The `model` form field: sent unless the model is empty or "auto".
pub fn model_field(model: Option<&str>) -> (r: Option<String>)
    ensures
        match model {
            Some(m) => if m@.len() > 0 && m@ != "auto"@ {
                r matches Some(f) && f@ == m@
            } else {
                r is None
            },
            None => r is None,
        },
{
    match model {
        Some(m) => {
            if !m.is_empty() && !same_text(m, "auto") {
                Some(m.to_string())
            } else {
                None
            }
        },
        None => None,
    }
}

/// The `Authorization` header: a bearer token where a key is set.
pub fn authorization(api_key: &str) -> (r: Option<String>)
    ensures
        api_key@.len() == 0 ==> r is None,
        api_key@.len() > 0 ==> (r matches Some(h) && h@ == "Bearer "@ + api_key@),
{
    if api_key.is_empty() {
        None
    } else {
        let mut h = "Bearer ".to_string();
        push_str(&mut h, api_key);
        Some(h)
    }
}

/// The decimal digits of `n`.
pub open spec fn decimal(n: nat) -> Seq<char>
    decreases n,
{
    if n < 10 {
        seq![digit_char(n)]
    } else {
        decimal(n / 10) + seq![digit_char(n % 10)]
    }
}

/// The ASCII digit for `d` (below ten).
pub open spec fn digit_char(d: nat) -> char {
    (d + 48) as char
}

/// `n` written in decimal.
pub fn decimal_string(n: u64) -> (r: String)
    ensures
        r@ == decimal(n as nat),
    decreases n,
{
    let d: u8 = (n % 10) as u8;
    let c: char = (d + 48) as char;
    assert(c == digit_char((n % 10) as nat));
    if n < 10 {
        let mut r = String::new();
        push_char(&mut r, c);
        assert(r@ =~= seq![digit_char(n as nat)]);
        r
    } else {
        let mut r = decimal_string(n / 10);
        push_char(&mut r, c);
        r
    }
}

/// What a transcription response means: a non-success status is an error
/// with its code and body; otherwise the trimmed `"text"` of the JSON body,
/// which must not be empty.
pub open spec fn transcription_answer(success: bool, status: u16, body: Seq<char>) -> Result<
    Seq<char>,
    Seq<char>,
> {
    if !success {
        Err("HTTP "@ + decimal(status as nat) + ": "@ + body)
    } else {
        match json_text_field(body) {
            Err(e) => Err("JSON parse error: "@ + e),
            Ok(t) => {
                let text = trim(
                    match t {
                        Some(s) => s,
                        None => Seq::empty(),
                    },
                );
                if text.len() == 0 {
                    Err("Empty transcription result"@)
                } else {
                    Ok(text)
                }
            },
        }
    }
}

/// Reads a transcription response.
pub fn transcription_result(success: bool, status: u16, body: &str) -> (r: Result<String, String>)
    ensures
        crate::transcription_service::outcome(r) == transcription_answer(success, status, body@),
{
    if !success {
        let mut m = "HTTP ".to_string();
        let code = decimal_string(status as u64);
        push_str(&mut m, code.as_str());
        push_str(&mut m, ": ");
        push_str(&mut m, body);
        return Err(m);
    }
    match read_json_text(body) {
        Err(e) => {
            let mut m = "JSON parse error: ".to_string();
            push_str(&mut m, e.as_str());
            Err(m)
        },
        Ok(t) => {
            let raw: String = match t {
                Some(s) => s,
                None => String::new(),
            };
            let text = trimmed(raw.as_str());
            if text.as_str().is_empty() {
                Err("Empty transcription result".to_string())
            } else {
                Ok(text)
            }
        },
    }
}

/// What `serde_json` reads from a models response: `None` where the body is
/// not JSON or has no `"data"` array, otherwise for each element of that
/// array its `"id"` where that is a string.
pub uninterp spec fn json_data_ids(body: Seq<char>) -> Option<Seq<Option<Seq<char>>>>;

/// Parses `body` with `serde_json::from_str::<serde_json::Value>`, takes the
/// array under `"data"` (`Value::get`) and, element by element, the string
/// under `"id"`. The result is a function of `body` alone and is only named
/// here.
#[verifier::external_body]
fn read_data_ids(body: &str) -> (r: Option<Vec<Option<String>>>)
    ensures
        match r {
            None => json_data_ids(body@) is None,
            Some(ids) => json_data_ids(body@) == Some(
                ids@.map_values(
                    |i: Option<String>|
                        match i {
                            Some(s) => Some(s@),
                            None => None,
                        },
                ),
            ),
        },
{
    let value: serde_json::Value = serde_json::from_str(body).ok()?;
    let items = match value.get("data") {
        Some(serde_json::Value::Array(items)) => items,
        _ => return None,
    };
    let mut ids = Vec::new();
    for item in items {
        ids.push(match item.get("id") {
            Some(serde_json::Value::String(s)) => Some(s.clone()),
            _ => None,
        });
    }
    Some(ids)
}

/// The ids present in a list, in order.
pub open spec fn present(ids: Seq<Option<Seq<char>>>) -> Seq<Seq<char>>
    decreases ids.len(),
{
    if ids.len() == 0 {
        Seq::empty()
    } else {
        match ids.last() {
            Some(id) => present(ids.drop_last()).push(id),
            None => present(ids.drop_last()),
        }
    }
}

/// Whether a list of strings is in ascending order.
pub open spec fn sorted_texts(s: Seq<Seq<char>>) -> bool {
    forall|i: int, j: int| 0 <= i < j < s.len() ==> text_le(#[trigger] s[i], #[trigger] s[j])
}

/// `v` in ascending order.
fn sort_texts(v: Vec<String>) -> (r: Vec<String>)
    ensures
        texts(r@).to_multiset() == texts(v@).to_multiset(),
        sorted_texts(texts(r@)),
{
    let mut r: Vec<String> = Vec::new();
    let mut k: usize = 0;
    assert(texts(r@) =~= texts(v@).take(0));
    while k < v.len()
        invariant
            k <= v@.len(),
            sorted_texts(texts(r@)),
            texts(r@).to_multiset() == texts(v@).take(k as int).to_multiset(),
        decreases v@.len() - k,
    {
        let x = v[k].clone();
        let xc = chars_of(x.as_str());
        let mut p: usize = 0;
        while p < r.len()
            invariant
                p <= r@.len(),
                xc@ == x@,
                forall|j: int| 0 <= j < p ==> text_le(#[trigger] texts(r@)[j], x@),
            ensures
                p <= r@.len(),
                forall|j: int| 0 <= j < p ==> text_le(#[trigger] texts(r@)[j], x@),
                p < r@.len() ==> !text_le(texts(r@)[p as int], x@),
            decreases r@.len() - p,
        {
            let rc = chars_of(r[p].as_str());
            if !text_le_exec(&rc, &xc) {
                break;
            }
            p = p + 1;
        }
        let ghost before = texts(r@);
        r.insert(p, x);
        proof {
            assert(texts(r@) =~= before.insert(p as int, x@));
            assert(texts(v@).take(k + 1) =~= texts(v@).take(k as int).push(x@));
            vstd::seq_lib::to_multiset_insert(before, p as int, x@);
            vstd::seq_lib::to_multiset_build(texts(v@).take(k as int), x@);
            let after = texts(r@);
            assert forall|i: int, j: int| 0 <= i < j < after.len() implies text_le(
                #[trigger] after[i],
                #[trigger] after[j],
            ) by {
                if j < p {
                    assert(after[i] == before[i] && after[j] == before[j]);
                } else if j == p {
                    assert(after[i] == before[i]);
                } else if i > p {
                    assert(after[i] == before[i - 1] && after[j] == before[j - 1]);
                } else if i == p {
                    assert(after[j] == before[j - 1]);
                    lemma_text_le_total(before[p as int], x@);
                    if j - 1 > p {
                        assert(text_le(before[p as int], before[j - 1]));
                        lemma_text_le_transitive(x@, before[p as int], before[j - 1]);
                    }
                } else {
                    assert(after[i] == before[i] && after[j] == before[j - 1]);
                    lemma_text_le_total(before[p as int], x@);
                    if j - 1 > p {
                        assert(text_le(before[p as int], before[j - 1]));
                        lemma_text_le_transitive(x@, before[p as int], before[j - 1]);
                    }
                    lemma_text_le_transitive(before[i], x@, before[j - 1]);
                }
            }
        }
        k = k + 1;
    }
    assert(texts(v@).take(v@.len() as int) =~= texts(v@));
    r
}

/// The model ids of a models response, in ascending order; none where the
/// body is not a models list.
pub fn model_ids(body: &str) -> (r: Vec<String>)
    ensures
        texts(r@).to_multiset() == match json_data_ids(body@) {
            Some(ids) => present(ids),
            None => Seq::empty(),
        }.to_multiset(),
        sorted_texts(texts(r@)),
{
    let found = ids_in_order(body);
    sort_texts(found)
}

/// The model ids of a models response, in response order.
fn ids_in_order(body: &str) -> (r: Vec<String>)
    ensures
        texts(r@) == match json_data_ids(body@) {
            Some(ids) => present(ids),
            None => Seq::empty(),
        },
{
    let ids = match read_data_ids(body) {
        Some(ids) => ids,
        None => {
            let r: Vec<String> = Vec::new();
            assert(texts(r@) =~= Seq::<Seq<char>>::empty());
            return r;
        },
    };
    let ghost view = ids@.map_values(
        |i: Option<String>|
            match i {
                Some(s) => Some(s@),
                None => None,
            },
    );
    let mut r: Vec<String> = Vec::new();
    let mut k: usize = 0;
    while k < ids.len()
        invariant
            k <= ids@.len(),
            view == ids@.map_values(
                |i: Option<String>|
                    match i {
                        Some(s) => Some(s@),
                        None => None,
                    },
            ),
            texts(r@) == present(view.take(k as int)),
        decreases ids@.len() - k,
    {
        proof {
            assert(view.take(k + 1).drop_last() =~= view.take(k as int));
        }
        match &ids[k] {
            Some(s) => {
                let ghost before = r@;
                r.push(s.clone());
                assert(texts(r@) =~= texts(before).push(s@));
            },
            None => {},
        }
        k = k + 1;
    }
    assert(view.take(ids@.len() as int) =~= view);
    r
}

/// Arguments of the model probe: the endpoint to ask and the API key.
#[derive(Debug, Clone, PartialEq, Eq)]
pub struct ProbeArgs {
    pub endpoint: String,
    pub api_key: String,
}

/// How the model probe reads `args[i..]`, given what it has read so far:
/// `--endpoint <url>` and `--api-key <key>` in any order (the last one
/// wins), a flag without its value and any other argument are errors, and
/// the endpoint is required.
pub open spec fn probe_parse(
    args: Seq<Seq<char>>,
    i: int,
    endpoint: Option<Seq<char>>,
    api_key: Seq<char>,
) -> Result<(Seq<char>, Seq<char>), Seq<char>>
    decreases args.len() - i,
{
    if i < 0 || i >= args.len() {
        match endpoint {
            Some(e) => Ok((e, api_key)),
            None => Err("missing required --endpoint"@),
        }
    } else if args[i] == "--endpoint"@ {
        if i + 1 < args.len() {
            probe_parse(args, i + 2, Some(args[i + 1]), api_key)
        } else {
            Err("missing value for --endpoint"@)
        }
    } else if args[i] == "--api-key"@ {
        if i + 1 < args.len() {
            probe_parse(args, i + 2, endpoint, args[i + 1])
        } else {
            Err("missing value for --api-key"@)
        }
    } else {
        Err("unknown argument: "@ + args[i])
    }
}

/// Reads the model probe's arguments (without the program name).
pub fn parse_probe_args(args: &Vec<String>) -> (r: Result<ProbeArgs, String>)
    ensures
        match r {
            Ok(a) => probe_parse(texts(args@), 0, None, Seq::empty()) == Ok::<
                (Seq<char>, Seq<char>),
                Seq<char>,
            >((a.endpoint@, a.api_key@)),
            Err(e) => probe_parse(texts(args@), 0, None, Seq::empty()) == Err::<
                (Seq<char>, Seq<char>),
                Seq<char>,
            >(e@),
        },
{
    let ghost a = texts(args@);
    let mut endpoint: Option<String> = None;
    let mut api_key = String::new();
    let mut i: usize = 0;
    while i < args.len()
        invariant
            a == texts(args@),
            i <= args@.len(),
            probe_parse(a, i as int, match endpoint {
                Some(e) => Some(e@),
                None => None,
            }, api_key@) == probe_parse(a, 0, None, Seq::empty()),
        decreases args@.len() - i,
    {
        let arg = args[i].as_str();
        assert(a[i as int] == arg@);
        if same_text(arg, "--endpoint") {
            if i + 1 < args.len() {
                assert(a[i + 1] == args@[i + 1]@);
                endpoint = Some(args[i + 1].clone());
                i = i + 2;
            } else {
                return Err("missing value for --endpoint".to_string());
            }
        } else if same_text(arg, "--api-key") {
            if i + 1 < args.len() {
                assert(a[i + 1] == args@[i + 1]@);
                api_key = args[i + 1].clone();
                i = i + 2;
            } else {
                return Err("missing value for --api-key".to_string());
            }
        } else {
            let mut m = "unknown argument: ".to_string();
            push_str(&mut m, arg);
            return Err(m);
        }
    }
    match endpoint {
        Some(e) => Ok(ProbeArgs { endpoint: e, api_key }),
        None => Err("missing required --endpoint".to_string()),
    }
}

/// `s` with every leading repetition of `p` removed.
pub open spec fn strip_all_prefix(s: Seq<char>, p: Seq<char>) -> Seq<char>
    decreases s.len(),
{
    if p.len() > 0 && p.is_prefix_of(s) {
        strip_all_prefix(s.skip(p.len() as int), p)
    } else {
        s
    }
}

/// `s` up to its first `/`.
pub open spec fn before_slash(s: Seq<char>, i: int) -> Seq<char>
    decreases s.len() - i,
{
    if i < 0 || i >= s.len() {
        s
    } else if s[i] == '/' {
        s.take(i)
    } else {
        before_slash(s, i + 1)
    }
}

/// The host part shown for an endpoint: scheme prefixes removed, then
/// everything from the first `/` on.
pub open spec fn url_host(url: Seq<char>) -> Seq<char> {
    before_slash(strip_all_prefix(strip_all_prefix(url, "https://"@), "http://"@), 0)
}

fn strip_all(s: String, p: &str) -> (r: String)
    requires
        p@.len() > 0,
    ensures
        r@ == strip_all_prefix(s@, p@),
    decreases s@.len(),
{
    match strip_prefix_str(s.as_str(), p) {
        Some(rest) => strip_all(rest, p),
        None => s,
    }
}

/// The endpoint as shown in the settings: its host only.
pub fn masked_base_url(url: &str) -> (r: String)
    ensures
        r@ == url_host(url@),
{
    proof {
        reveal_strlit("https://");
        reveal_strlit("http://");
    }
    let a = strip_all(url.to_string(), "https://");
    let b = strip_all(a, "http://");
    let v = chars_of(b.as_str());
    let mut i: usize = 0;
    while i < v.len() && v[i] != '/'
        invariant
            v@ == b@,
            i <= v@.len(),
            before_slash(v@, i as int) == before_slash(v@, 0),
        decreases v@.len() - i,
    {
        i = i + 1;
    }
    let r = string_of_range(&v, 0, i);
    assert(r@ =~= before_slash(v@, i as int));
    r
}

/// Index of the first `\n` in `s` at or after `i` (`s.len()` where there is
/// none).
pub open spec fn newline_from(s: Seq<char>, i: int) -> int
    decreases s.len() - i,
{
    if i < 0 || i >= s.len() {
        s.len() as int
    } else if s[i] == '\n' {
        i
    } else {
        newline_from(s, i + 1)
    }
}

proof fn lemma_newline_from_bounds(s: Seq<char>, i: int)
    requires
        0 <= i <= s.len(),
    ensures
        i <= newline_from(s, i) <= s.len(),
        newline_from(s, i) < s.len() ==> s[newline_from(s, i)] == '\n',
    decreases s.len() - i,
{
    if i < s.len() && s[i] != '\n' {
        lemma_newline_from_bounds(s, i + 1);
    }
}

/// The length a response header line announces, in either spelling.
pub open spec fn header_length(line: Seq<char>) -> Option<u64> {
    if "Content-Length:"@.is_prefix_of(line) && crate::number::parsed_u64(
        trim(line.skip("Content-Length:"@.len() as int)),
    ) is Some {
        crate::number::parsed_u64(trim(line.skip("Content-Length:"@.len() as int)))
    } else if "content-length:"@.is_prefix_of(line) {
        crate::number::parsed_u64(trim(line.skip("content-length:"@.len() as int)))
    } else {
        None
    }
}

/// The first length announced by the header lines of `s`.
pub open spec fn announced_length(s: Seq<char>) -> Option<u64>
    decreases s.len(),
{
    let end = newline_from(s, 0);
    match header_length(s.take(end)) {
        Some(n) => Some(n),
        None => if 0 <= end < s.len() {
            announced_length(s.skip(end + 1))
        } else {
            None
        },
    }
}

fn header_line_length(line: &str) -> (r: Option<u64>)
    ensures
        r == header_length(line@),
{
    if let Some(rest) = strip_prefix_str(line, "Content-Length:") {
        let t = trimmed(rest.as_str());
        if let Some(n) = crate::number::parse_u64(t.as_str()) {
            return Some(n);
        }
    }
    if let Some(rest) = strip_prefix_str(line, "content-length:") {
        let t = trimmed(rest.as_str());
        return crate::number::parse_u64(t.as_str());
    }
    None
}

/// The download size announced by HTTP response headers (`Content-Length`,
/// or the lowercase spelling of HTTP/2), from the first line that gives one.
pub fn content_length(headers: &str) -> (r: Option<u64>)
    ensures
        r == announced_length(headers@),
{
    let v = chars_of(headers);
    let n = v.len();
    let mut start: usize = 0;
    assert(headers@.skip(0) =~= headers@);
    while start <= n
        invariant
            v@ == headers@,
            n == v@.len(),
            start <= n,
            announced_length(headers@) == announced_length(headers@.skip(start as int)),
        decreases n + 1 - start,
    {
        let ghost rest = headers@.skip(start as int);
        let mut end: usize = start;
        while end < n && v[end] != '\n'
            invariant
                v@ == headers@,
                n == v@.len(),
                start <= end <= n,
                newline_from(rest, 0) == newline_from(rest, end - start),
                rest == v@.skip(start as int),
            decreases n - end,
        {
            assert(rest[end - start] == v@[end as int]);
            end = end + 1;
        }
        proof {
            if end < n {
                assert(rest[end - start] == '\n');
            }
            assert(newline_from(rest, end - start) == end - start);
        }
        let line = crate::text::string_of_range(&v, start, end);
        assert(line@ =~= rest.take(end - start));
        if let Some(length) = header_line_length(line.as_str()) {
            return Some(length);
        }
        if end == n {
            return None;
        }
        proof {
            assert(rest.skip(end - start + 1) =~= headers@.skip(end + 1));
        }
        start = end + 1;
    }
    None
}

} // verus!
