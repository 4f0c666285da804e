//! The local whisper.cpp tier: where its model file is looked for and how
//! the model's status is reported. Reading the disk and running whisper.cpp
//! are the caller's part.

use crate::text::{chars_of, same_text};
use vstd::prelude::*;

verus! {

broadcast use vstd::string::group_string_axioms;

/// File name of the default whisper.cpp model.
pub const DEFAULT_MODEL_FILENAME: &'static str = "ggml-base.bin";

/// Stable id of the Whisper base model in the settings.
pub const LOCAL_MODEL_WHISPER_BASE: &'static str = "whisper-base";

/// Stable id of the Parakeet v3 model in the settings.
pub const LOCAL_MODEL_PARAKEET_V3: &'static str = "parakeet-v3";

/// Where the default model is downloaded from.
pub const DEFAULT_MODEL_DOWNLOAD_URL: &'static str =
    "https://huggingface.co/ggerganov/whisper.cpp/resolve/main/ggml-base.bin";

/// Page of the Parakeet v3 model.
pub const PARAKEET_V3_MODEL_URL: &'static str = "https://huggingface.co/nvidia/parakeet-tdt-0.6b-v3";

/// Lightweight status of a local model, for the UI and the logs.
#[derive(Debug, Clone, PartialEq, Eq)]
pub enum ModelStatus {
    NotPresent,
    Present { path: String, bytes: u64 },
}

/// Local on-device transcription with whisper.cpp.
pub struct LocalTranscriber {
    model_path: String,
}

/// What the disk holds for a model search, in the order it is consulted:
/// the `WHISPER_MODEL_PATH` file if it exists, the canonical model file if it
/// exists, the names of the entries of the models folder, and whether the
/// default file name exists in the current folder.
pub struct ModelSearch {
    pub env_path: Option<String>,
    pub canonical: Option<String>,
    pub models_dir_entries: Vec<String>,
    pub in_current_dir: bool,
}

/// The extension of a file name, as `Path::extension` reads it: the part
/// after the last `.`, unless that `.` starts the name.
pub open spec fn extension(name: Seq<char>) -> Option<Seq<char>> {
    match last_dot(name, name.len() as int) {
        Some(i) => if i == 0 {
            None
        } else {
            Some(name.skip(i + 1))
        },
        None => None,
    }
}

/// Index of the last `.` before `end`.
pub open spec fn last_dot(name: Seq<char>, end: int) -> Option<int>
    decreases end,
{
    if end <= 0 {
        None
    } else if name[end - 1] == '.' {
        Some(end - 1)
    } else {
        last_dot(name, end - 1)
    }
}

proof fn lemma_last_dot_bounds(name: Seq<char>, end: int)
    requires
        0 <= end <= name.len(),
    ensures
        match last_dot(name, end) {
            Some(i) => 0 <= i < end && name[i] == '.',
            None => true,
        },
    decreases end,
{
    if end > 0 && name[end - 1] != '.' {
        lemma_last_dot_bounds(name, end - 1);
    }
}

/// Whether a file name has the extension `bin`.
pub fn has_bin_extension(name: &str) -> (r: bool)
    ensures
        r == (extension(name@) == Some("bin"@)),
{
    let v = chars_of(name);
    let mut end: usize = v.len();
    while end > 0 && v[end - 1] != '.'
        invariant
            v@ == name@,
            end <= v@.len(),
            last_dot(name@, name@.len() as int) == last_dot(name@, end as int),
        decreases end,
    {
        end = end - 1;
    }
    proof {
        reveal_strlit("bin");
    }
    if end <= 1 {
        return false;
    }
    // the extension is v[end..]
    let n = v.len();
    let ok = n - end == 3 && v[end] == 'b' && v[end + 1] == 'i' && v[end + 2] == 'n';
    proof {
        let ext = name@.skip(end as int);
        assert(last_dot(name@, end as int) == Some(end - 1));
        if ok {
            assert(ext =~= "bin"@);
        } else if ext.len() == 3 {
            assert(ext[0] == v@[end as int] && ext[1] == v@[end + 1] && ext[2] == v@[end + 2]);
        }
    }
    ok
}

/// Index of the first name with the `bin` extension.
pub fn first_bin_entry(names: &Vec<String>) -> (r: Option<usize>)
    ensures
        match r {
            Some(i) => i < names@.len() && extension(names@[i as int]@) == Some("bin"@) && forall|
                k: int,
            |
                0 <= k < i ==> extension(#[trigger] names@[k]@) != Some("bin"@),
            None => forall|k: int|
                0 <= k < names@.len() ==> extension(#[trigger] names@[k]@) != Some("bin"@),
        },
{
    let mut i: usize = 0;
    while i < names.len()
        invariant
            i <= names@.len(),
            forall|k: int| 0 <= k < i ==> extension(#[trigger] names@[k]@) != Some("bin"@),
        decreases names@.len() - i,
    {
        if has_bin_extension(names[i].as_str()) {
            return Some(i);
        }
        i = i + 1;
    }
    None
}

/// The model a search finds: Parakeet has no model file; otherwise the
/// environment's path, the canonical file, the first `.bin` entry of the
/// models folder, and the default file in the current folder, in that order.
pub open spec fn found_model(model: Seq<char>, search: ModelSearch) -> Option<Seq<char>> {
    if model == "parakeet-v3"@ {
        None
    } else if search.env_path is Some {
        Some(search.env_path->0@)
    } else if search.canonical is Some {
        Some(search.canonical->0@)
    } else if exists|k: int|
        0 <= k < search.models_dir_entries@.len() && extension(
            #[trigger] search.models_dir_entries@[k]@,
        ) == Some("bin"@) {
        let k = choose|k: int|
            0 <= k < search.models_dir_entries@.len() && extension(
                #[trigger] search.models_dir_entries@[k]@,
            ) == Some("bin"@) && forall|j: int|
                0 <= j < k ==> extension(#[trigger] search.models_dir_entries@[j]@) != Some(
                    "bin"@,
                );
        Some(search.models_dir_entries@[k]@)
    } else if search.in_current_dir {
        Some("ggml-base.bin"@)
    } else {
        None
    }
}

impl LocalTranscriber {
    /// The model file this transcriber loads.
    pub closed spec fn model_path(&self) -> Seq<char> {
        self.model_path@
    }

    pub fn new(model_path: &str) -> (r: Self)
        ensures
            r.model_path() == model_path@,
    {
        LocalTranscriber { model_path: model_path.to_string() }
    }

    /// Finds the selected local model from what the disk holds.
    pub fn find_model_for(model: &str, search: &ModelSearch) -> (r: Option<String>)
        ensures
            match r {
                Some(p) => found_model(model@, *search) == Some(p@),
                None => found_model(model@, *search) is None,
            },
    {
        if same_text(model, LOCAL_MODEL_PARAKEET_V3) {
            return None;
        }
        if let Some(p) = &search.env_path {
            return Some(p.clone());
        }
        if let Some(p) = &search.canonical {
            return Some(p.clone());
        }
        match first_bin_entry(&search.models_dir_entries) {
            Some(i) => {
                proof {
                    let k = choose|k: int|
                        0 <= k < search.models_dir_entries@.len() && extension(
                            #[trigger] search.models_dir_entries@[k]@,
                        ) == Some("bin"@) && forall|j: int|
                            0 <= j < k ==> extension(
                                #[trigger] search.models_dir_entries@[j]@,
                            ) != Some("bin"@);
                    assert(k == i as int) by {
                        if k < i {
                            assert(extension(search.models_dir_entries@[k]@) != Some("bin"@));
                        }
                        if i < k {
                            assert(extension(search.models_dir_entries@[i as int]@) != Some(
                                "bin"@,
                            ));
                        }
                    }
                }
                Some(search.models_dir_entries[i].clone())
            },
            None => {
                if search.in_current_dir {
                    Some(DEFAULT_MODEL_FILENAME.to_string())
                } else {
                    None
                }
            },
        }
    }

    /// Finds the default Whisper model.
    pub fn find_model(search: &ModelSearch) -> (r: Option<String>)
        ensures
            match r {
                Some(p) => found_model("whisper-base"@, *search) == Some(p@),
                None => found_model("whisper-base"@, *search) is None,
            },
    {
        LocalTranscriber::find_model_for(LOCAL_MODEL_WHISPER_BASE, search)
    }

    /// The status of a model: present with its size once found.
    pub fn model_status(found: Option<String>, bytes: u64) -> (r: ModelStatus)
        ensures
            match found {
                None => r == ModelStatus::NotPresent,
                Some(p) => r matches ModelStatus::Present { path, bytes: b } && path@ == p@ && b
                    == bytes,
            },
    {
        match found {
            None => ModelStatus::NotPresent,
            Some(path) => ModelStatus::Present { path, bytes },
        }
    }
}

/// `dir` joined with `name` the way `Path::join` joins a relative name on
/// Unix: a separator is added unless `dir` is empty or already ends in one.
pub open spec fn joined(dir: Seq<char>, name: Seq<char>) -> Seq<char> {
    if dir.len() == 0 || dir.last() == '/' {
        dir + name
    } else {
        dir + seq!['/'] + name
    }
}

/// Full path of the default model file inside the models folder.
pub fn default_model_path(models_dir: &str) -> (r: String)
    ensures
        r@ == joined(models_dir@, "ggml-base.bin"@),
{
    let v = chars_of(models_dir);
    let mut r = models_dir.to_string();
    if v.len() > 0 && v[v.len() - 1] != '/' {
        crate::text::push_char(&mut r, '/');
    }
    crate::text::push_str(&mut r, DEFAULT_MODEL_FILENAME);
    proof {
        if v@.len() > 0 && v@.last() != '/' {
            assert(r@ =~= joined(models_dir@, "ggml-base.bin"@));
        }
    }
    r
}

} // verus!
