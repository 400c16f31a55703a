//! The model registry: resolving a logical model name to a concrete file
//! and enumerating the models available in the model directory.
//!
//! The registry never touches the file system itself.  The embedding
//! application snapshots the model directory into a [`ModelDirView`] (the
//! directory's path, whether it exists, and the plain file names inside it)
//! and the registry computes resolution, listings and diagnostics from that
//! snapshot alone.

use vstd::prelude::*;
use crate::chat::{ModelInfo, ModelsResponse};
use crate::config::LlmConfig;
use crate::errors::LlmError;
use crate::textutil::{decimal_rep, u64_to_string};

verus! {

/// A snapshot of the model directory, taken by the embedding application:
/// the directory's path, whether it exists, and the names of the files in
/// it (an empty list when it exists but is empty).
#[derive(Debug, Clone)]
pub struct ModelDirView {
    pub path: String,
    pub exists: bool,
    pub files: Vec<String>,
}

/// True of one trailing-part relation: `t` is the suffix of `s`.
pub open spec fn ends_with(s: Seq<char>, t: Seq<char>) -> bool {
    t.len() <= s.len() && s.subrange(s.len() - t.len(), s.len() as int) == t
}

/// True of file names with a recognized model-file extension.
pub open spec fn is_model_file(name: Seq<char>) -> bool {
    ends_with(name, ".gguf"@) || ends_with(name, ".bin"@)
}

/// The logical model id of a file name: the name with its recognized
/// extension stripped.
pub open spec fn stem_of(name: Seq<char>) -> Seq<char> {
    if ends_with(name, ".gguf"@) {
        name.take(name.len() - ".gguf"@.len())
    } else if ends_with(name, ".bin"@) {
        name.take(name.len() - ".bin"@.len())
    } else {
        name
    }
}

/// The logical ids of the model files among the first `n` directory
/// entries, in directory order.
pub open spec fn model_stems(files: Seq<String>, n: int) -> Seq<Seq<char>>
    decreases n,
{
    if n <= 0 {
        Seq::empty()
    } else {
        model_stems(files, n - 1) + if is_model_file(files[n - 1]@) {
            seq![stem_of(files[n - 1]@)]
        } else {
            Seq::<Seq<char>>::empty()
        }
    }
}

/// The logical ids of all model files in the directory, in directory order.
pub open spec fn all_model_stems(files: Seq<String>) -> Seq<Seq<char>> {
    model_stems(files, files.len() as int)
}

/// True when some directory entry is exactly `name`.
pub open spec fn has_file(files: Seq<String>, name: Seq<char>) -> bool {
    exists|k: int| 0 <= k < files.len() && files[k]@ == name
}

/// A path inside the model directory.
pub open spec fn joined(dir: Seq<char>, file: Seq<char>) -> Seq<char> {
    dir + "/"@ + file
}

/// The file name, if any, that a logical model name resolves to inside the
/// directory: `{name}.gguf`, then `{name}.bin`, then the literal name,
/// whichever exists first.
pub open spec fn resolved_file(files: Seq<String>, name: Seq<char>) -> Option<Seq<char>> {
    if has_file(files, name + ".gguf"@) {
        Option::Some(name + ".gguf"@)
    } else if has_file(files, name + ".bin"@) {
        Option::Some(name + ".bin"@)
    } else if has_file(files, name) {
        Option::Some(name)
    } else {
        Option::None
    }
}

/// The items joined with the separator between each adjacent pair.
pub open spec fn join_with(items: Seq<Seq<char>>, sep: Seq<char>) -> Seq<char>
    decreases items.len(),
{
    if items.len() == 0 {
        Seq::empty()
    } else if items.len() == 1 {
        items[0]
    } else {
        items[0] + sep + join_with(items.drop_first(), sep)
    }
}

proof fn lemma_join_push(items: Seq<Seq<char>>, x: Seq<char>, sep: Seq<char>)
    ensures
        join_with(items.push(x), sep) == if items.len() == 0 {
            x
        } else {
            join_with(items, sep) + sep + x
        },
    decreases items.len(),
{
    if items.len() == 0 {
        assert(items.push(x) =~= seq![x]);
    } else {
        lemma_join_push(items.drop_first(), x, sep);
        assert(items.push(x).drop_first() =~= items.drop_first().push(x));
        if items.len() == 1 {
            assert(join_with(items.push(x), sep) =~= items[0] + sep + x);
            assert(join_with(items, sep) == items[0]);
        } else {
            assert(join_with(items, sep) + sep + x =~= items[0] + sep + (join_with(
                items.drop_first(),
                sep,
            ) + sep + x));
        }
    }
}

/// The resolution diagnostic when the model directory itself is missing.
pub open spec fn missing_dir_message(dir: Seq<char>) -> Seq<char> {
    "Models directory does not exist: "@ + dir
}

/// The health diagnostic when the model directory is missing.
pub open spec fn missing_dir_advice(dir: Seq<char>) -> Seq<char> {
    missing_dir_message(dir) + ". Please create the directory and add GGUF model files."@
}

/// The health diagnostic when the directory holds no model files.
pub open spec fn no_models_message(dir: Seq<char>) -> Seq<char> {
    "No GGUF model files found in "@ + dir + ". Please add .gguf model files to this directory."@
}

/// The resolution diagnostic when no file matches the requested name: it
/// enumerates the models actually available in the directory.
pub open spec fn not_found_message(name: Seq<char>, dir: Seq<char>, stems: Seq<Seq<char>>) -> Seq<
    char,
> {
    "Model '"@ + name + "' not found in "@ + dir + ". Available models: ["@ + join_with(
        stems,
        ", "@,
    ) + "]"@
}

/// The health report when model files are present.
pub open spec fn found_models_message(n: nat, dir: Seq<char>, stems: Seq<Seq<char>>) -> Seq<char> {
    "Found "@ + decimal_rep(n) + " model(s) in "@ + dir + ": ["@ + join_with(stems, ", "@) + "]"@
}

fn str_ends_with(s: &str, suffix: &str) -> (r: bool)
    ensures
        r == ends_with(s@, suffix@),
{
    let n = s.unicode_len();
    let m = suffix.unicode_len();
    if m > n {
        return false;
    }
    let mut i: usize = 0;
    while i < m
        invariant
            i <= m,
            m <= n,
            n == s@.len(),
            m == suffix@.len(),
            forall|j: int| 0 <= j < i ==> s@[n - m + j] == suffix@[j],
        decreases m - i,
    {
        let a = s.get_char(n - m + i);
        let b = suffix.get_char(i);
        if a != b {
            proof {
                if ends_with(s@, suffix@) {
                    assert(s@.subrange(n - m, n as int)[i as int] == suffix@[i as int]);
                }
            }
            return false;
        }
        i = i + 1;
    }
    proof {
        assert(s@.subrange(n - m, n as int) =~= suffix@);
    }
    true
}

/// The logical model id of one directory entry.
fn file_stem(name: &str) -> (stem: String)
    ensures
        stem@ == stem_of(name@),
{
    proof {
        reveal_strlit(".gguf");
        reveal_strlit(".bin");
    }
    let n = name.unicode_len();
    if str_ends_with(name, ".gguf") {
        name.substring_char(0, n - 5).to_owned()
    } else if str_ends_with(name, ".bin") {
        name.substring_char(0, n - 4).to_owned()
    } else {
        name.to_owned()
    }
}

fn is_model_file_name(name: &str) -> (r: bool)
    ensures
        r == is_model_file(name@),
{
    str_ends_with(name, ".gguf") || str_ends_with(name, ".bin")
}

fn has_file_exec(files: &Vec<String>, target: &String) -> (r: bool)
    ensures
        r == has_file(files@, target@),
{
    let mut k: usize = 0;
    while k < files.len()
        invariant
            k <= files.len(),
            forall|j: int| 0 <= j < k ==> files@[j]@ != target@,
        decreases files.len() - k,
    {
        if files[k].eq(target) {
            return true;
        }
        k = k + 1;
    }
    false
}

/// Enumerates the model files in the directory snapshot: one entry per file
/// with a recognized extension, its id the file stem, a fixed `"local"`
/// owner tag, and the given creation timestamp.
pub fn scan_available_models(dir: &ModelDirView, created: u64) -> (r: Vec<ModelInfo>)
    ensures
        r@.len() == all_model_stems(dir.files@).len(),
        forall|k: int|
            0 <= k < r@.len() ==> {
                &&& (#[trigger] r@[k]).id@ == all_model_stems(dir.files@)[k]
                &&& r@[k].object@ == "model"@
                &&& r@[k].owned_by@ == "local"@
                &&& r@[k].created == created
            },
{
    let mut out: Vec<ModelInfo> = Vec::new();
    let mut i: usize = 0;
    while i < dir.files.len()
        invariant
            i <= dir.files.len(),
            out@.len() == model_stems(dir.files@, i as int).len(),
            forall|k: int|
                0 <= k < out@.len() ==> {
                    &&& (#[trigger] out@[k]).id@ == model_stems(dir.files@, i as int)[k]
                    &&& out@[k].object@ == "model"@
                    &&& out@[k].owned_by@ == "local"@
                    &&& out@[k].created == created
                },
        decreases dir.files.len() - i,
    {
        let name = &dir.files[i];
        if is_model_file_name(name.as_str()) {
            let info = ModelInfo {
                id: file_stem(name.as_str()),
                object: String::from_str("model"),
                created,
                owned_by: String::from_str("local"),
            };
            out.push(info);
        }
        i = i + 1;
    }
    out
}

/// The ids of the directory's model files joined with `", "`, for the
/// diagnostics that enumerate what is available.
fn joined_model_ids(files: &Vec<String>) -> (s: String)
    ensures
        s@ == join_with(all_model_stems(files@), ", "@),
{
    let mut s = String::new();
    let mut matched: bool = false;
    let mut i: usize = 0;
    while i < files.len()
        invariant
            i <= files.len(),
            matched == (model_stems(files@, i as int).len() > 0),
            s@ == join_with(model_stems(files@, i as int), ", "@),
        decreases files.len() - i,
    {
        let name = &files[i];
        if is_model_file_name(name.as_str()) {
            let stem = file_stem(name.as_str());
            proof {
                lemma_join_push(model_stems(files@, i as int), stem_of(name@), ", "@);
                assert(model_stems(files@, i as int + 1) =~= model_stems(files@, i as int).push(
                    stem_of(name@),
                ));
            }
            if matched {
                s.append(", ");
            }
            s.append(stem.as_str());
            matched = true;
        } else {
            proof {
                assert(model_stems(files@, i as int + 1) =~= model_stems(files@, i as int));
            }
        }
        i = i + 1;
    }
    s
}

/// Resolves a logical model name to a concrete file path.
///
/// An explicit configured path that exists wins outright.  Otherwise the
/// directory snapshot is searched for `{name}.gguf`, `{name}.bin`, or the
/// literal name, in that order.  A missing directory or an unmatched name
/// fails with `ModelError`; the latter diagnostic enumerates the models
/// that are actually available.
pub fn find_model_file(config: &LlmConfig, explicit_path_exists: bool, dir: &ModelDirView, name:
    &String) -> (r: Result<String, LlmError>)
    ensures
        (config.model_path is Some && explicit_path_exists) ==> {
            &&& r is Ok
            &&& r->Ok_0@ == config.model_path->0@
        },
        !(config.model_path is Some && explicit_path_exists) ==> {
            if !dir.exists {
                r matches Err(LlmError::ModelError(m)) && m@ == missing_dir_message(dir.path@)
            } else {
                match resolved_file(dir.files@, name@) {
                    Option::Some(f) => r matches Ok(p) && p@ == joined(dir.path@, f),
                    Option::None => r matches Err(LlmError::ModelError(m)) && m@
                        == not_found_message(name@, dir.path@, all_model_stems(dir.files@)),
                }
            }
        },
{
    if let Option::Some(p) = &config.model_path {
        if explicit_path_exists {
            return Result::Ok(p.clone());
        }
    }
    if !dir.exists {
        let m = String::from_str("Models directory does not exist: ").concat(dir.path.as_str());
        return Result::Err(LlmError::ModelError(m));
    }
    let cand_gguf = name.clone().concat(".gguf");
    let cand_bin = name.clone().concat(".bin");
    let matched: Option<&String> = if has_file_exec(&dir.files, &cand_gguf) {
        Option::Some(&cand_gguf)
    } else if has_file_exec(&dir.files, &cand_bin) {
        Option::Some(&cand_bin)
    } else if has_file_exec(&dir.files, name) {
        Option::Some(name)
    } else {
        Option::None
    };
    match matched {
        Option::Some(f) => {
            let mut p = dir.path.clone();
            p.append("/");
            p.append(f.as_str());
            Result::Ok(p)
        },
        Option::None => {
            let mut m = String::from_str("Model '");
            m.append(name.as_str());
            m.append("' not found in ");
            m.append(dir.path.as_str());
            m.append(". Available models: [");
            let ids = joined_model_ids(&dir.files);
            m.append(ids.as_str());
            m.append("]");
            Result::Err(LlmError::ModelError(m))
        },
    }
}

/// Enumerates the available models as a listing response.
///
/// A directory that exists but is empty yields an empty listing, not an
/// error; a missing directory fails with `ConfigError`.
pub fn list_models(dir: &ModelDirView) -> (r: Result<ModelsResponse, LlmError>)
    ensures
        !dir.exists ==> (r matches Err(LlmError::ConfigError(m)) && m@ == missing_dir_advice(
            dir.path@,
        )),
        dir.exists ==> {
            &&& r is Ok
            &&& r->Ok_0.object@ == "list"@
            &&& r->Ok_0.data@.len() == all_model_stems(dir.files@).len()
            &&& forall|k: int|
                0 <= k < r->Ok_0.data@.len() ==> (#[trigger] r->Ok_0.data@[k]).id@
                    == all_model_stems(dir.files@)[k]
        },
{
    if !dir.exists {
        let mut m = String::from_str("Models directory does not exist: ");
        m.append(dir.path.as_str());
        m.append(". Please create the directory and add GGUF model files.");
        return Result::Err(LlmError::ConfigError(m));
    }
    let created = now_unix_seconds();
    let data = scan_available_models(dir, created);
    Result::Ok(ModelsResponse { object: String::from_str("list"), data })
}

/// Reports whether model files are available, as a human-readable message
/// naming the discovered models, or a typed error when the directory is
/// absent or empty.
pub fn check_llm_health(dir: &ModelDirView) -> (r: Result<String, LlmError>)
    ensures
        !dir.exists ==> (r matches Err(LlmError::ConfigError(m)) && m@ == missing_dir_advice(
            dir.path@,
        )),
        (dir.exists && all_model_stems(dir.files@).len() == 0) ==> (r matches Err(
            LlmError::ModelError(m),
        ) && m@ == no_models_message(dir.path@)),
        (dir.exists && all_model_stems(dir.files@).len() > 0) ==> (r matches Ok(m) && m@
            == found_models_message(
            all_model_stems(dir.files@).len(),
            dir.path@,
            all_model_stems(dir.files@),
        )),
{
    if !dir.exists {
        let mut m = String::from_str("Models directory does not exist: ");
        m.append(dir.path.as_str());
        m.append(". Please create the directory and add GGUF model files.");
        return Result::Err(LlmError::ConfigError(m));
    }
    let created = now_unix_seconds();
    let models = scan_available_models(dir, created);
    if models.len() == 0 {
        let mut m = String::from_str("No GGUF model files found in ");
        m.append(dir.path.as_str());
        m.append(". Please add .gguf model files to this directory.");
        return Result::Err(LlmError::ModelError(m));
    }
    let count = u64_to_string(models.len() as u64);
    let mut m = String::from_str("Found ");
    m.append(count.as_str());
    m.append(" model(s) in ");
    m.append(dir.path.as_str());
    m.append(": [");
    let ids = joined_model_ids(&dir.files);
    m.append(ids.as_str());
    m.append("]");
    Result::Ok(m)
}

/// Relies on `chrono::Utc::now`: the current wall-clock time, rendered as
/// seconds since the Unix epoch, for creation timestamps.  Nothing can be
/// promised of the clock's reading.
#[verifier::external_body]
pub(crate) fn now_unix_seconds() -> u64 {
    chrono::Utc::now().timestamp() as u64
}

} // verus!
