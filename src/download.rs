//! The catalogue of downloadable models and where downloaded files live.
use vstd::prelude::*;
use vstd::string::*;

verus! {

/// A model that can be downloaded.
#[derive(Clone, Copy, Debug)]
pub struct ModelInfo {
    pub name: &'static str,
    pub filename: &'static str,
    pub url: &'static str,
    pub size_description: &'static str,
}

/// Progress of a download, as reported to observers.
#[derive(Clone, Debug, PartialEq, Eq)]
pub struct DownloadProgress {
    pub item: String,
    pub downloaded_bytes: u64,
    pub total_bytes: Option<u64>,
    pub done: bool,
    pub error: Option<String>,
}

/// Where the archive holding the library is published.
pub fn library_zip_url() -> (r: &'static str)
    ensures
        r@ == "https://github.com/Const-me/Whisper/releases/download/1.12.0/Library.zip"@,
{
    "https://github.com/Const-me/Whisper/releases/download/1.12.0/Library.zip"
}

/// File name of the inference library.
pub fn library_file_name() -> (r: &'static str)
    ensures
        r@ == "Whisper.dll"@,
{
    "Whisper.dll"
}

/// File name of the model used when none is configured.
pub fn default_model_file_name() -> (r: &'static str)
    ensures
        r@ == "ggml-medium.bin"@,
{
    "ggml-medium.bin"
}

/// The fields of a catalogue entry: name, file name, address, size note.
pub open spec fn info_view(m: ModelInfo) -> (Seq<char>, Seq<char>, Seq<char>, Seq<char>) {
    (m.name@, m.filename@, m.url@, m.size_description@)
}

/// The downloadable models, smallest first.
pub open spec fn catalog() -> Seq<(Seq<char>, Seq<char>, Seq<char>, Seq<char>)> {
    seq![
        (
            "Small"@,
            "ggml-small.bin"@,
            "https://huggingface.co/ggerganov/whisper.cpp/resolve/main/ggml-small.bin"@,
            "~466 MB - faster, lower accuracy"@,
        ),
        (
            "Medium"@,
            "ggml-medium.bin"@,
            "https://huggingface.co/ggerganov/whisper.cpp/resolve/main/ggml-medium.bin"@,
            "~1.5 GB - recommended balance"@,
        ),
        (
            "Large v3"@,
            "ggml-large-v3.bin"@,
            "https://huggingface.co/ggerganov/whisper.cpp/resolve/main/ggml-large-v3.bin"@,
            "~3 GB - highest accuracy"@,
        ),
    ]
}

/// The downloadable models, smallest first.
pub fn available_models() -> (r: Vec<ModelInfo>)
    ensures
        r@.len() == catalog().len(),
        forall|i: int| 0 <= i < r@.len() ==> #[trigger] info_view(r@[i]) == catalog()[i],
{
    let r = vec![
        ModelInfo {
            name: "Small",
            filename: "ggml-small.bin",
            url: "https://huggingface.co/ggerganov/whisper.cpp/resolve/main/ggml-small.bin",
            size_description: "~466 MB - faster, lower accuracy",
        },
        ModelInfo {
            name: "Medium",
            filename: "ggml-medium.bin",
            url: "https://huggingface.co/ggerganov/whisper.cpp/resolve/main/ggml-medium.bin",
            size_description: "~1.5 GB - recommended balance",
        },
        ModelInfo {
            name: "Large v3",
            filename: "ggml-large-v3.bin",
            url: "https://huggingface.co/ggerganov/whisper.cpp/resolve/main/ggml-large-v3.bin",
            size_description: "~3 GB - highest accuracy",
        },
    ];
    assert(info_view(r@[0]) == catalog()[0]);
    assert(info_view(r@[1]) == catalog()[1]);
    assert(info_view(r@[2]) == catalog()[2]);
    r
}

/// Whether two texts are equal.
pub fn same_text(a: &str, b: &str) -> (r: bool)
    ensures
        r == (a@ == b@),
{
    String::from_str(a) == String::from_str(b)
}

/// The catalogue entry with file name `filename`, if any.
pub fn find_model(filename: &str) -> (r: Option<ModelInfo>)
    ensures
        match r {
            Some(m) => m.filename@ == filename@ && exists|i: int|
                0 <= i < catalog().len() && info_view(m) == #[trigger] catalog()[i],
            None => forall|i: int| 0 <= i < catalog().len() ==> #[trigger] catalog()[i].1 != filename@,
        },
{
    let models = available_models();
    let mut i: usize = 0;
    while i < models.len()
        invariant
            models@.len() == catalog().len(),
            forall|k: int| 0 <= k < models@.len() ==> #[trigger] info_view(models@[k]) == catalog()[k],
            i <= models@.len(),
            forall|k: int| 0 <= k < i ==> #[trigger] catalog()[k].1 != filename@,
        decreases models@.len() - i,
    {
        assert(info_view(models@[i as int]) == catalog()[i as int]);
        if same_text(models[i].filename, filename) {
            return Some(models[i]);
        }
        i = i + 1;
    }
    None
}

/// A path separator on some supported platform.
pub open spec fn is_separator(c: char) -> bool {
    c == '/' || c == '\\'
}

/// A path with the verbatim prefix `\\?\`, under which joining normalizes the path.
pub open spec fn is_verbatim(dir: Seq<char>) -> bool {
    dir.len() >= 4 && dir[0] == '\\' && dir[1] == '\\' && dir[2] == '?' && dir[3] == '\\'
}

/// A directory path that a file name can be joined to with one separator:
/// not empty, not verbatim, not ending in a separator or a drive colon.
pub open spec fn is_plain_dir(dir: Seq<char>) -> bool {
    dir.len() > 0 && !is_separator(dir.last()) && dir.last() != ':' && !is_verbatim(dir)
}

/// A bare file name: not empty, not `.` or `..`, without separators or drive colons.
pub open spec fn is_bare_name(name: Seq<char>) -> bool {
    &&& name.len() > 0
    &&& name != seq!['.']
    &&& name != seq!['.', '.']
    &&& forall|i: int| 0 <= i < name.len() ==> !is_separator(#[trigger] name[i]) && name[i] != ':'
}

/// `dir` and `name` with one platform separator between them.
pub open spec fn joined(r: Seq<char>, dir: Seq<char>, name: Seq<char>) -> bool {
    exists|c: char| is_separator(c) && r == dir + seq![c] + name
}

/// Relies on `std::path::Path::join` (`PathBuf::push`): a relative bare
/// name other than `.` and `..`, joined to a directory that has no verbatim
/// prefix and ends in neither a separator nor a drive colon, is appended
/// after one platform separator, with no normalization.
#[verifier::external_body]
fn join_path(dir: &str, name: &str) -> (r: String)
    requires
        is_plain_dir(dir@),
        is_bare_name(name@),
    ensures
        joined(r@, dir@, name@),
{
    std::path::Path::new(dir).join(name).to_string_lossy().into_owned()
}

/// Where the library is downloaded, inside the data directory.
pub fn dll_path(data_dir: &str) -> (r: String)
    requires
        is_plain_dir(data_dir@),
    ensures
        joined(r@, data_dir@, "Whisper.dll"@),
{
    let name = library_file_name();
    proof {
        reveal_strlit("Whisper.dll");
    }
    join_path(data_dir, name)
}

/// Where a model file is downloaded, inside the data directory.
pub fn model_path(data_dir: &str, filename: &str) -> (r: String)
    requires
        is_plain_dir(data_dir@),
        is_bare_name(filename@),
    ensures
        joined(r@, data_dir@, filename@),
{
    join_path(data_dir, filename)
}

/// `s` ends with `suffix`.
pub open spec fn ends_with(s: Seq<char>, suffix: Seq<char>) -> bool {
    s.len() >= suffix.len() && s.subrange(s.len() - suffix.len(), s.len() as int) == suffix
}

/// Whether an archive entry holds a library: its name ends in `.dll` or `.DLL`.
pub fn is_library_entry(name: &str) -> (r: bool)
    ensures
        r == (ends_with(name@, ".dll"@) || ends_with(name@, ".DLL"@)),
{
    let n = name.unicode_len();
    proof {
        reveal_strlit(".dll");
        reveal_strlit(".DLL");
    }
    if n < 4 {
        return false;
    }
    let tail = name.substring_char(n - 4, n);
    same_text(tail, ".dll") || same_text(tail, ".DLL")
}

/// Availability of one downloadable model.
#[derive(Clone, Debug, PartialEq, Eq)]
pub struct ConstmeModelStatus {
    pub name: String,
    pub filename: String,
    pub size_description: String,
    pub available: bool,
    pub path: Option<String>,
}

/// Availability of the library and of each downloadable model.
#[derive(Clone, Debug, PartialEq, Eq)]
pub struct ConstmeWhisperStatus {
    pub dll_available: bool,
    pub dll_path: Option<String>,
    pub models: Vec<ConstmeModelStatus>,
}

/// The status of a model whose download path is `path` (when it could be
/// determined) and whose file `exists` there; the path is shown only when
/// the model is available.
pub fn model_status(info: &ModelInfo, path: Option<String>, exists: bool) -> (r: ConstmeModelStatus)
    ensures
        r.name@ == info.name@,
        r.filename@ == info.filename@,
        r.size_description@ == info.size_description@,
        r.available == (path is Some && exists),
        r.available ==> r.path == path,
        !r.available ==> r.path is None,
{
    let available = path.is_some() && exists;
    ConstmeModelStatus {
        name: String::from_str(info.name),
        filename: String::from_str(info.filename),
        size_description: String::from_str(info.size_description),
        available,
        path: if available {
            path
        } else {
            None
        },
    }
}

/// The overall status; the library path is shown only when the library exists.
pub fn whisper_status(dll_path: String, dll_exists: bool, models: Vec<ConstmeModelStatus>) -> (r:
    ConstmeWhisperStatus)
    ensures
        r.dll_available == dll_exists,
        dll_exists ==> r.dll_path == Some(dll_path),
        !dll_exists ==> r.dll_path is None,
        r.models@ == models@,
{
    ConstmeWhisperStatus {
        dll_available: dll_exists,
        dll_path: if dll_exists {
            Some(dll_path)
        } else {
            None
        },
        models,
    }
}

} // verus!
