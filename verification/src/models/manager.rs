//! Where model files live on disk, when a model counts as downloaded, and the
//! bookkeeping of a download: which files to fetch, the progress reported
//! while fetching, and the errors each step reports.
use vstd::prelude::*;
use crate::errors::AppError;
use crate::models::registry::{
    all_models, find_model, flag_at, get_model, model_views, registry, shows, FileView, ModelFile,
    ModelInfoDto,
};
use crate::text::str_eq;
use crate::paths::{join_path, path_join};

verus! {

/// Name of the directory, inside the configuration directory, that holds one directory per model.
pub const MODELS_DIR_NAME: &'static str = "models";

/// Directory holding all models, inside the configuration directory `config_dir`.
pub open spec fn models_dir_path(config_dir: Seq<char>) -> Seq<char> {
    path_join(config_dir, MODELS_DIR_NAME@)
}

/// Directory of one model.
pub open spec fn model_dir_path(config_dir: Seq<char>, model_id: Seq<char>) -> Seq<char> {
    path_join(models_dir_path(config_dir), model_id)
}

/// Path of one file of a model.
pub open spec fn model_file_path_of(config_dir: Seq<char>, model_id: Seq<char>, relative_path: Seq<char>) -> Seq<char> {
    path_join(model_dir_path(config_dir, model_id), relative_path)
}

/// Directory holding all models.
pub fn models_dir(config_dir: &str) -> (r: String)
    ensures
        r@ == models_dir_path(config_dir@),
{
    join_path(config_dir, MODELS_DIR_NAME)
}

/// Directory of the model `model_id`.
pub fn model_dir(config_dir: &str, model_id: &str) -> (r: String)
    ensures
        r@ == model_dir_path(config_dir@, model_id@),
{
    let d = models_dir(config_dir);
    join_path(d.as_str(), model_id)
}

/// Path of the file `relative_path` of the model `model_id`.
pub fn model_file_path(config_dir: &str, model_id: &str, relative_path: &str) -> (r: String)
    ensures
        r@ == model_file_path_of(config_dir@, model_id@, relative_path@),
{
    let d = model_dir(config_dir, model_id);
    join_path(d.as_str(), relative_path)
}

/// The outcome of asking for the main file of a Whisper model: its path, or
/// the configuration error for an unknown model or one without files.
pub open spec fn whisper_path_outcome(config_dir: Seq<char>, model_id: Seq<char>) -> Result<Seq<char>, Seq<char>> {
    match find_model(registry(), model_id) {
        None => Err("Unknown model: "@ + model_id),
        Some(m) => if m.files.len() == 0 {
            Err("Model "@ + model_id + " has no files"@)
        } else {
            Ok(model_file_path_of(config_dir, model_id, m.files[0].relative_path))
        },
    }
}

/// Whether an exec path result is the spec outcome, errors being `Config` errors.
pub open spec fn path_agrees(r: Result<String, AppError>, o: Result<Seq<char>, Seq<char>>) -> bool {
    match (r, o) {
        (Ok(p), Ok(q)) => p@ == q,
        (Err(AppError::Config(m)), Err(t)) => m@ == t,
        _ => false,
    }
}

/// Path of the primary file (the `.bin` weights) of a Whisper model.
pub fn whisper_model_path(config_dir: &str, model_id: &str) -> (r: Result<String, AppError>)
    ensures
        path_agrees(r, whisper_path_outcome(config_dir@, model_id@)),
{
    match get_model(model_id) {
        None => {
            let mut m = String::from_str("Unknown model: ");
            m.append(model_id);
            Err(AppError::Config(m))
        },
        Some(info) => {
            if info.files.len() == 0 {
                let mut m = String::from_str("Model ");
                m.append(model_id);
                m.append(" has no files");
                Err(AppError::Config(m))
            } else {
                assert(info@.files[0] == info.files@[0]@);
                Ok(model_file_path(config_dir, model_id, info.files[0].relative_path.as_str()))
            }
        },
    }
}

/// Paths of the weights and the token table of a SenseVoice model.
pub fn sensevoice_model_paths(config_dir: &str, model_id: &str) -> (r: (String, String))
    ensures
        r.0@ == model_file_path_of(config_dir@, model_id@, "model.int8.onnx"@),
        r.1@ == model_file_path_of(config_dir@, model_id@, "tokens.txt"@),
{
    let d = model_dir(config_dir, model_id);
    (join_path(d.as_str(), "model.int8.onnx"), join_path(d.as_str(), "tokens.txt"))
}

/// Paths of the weights and the token table of a Paraformer model.
pub fn paraformer_model_paths(config_dir: &str, model_id: &str) -> (r: (String, String))
    ensures
        r.0@ == model_file_path_of(config_dir@, model_id@, "model.int8.onnx"@),
        r.1@ == model_file_path_of(config_dir@, model_id@, "tokens.txt"@),
{
    let d = model_dir(config_dir, model_id);
    (join_path(d.as_str(), "model.int8.onnx"), join_path(d.as_str(), "tokens.txt"))
}

/// Paths of the preprocessor, encoder, uncached and cached decoders and
/// token table of a Moonshine model.
pub fn moonshine_model_paths(config_dir: &str, model_id: &str) -> (r: (String, String, String, String, String))
    ensures
        r.0@ == model_file_path_of(config_dir@, model_id@, "preprocess.onnx"@),
        r.1@ == model_file_path_of(config_dir@, model_id@, "encode.int8.onnx"@),
        r.2@ == model_file_path_of(config_dir@, model_id@, "uncached_decode.int8.onnx"@),
        r.3@ == model_file_path_of(config_dir@, model_id@, "cached_decode.int8.onnx"@),
        r.4@ == model_file_path_of(config_dir@, model_id@, "tokens.txt"@),
{
    let d = model_dir(config_dir, model_id);
    (
        join_path(d.as_str(), "preprocess.onnx"),
        join_path(d.as_str(), "encode.int8.onnx"),
        join_path(d.as_str(), "uncached_decode.int8.onnx"),
        join_path(d.as_str(), "cached_decode.int8.onnx"),
        join_path(d.as_str(), "tokens.txt"),
    )
}

/// Paths of every file of the model `model_id`, in catalogue order; `None` for an unknown model.
pub fn model_file_paths(config_dir: &str, model_id: &str) -> (r: Option<Vec<String>>)
    ensures
        match (r, find_model(registry(), model_id@)) {
            (None, None) => true,
            (Some(v), Some(m)) => v@.len() == m.files.len() && forall|i: int| 0 <= i < v@.len()
                ==> (#[trigger] v@[i])@ == model_file_path_of(config_dir@, model_id@, m.files[i].relative_path),
            _ => false,
        },
{
    match get_model(model_id) {
        None => None,
        Some(info) => {
            let ghost m = info@;
            let mut out: Vec<String> = Vec::new();
            let mut i: usize = 0;
            while i < info.files.len()
                invariant
                    m == info@,
                    i <= info.files@.len(),
                    out@.len() == i,
                    forall|k: int| 0 <= k < i ==> (#[trigger] out@[k])@ == model_file_path_of(
                        config_dir@,
                        model_id@,
                        m.files[k].relative_path,
                    ),
                decreases info.files@.len() - i,
            {
                assert(m.files[i as int] == info.files@[i as int]@);
                out.push(model_file_path(config_dir, model_id, info.files[i].relative_path.as_str()));
                i = i + 1;
            }
            Some(out)
        },
    }
}

/// Whether every file is present with some content.
pub open spec fn all_present(file_sizes: Seq<Option<u64>>) -> bool {
    forall|i: int| 0 <= i < file_sizes.len() ==> (#[trigger] file_sizes[i] matches Some(n) && n > 0)
}

/// Whether a model counts as downloaded: it is in the catalogue and each of
/// its files exists with a non-zero size.
pub open spec fn downloaded(model_id: Seq<char>, file_sizes: Seq<Option<u64>>) -> bool {
    match find_model(registry(), model_id) {
        None => false,
        Some(m) => file_sizes.len() == m.files.len() && all_present(file_sizes),
    }
}

/// Whether the model `model_id` is downloaded, given the size of each of its
/// files in catalogue order (`None` for a file that is missing or whose size
/// could not be read).
pub fn is_model_downloaded(model_id: &str, file_sizes: &[Option<u64>]) -> (r: bool)
    ensures
        r == downloaded(model_id@, file_sizes@),
{
    match get_model(model_id) {
        None => false,
        Some(info) => {
            if file_sizes.len() != info.files.len() {
                return false;
            }
            let mut i: usize = 0;
            while i < file_sizes.len()
                invariant
                    i <= file_sizes@.len(),
                    forall|k: int| 0 <= k < i ==> (#[trigger] file_sizes@[k] matches Some(n) && n > 0),
                decreases file_sizes@.len() - i,
            {
                match file_sizes[i] {
                    Some(n) => {
                        if n == 0 {
                            return false;
                        }
                    },
                    None => {
                        return false;
                    },
                }
                i = i + 1;
            }
            true
        },
    }
}

/// Progress of a model download, as reported to the user interface.
#[derive(Debug, Clone)]
pub struct DownloadProgress {
    pub model_id: String,
    pub file_name: String,
    pub downloaded_bytes: u64,
    pub total_bytes: u64,
    pub file_index: usize,
    pub total_files: usize,
}

/// Whether `p` reports the given values.
pub open spec fn reports(
    p: DownloadProgress,
    model_id: Seq<char>,
    file_name: Seq<char>,
    downloaded_bytes: u64,
    total_bytes: u64,
    file_index: usize,
    total_files: usize,
) -> bool {
    &&& p.model_id@ == model_id
    &&& p.file_name@ == file_name
    &&& p.downloaded_bytes == downloaded_bytes
    &&& p.total_bytes == total_bytes
    &&& p.file_index == file_index
    &&& p.total_files == total_files
}

/// The views of a list of model files.
pub open spec fn file_views(v: Seq<ModelFile>) -> Seq<FileView> {
    v.map_values(|f: ModelFile| f@)
}

/// The progress reported for a file that is already on disk: complete, at its catalogue size.
pub fn existing_file_progress(model_id: &str, file: &ModelFile, file_index: usize, total_files: usize) -> (r: DownloadProgress)
    ensures
        reports(r, model_id@, file.relative_path@, file.size_bytes, file.size_bytes, file_index, total_files),
{
    DownloadProgress {
        model_id: String::from_str(model_id),
        file_name: file.relative_path.clone(),
        downloaded_bytes: file.size_bytes,
        total_bytes: file.size_bytes,
        file_index,
        total_files,
    }
}

/// Name under which a file is written while it downloads.
pub fn download_tmp_name(relative_path: &str) -> (r: String)
    ensures
        r@ == relative_path@ + ".downloading"@,
{
    let mut s = String::from_str(relative_path);
    s.append(".downloading");
    s
}

/// The step of a download that failed.
pub enum DownloadStep {
    /// Creating the directory that holds all models.
    ModelsDir,
    /// Creating the model's own directory.
    ModelDir,
    /// Building the HTTP client.
    Client,
    /// Sending the request or receiving the response head.
    Request,
    /// Creating the temporary file.
    CreateFile,
    /// Receiving a chunk of the body.
    Stream,
    /// Writing a chunk to the temporary file.
    Write,
    /// Flushing the temporary file.
    Flush,
    /// Renaming the temporary file into place.
    Rename,
}

/// The message reported when `step` fails for the file `relative_path` with `detail`.
pub open spec fn download_error_text(step: DownloadStep, relative_path: Seq<char>, detail: Seq<char>) -> Seq<char> {
    match step {
        DownloadStep::ModelsDir => "Failed to create models directory: "@ + detail,
        DownloadStep::ModelDir => "Failed to create model directory: "@ + detail,
        DownloadStep::Client => "Failed to create HTTP client: "@ + detail,
        DownloadStep::Request => "Failed to download "@ + relative_path + ": "@ + detail,
        DownloadStep::CreateFile => "Failed to create file: "@ + detail,
        DownloadStep::Stream => "Download stream error: "@ + detail,
        DownloadStep::Write => "Failed to write to file: "@ + detail,
        DownloadStep::Flush => "Failed to flush file: "@ + detail,
        DownloadStep::Rename => "Failed to rename downloaded file: "@ + detail,
    }
}

/// The configuration error reported when `step` fails.
pub fn download_error(step: DownloadStep, relative_path: &str, detail: &str) -> (r: AppError)
    ensures
        r matches AppError::Config(m) && m@ == download_error_text(step, relative_path@, detail@),
{
    let mut m = match step {
        DownloadStep::ModelsDir => String::from_str("Failed to create models directory: "),
        DownloadStep::ModelDir => String::from_str("Failed to create model directory: "),
        DownloadStep::Client => String::from_str("Failed to create HTTP client: "),
        DownloadStep::Request => {
            let mut s = String::from_str("Failed to download ");
            s.append(relative_path);
            s.append(": ");
            s
        },
        DownloadStep::CreateFile => String::from_str("Failed to create file: "),
        DownloadStep::Stream => String::from_str("Download stream error: "),
        DownloadStep::Write => String::from_str("Failed to write to file: "),
        DownloadStep::Flush => String::from_str("Failed to flush file: "),
        DownloadStep::Rename => String::from_str("Failed to rename downloaded file: "),
    };
    m.append(detail);
    AppError::Config(m)
}

/// The configuration error for a response whose status is not a success;
/// `status` is the status as the HTTP library prints it.
pub fn download_status_error(relative_path: &str, status: &str) -> (r: AppError)
    ensures
        r matches AppError::Config(m) && m@ == "Download failed for "@ + relative_path@ + ": HTTP "@ + status@,
{
    let mut m = String::from_str("Download failed for ");
    m.append(relative_path);
    m.append(": HTTP ");
    m.append(status);
    AppError::Config(m)
}

/// Where a model download stands.
#[derive(Debug, Clone, Copy, PartialEq, Eq, Structural)]
pub enum DownloadPhase {
    /// The model's directories are being created.
    Preparing,
    /// The destination of the current file is being looked at.
    Inspecting,
    /// The current file is being requested.
    Requesting,
    /// The temporary file of the current file is being created.
    Opening,
    /// The body of the current file is being received.
    Receiving,
    /// The current file is being flushed and moved into place.
    Storing,
    /// The download is over, successfully or not.
    Finished,
}

/// What the caller of a download does next.
pub enum DownloadAction {
    /// Create the directory of all models, then the model's own directory.
    PrepareDirs { models_dir: String, model_dir: String },
    /// Look at `dest` and report its size (`None` when it is missing or its size cannot be read).
    Inspect { dest: String },
    /// Send a GET request for `url` with a fresh HTTP client.
    Request { url: String },
    /// Create the temporary file `tmp`.
    Open { tmp: String },
    /// Receive the next chunk of the body and append it to the temporary file.
    Receive,
    /// Flush the temporary file, then rename `tmp` to `dest`.
    Store { tmp: String, dest: String },
    /// The download is over with this outcome.
    Finish(Result<(), AppError>),
}

/// A model download as plain values.
pub struct DownloadView {
    pub model_id: Seq<char>,
    pub dir: Seq<char>,
    pub files: Seq<FileView>,
    pub index: int,
    pub phase: DownloadPhase,
    pub received: u64,
    pub expected: u64,
}

/// The state of one model download: the files still to fetch, the file at
/// hand, the step it is at, and the bytes of that file received so far.
/// The caller performs each action and hands the outcome back.
pub struct ModelDownload {
    model_id: String,
    dir: String,
    files: Vec<ModelFile>,
    index: usize,
    phase: DownloadPhase,
    received: u64,
    expected: u64,
}

impl View for ModelDownload {
    type V = DownloadView;

    closed spec fn view(&self) -> DownloadView {
        DownloadView {
            model_id: self.model_id@,
            dir: self.dir@,
            files: file_views(self.files@),
            index: self.index as int,
            phase: self.phase,
            received: self.received,
            expected: self.expected,
        }
    }
}

/// Whether the view is consistent: the position is within the files, and
/// points at a file in every phase that works on one.
pub open spec fn download_wf(v: DownloadView) -> bool {
    &&& 0 <= v.index <= v.files.len()
    &&& (v.phase == DownloadPhase::Preparing ==> v.index == 0)
    &&& (v.phase != DownloadPhase::Preparing && v.phase != DownloadPhase::Finished ==> v.index < v.files.len())
}

/// Destination of the current file.
pub open spec fn dest_of(v: DownloadView) -> Seq<char> {
    path_join(v.dir, v.files[v.index].relative_path)
}

/// Temporary name of the current file while it downloads.
pub open spec fn tmp_of(v: DownloadView) -> Seq<char> {
    path_join(v.dir, v.files[v.index].relative_path + ".downloading"@)
}

/// The name errors mention: the current file, or nothing while preparing.
pub open spec fn current_name(v: DownloadView) -> Seq<char> {
    if v.phase == DownloadPhase::Preparing {
        Seq::empty()
    } else {
        v.files[v.index].relative_path
    }
}

/// The state after the file at `index` is done (or before the first one):
/// the next file is inspected, or the download succeeds when none is left.
pub open spec fn moved_to(v: DownloadView, index: int) -> DownloadView {
    DownloadView {
        index,
        phase: if index == v.files.len() { DownloadPhase::Finished } else { DownloadPhase::Inspecting },
        ..v
    }
}

/// Whether `a` is the action that follows moving to the state `v`.
pub open spec fn follows_move(v: DownloadView, a: DownloadAction) -> bool {
    if v.index == v.files.len() {
        a matches DownloadAction::Finish(Ok(()))
    } else {
        a matches DownloadAction::Inspect { dest } && dest@ == dest_of(v)
    }
}

/// Which failures can happen in which phase.
pub open spec fn step_fits(phase: DownloadPhase, step: DownloadStep) -> bool {
    match step {
        DownloadStep::ModelsDir | DownloadStep::ModelDir => phase == DownloadPhase::Preparing,
        DownloadStep::Client | DownloadStep::Request => phase == DownloadPhase::Requesting,
        DownloadStep::CreateFile => phase == DownloadPhase::Opening,
        DownloadStep::Stream | DownloadStep::Write => phase == DownloadPhase::Receiving,
        DownloadStep::Flush | DownloadStep::Rename => phase == DownloadPhase::Storing,
    }
}

impl ModelDownload {
    /// Whether the download's state is consistent.
    pub closed spec fn wf(&self) -> bool {
        &&& download_wf(self@)
        &&& self.files@.len() == file_views(self.files@).len()
    }

    /// Starts downloading the model `model_id` into the configuration
    /// directory `config_dir`: an unknown model is refused first, then a
    /// configuration directory that could not be determined; otherwise the
    /// model's directories are prepared first.
    pub fn begin(model_id: &str, config_dir: Result<String, AppError>) -> (r: Result<(ModelDownload, DownloadAction), AppError>)
        ensures
            find_model(registry(), model_id@) is None ==> (r matches Err(AppError::Config(m))
                && m@ == "Unknown model: "@ + model_id@),
            find_model(registry(), model_id@) is Some && config_dir is Err ==> r == Err::<(ModelDownload, DownloadAction), AppError>(
                config_dir->Err_0),
            find_model(registry(), model_id@) matches Some(m) ==> (config_dir matches Ok(d) ==> {
                &&& r matches Ok((s, a))
                &&& s.wf()
                &&& s@ == (DownloadView {
                    model_id: model_id@,
                    dir: model_dir_path(d@, model_id@),
                    files: m.files,
                    index: 0,
                    phase: DownloadPhase::Preparing,
                    received: 0,
                    expected: 0,
                })
                &&& a matches DownloadAction::PrepareDirs { models_dir, model_dir }
                &&& models_dir@ == models_dir_path(d@)
                &&& model_dir@ == model_dir_path(d@, model_id@)
            }),
    {
        let info = match get_model(model_id) {
            Some(info) => info,
            None => {
                let mut m = String::from_str("Unknown model: ");
                m.append(model_id);
                return Err(AppError::Config(m));
            },
        };
        let base = match config_dir {
            Ok(d) => d,
            Err(e) => return Err(e),
        };
        let models = models_dir(base.as_str());
        let dir = model_dir(base.as_str(), model_id);
        let session = ModelDownload {
            model_id: String::from_str(model_id),
            dir: dir.clone(),
            files: info.files,
            index: 0,
            phase: DownloadPhase::Preparing,
            received: 0,
            expected: 0,
        };
        assert(dir@ == session.dir@);
        Ok((session, DownloadAction::PrepareDirs { models_dir: models, model_dir: dir }))
    }

    /// The step the download is at.
    pub fn phase(&self) -> (r: DownloadPhase)
        ensures
            r == self@.phase,
    {
        self.phase
    }

    /// Bytes of the current file received so far.
    pub fn received_bytes(&self) -> (r: u64)
        ensures
            r == self@.received,
    {
        self.received
    }

    /// Moves to the file at `index`, or finishes when there is none.
    fn move_to(&mut self, index: usize) -> (r: DownloadAction)
        requires
            index <= old(self)@.files.len(),
            old(self).wf(),
        ensures
            final(self)@ == moved_to(old(self)@, index as int),
            final(self).wf(),
            follows_move(final(self)@, r),
    {
        self.index = index;
        if index == self.files.len() {
            self.phase = DownloadPhase::Finished;
            DownloadAction::Finish(Ok(()))
        } else {
            self.phase = DownloadPhase::Inspecting;
            let dest = join_path(self.dir.as_str(), self.files[index].relative_path.as_str());
            DownloadAction::Inspect { dest }
        }
    }

    /// The directories exist: the first file is inspected, or the download
    /// succeeds at once when the model has no files.
    pub fn dirs_ready(&mut self) -> (r: (Option<DownloadProgress>, DownloadAction))
        requires
            old(self).wf(),
            old(self)@.phase == DownloadPhase::Preparing,
        ensures
            final(self).wf(),
            final(self)@ == moved_to(old(self)@, 0),
            r.0 is None,
            follows_move(final(self)@, r.1),
    {
        (None, self.move_to(0))
    }

    /// The destination of the current file has size `size` (`None` when
    /// missing or unreadable). A file with content is kept: it is reported
    /// complete at its catalogue size and the next file follows. Otherwise
    /// the file is requested.
    pub fn inspected(&mut self, size: Option<u64>) -> (r: (Option<DownloadProgress>, DownloadAction))
        requires
            old(self).wf(),
            old(self)@.phase == DownloadPhase::Inspecting,
        ensures
            final(self).wf(),
            size matches Some(n) && n > 0 ==> {
                &&& final(self)@ == moved_to(old(self)@, old(self)@.index + 1)
                &&& r.0 matches Some(p) && reports(p, old(self)@.model_id, old(self)@.files[old(self)@.index].relative_path,
                    old(self)@.files[old(self)@.index].size_bytes, old(self)@.files[old(self)@.index].size_bytes,
                    old(self)@.index as usize, old(self)@.files.len() as usize)
                &&& follows_move(final(self)@, r.1)
            },
            !(size matches Some(n) && n > 0) ==> {
                &&& final(self)@ == (DownloadView { phase: DownloadPhase::Requesting, ..old(self)@ })
                &&& r.0 is None
                &&& r.1 matches DownloadAction::Request { url } && url@ == old(self)@.files[old(self)@.index].url
            },
    {
        let i = self.index;
        let present = match size {
            Some(n) => n > 0,
            None => false,
        };
        if present {
            assert(self@.files[i as int] == self.files@[i as int]@);
            let p = existing_file_progress(self.model_id.as_str(), &self.files[i], i, self.files.len());
            let a = self.move_to(i + 1);
            (Some(p), a)
        } else {
            self.phase = DownloadPhase::Requesting;
            assert(self@.files[i as int] == self.files@[i as int]@);
            (None, DownloadAction::Request { url: self.files[i].url.clone() })
        }
    }

    /// The response head arrived. A status that is not a success ends the
    /// download with an error naming the file and `status` (the status as the
    /// HTTP library prints it). Otherwise the expected size becomes the
    /// response's content length, or without one the catalogue size, and
    /// the temporary file is created.
    pub fn responded(&mut self, success: bool, status: &str, content_length: Option<u64>) -> (r: (Option<DownloadProgress>, DownloadAction))
        requires
            old(self).wf(),
            old(self)@.phase == DownloadPhase::Requesting,
        ensures
            final(self).wf(),
            r.0 is None,
            !success ==> {
                &&& final(self)@ == (DownloadView { phase: DownloadPhase::Finished, ..old(self)@ })
                &&& r.1 matches DownloadAction::Finish(Err(AppError::Config(m)))
                &&& m@ == "Download failed for "@ + old(self)@.files[old(self)@.index].relative_path + ": HTTP "@ + status@
            },
            success ==> {
                &&& final(self)@ == (DownloadView {
                    phase: DownloadPhase::Opening,
                    received: 0,
                    expected: match content_length {
                        Some(n) => n,
                        None => old(self)@.files[old(self)@.index].size_bytes,
                    },
                    ..old(self)@
                })
                &&& r.1 matches DownloadAction::Open { tmp } && tmp@ == tmp_of(old(self)@)
            },
    {
        let i = self.index;
        assert(self@.files[i as int] == self.files@[i as int]@);
        if !success {
            self.phase = DownloadPhase::Finished;
            let e = download_status_error(self.files[i].relative_path.as_str(), status);
            return (None, DownloadAction::Finish(Err(e)));
        }
        self.expected = match content_length {
            Some(n) => n,
            None => self.files[i].size_bytes,
        };
        self.received = 0;
        self.phase = DownloadPhase::Opening;
        let name = download_tmp_name(self.files[i].relative_path.as_str());
        let tmp = join_path(self.dir.as_str(), name.as_str());
        (None, DownloadAction::Open { tmp })
    }

    /// The temporary file exists: the body is received.
    pub fn opened(&mut self) -> (r: (Option<DownloadProgress>, DownloadAction))
        requires
            old(self).wf(),
            old(self)@.phase == DownloadPhase::Opening,
        ensures
            final(self).wf(),
            final(self)@ == (DownloadView { phase: DownloadPhase::Receiving, ..old(self)@ }),
            r.0 is None,
            r.1 is Receive,
    {
        self.phase = DownloadPhase::Receiving;
        (None, DownloadAction::Receive)
    }

    /// A chunk of `chunk_len` bytes was received and written: it is counted,
    /// the running count is reported against the expected size, and the next
    /// chunk is received.
    pub fn chunk_received(&mut self, chunk_len: u64) -> (r: (Option<DownloadProgress>, DownloadAction))
        requires
            old(self).wf(),
            old(self)@.phase == DownloadPhase::Receiving,
            old(self)@.received + chunk_len <= u64::MAX,
        ensures
            final(self).wf(),
            final(self)@ == (DownloadView { received: (old(self)@.received + chunk_len) as u64, ..old(self)@ }),
            r.0 matches Some(p) && reports(p, old(self)@.model_id, old(self)@.files[old(self)@.index].relative_path,
                final(self)@.received, old(self)@.expected, old(self)@.index as usize, old(self)@.files.len() as usize),
            r.1 is Receive,
    {
        let i = self.index;
        assert(self@.files[i as int] == self.files@[i as int]@);
        self.received = self.received + chunk_len;
        let p = DownloadProgress {
            model_id: self.model_id.clone(),
            file_name: self.files[i].relative_path.clone(),
            downloaded_bytes: self.received,
            total_bytes: self.expected,
            file_index: i,
            total_files: self.files.len(),
        };
        (Some(p), DownloadAction::Receive)
    }

    /// The body ended: the temporary file is flushed and moved into place.
    pub fn body_ended(&mut self) -> (r: (Option<DownloadProgress>, DownloadAction))
        requires
            old(self).wf(),
            old(self)@.phase == DownloadPhase::Receiving,
        ensures
            final(self).wf(),
            final(self)@ == (DownloadView { phase: DownloadPhase::Storing, ..old(self)@ }),
            r.0 is None,
            r.1 matches DownloadAction::Store { tmp, dest } && tmp@ == tmp_of(old(self)@) && dest@ == dest_of(old(self)@),
    {
        let i = self.index;
        assert(self@.files[i as int] == self.files@[i as int]@);
        self.phase = DownloadPhase::Storing;
        let name = download_tmp_name(self.files[i].relative_path.as_str());
        let tmp = join_path(self.dir.as_str(), name.as_str());
        let dest = join_path(self.dir.as_str(), self.files[i].relative_path.as_str());
        (None, DownloadAction::Store { tmp, dest })
    }

    /// The current file is in place: the next file follows, or the download
    /// succeeds after the last one.
    pub fn stored(&mut self) -> (r: (Option<DownloadProgress>, DownloadAction))
        requires
            old(self).wf(),
            old(self)@.phase == DownloadPhase::Storing,
        ensures
            final(self).wf(),
            final(self)@ == moved_to(old(self)@, old(self)@.index + 1),
            r.0 is None,
            follows_move(final(self)@, r.1),
    {
        let i = self.index;
        let n = self.files.len();
        assert(i < n);
        (None, self.move_to(i + 1))
    }

    /// The action of the current step failed at `step` with `detail`: the
    /// download ends with the configuration error for that step.
    pub fn failed(&mut self, step: DownloadStep, detail: &str) -> (r: (Option<DownloadProgress>, DownloadAction))
        requires
            old(self).wf(),
            step_fits(old(self)@.phase, step),
        ensures
            final(self).wf(),
            final(self)@ == (DownloadView { phase: DownloadPhase::Finished, ..old(self)@ }),
            r.0 is None,
            r.1 matches DownloadAction::Finish(Err(AppError::Config(m)))
                && m@ == download_error_text(step, current_name(old(self)@), detail@),
    {
        let e = if self.phase == DownloadPhase::Preparing {
            proof { reveal_strlit(""); }
            download_error(step, "", detail)
        } else {
            let i = self.index;
            assert(self@.files[i as int] == self.files@[i as int]@);
            download_error(step, self.files[i].relative_path.as_str(), detail)
        };
        self.phase = DownloadPhase::Finished;
        (None, DownloadAction::Finish(Err(e)))
    }
}


/// The whole catalogue for the settings screen: one entry per model, in
/// catalogue order, marked downloaded as `downloaded` says (by position) and
/// active when its id is `active_model_id`.
pub fn list_models_with_status(active_model_id: &str, downloaded: &[bool]) -> (r: Vec<ModelInfoDto>)
    ensures
        r@.len() == registry().len(),
        forall|i: int| 0 <= i < r@.len() ==> shows(#[trigger] r@[i], registry()[i],
            flag_at(downloaded@, i), registry()[i].id == active_model_id@),
{
    let mut models = all_models();
    let ghost reg = registry();
    let mut out: Vec<ModelInfoDto> = Vec::new();
    let mut k: usize = 0;
    assert(reg.subrange(0, reg.len() as int) =~= reg);
    while models.len() > 0
        invariant
            model_views(models@) == reg.subrange(k as int, reg.len() as int),
            reg == registry(),
            k <= reg.len(),
            out@.len() == k,
            forall|i: int| 0 <= i < k ==> shows(#[trigger] out@[i], reg[i],
                flag_at(downloaded@, i), reg[i].id == active_model_id@),
        decreases models.len(),
    {
        let m = models.remove(0);
        let ghost rest = reg.subrange(k as int, reg.len() as int);
        assert(rest[0] == m@);
        assert(rest.drop_first() =~= reg.subrange(k + 1, reg.len() as int));
        assert(model_views(models@) =~= rest.drop_first());
        let is_downloaded = k < downloaded.len() && downloaded[k];
        let is_active = str_eq(m.id.as_str(), active_model_id);
        let dto = ModelInfoDto {
            id: m.id,
            display_name: m.display_name,
            description: m.description,
            backend: m.backend,
            total_size_bytes: m.total_size_bytes,
            size_display: m.size_display,
            best_for_languages: m.best_for_languages,
            is_downloaded,
            is_active,
        };
        out.push(dto);
        k = k + 1;
    }
    out
}

} // verus!
