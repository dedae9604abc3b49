//! File-sync updater: the CDN sync protocol as a state machine.
//!
//! The sequence (prod.json, then every manifest, then the stock index.html,
//! then every listed file, then the patched files, the local info cache and
//! the launch) alternates network and disk work with decisions. The decisions
//! live here: a `Session` takes the outcome of each piece of outside work as an
//! `Event` and answers with the next `Action` to perform.

use std::path::PathBuf;

use vstd::prelude::*;
use vstd::string::*;
use vstd::utf8::{decode_utf8, valid_utf8};

use crate::hashing::{
    hex_lower, lemma_sha1_hex_covers_whole_input, sha1_digest_of, sha1_hex_of, verify_sha1,
    Sha1Mismatch,
};
use crate::manifest::{
    find_index_html, is_first_index_html, revision_sum, total_revision, FileEntry, InfoJson,
    ProdJson,
};
use crate::patch::{inject_script_tag, injected, is_patched_file, is_patched_name};
use crate::text::{concat_str, string_from_utf8};

verus! {

/// `std::path::PathBuf`, carried opaquely: the library only hands the install
/// directory back to its caller.
#[verifier::external_type_specification]
#[verifier::external_body]
pub struct ExPathBuf(PathBuf);

/// Root manifest of the CDN.
pub const PROD_JSON_URL: &'static str = "https://cdn.plutonium.pw/updater/prod.json";

/// Attempts per download.
pub const MAX_RETRIES: u32 = 3;

pub struct Updater {
    pub install_dir: PathBuf,
    /// When true, skip SHA1 and only compare file sizes (faster, less correct).
    pub fast_verify: bool,
}

/// What a session does once the files are in place.
#[derive(Debug, Clone, Copy)]
pub enum Mode {
    /// Update, patch, write the info cache and launch.
    Run,
    /// Update, patch and write the info cache; no launch.
    SyncOnly,
    /// No network: re-patch the installed page and launch from the info cache.
    LaunchOnly,
}

/// Where a session stands.
#[derive(Debug, Clone, Copy)]
pub enum Phase {
    FetchingProd,
    FetchingManifest { index: usize },
    FetchingHtml { index: usize, attempt: u32 },
    CheckingFile { index: usize },
    DownloadingFile { index: usize, attempt: u32 },
    WritingFile { index: usize },
    WritingPatched,
    WritingCache,
    ReadingInstalledHtml,
    ReadingCache,
    Launching,
    Finished,
    Failed,
}

/// Why a session stopped.
#[derive(Debug)]
pub enum UpdateError {
    /// Outside work failed; the message says how.
    Io(String),
    /// An event that the current phase does not expect.
    UnexpectedEvent,
    /// No manifest lists the launcher page.
    IndexHtmlNotInManifest,
    /// A download did not hash to what its manifest says.
    Sha1(Sha1Mismatch),
    /// The downloaded launcher page is not valid UTF-8.
    HtmlNotUtf8,
    /// The sum of the manifest revisions does not fit in a `u64`.
    RevisionOverflow,
    /// `--no-update` without an installed launcher page.
    InstalledHtmlMissing,
    /// `--no-update` without a local info cache.
    InfoCacheMissing,
    /// The local info cache names no launch target.
    LaunchTargetMissing,
}

/// The outcome of the outside work that an `Action` asked for.
#[derive(Debug)]
pub enum Event {
    /// prod.json, fetched and parsed.
    Prod(ProdJson),
    /// A per-manifest file listing, fetched and parsed.
    Manifest(InfoJson),
    /// The body of a download.
    Downloaded(Vec<u8>),
    /// The local file that was asked about does not exist.
    Missing,
    /// The size of the local file that was asked about.
    LocalSize(u64),
    /// The contents of the local file that was asked about.
    LocalContents(Vec<u8>),
    /// The text of the installed launcher page.
    InstalledHtml(String),
    /// The launch target that the local info cache names, if it names one.
    LaunchTarget(Option<String>),
    /// The write or launch that was asked for succeeded.
    Done,
    /// The outside work failed.
    Failed(String),
}

/// The next piece of outside work.
#[derive(Debug)]
pub enum Action {
    /// GET prod.json and parse it.
    FetchProd { url: String },
    /// GET a manifest and parse it.
    FetchManifest { url: String },
    /// GET the bytes at `url` (one attempt).
    Download { url: String },
    /// Report whether the install-relative file `name` exists, and its size
    /// or, when `read_contents`, its contents.
    Inspect { index: usize, name: String, read_contents: bool },
    /// Write `bytes` to the install-relative file `name`.
    WriteFile { index: usize, name: String, bytes: Vec<u8> },
    /// Write the patched launcher page and the controller-navigation script.
    WritePatched { index_html: String },
    /// Write the local info cache.
    WriteInfoCache { revision: u64, launch_target: String },
    /// Read the installed launcher page.
    ReadInstalledHtml,
    /// Read the launch target from the local info cache.
    ReadInfoCache,
    /// Start the install-relative executable `target`.
    Launch { target: String },
    /// Nothing more to do.
    Finish,
    /// Stop with an error.
    Abort(UpdateError),
}

/// One update, sync or launch, driven by events.
pub struct Session {
    pub mode: Mode,
    pub fast_verify: bool,
    pub phase: Phase,
    pub manifests: Vec<String>,
    pub launch_target: String,
    pub files: Vec<FileEntry>,
    pub revisions: Vec<u64>,
    /// For each file, the `baseUrl` of the manifest that lists it.
    pub file_bases: Vec<String>,
    /// The launcher page to patch: the stock page downloaded from the CDN,
    /// or, in launch-only mode, the installed page.
    pub stock_html: String,
}

/// First position at or after `j` whose file is not one that this project
/// writes itself, or the number of files when there is none.
pub open spec fn next_unpatched(files: Seq<FileEntry>, j: int) -> int
    decreases files.len() - j,
{
    if j >= files.len() {
        files.len() as int
    } else if !is_patched_name(files[j].name@) {
        j
    } else {
        next_unpatched(files, j + 1)
    }
}

pub proof fn lemma_next_unpatched(files: Seq<FileEntry>, j: int)
    requires
        0 <= j <= files.len(),
    ensures
        j <= next_unpatched(files, j) <= files.len(),
        next_unpatched(files, j) < files.len() ==> !is_patched_name(
            files[next_unpatched(files, j)].name@,
        ),
        forall|m: int| j <= m < next_unpatched(files, j) ==> is_patched_name(#[trigger] files[m].name@),
    decreases files.len() - j,
{
    if j < files.len() && is_patched_name(files[j].name@) {
        lemma_next_unpatched(files, j + 1);
    }
}

/// The first manifest entry for the launcher page is unique.
pub proof fn lemma_first_index_html_unique(files: Seq<FileEntry>, i: int, j: int)
    requires
        is_first_index_html(files, i),
        is_first_index_html(files, j),
    ensures
        i == j,
{
}

/// Every file from position `from` up to (not including) `to` is one that
/// this project writes itself.
pub open spec fn only_patched_between(files: Seq<FileEntry>, from: int, to: int) -> bool {
    forall|m: int| from <= m < to ==> is_patched_name(#[trigger] files[m].name@)
}

/// Where file sync resumes after the current phase.
pub open spec fn resume_position(phase: Phase) -> int {
    match phase {
        Phase::CheckingFile { index } => index + 1,
        Phase::WritingFile { index } => index + 1,
        _ => 0,
    }
}

/// Download URL of a file: its manifest's base URL followed by its hash
/// (content-addressed; the file name plays no part).
pub open spec fn file_url(base: Seq<char>, hash: Seq<char>) -> Seq<char> {
    base + hash
}

/// The stock launcher page was downloaded and matched its manifest hash.
pub open spec fn html_verified(files: Seq<FileEntry>, html: Seq<char>) -> bool {
    exists|bytes: Seq<u8>, i: int|
        #![trigger is_first_index_html(files, i), decode_utf8(bytes)]
        is_first_index_html(files, i) && sha1_hex_of(bytes) == files[i].hash@ && decode_utf8(
            bytes,
        ) == html
}

impl Session {
    /// A session that has not received any event yet.
    pub open spec fn initial(self, mode: Mode, fast_verify: bool) -> bool {
        &&& self.mode == mode
        &&& self.fast_verify == fast_verify
        &&& self.phase == match mode {
            Mode::LaunchOnly => Phase::ReadingInstalledHtml,
            _ => Phase::FetchingProd,
        }
        &&& self.manifests@.len() == 0
        &&& self.launch_target@.len() == 0
        &&& self.files@.len() == 0
        &&& self.revisions@.len() == 0
        &&& self.file_bases@.len() == 0
        &&& self.stock_html@.len() == 0
    }

    /// The invariant that every step keeps.
    pub open spec fn wf(self) -> bool {
        &&& match self.phase {
            Phase::FetchingManifest { index } => index < self.manifests@.len(),
            Phase::FetchingHtml { index, attempt } => is_first_index_html(
                self.files@,
                index as int,
            ) && 1 <= attempt <= MAX_RETRIES,
            Phase::CheckingFile { index } => index < self.files@.len() && !is_patched_name(
                self.files@[index as int].name@,
            ),
            Phase::DownloadingFile { index, attempt } => index < self.files@.len()
                && !is_patched_name(self.files@[index as int].name@) && 1 <= attempt
                <= MAX_RETRIES,
            Phase::WritingFile { index } => index < self.files@.len() && !is_patched_name(
                self.files@[index as int].name@,
            ),
            _ => true,
        }
        &&& self.file_bases@.len() == self.files@.len()
        &&& self.html_checked()
        &&& (self.phase is ReadingInstalledHtml || self.phase is ReadingCache) ==> self.mode is LaunchOnly
    }

    /// Outside launch-only mode, once file sync has begun, the page to patch is
    /// the stock page whose hash the manifest gave.
    pub open spec fn html_checked(self) -> bool {
        match self.mode {
            Mode::LaunchOnly => true,
            _ => match self.phase {
                Phase::CheckingFile { .. } | Phase::DownloadingFile { .. } | Phase::WritingFile {
                    ..
                } | Phase::WritingPatched | Phase::WritingCache | Phase::Launching => html_verified(
                    self.files@,
                    self.stock_html@,
                ),
                _ => true,
            },
        }
    }

    /// All the data of the two sessions agree; only the phase may differ.
    pub open spec fn same_data(self, other: Session) -> bool {
        &&& other.mode == self.mode
        &&& other.fast_verify == self.fast_verify
        &&& other.manifests@ == self.manifests@
        &&& other.launch_target@ == self.launch_target@
        &&& other.files@ == self.files@
        &&& other.revisions@ == self.revisions@
        &&& other.file_bases@ == self.file_bases@
        &&& other.stock_html@ == self.stock_html@
    }

    /// How an event changes the data of a session.
    pub open spec fn data_next(pre: Session, e: Event, post: Session) -> bool {
        &&& post.mode == pre.mode
        &&& post.fast_verify == pre.fast_verify
        &&& post.manifests@ == match (pre.phase, e) {
            (Phase::FetchingProd, Event::Prod(p)) => p.manifests@,
            _ => pre.manifests@,
        }
        &&& post.launch_target@ == match (pre.phase, e) {
            (Phase::FetchingProd, Event::Prod(p)) => p.launch_target@,
            (Phase::ReadingCache, Event::LaunchTarget(Some(t))) => t@,
            _ => pre.launch_target@,
        }
        &&& post.files@ == match (pre.phase, e) {
            (Phase::FetchingManifest { .. }, Event::Manifest(info)) => pre.files@ + info.files@,
            _ => pre.files@,
        }
        &&& post.revisions@ == match (pre.phase, e) {
            (Phase::FetchingManifest { .. }, Event::Manifest(info)) => pre.revisions@.push(
                info.revision,
            ),
            _ => pre.revisions@,
        }
        &&& post.file_bases@ == match (pre.phase, e) {
            (Phase::FetchingManifest { .. }, Event::Manifest(info)) => pre.file_bases@ + Seq::new(
                info.files@.len(),
                |_i: int| info.base_url,
            ),
            _ => pre.file_bases@,
        }
        &&& post.stock_html@ == match (pre.phase, e) {
            (Phase::FetchingHtml { index, .. }, Event::Downloaded(b)) => if sha1_hex_of(b@)
                == pre.files@[index as int].hash@ && valid_utf8(b@) {
                decode_utf8(b@)
            } else {
                pre.stock_html@
            },
            (Phase::ReadingInstalledHtml, Event::InstalledHtml(h)) => h@,
            _ => pre.stock_html@,
        }
    }

    /// The session stops with `err`.
    pub open spec fn aborts(phase: Phase, a: Action, err: UpdateError) -> bool {
        phase == Phase::Failed && a == Action::Abort(err)
    }

    /// The session stops on a hash mismatch of `bytes` against `hash`.
    pub open spec fn aborts_on_hash(phase: Phase, a: Action, bytes: Seq<u8>, hash: Seq<char>) -> bool {
        &&& phase == Phase::Failed
        &&& a matches Action::Abort(UpdateError::Sha1(m))
        &&& m.expected@ == hash
        &&& m.actual@ == sha1_hex_of(bytes)
    }

    /// Download attempt number `attempt` of the file at `index`.
    pub open spec fn downloads_file(s: Session, index: int, attempt: u32, phase: Phase, a: Action) -> bool {
        &&& phase == Phase::DownloadingFile { index: index as usize, attempt }
        &&& a matches Action::Download { url }
        &&& url@ == file_url(s.file_bases@[index]@, s.files@[index].hash@)
    }

    /// File sync continues at position `j`: inspect the next file that is not
    /// written by this project, or, when none is left, write the patched files.
    pub open spec fn enters_files(s: Session, j: int, phase: Phase, a: Action) -> bool {
        let k = next_unpatched(s.files@, j);
        if k < s.files@.len() {
            &&& phase == Phase::CheckingFile { index: k as usize }
            &&& a matches Action::Inspect { index, name, read_contents }
            &&& index == k
            &&& name@ == s.files@[k].name@
            &&& read_contents == !s.fast_verify
        } else {
            Self::writes_patched(s, phase, a)
        }
    }

    /// Write the patched launcher page.
    pub open spec fn writes_patched(s: Session, phase: Phase, a: Action) -> bool {
        &&& phase == Phase::WritingPatched
        &&& a matches Action::WritePatched { index_html }
        &&& index_html@ == injected(s.stock_html@)
    }

    /// All manifests are in: download the stock launcher page.
    pub open spec fn after_manifests(s: Session, phase: Phase, a: Action) -> bool {
        if exists|i: int| is_first_index_html(s.files@, i) {
            let i = choose|i: int| is_first_index_html(s.files@, i);
            &&& phase == Phase::FetchingHtml { index: i as usize, attempt: 1 }
            &&& a matches Action::Download { url }
            &&& url@ == file_url(s.file_bases@[i]@, s.files@[i].hash@)
        } else {
            Self::aborts(phase, a, UpdateError::IndexHtmlNotInManifest)
        }
    }

    /// Launch the target, or finish.
    pub open spec fn launches(s: Session, phase: Phase, a: Action) -> bool {
        &&& phase == Phase::Launching
        &&& a matches Action::Launch { target }
        &&& target@ == s.launch_target@
    }

    /// How an event moves a session to its next phase and what it asks for;
    /// `post` holds the data after the event (see `data_next`).
    pub open spec fn control_next(pre: Session, e: Event, post: Session, a: Action) -> bool {
        let phase = post.phase;
        let unexpected = Self::aborts(phase, a, UpdateError::UnexpectedEvent);
        match pre.phase {
            Phase::FetchingProd => match e {
                Event::Prod(_) => if post.manifests@.len() > 0 {
                    &&& phase == Phase::FetchingManifest { index: 0 }
                    &&& a matches Action::FetchManifest { url }
                    &&& url@ == post.manifests@[0]@
                } else {
                    Self::after_manifests(post, phase, a)
                },
                Event::Failed(msg) => Self::aborts(phase, a, UpdateError::Io(msg)),
                _ => unexpected,
            },
            Phase::FetchingManifest { index } => match e {
                Event::Manifest(_) => if index + 1 < post.manifests@.len() {
                    &&& phase == Phase::FetchingManifest { index: (index + 1) as usize }
                    &&& a matches Action::FetchManifest { url }
                    &&& url@ == post.manifests@[index + 1]@
                } else {
                    Self::after_manifests(post, phase, a)
                },
                Event::Failed(msg) => Self::aborts(phase, a, UpdateError::Io(msg)),
                _ => unexpected,
            },
            Phase::FetchingHtml { index, attempt } => match e {
                Event::Downloaded(b) => if sha1_hex_of(b@) != post.files@[index as int].hash@ {
                    Self::aborts_on_hash(phase, a, b@, post.files@[index as int].hash@)
                } else if !valid_utf8(b@) {
                    Self::aborts(phase, a, UpdateError::HtmlNotUtf8)
                } else {
                    Self::enters_files(post, 0, phase, a)
                },
                Event::Failed(msg) => if attempt < MAX_RETRIES {
                    &&& phase == Phase::FetchingHtml { index, attempt: (attempt + 1) as u32 }
                    &&& a matches Action::Download { url }
                    &&& url@ == file_url(post.file_bases@[index as int]@, post.files@[index as int].hash@)
                } else {
                    Self::aborts(phase, a, UpdateError::Io(msg))
                },
                _ => unexpected,
            },
            Phase::CheckingFile { index } => match e {
                Event::Missing => Self::downloads_file(post, index as int, 1, phase, a),
                Event::LocalSize(n) => if n == post.files@[index as int].size {
                    Self::enters_files(post, index + 1, phase, a)
                } else {
                    Self::downloads_file(post, index as int, 1, phase, a)
                },
                Event::LocalContents(b) => if sha1_hex_of(b@) == post.files@[index as int].hash@ {
                    Self::enters_files(post, index + 1, phase, a)
                } else {
                    Self::downloads_file(post, index as int, 1, phase, a)
                },
                Event::Failed(msg) => Self::aborts(phase, a, UpdateError::Io(msg)),
                _ => unexpected,
            },
            Phase::DownloadingFile { index, attempt } => match e {
                Event::Downloaded(b) => if sha1_hex_of(b@) == post.files@[index as int].hash@ {
                    &&& phase == Phase::WritingFile { index }
                    &&& a matches Action::WriteFile { index: i, name, bytes }
                    &&& i == index
                    &&& name@ == post.files@[index as int].name@
                    &&& bytes@ == b@
                } else if attempt < MAX_RETRIES {
                    Self::downloads_file(post, index as int, (attempt + 1) as u32, phase, a)
                } else {
                    Self::aborts_on_hash(phase, a, b@, post.files@[index as int].hash@)
                },
                Event::Failed(msg) => if attempt < MAX_RETRIES {
                    Self::downloads_file(post, index as int, (attempt + 1) as u32, phase, a)
                } else {
                    Self::aborts(phase, a, UpdateError::Io(msg))
                },
                _ => unexpected,
            },
            Phase::WritingFile { index } => match e {
                Event::Done => Self::enters_files(post, index + 1, phase, a),
                Event::Failed(msg) => Self::aborts(phase, a, UpdateError::Io(msg)),
                _ => unexpected,
            },
            Phase::WritingPatched => match e {
                Event::Done => match post.mode {
                    Mode::LaunchOnly => phase == Phase::ReadingCache && a == Action::ReadInfoCache,
                    _ => if revision_sum(post.revisions@) <= u64::MAX {
                        &&& phase == Phase::WritingCache
                        &&& a matches Action::WriteInfoCache { revision, launch_target }
                        &&& revision == revision_sum(post.revisions@)
                        &&& launch_target@ == post.launch_target@
                    } else {
                        Self::aborts(phase, a, UpdateError::RevisionOverflow)
                    },
                },
                Event::Failed(msg) => Self::aborts(phase, a, UpdateError::Io(msg)),
                _ => unexpected,
            },
            Phase::WritingCache => match e {
                Event::Done => match post.mode {
                    Mode::Run => Self::launches(post, phase, a),
                    _ => phase == Phase::Finished && a == Action::Finish,
                },
                Event::Failed(msg) => Self::aborts(phase, a, UpdateError::Io(msg)),
                _ => unexpected,
            },
            Phase::ReadingInstalledHtml => match e {
                Event::InstalledHtml(_) => Self::writes_patched(post, phase, a),
                Event::Missing => Self::aborts(phase, a, UpdateError::InstalledHtmlMissing),
                Event::Failed(msg) => Self::aborts(phase, a, UpdateError::Io(msg)),
                _ => unexpected,
            },
            Phase::ReadingCache => match e {
                Event::LaunchTarget(Some(_)) => Self::launches(post, phase, a),
                Event::LaunchTarget(None) => Self::aborts(phase, a, UpdateError::LaunchTargetMissing),
                Event::Missing => Self::aborts(phase, a, UpdateError::InfoCacheMissing),
                Event::Failed(msg) => Self::aborts(phase, a, UpdateError::Io(msg)),
                _ => unexpected,
            },
            Phase::Launching => match e {
                Event::Done => phase == Phase::Finished && a == Action::Finish,
                Event::Failed(msg) => Self::aborts(phase, a, UpdateError::Io(msg)),
                _ => unexpected,
            },
            Phase::Finished | Phase::Failed => unexpected,
        }
    }
}

/// Checking a listed file: it is downloaded again (first attempt, from its
/// manifest's base URL plus its hash) exactly when it is missing, when its size
/// differs from the manifest size, or when its contents do not hash to the
/// manifest hash; a file that matches is kept and sync moves on without any
/// download. Nothing about the file list changes.
pub proof fn lemma_file_check(pre: Session, index: usize, e: Event, post: Session, a: Action)
    requires
        pre.wf(),
        pre.phase == (Phase::CheckingFile { index }),
        e is Missing || e is LocalSize || e is LocalContents,
        Session::data_next(pre, e, post),
        Session::control_next(pre, e, post, a),
    ensures
        post.files@ == pre.files@,
        ({
            let entry = pre.files@[index as int];
            let stale = match e {
                Event::LocalSize(n) => n != entry.size,
                Event::LocalContents(b) => hex_lower(sha1_digest_of(b@)) != entry.hash@,
                _ => true,
            };
            if stale {
                &&& post.phase == (Phase::DownloadingFile { index, attempt: 1 })
                &&& a matches Action::Download { url }
                &&& url@ == pre.file_bases@[index as int]@ + entry.hash@
            } else {
                &&& !(a is Download)
                &&& !(post.phase is DownloadingFile)
                &&& (post.phase is CheckingFile || post.phase is WritingPatched)
            }
        }),
{
    match e {
        Event::LocalContents(b) => {
            lemma_sha1_hex_covers_whole_input(b@);
        },
        _ => {},
    }
}

/// A file download: bytes whose SHA-1 (of all of them) is the manifest hash
/// are written under the file's name; anything else (a failed request or
/// other bytes) leads to another request from the same URL while fewer than
/// three attempts were made, and stops the session after the third.
pub proof fn lemma_download_retries(
    pre: Session,
    index: usize,
    attempt: u32,
    e: Event,
    post: Session,
    a: Action,
)
    requires
        pre.wf(),
        pre.phase == (Phase::DownloadingFile { index, attempt }),
        e is Downloaded || e is Failed,
        Session::data_next(pre, e, post),
        Session::control_next(pre, e, post, a),
    ensures
        post.files@ == pre.files@,
        1 <= attempt <= 3,
        ({
            let entry = pre.files@[index as int];
            let retry_or_stop = if attempt < 3 {
                &&& post.phase == (Phase::DownloadingFile { index, attempt: (attempt + 1) as u32 })
                &&& a matches Action::Download { url }
                &&& url@ == pre.file_bases@[index as int]@ + entry.hash@
            } else {
                &&& post.phase is Failed
                &&& a is Abort
            };
            match e {
                Event::Downloaded(b) => if hex_lower(sha1_digest_of(b@)) == entry.hash@ {
                    &&& post.phase == (Phase::WritingFile { index })
                    &&& a matches Action::WriteFile { index: i, name, bytes }
                    &&& i == index
                    &&& name@ == entry.name@
                    &&& bytes@ == b@
                } else {
                    retry_or_stop
                },
                _ => retry_or_stop,
            }
        }),
{
    match e {
        Event::Downloaded(b) => {
            lemma_sha1_hex_covers_whole_input(b@);
        },
        _ => {},
    }
}

/// The stock launcher page: a failed request is repeated while fewer than
/// three attempts were made; bytes that do not hash to the manifest hash stop
/// the session at once; matching bytes that are valid UTF-8 become the page
/// to patch and file sync begins.
pub proof fn lemma_stock_html_download(
    pre: Session,
    index: usize,
    attempt: u32,
    e: Event,
    post: Session,
    a: Action,
)
    requires
        pre.wf(),
        pre.phase == (Phase::FetchingHtml { index, attempt }),
        e is Downloaded || e is Failed,
        Session::data_next(pre, e, post),
        Session::control_next(pre, e, post, a),
    ensures
        ({
            let entry = pre.files@[index as int];
            match e {
                Event::Downloaded(b) => if hex_lower(sha1_digest_of(b@)) != entry.hash@ {
                    post.phase is Failed && a matches Action::Abort(UpdateError::Sha1(_))
                } else if !valid_utf8(b@) {
                    post.phase is Failed && a == Action::Abort(UpdateError::HtmlNotUtf8)
                } else {
                    &&& post.stock_html@ == decode_utf8(b@)
                    &&& (post.phase is CheckingFile || post.phase is WritingPatched)
                },
                _ => if attempt < 3 {
                    &&& post.phase == (Phase::FetchingHtml { index, attempt: (attempt + 1) as u32 })
                    &&& a matches Action::Download { url }
                    &&& url@ == pre.file_bases@[index as int]@ + entry.hash@
                } else {
                    post.phase is Failed && a is Abort
                },
            }
        }),
{
    match e {
        Event::Downloaded(b) => {
            lemma_sha1_hex_covers_whole_input(b@);
        },
        _ => {},
    }
}

/// Manifests are fetched one after another, in the order prod.json lists
/// them; each adds its files (with its own base URL) and its revision; after
/// the last, the stock launcher page is requested from the first entry that
/// names it, or the session stops when none does.
pub proof fn lemma_manifests_in_order(pre: Session, e: Event, post: Session, a: Action)
    requires
        pre.wf(),
        pre.phase is FetchingProd || pre.phase is FetchingManifest,
        e is Prod || e is Manifest,
        Session::data_next(pre, e, post),
        Session::control_next(pre, e, post, a),
    ensures
        ({
            let next = match (pre.phase, e) {
                (Phase::FetchingProd, Event::Prod(_)) => 0int,
                (Phase::FetchingManifest { index }, Event::Manifest(_)) => index + 1,
                _ => -1,
            };
            &&& match (pre.phase, e) {
                (Phase::FetchingManifest { .. }, Event::Manifest(info)) => {
                    &&& post.files@ == pre.files@ + info.files@
                    &&& post.revisions@ == pre.revisions@.push(info.revision)
                    &&& forall|k: int|
                        pre.files@.len() <= k < post.files@.len() ==> #[trigger] post.file_bases@[k]
                            == info.base_url
                },
                (Phase::FetchingProd, Event::Prod(p)) => post.manifests@ == p.manifests@,
                _ => post.phase is Failed,
            }
            &&& next >= 0 && next < post.manifests@.len() ==> {
                &&& post.phase == (Phase::FetchingManifest { index: next as usize })
                &&& a matches Action::FetchManifest { url }
                &&& url@ == post.manifests@[next]@
            }
            &&& next >= 0 && next >= post.manifests@.len() ==> if exists|i: int|
                0 <= i < post.files@.len() && post.files@[i].name@ == "launcher/assets/index.html"@ {
                &&& a matches Action::Download { url }
                &&& exists|i: int|
                    is_first_index_html(post.files@, i) && url@ == post.file_bases@[i]@
                        + post.files@[i].hash@
            } else {
                post.phase is Failed && a == Action::Abort(UpdateError::IndexHtmlNotInManifest)
            }
        }),
{
    crate::patch::lemma_patched_files_are_exactly_two(crate::patch::INDEX_HTML_PATH@);
    reveal_strlit("launcher/assets/index.html");
    if exists|i: int|
        0 <= i < post.files@.len() && post.files@[i].name@ == "launcher/assets/index.html"@ {
        let i = choose|i: int|
            0 <= i < post.files@.len() && post.files@[i].name@ == "launcher/assets/index.html"@;
        lemma_first_index_html_exists(post.files@, i);
    }
}

/// A listed launcher page has a first listing.
pub proof fn lemma_first_index_html_exists(files: Seq<FileEntry>, i: int)
    requires
        0 <= i < files.len(),
        files[i].name@ == crate::patch::INDEX_HTML_PATH@,
    ensures
        exists|f: int| is_first_index_html(files, f),
    decreases i,
{
    if exists|j: int| 0 <= j < i && files[j].name@ == crate::patch::INDEX_HTML_PATH@ {
        let j = choose|j: int| 0 <= j < i && files[j].name@ == crate::patch::INDEX_HTML_PATH@;
        lemma_first_index_html_exists(files, j);
    } else {
        assert(is_first_index_html(files, i));
    }
}

/// Two sessions hold the same data, whatever their modes and phases.
pub open spec fn same_data_but_mode(x: Session, y: Session) -> bool {
    &&& x.fast_verify == y.fast_verify
    &&& x.manifests@ == y.manifests@
    &&& x.launch_target@ == y.launch_target@
    &&& x.files@ == y.files@
    &&& x.revisions@ == y.revisions@
    &&& x.file_bases@ == y.file_bases@
    &&& x.stock_html@ == y.stock_html@
}

/// A sync-only session does what a full run does, step for step, on the same
/// outcomes: it makes the same requests and writes the same files and cache.
/// The one difference: where the run launches after writing the info cache,
/// the sync finishes.
pub proof fn lemma_sync_follows_run(
    r: Session,
    s: Session,
    e: Event,
    r2: Session,
    ar: Action,
    s2: Session,
    a_s: Action,
)
    requires
        r.mode is Run,
        s.mode is SyncOnly,
        same_data_but_mode(r, s),
        r.phase == s.phase,
        Session::data_next(r, e, r2),
        Session::control_next(r, e, r2, ar),
        Session::data_next(s, e, s2),
        Session::control_next(s, e, s2, a_s),
    ensures
        same_data_but_mode(r2, s2),
        if r.phase is WritingCache && e is Done {
            &&& ar is Launch
            &&& r2.phase is Launching
            &&& a_s == Action::Finish
            &&& s2.phase is Finished
        } else {
            &&& r2.phase == s2.phase
            &&& Session::control_next(s, e, s2, ar)
        },
{
}

/// First position at or after `j` whose file this project does not write itself.
fn find_unpatched(files: &Vec<FileEntry>, j: usize) -> (res: usize)
    requires
        j <= files@.len(),
    ensures
        res == next_unpatched(files@, j as int),
{
    let mut k = j;
    while k < files.len()
        invariant
            j <= k <= files@.len(),
            next_unpatched(files@, k as int) == next_unpatched(files@, j as int),
        decreases files.len() - k,
    {
        if !is_patched_file(files[k].name.as_str()) {
            return k;
        }
        k = k + 1;
    }
    k
}

/// `n` copies of `s`.
fn repeat_string(s: &String, n: usize) -> (res: Vec<String>)
    ensures
        res@ == Seq::new(n as nat, |_i: int| *s),
{
    let mut res: Vec<String> = Vec::new();
    let mut k: usize = 0;
    while k < n
        invariant
            k <= n,
            res@ == Seq::new(k as nat, |_i: int| *s),
        decreases n - k,
    {
        res.push(s.clone());
        k = k + 1;
        assert(res@ =~= Seq::new(k as nat, |_i: int| *s));
    }
    res
}

impl Session {
    fn new(mode: Mode, fast_verify: bool) -> (s: Session)
        ensures
            s.initial(mode, fast_verify),
            s.wf(),
    {
        let phase = match mode {
            Mode::LaunchOnly => Phase::ReadingInstalledHtml,
            _ => Phase::FetchingProd,
        };
        Session {
            mode,
            fast_verify,
            phase,
            manifests: Vec::new(),
            launch_target: String::new(),
            files: Vec::new(),
            revisions: Vec::new(),
            file_bases: Vec::new(),
            stock_html: String::new(),
        }
    }

    /// Stop with `err`.
    fn fail(&mut self, err: UpdateError) -> (a: Action)
        ensures
            old(self).same_data(*final(self)),
            Self::aborts(final(self).phase, a, err),
    {
        self.phase = Phase::Failed;
        Action::Abort(err)
    }

    /// Download URL of the file at `index`.
    fn download_url(&self, index: usize) -> (url: String)
        requires
            index < self.files@.len(),
            self.file_bases@.len() == self.files@.len(),
        ensures
            url@ == file_url(self.file_bases@[index as int]@, self.files@[index as int].hash@),
    {
        concat_str(self.file_bases[index].as_str(), self.files[index].hash.as_str())
    }

    fn start_download(&mut self, index: usize, attempt: u32) -> (a: Action)
        requires
            index < old(self).files@.len(),
            old(self).file_bases@.len() == old(self).files@.len(),
        ensures
            old(self).same_data(*final(self)),
            Self::downloads_file(*final(self), index as int, attempt, final(self).phase, a),
    {
        let url = self.download_url(index);
        self.phase = Phase::DownloadingFile { index, attempt };
        Action::Download { url }
    }

    fn request_write_patched(&mut self) -> (a: Action)
        ensures
            old(self).same_data(*final(self)),
            Self::writes_patched(*final(self), final(self).phase, a),
    {
        self.phase = Phase::WritingPatched;
        Action::WritePatched { index_html: inject_script_tag(self.stock_html.as_str()) }
    }

    fn continue_files(&mut self, j: usize) -> (a: Action)
        requires
            j <= old(self).files@.len(),
        ensures
            old(self).same_data(*final(self)),
            Self::enters_files(*final(self), j as int, final(self).phase, a),
            final(self).phase matches Phase::CheckingFile { index } ==> index
                < final(self).files@.len() && !is_patched_name(
                final(self).files@[index as int].name@,
            ),
            final(self).phase is CheckingFile || final(self).phase is WritingPatched,
    {
        proof {
            lemma_next_unpatched(self.files@, j as int);
        }
        let k = find_unpatched(&self.files, j);
        if k < self.files.len() {
            self.phase = Phase::CheckingFile { index: k };
            Action::Inspect {
                index: k,
                name: self.files[k].name.clone(),
                read_contents: !self.fast_verify,
            }
        } else {
            self.request_write_patched()
        }
    }

    fn request_index_html(&mut self) -> (a: Action)
        requires
            old(self).file_bases@.len() == old(self).files@.len(),
        ensures
            old(self).same_data(*final(self)),
            Self::after_manifests(*final(self), final(self).phase, a),
            final(self).phase matches Phase::FetchingHtml { index, attempt } ==> is_first_index_html(
                final(self).files@,
                index as int,
            ) && attempt == 1,
            final(self).phase is FetchingHtml || final(self).phase is Failed,
    {
        match find_index_html(&self.files) {
            Some(i) => {
                proof {
                    let c = choose|c: int| is_first_index_html(self.files@, c);
                    lemma_first_index_html_unique(self.files@, c, i as int);
                }
                let url = self.download_url(i);
                self.phase = Phase::FetchingHtml { index: i, attempt: 1 };
                Action::Download { url }
            },
            None => self.fail(UpdateError::IndexHtmlNotInManifest),
        }
    }

    fn on_fetching_prod(&mut self, e: Event) -> (a: Action)
        requires
            old(self).wf(),
            old(self).phase is FetchingProd,
        ensures
            Self::data_next(*old(self), e, *final(self)),
            Self::control_next(*old(self), e, *final(self), a),
            final(self).wf(),
    {
        match e {
            Event::Prod(p) => {
                let ProdJson { manifests, launch_target, yeet: _ } = p;
                self.manifests = manifests;
                self.launch_target = launch_target;
                if self.manifests.len() > 0 {
                    self.phase = Phase::FetchingManifest { index: 0 };
                    Action::FetchManifest { url: self.manifests[0].clone() }
                } else {
                    self.request_index_html()
                }
            },
            Event::Failed(msg) => self.fail(UpdateError::Io(msg)),
            _ => self.fail(UpdateError::UnexpectedEvent),
        }
    }

    fn on_fetching_manifest(&mut self, index: usize, e: Event) -> (a: Action)
        requires
            old(self).wf(),
            old(self).phase == (Phase::FetchingManifest { index }),
        ensures
            Self::data_next(*old(self), e, *final(self)),
            Self::control_next(*old(self), e, *final(self), a),
            final(self).wf(),
    {
        match e {
            Event::Manifest(info) => {
                let InfoJson { revision, base_url, files } = info;
                let mut bases = repeat_string(&base_url, files.len());
                let mut files = files;
                self.files.append(&mut files);
                self.file_bases.append(&mut bases);
                self.revisions.push(revision);
                let count = self.manifests.len();
                if index + 1 < count {
                    self.phase = Phase::FetchingManifest { index: index + 1 };
                    Action::FetchManifest { url: self.manifests[index + 1].clone() }
                } else {
                    self.request_index_html()
                }
            },
            Event::Failed(msg) => self.fail(UpdateError::Io(msg)),
            _ => self.fail(UpdateError::UnexpectedEvent),
        }
    }

    fn on_fetching_html(&mut self, index: usize, attempt: u32, e: Event) -> (a: Action)
        requires
            old(self).wf(),
            old(self).phase == (Phase::FetchingHtml { index, attempt }),
        ensures
            Self::data_next(*old(self), e, *final(self)),
            Self::control_next(*old(self), e, *final(self), a),
            final(self).wf(),
    {
        match e {
            Event::Downloaded(bytes) => {
                let ghost b = bytes@;
                match verify_sha1(bytes.as_slice(), self.files[index].hash.as_str()) {
                    Err(m) => self.fail(UpdateError::Sha1(m)),
                    Ok(()) => match string_from_utf8(bytes) {
                        None => self.fail(UpdateError::HtmlNotUtf8),
                        Some(html) => {
                            self.stock_html = html;
                            assert(is_first_index_html(self.files@, index as int));
                            assert(decode_utf8(b) == self.stock_html@);
                            assert(html_verified(self.files@, self.stock_html@));
                            self.continue_files(0)
                        },
                    },
                }
            },
            Event::Failed(msg) => {
                if attempt < MAX_RETRIES {
                    let url = self.download_url(index);
                    self.phase = Phase::FetchingHtml { index, attempt: attempt + 1 };
                    Action::Download { url }
                } else {
                    self.fail(UpdateError::Io(msg))
                }
            },
            _ => self.fail(UpdateError::UnexpectedEvent),
        }
    }

    fn on_checking_file(&mut self, index: usize, e: Event) -> (a: Action)
        requires
            old(self).wf(),
            old(self).phase == (Phase::CheckingFile { index }),
        ensures
            Self::data_next(*old(self), e, *final(self)),
            Self::control_next(*old(self), e, *final(self), a),
            final(self).wf(),
    {
        match e {
            Event::Missing => self.start_download(index, 1),
            Event::LocalSize(n) => {
                proof {
                    assert(self.files@.len() == self.files.len());
                }
                if n == self.files[index].size {
                    self.continue_files(index + 1)
                } else {
                    self.start_download(index, 1)
                }
            },
            Event::LocalContents(bytes) => {
                proof {
                    assert(self.files@.len() == self.files.len());
                }
                if verify_sha1(bytes.as_slice(), self.files[index].hash.as_str()).is_ok() {
                    self.continue_files(index + 1)
                } else {
                    self.start_download(index, 1)
                }
            },
            Event::Failed(msg) => self.fail(UpdateError::Io(msg)),
            _ => self.fail(UpdateError::UnexpectedEvent),
        }
    }

    fn on_downloading_file(&mut self, index: usize, attempt: u32, e: Event) -> (a: Action)
        requires
            old(self).wf(),
            old(self).phase == (Phase::DownloadingFile { index, attempt }),
        ensures
            Self::data_next(*old(self), e, *final(self)),
            Self::control_next(*old(self), e, *final(self), a),
            final(self).wf(),
    {
        match e {
            Event::Downloaded(bytes) => {
                match verify_sha1(bytes.as_slice(), self.files[index].hash.as_str()) {
                    Ok(()) => {
                        self.phase = Phase::WritingFile { index };
                        Action::WriteFile { index, name: self.files[index].name.clone(), bytes }
                    },
                    Err(m) => {
                        if attempt < MAX_RETRIES {
                            self.start_download(index, attempt + 1)
                        } else {
                            self.fail(UpdateError::Sha1(m))
                        }
                    },
                }
            },
            Event::Failed(msg) => {
                if attempt < MAX_RETRIES {
                    self.start_download(index, attempt + 1)
                } else {
                    self.fail(UpdateError::Io(msg))
                }
            },
            _ => self.fail(UpdateError::UnexpectedEvent),
        }
    }

    fn on_writing_file(&mut self, index: usize, e: Event) -> (a: Action)
        requires
            old(self).wf(),
            old(self).phase == (Phase::WritingFile { index }),
        ensures
            Self::data_next(*old(self), e, *final(self)),
            Self::control_next(*old(self), e, *final(self), a),
            final(self).wf(),
    {
        match e {
            Event::Done => {
                proof {
                    assert(self.files@.len() == self.files.len());
                }
                self.continue_files(index + 1)
            },
            Event::Failed(msg) => self.fail(UpdateError::Io(msg)),
            _ => self.fail(UpdateError::UnexpectedEvent),
        }
    }

    fn on_writing_patched(&mut self, e: Event) -> (a: Action)
        requires
            old(self).wf(),
            old(self).phase is WritingPatched,
        ensures
            Self::data_next(*old(self), e, *final(self)),
            Self::control_next(*old(self), e, *final(self), a),
            final(self).wf(),
    {
        match e {
            Event::Done => match self.mode {
                Mode::LaunchOnly => {
                    self.phase = Phase::ReadingCache;
                    Action::ReadInfoCache
                },
                _ => match total_revision(&self.revisions) {
                    Some(revision) => {
                        self.phase = Phase::WritingCache;
                        Action::WriteInfoCache { revision, launch_target: self.launch_target.clone() }
                    },
                    None => self.fail(UpdateError::RevisionOverflow),
                },
            },
            Event::Failed(msg) => self.fail(UpdateError::Io(msg)),
            _ => self.fail(UpdateError::UnexpectedEvent),
        }
    }

    fn on_writing_cache(&mut self, e: Event) -> (a: Action)
        requires
            old(self).wf(),
            old(self).phase is WritingCache,
        ensures
            Self::data_next(*old(self), e, *final(self)),
            Self::control_next(*old(self), e, *final(self), a),
            final(self).wf(),
    {
        match e {
            Event::Done => match self.mode {
                Mode::Run => {
                    self.phase = Phase::Launching;
                    Action::Launch { target: self.launch_target.clone() }
                },
                _ => {
                    self.phase = Phase::Finished;
                    Action::Finish
                },
            },
            Event::Failed(msg) => self.fail(UpdateError::Io(msg)),
            _ => self.fail(UpdateError::UnexpectedEvent),
        }
    }

    fn on_reading_installed_html(&mut self, e: Event) -> (a: Action)
        requires
            old(self).wf(),
            old(self).phase is ReadingInstalledHtml,
        ensures
            Self::data_next(*old(self), e, *final(self)),
            Self::control_next(*old(self), e, *final(self), a),
            final(self).wf(),
    {
        match e {
            Event::InstalledHtml(html) => {
                self.stock_html = html;
                self.request_write_patched()
            },
            Event::Missing => self.fail(UpdateError::InstalledHtmlMissing),
            Event::Failed(msg) => self.fail(UpdateError::Io(msg)),
            _ => self.fail(UpdateError::UnexpectedEvent),
        }
    }

    fn on_reading_cache(&mut self, e: Event) -> (a: Action)
        requires
            old(self).wf(),
            old(self).phase is ReadingCache,
        ensures
            Self::data_next(*old(self), e, *final(self)),
            Self::control_next(*old(self), e, *final(self), a),
            final(self).wf(),
    {
        match e {
            Event::LaunchTarget(Some(target)) => {
                self.launch_target = target;
                self.phase = Phase::Launching;
                Action::Launch { target: self.launch_target.clone() }
            },
            Event::LaunchTarget(None) => self.fail(UpdateError::LaunchTargetMissing),
            Event::Missing => self.fail(UpdateError::InfoCacheMissing),
            Event::Failed(msg) => self.fail(UpdateError::Io(msg)),
            _ => self.fail(UpdateError::UnexpectedEvent),
        }
    }

    fn on_launching(&mut self, e: Event) -> (a: Action)
        requires
            old(self).wf(),
            old(self).phase is Launching,
        ensures
            Self::data_next(*old(self), e, *final(self)),
            Self::control_next(*old(self), e, *final(self), a),
            final(self).wf(),
    {
        match e {
            Event::Done => {
                self.phase = Phase::Finished;
                Action::Finish
            },
            Event::Failed(msg) => self.fail(UpdateError::Io(msg)),
            _ => self.fail(UpdateError::UnexpectedEvent),
        }
    }

    /// Feed the outcome of the last action to the session; returns the next action.
    pub fn advance(&mut self, e: Event) -> (a: Action)
        requires
            old(self).wf(),
        ensures
            final(self).wf(),
            Self::data_next(*old(self), e, *final(self)),
            Self::control_next(*old(self), e, *final(self), a),
            // Only bytes that hash to their manifest hash are written, and never
            // over a file that this project writes itself.
            a matches Action::WriteFile { index, name, bytes } ==> {
                &&& index < final(self).files@.len()
                &&& name@ == final(self).files@[index as int].name@
                &&& sha1_hex_of(bytes@) == final(self).files@[index as int].hash@
                &&& !is_patched_name(name@)
            },
            // The files that this project writes itself are never inspected or downloaded.
            a matches Action::Inspect { index, name, read_contents } ==> {
                &&& index < final(self).files@.len()
                &&& name@ == final(self).files@[index as int].name@
                &&& !is_patched_name(name@)
                &&& read_contents == !final(self).fast_verify
            },
            final(self).phase matches Phase::DownloadingFile { index, attempt } ==> {
                &&& !is_patched_name(final(self).files@[index as int].name@)
                &&& attempt <= MAX_RETRIES
            },
            // The patched page is the page read or downloaded, with the tag
            // injected; outside launch-only mode that page matched its manifest hash.
            a matches Action::WritePatched { index_html } ==> {
                &&& index_html@ == injected(final(self).stock_html@)
                &&& !(final(self).mode is LaunchOnly) ==> html_verified(
                    final(self).files@,
                    final(self).stock_html@,
                )
            },
            // The info cache records the sum of all manifest revisions.
            a matches Action::WriteInfoCache { revision, launch_target } ==> {
                &&& revision == revision_sum(final(self).revisions@)
                &&& launch_target@ == final(self).launch_target@
            },
            // A sync-only session never launches anything.
            a matches Action::Launch { target } ==> {
                &&& !(old(self).mode is SyncOnly)
                &&& target@ == final(self).launch_target@
            },
            // Every file is downloaded from its own manifest's base URL plus its
            // hash.
            final(self).phase matches Phase::DownloadingFile { index, .. } ==> (a matches Action::Download {
                url,
            } && url@ == file_url(
                final(self).file_bases@[index as int]@,
                final(self).files@[index as int].hash@,
            )),
            // What was fetched is kept: the file list and revisions only grow.
            old(self).files@.is_prefix_of(final(self).files@),
            old(self).revisions@.is_prefix_of(final(self).revisions@),
            // No file is passed over unless this project writes it itself.
            a matches Action::Inspect { index, .. } ==> only_patched_between(
                final(self).files@,
                resume_position(old(self).phase),
                index as int,
            ),
            (a is WritePatched && !(old(self).mode is LaunchOnly)) ==> only_patched_between(
                final(self).files@,
                resume_position(old(self).phase),
                final(self).files@.len() as int,
            ),
            // A session that has stopped stays stopped.
            (old(self).phase is Finished || old(self).phase is Failed) ==> final(self).phase is Failed,
    {
        proof {
            let r = resume_position(self.phase);
            if 0 <= r <= self.files@.len() {
                lemma_next_unpatched(self.files@, r);
            }
        }
        let phase = self.phase;
        match phase {
            Phase::FetchingProd => self.on_fetching_prod(e),
            Phase::FetchingManifest { index } => self.on_fetching_manifest(index, e),
            Phase::FetchingHtml { index, attempt } => self.on_fetching_html(index, attempt, e),
            Phase::CheckingFile { index } => self.on_checking_file(index, e),
            Phase::DownloadingFile { index, attempt } => self.on_downloading_file(
                index,
                attempt,
                e,
            ),
            Phase::WritingFile { index } => self.on_writing_file(index, e),
            Phase::WritingPatched => self.on_writing_patched(e),
            Phase::WritingCache => self.on_writing_cache(e),
            Phase::ReadingInstalledHtml => self.on_reading_installed_html(e),
            Phase::ReadingCache => self.on_reading_cache(e),
            Phase::Launching => self.on_launching(e),
            Phase::Finished | Phase::Failed => self.fail(UpdateError::UnexpectedEvent),
        }
    }
}

impl Updater {
    pub fn new(install_dir: PathBuf) -> (res: Self)
        ensures
            res.install_dir == install_dir,
            res.fast_verify,
    {
        // Size-only verify by default, matching stock Plutonium's fastVerify behavior.
        Updater { install_dir, fast_verify: true }
    }

    pub fn with_fast_verify(self, fast: bool) -> (res: Self)
        ensures
            res.install_dir == self.install_dir,
            res.fast_verify == fast,
    {
        let mut s = self;
        s.fast_verify = fast;
        s
    }

    fn start(&self, mode: Mode) -> (res: (Session, Action))
        ensures
            res.0.initial(mode, self.fast_verify),
            res.0.wf(),
            match mode {
                Mode::LaunchOnly => res.1 == Action::ReadInstalledHtml,
                _ => res.1 matches Action::FetchProd { url } && url@ == PROD_JSON_URL@,
            },
    {
        let session = Session::new(mode, self.fast_verify);
        let action = match mode {
            Mode::LaunchOnly => Action::ReadInstalledHtml,
            _ => Action::FetchProd { url: String::from_str(PROD_JSON_URL) },
        };
        (session, action)
    }

    /// Full update + launch sequence: the session and its first action,
    /// which fetches prod.json.
    pub fn run(&self) -> (res: (Session, Action))
        ensures
            res.0.initial(Mode::Run, self.fast_verify),
            res.0.wf(),
            res.1 matches Action::FetchProd { url } && url@ == PROD_JSON_URL@,
    {
        self.start(Mode::Run)
    }

    /// Sync only; don't launch.  Used by --update-only mode.
    pub fn sync(&self) -> (res: (Session, Action))
        ensures
            res.0.initial(Mode::SyncOnly, self.fast_verify),
            res.0.wf(),
            res.1 matches Action::FetchProd { url } && url@ == PROD_JSON_URL@,
    {
        self.start(Mode::SyncOnly)
    }

    /// Launch only (no network).  Used by --no-update mode: re-patch the
    /// installed page, then launch the target that the local info cache names.
    pub fn launch_only(&self) -> (res: (Session, Action))
        ensures
            res.0.initial(Mode::LaunchOnly, self.fast_verify),
            res.0.wf(),
            res.1 == Action::ReadInstalledHtml,
    {
        self.start(Mode::LaunchOnly)
    }
}

} // verus!
