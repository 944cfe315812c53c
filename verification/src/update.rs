//! `cim utils update`: replacing the installed program by the latest release.
//!
//! [`Update`] decides what to do next; whoever drives it talks to the network
//! and the file system and reports what happened.

use crate::archive::{find_binary, search, BinarySearch, BinarySearchView};
use crate::message::{fixed, message, one, says, silent, two, Level, Message, MessageView};
use crate::path::{joined, shown, with_file_name, FsPath};
use crate::text;
use vstd::prelude::*;
use vstd::string::*;
use vstd::utf8::encode_utf8;

verus! {

/// How long a download may take, in seconds.
pub const DOWNLOAD_TIMEOUT_SECS: u64 = 300;

/// How many redirects are followed.
pub const MAX_REDIRECTS: usize = 10;

/// The permissions of the new program.
pub const BINARY_MODE: u32 = 0o755;

// ----------------------------------------------------------------------------
// Status codes
// ----------------------------------------------------------------------------

/// Whether an HTTP status code reports success.
pub open spec fn success_status(status: u16) -> bool {
    200 <= status < 300
}

/// The reason that `StatusCode::canonical_reason` gives for a status code.
pub uninterp spec fn canonical_reason(status: u16) -> Option<Seq<char>>;

/// `reqwest::StatusCode::canonical_reason` of the code that
/// `reqwest::StatusCode::from_u16` accepts. Not proved here: that the result
/// depends on the number alone.
#[verifier::external_body]
fn reason_of(status: u16) -> (out: Option<String>)
    ensures
        out.deep_view() == canonical_reason(status),
{
    match reqwest::StatusCode::from_u16(status) {
        Ok(code) => match code.canonical_reason() {
            Some(reason) => Some(reason.to_string()),
            None => None,
        },
        Err(_) => None,
    }
}

/// What is said of a download that was answered with `status`, for which
/// `reason` is the usual reason.
pub open spec fn bad_status_text(
    status: u16,
    archive_name: Seq<char>,
    reason: Option<Seq<char>>,
) -> Seq<char> {
    "HTTP "@ + text::decimal(status as nat) + " downloading "@ + archive_name + ": "@ + (
    match reason {
        Some(r) => r,
        None => "error"@,
    })
}

/// Describes a download that was answered with `status`, for which `reason` is
/// the usual reason.
pub fn describe_bad_status(status: u16, archive_name: &str, reason: &Option<String>) -> (out:
    String)
    ensures
        out@ == bad_status_text(status, archive_name@, reason.deep_view()),
{
    let reason: &str = match reason {
        Some(r) => r.as_str(),
        None => "error",
    };
    "HTTP ".to_owned().concat(text::decimal_of(status as u64).as_str()).concat(
        " downloading ",
    ).concat(archive_name).concat(": ").concat(reason)
}

// ----------------------------------------------------------------------------
// The update
// ----------------------------------------------------------------------------

/// What the update waits for.
#[derive(Debug, PartialEq, Eq)]
pub enum UpdateWork {
    /// Search the directories of `PATH` for the program.
    FindInPath,
    /// Find the file of the running program.
    CurrentExe,
    /// Ask for the version of the latest release.
    FetchLatest,
    /// Find out whether `latest` is newer than `current`.
    CompareVersions { current: String, latest: String },
    /// Find the name of the archive with this version for this platform.
    NameArchive(String),
    /// Make a temporary directory.
    MakeTempDir,
    /// Build an HTTP client.
    BuildClient { timeout_secs: u64, user_agent: String, max_redirects: usize },
    /// Request this address.
    Download(String),
    /// Read the body of the response.
    ReadBody,
    /// Write the archive to this path.
    WriteArchive(FsPath),
    /// Open the archive at this path.
    OpenArchive(FsPath),
    /// Unpack the entry at this index of the archive.
    Unpack { entry: usize, to: FsPath },
    /// Set the permissions of this file.
    SetMode { path: FsPath, mode: u32 },
    /// Rename the installed program.
    Rename { from: FsPath, to: FsPath },
    /// Copy the new program to its place.
    Copy { from: FsPath, to: FsPath },
    /// Rename the old program back; whether that works is not asked.
    Restore { from: FsPath, to: FsPath },
    /// Nothing.
    Done,
}

/// What came of the work.
#[derive(Debug, PartialEq, Eq)]
pub enum UpdateEvent {
    /// The program found in `PATH`.
    InPath(Option<FsPath>),
    /// The file of the running program.
    Exe(Option<FsPath>),
    /// The version of the latest release, if it could be had.
    Latest(Option<String>),
    /// Whether the latest release is newer.
    Newer(bool),
    /// The name of the archive, if there is one for this platform.
    ArchiveName(Option<String>),
    /// The temporary directory.
    TempDir(FsPath),
    /// The status code of the response.
    Response(u16),
    /// The body of the response.
    Body(Vec<u8>),
    /// Other work succeeded.
    Success,
    /// The work failed, for the reason given.
    Failure(String),
}

/// What an [`UpdateWork`] stands for.
pub enum UpdateWorkView {
    FindInPath,
    CurrentExe,
    FetchLatest,
    CompareVersions { current: Seq<char>, latest: Seq<char> },
    NameArchive(Seq<char>),
    MakeTempDir,
    BuildClient { timeout_secs: nat, user_agent: Seq<char>, max_redirects: nat },
    Download(Seq<char>),
    ReadBody,
    WriteArchive(Seq<u8>),
    OpenArchive(Seq<u8>),
    Unpack { entry: nat, to: Seq<u8> },
    SetMode { path: Seq<u8>, mode: nat },
    Rename { from: Seq<u8>, to: Seq<u8> },
    Copy { from: Seq<u8>, to: Seq<u8> },
    Restore { from: Seq<u8>, to: Seq<u8> },
    Done,
}

/// What an [`UpdateEvent`] stands for.
pub enum UpdateEventView {
    InPath(Option<Seq<u8>>),
    Exe(Option<Seq<u8>>),
    Latest(Option<Seq<char>>),
    Newer(bool),
    ArchiveName(Option<Seq<char>>),
    TempDir(Seq<u8>),
    Response(u16),
    Body(Seq<u8>),
    Success,
    Failure(Seq<char>),
}

impl DeepView for UpdateWork {
    type V = UpdateWorkView;

    open spec fn deep_view(&self) -> UpdateWorkView {
        match self {
            UpdateWork::FindInPath => UpdateWorkView::FindInPath,
            UpdateWork::CurrentExe => UpdateWorkView::CurrentExe,
            UpdateWork::FetchLatest => UpdateWorkView::FetchLatest,
            UpdateWork::CompareVersions { current, latest } => UpdateWorkView::CompareVersions {
                current: current@,
                latest: latest@,
            },
            UpdateWork::NameArchive(version) => UpdateWorkView::NameArchive(version@),
            UpdateWork::MakeTempDir => UpdateWorkView::MakeTempDir,
            UpdateWork::BuildClient { timeout_secs, user_agent, max_redirects } =>
                UpdateWorkView::BuildClient {
                timeout_secs: *timeout_secs as nat,
                user_agent: user_agent@,
                max_redirects: *max_redirects as nat,
            },
            UpdateWork::Download(url) => UpdateWorkView::Download(url@),
            UpdateWork::ReadBody => UpdateWorkView::ReadBody,
            UpdateWork::WriteArchive(p) => UpdateWorkView::WriteArchive(p@),
            UpdateWork::OpenArchive(p) => UpdateWorkView::OpenArchive(p@),
            UpdateWork::Unpack { entry, to } => UpdateWorkView::Unpack {
                entry: *entry as nat,
                to: to@,
            },
            UpdateWork::SetMode { path, mode } => UpdateWorkView::SetMode {
                path: path@,
                mode: *mode as nat,
            },
            UpdateWork::Rename { from, to } => UpdateWorkView::Rename { from: from@, to: to@ },
            UpdateWork::Copy { from, to } => UpdateWorkView::Copy { from: from@, to: to@ },
            UpdateWork::Restore { from, to } => UpdateWorkView::Restore { from: from@, to: to@ },
            UpdateWork::Done => UpdateWorkView::Done,
        }
    }
}

impl DeepView for UpdateEvent {
    type V = UpdateEventView;

    open spec fn deep_view(&self) -> UpdateEventView {
        match self {
            UpdateEvent::InPath(p) => UpdateEventView::InPath(p.deep_view()),
            UpdateEvent::Exe(p) => UpdateEventView::Exe(p.deep_view()),
            UpdateEvent::Latest(version) => UpdateEventView::Latest(version.deep_view()),
            UpdateEvent::Newer(newer) => UpdateEventView::Newer(*newer),
            UpdateEvent::ArchiveName(name) => UpdateEventView::ArchiveName(name.deep_view()),
            UpdateEvent::TempDir(p) => UpdateEventView::TempDir(p@),
            UpdateEvent::Response(status) => UpdateEventView::Response(*status),
            UpdateEvent::Body(bytes) => UpdateEventView::Body(bytes@),
            UpdateEvent::Success => UpdateEventView::Success,
            UpdateEvent::Failure(why) => UpdateEventView::Failure(why@),
        }
    }
}

/// An update of the installed program. What is not known yet is empty.
#[derive(Debug, PartialEq, Eq)]
pub struct Update {
    /// The version that is running.
    pub current_version: String,
    /// The platform that it was built for.
    pub build_target: String,
    /// Whether that platform is Windows, where the program cannot replace
    /// itself.
    pub windows: bool,
    pub exe_path: FsPath,
    pub latest_version: String,
    pub archive_name: String,
    pub temp_dir: FsPath,
    pub archive: Vec<u8>,
    pub work: UpdateWork,
}

/// What an [`Update`] stands for.
pub struct UpdateView {
    pub current_version: Seq<char>,
    pub build_target: Seq<char>,
    pub windows: bool,
    pub exe_path: Seq<u8>,
    pub latest_version: Seq<char>,
    pub archive_name: Seq<char>,
    pub temp_dir: Seq<u8>,
    pub archive: Seq<u8>,
    pub work: UpdateWorkView,
}

impl DeepView for Update {
    type V = UpdateView;

    open spec fn deep_view(&self) -> UpdateView {
        UpdateView {
            current_version: self.current_version@,
            build_target: self.build_target@,
            windows: self.windows,
            exe_path: self.exe_path@,
            latest_version: self.latest_version@,
            archive_name: self.archive_name@,
            temp_dir: self.temp_dir@,
            archive: self.archive@,
            work: self.work.deep_view(),
        }
    }
}

/// The first state of an update.
pub open spec fn updating(
    current_version: Seq<char>,
    build_target: Seq<char>,
    windows: bool,
) -> UpdateView {
    UpdateView {
        current_version,
        build_target,
        windows,
        exe_path: seq![],
        latest_version: seq![],
        archive_name: seq![],
        temp_dir: seq![],
        archive: seq![],
        work: UpdateWorkView::FindInPath,
    }
}

impl UpdateView {
    /// The state that waits for `work`.
    pub open spec fn doing(self, work: UpdateWorkView) -> UpdateView {
        UpdateView { work, ..self }
    }

    /// Where the archive is written.
    pub open spec fn archive_path(self) -> Seq<u8> {
        joined(self.temp_dir, encode_utf8(self.archive_name))
    }

    /// Where the new program is unpacked.
    pub open spec fn new_binary(self) -> Seq<u8> {
        joined(self.temp_dir, encode_utf8("cim"@))
    }

    /// Where the old program is kept.
    pub open spec fn old_binary(self) -> Seq<u8> {
        with_file_name(self.exe_path, encode_utf8("cim.old"@))
    }

    /// The address of the archive.
    pub open spec fn url(self) -> Seq<char> {
        "https://github.com/analogdevicesinc/cim/releases/latest/download/"@ + self.archive_name
    }

    /// The end of the update, with an error.
    pub open spec fn fails(self, text: Seq<char>) -> (UpdateView, Seq<MessageView>) {
        (self.doing(UpdateWorkView::Done), seq![says(Level::Error, text)])
    }

    /// The update goes on with `work`, and nothing is said.
    pub open spec fn goes_on(self, work: UpdateWorkView) -> (UpdateView, Seq<MessageView>) {
        (self.doing(work), seq![])
    }

    /// The state once the installed program was found at `exe`.
    pub open spec fn located(self, exe: Seq<u8>) -> (UpdateView, Seq<MessageView>) {
        (
            UpdateView { exe_path: exe, work: UpdateWorkView::FetchLatest, ..self },
            seq![
                says(Level::Status, "Updating: "@ + shown(exe)),
                says(Level::Status, "Current cim version: v"@ + self.current_version),
            ],
        )
    }

    /// The state once the latest version is known to be newer or not.
    pub open spec fn compared(self, newer: bool) -> (UpdateView, Seq<MessageView>) {
        if newer {
            (
                self.doing(UpdateWorkView::NameArchive(self.latest_version)),
                seq![
                    says(
                        Level::Status,
                        "New version available: v"@ + self.current_version + " → v"@
                            + self.latest_version,
                    ),
                ],
            )
        } else {
            (
                self.doing(UpdateWorkView::Done),
                seq![
                    says(
                        Level::Success,
                        "cim is already up to date (v"@ + self.current_version + ")"@,
                    ),
                ],
            )
        }
    }

    /// The state once the name of the archive is known.
    pub open spec fn named(self, name: Option<Seq<char>>) -> (UpdateView, Seq<MessageView>) {
        match name {
            Some(n) => (
                UpdateView { archive_name: n, work: UpdateWorkView::MakeTempDir, ..self },
                seq![says(Level::Status, "Downloading "@ + n + "..."@)],
            ),
            None => self.fails(
                "No prebuilt release for platform '"@ + self.build_target
                    + "'. Please build from source."@,
            ),
        }
    }

    /// The state once the archive was written.
    pub open spec fn written(self) -> (UpdateView, Seq<MessageView>) {
        let extracting = says(Level::Status, "Extracting cim binary..."@);
        if self.windows {
            (
                self.doing(UpdateWorkView::Done),
                seq![
                    extracting,
                    says(
                        Level::Error,
                        "Self-update via 'cim utils update' is not supported on Windows. Please download and install manually from: https://github.com/analogdevicesinc/cim/releases/latest"@,
                    ),
                ],
            )
        } else {
            (self.doing(UpdateWorkView::OpenArchive(self.archive_path())), seq![extracting])
        }
    }

    /// The state once the archive was searched.
    pub open spec fn searched(self, found: BinarySearchView) -> (UpdateView, Seq<MessageView>) {
        match found {
            BinarySearchView::Found(entry) => self.goes_on(
                UpdateWorkView::Unpack { entry, to: self.new_binary() },
            ),
            BinarySearchView::Missing => self.fails(
                "Archive does not contain a 'cim' binary."@,
            ),
            BinarySearchView::BadEntry(why) => self.fails(
                "Failed to read archive entry: "@ + why,
            ),
            BinarySearchView::BadArchive(why) => self.fails(
                "Failed to read archive entries: "@ + why,
            ),
        }
    }

    /// The state once the new program could not be put in place.
    pub open spec fn copy_failed(self, why: Seq<char>) -> (UpdateView, Seq<MessageView>) {
        (
            self.doing(UpdateWorkView::Restore { from: self.old_binary(), to: self.exe_path }),
            seq![
                says(
                    Level::Error,
                    "Failed to copy new binary: "@ + why + ". Old binary preserved at "@ + shown(
                        self.old_binary(),
                    ),
                ),
            ],
        )
    }

    /// The end of an update that succeeded.
    pub open spec fn copied(self) -> (UpdateView, Seq<MessageView>) {
        (
            self.doing(UpdateWorkView::Done),
            seq![
                says(
                    Level::Success,
                    "Successfully updated cim from v"@ + self.current_version + " to v"@
                        + self.latest_version,
                ),
            ],
        )
    }
}

/// The state after the event `e`, and what is said. An event that does not
/// answer the work that is waited for changes nothing.
pub open spec fn update_step(u: UpdateView, e: UpdateEventView) -> (
    UpdateView,
    Seq<MessageView>,
) {
    match (u.work, e) {
        (UpdateWorkView::FindInPath, UpdateEventView::InPath(found)) => match found {
            Some(exe) => u.located(exe),
            None => u.goes_on(UpdateWorkView::CurrentExe),
        },
        (UpdateWorkView::CurrentExe, UpdateEventView::Exe(found)) => match found {
            Some(exe) => u.located(exe),
            None => u.fails("Cannot locate the installed cim binary in PATH."@),
        },
        (UpdateWorkView::FetchLatest, UpdateEventView::Latest(found)) => match found {
            Some(version) => (
                UpdateView {
                    latest_version: version,
                    work: UpdateWorkView::CompareVersions {
                        current: u.current_version,
                        latest: version,
                    },
                    ..u
                },
                seq![],
            ),
            None => u.goes_on(UpdateWorkView::Done),
        },
        (UpdateWorkView::CompareVersions { .. }, UpdateEventView::Newer(newer)) => u.compared(
            newer,
        ),
        (UpdateWorkView::NameArchive(_), UpdateEventView::ArchiveName(name)) => u.named(name),
        (UpdateWorkView::MakeTempDir, UpdateEventView::TempDir(dir)) => (
            UpdateView {
                temp_dir: dir,
                work: UpdateWorkView::BuildClient {
                    timeout_secs: DOWNLOAD_TIMEOUT_SECS as nat,
                    user_agent: "cim/"@ + u.current_version,
                    max_redirects: MAX_REDIRECTS as nat,
                },
                ..u
            },
            seq![],
        ),
        (UpdateWorkView::MakeTempDir, UpdateEventView::Failure(why)) => u.fails(
            "Failed to create temporary directory: "@ + why,
        ),
        (UpdateWorkView::BuildClient { .. }, UpdateEventView::Success) => u.goes_on(
            UpdateWorkView::Download(u.url()),
        ),
        (UpdateWorkView::BuildClient { .. }, UpdateEventView::Failure(why)) => u.fails(
            "Failed to build HTTP client: "@ + why,
        ),
        (UpdateWorkView::Download(_), UpdateEventView::Response(status)) => if success_status(
            status,
        ) {
            u.goes_on(UpdateWorkView::ReadBody)
        } else {
            u.fails(bad_status_text(status, u.archive_name, canonical_reason(status)))
        },
        (UpdateWorkView::Download(_), UpdateEventView::Failure(why)) => u.fails(
            "Download failed: "@ + why,
        ),
        (UpdateWorkView::ReadBody, UpdateEventView::Body(bytes)) => (
            UpdateView {
                archive: bytes,
                work: UpdateWorkView::WriteArchive(u.archive_path()),
                ..u
            },
            seq![],
        ),
        (UpdateWorkView::ReadBody, UpdateEventView::Failure(why)) => u.fails(
            "Failed to read download: "@ + why,
        ),
        (UpdateWorkView::WriteArchive(_), UpdateEventView::Success) => u.written(),
        (UpdateWorkView::WriteArchive(_), UpdateEventView::Failure(why)) => u.fails(
            "Failed to save archive: "@ + why,
        ),
        (UpdateWorkView::OpenArchive(_), UpdateEventView::Success) => u.searched(
            search(u.archive),
        ),
        (UpdateWorkView::OpenArchive(_), UpdateEventView::Failure(why)) => u.fails(
            "Failed to open archive: "@ + why,
        ),
        (UpdateWorkView::Unpack { .. }, UpdateEventView::Success) => u.goes_on(
            UpdateWorkView::SetMode { path: u.new_binary(), mode: BINARY_MODE as nat },
        ),
        (UpdateWorkView::Unpack { .. }, UpdateEventView::Failure(why)) => u.fails(
            "Failed to extract cim binary: "@ + why,
        ),
        (UpdateWorkView::SetMode { .. }, UpdateEventView::Success) => u.goes_on(
            UpdateWorkView::Rename { from: u.exe_path, to: u.old_binary() },
        ),
        (UpdateWorkView::SetMode { .. }, UpdateEventView::Failure(why)) => u.fails(
            "Failed to set executable permissions: "@ + why,
        ),
        (UpdateWorkView::Rename { .. }, UpdateEventView::Success) => u.goes_on(
            UpdateWorkView::Copy { from: u.new_binary(), to: u.exe_path },
        ),
        (UpdateWorkView::Rename { .. }, UpdateEventView::Failure(why)) => u.fails(
            "Failed to rename current binary to cim.old: "@ + why,
        ),
        (UpdateWorkView::Copy { .. }, UpdateEventView::Success) => u.copied(),
        (UpdateWorkView::Copy { .. }, UpdateEventView::Failure(why)) => u.copy_failed(why),
        (UpdateWorkView::Restore { .. }, UpdateEventView::Success) => u.goes_on(
            UpdateWorkView::Done,
        ),
        (UpdateWorkView::Restore { .. }, UpdateEventView::Failure(_)) => u.goes_on(
            UpdateWorkView::Done,
        ),
        _ => (u, seq![]),
    }
}

/// The state after all of `events`, in order.
pub open spec fn update_run(u: UpdateView, events: Seq<UpdateEventView>) -> UpdateView
    decreases events.len(),
{
    if events.len() == 0 {
        u
    } else {
        update_step(update_run(u, events.drop_last()), events.last()).0
    }
}

/// Starts to update the installed program, version `current_version` built for
/// `build_target`, to the latest release.
pub fn handle_utils_update_command(
    current_version: String,
    build_target: String,
    windows: bool,
) -> (out: Update)
    ensures
        out.deep_view() == updating(current_version@, build_target@, windows),
{
    Update {
        current_version,
        build_target,
        windows,
        exe_path: FsPath { bytes: Vec::new() },
        latest_version: String::new(),
        archive_name: String::new(),
        temp_dir: FsPath { bytes: Vec::new() },
        archive: Vec::new(),
        work: UpdateWork::FindInPath,
    }
}

impl Update {
    /// Where the archive is written.
    pub fn archive_path(&self) -> (out: FsPath)
        ensures
            out@ == self.deep_view().archive_path(),
    {
        self.temp_dir.join(self.archive_name.as_str().as_bytes())
    }

    /// Where the new program is unpacked.
    pub fn new_binary(&self) -> (out: FsPath)
        ensures
            out@ == self.deep_view().new_binary(),
    {
        self.temp_dir.join("cim".as_bytes())
    }

    /// Where the old program is kept.
    pub fn old_binary(&self) -> (out: FsPath)
        ensures
            out@ == self.deep_view().old_binary(),
    {
        self.exe_path.with_file_name("cim.old".as_bytes())
    }

    /// Ends the update with an error.
    fn fails(self, text: String) -> (out: (Update, Vec<Message>))
        ensures
            (out.0.deep_view(), out.1.deep_view()) == self.deep_view().fails(text@),
    {
        (Update { work: UpdateWork::Done, ..self }, one(message(Level::Error, text)))
    }

    /// Ends the update because of `why`, which `what` introduces.
    fn fails_with(self, what: &str, why: String) -> (out: (Update, Vec<Message>))
        ensures
            (out.0.deep_view(), out.1.deep_view()) == self.deep_view().fails(what@ + why@),
    {
        self.fails(what.to_owned().concat(why.as_str()))
    }

    /// Goes on with `work` and says nothing.
    fn goes_on(self, work: UpdateWork) -> (out: (Update, Vec<Message>))
        ensures
            (out.0.deep_view(), out.1.deep_view()) == self.deep_view().goes_on(work.deep_view()),
    {
        (Update { work, ..self }, silent())
    }

    /// Goes on once the installed program was found.
    fn located(self, exe: FsPath) -> (out: (Update, Vec<Message>))
        ensures
            (out.0.deep_view(), out.1.deep_view()) == self.deep_view().located(exe@),
    {
        let updating = "Updating: ".to_owned().concat(exe.display().as_str());
        let version = "Current cim version: v".to_owned().concat(self.current_version.as_str());
        (
            Update { exe_path: exe, work: UpdateWork::FetchLatest, ..self },
            two(message(Level::Status, updating), message(Level::Status, version)),
        )
    }

    /// Goes on once the latest version is known to be newer or not.
    fn compared(self, newer: bool) -> (out: (Update, Vec<Message>))
        ensures
            (out.0.deep_view(), out.1.deep_view()) == self.deep_view().compared(newer),
    {
        if newer {
            let said = "New version available: v".to_owned().concat(
                self.current_version.as_str(),
            ).concat(" → v").concat(self.latest_version.as_str());
            let work = UpdateWork::NameArchive(self.latest_version.clone());
            (Update { work, ..self }, one(message(Level::Status, said)))
        } else {
            let said = "cim is already up to date (v".to_owned().concat(
                self.current_version.as_str(),
            ).concat(")");
            (Update { work: UpdateWork::Done, ..self }, one(message(Level::Success, said)))
        }
    }

    /// Goes on once the name of the archive is known.
    fn named(self, name: Option<String>) -> (out: (Update, Vec<Message>))
        ensures
            (out.0.deep_view(), out.1.deep_view()) == self.deep_view().named(name.deep_view()),
    {
        match name {
            Some(n) => {
                let said = "Downloading ".to_owned().concat(n.as_str()).concat("...");
                (
                    Update { archive_name: n, work: UpdateWork::MakeTempDir, ..self },
                    one(message(Level::Status, said)),
                )
            },
            None => {
                let said = "No prebuilt release for platform '".to_owned().concat(
                    self.build_target.as_str(),
                ).concat("'. Please build from source.");
                self.fails(said)
            },
        }
    }

    /// Goes on once the download was answered.
    fn answered(self, status: u16) -> (out: (Update, Vec<Message>))
        ensures
            (out.0.deep_view(), out.1.deep_view()) == (if success_status(status) {
                self.deep_view().goes_on(UpdateWorkView::ReadBody)
            } else {
                self.deep_view().fails(
                    bad_status_text(
                        status,
                        self.deep_view().archive_name,
                        canonical_reason(status),
                    ),
                )
            }),
    {
        if 200 <= status && status < 300 {
            self.goes_on(UpdateWork::ReadBody)
        } else {
            let reason = reason_of(status);
            let said = describe_bad_status(status, self.archive_name.as_str(), &reason);
            self.fails(said)
        }
    }

    /// Goes on once the archive was written.
    fn written(self) -> (out: (Update, Vec<Message>))
        ensures
            (out.0.deep_view(), out.1.deep_view()) == self.deep_view().written(),
    {
        let extracting = fixed(Level::Status, "Extracting cim binary...");
        if self.windows {
            (
                Update { work: UpdateWork::Done, ..self },
                two(
                    extracting,
                    fixed(
                        Level::Error,
                        "Self-update via 'cim utils update' is not supported on Windows. Please download and install manually from: https://github.com/analogdevicesinc/cim/releases/latest",
                    ),
                ),
            )
        } else {
            let work = UpdateWork::OpenArchive(self.archive_path());
            (Update { work, ..self }, one(extracting))
        }
    }

    /// Goes on once the archive was searched.
    pub fn searched(self, found: BinarySearch) -> (out: (Update, Vec<Message>))
        ensures
            (out.0.deep_view(), out.1.deep_view()) == self.deep_view().searched(
                found.deep_view(),
            ),
    {
        match found {
            BinarySearch::Found(entry) => {
                let to = self.new_binary();
                self.goes_on(UpdateWork::Unpack { entry, to })
            },
            BinarySearch::Missing => self.fails(
                "Archive does not contain a 'cim' binary.".to_owned(),
            ),
            BinarySearch::BadEntry(why) => self.fails_with(
                "Failed to read archive entry: ",
                why,
            ),
            BinarySearch::BadArchive(why) => self.fails_with(
                "Failed to read archive entries: ",
                why,
            ),
        }
    }

    /// Goes on once the new program was copied to its place, or was not.
    fn copy_done(self, why: Option<String>) -> (out: (Update, Vec<Message>))
        ensures
            (out.0.deep_view(), out.1.deep_view()) == (match why.deep_view() {
                None => self.deep_view().copied(),
                Some(w) => self.deep_view().copy_failed(w),
            }),
    {
        match why {
            None => {
                let said = "Successfully updated cim from v".to_owned().concat(
                    self.current_version.as_str(),
                ).concat(" to v").concat(self.latest_version.as_str());
                (Update { work: UpdateWork::Done, ..self }, one(message(Level::Success, said)))
            },
            Some(why) => {
                let old = self.old_binary();
                let said = "Failed to copy new binary: ".to_owned().concat(why.as_str()).concat(
                    ". Old binary preserved at ",
                ).concat(old.display().as_str());
                let work = UpdateWork::Restore { from: old, to: self.exe_path.clone() };
                (Update { work, ..self }, one(message(Level::Error, said)))
            },
        }
    }

    /// Takes note of `event` and decides what to do next.
    pub fn step(self, event: UpdateEvent) -> (out: (Update, Vec<Message>))
        ensures
            (out.0.deep_view(), out.1.deep_view()) == update_step(
                self.deep_view(),
                event.deep_view(),
            ),
    {
        match (&self.work, event) {
            (UpdateWork::FindInPath, UpdateEvent::InPath(found)) => match found {
                Some(exe) => self.located(exe),
                None => self.goes_on(UpdateWork::CurrentExe),
            },
            (UpdateWork::CurrentExe, UpdateEvent::Exe(found)) => match found {
                Some(exe) => self.located(exe),
                None => self.fails("Cannot locate the installed cim binary in PATH.".to_owned()),
            },
            (UpdateWork::FetchLatest, UpdateEvent::Latest(found)) => match found {
                Some(version) => {
                    let work = UpdateWork::CompareVersions {
                        current: self.current_version.clone(),
                        latest: version.clone(),
                    };
                    (Update { latest_version: version, work, ..self }, silent())
                },
                None => self.goes_on(UpdateWork::Done),
            },
            (UpdateWork::CompareVersions { .. }, UpdateEvent::Newer(newer)) => self.compared(
                newer,
            ),
            (UpdateWork::NameArchive(_), UpdateEvent::ArchiveName(name)) => self.named(name),
            (UpdateWork::MakeTempDir, UpdateEvent::TempDir(dir)) => {
                let work = UpdateWork::BuildClient {
                    timeout_secs: DOWNLOAD_TIMEOUT_SECS,
                    user_agent: "cim/".to_owned().concat(self.current_version.as_str()),
                    max_redirects: MAX_REDIRECTS,
                };
                (Update { temp_dir: dir, work, ..self }, silent())
            },
            (UpdateWork::MakeTempDir, UpdateEvent::Failure(why)) => self.fails_with(
                "Failed to create temporary directory: ",
                why,
            ),
            (UpdateWork::BuildClient { .. }, UpdateEvent::Success) => {
                let url =
                    "https://github.com/analogdevicesinc/cim/releases/latest/download/".to_owned().concat(
                self.archive_name.as_str());
                self.goes_on(UpdateWork::Download(url))
            },
            (UpdateWork::BuildClient { .. }, UpdateEvent::Failure(why)) => self.fails_with(
                "Failed to build HTTP client: ",
                why,
            ),
            (UpdateWork::Download(_), UpdateEvent::Response(status)) => self.answered(status),
            (UpdateWork::Download(_), UpdateEvent::Failure(why)) => self.fails_with(
                "Download failed: ",
                why,
            ),
            (UpdateWork::ReadBody, UpdateEvent::Body(bytes)) => {
                let work = UpdateWork::WriteArchive(self.archive_path());
                (Update { archive: bytes, work, ..self }, silent())
            },
            (UpdateWork::ReadBody, UpdateEvent::Failure(why)) => self.fails_with(
                "Failed to read download: ",
                why,
            ),
            (UpdateWork::WriteArchive(_), UpdateEvent::Success) => self.written(),
            (UpdateWork::WriteArchive(_), UpdateEvent::Failure(why)) => self.fails_with(
                "Failed to save archive: ",
                why,
            ),
            (UpdateWork::OpenArchive(_), UpdateEvent::Success) => {
                let found = find_binary(self.archive.as_slice());
                self.searched(found)
            },
            (UpdateWork::OpenArchive(_), UpdateEvent::Failure(why)) => self.fails_with(
                "Failed to open archive: ",
                why,
            ),
            (UpdateWork::Unpack { .. }, UpdateEvent::Success) => {
                let path = self.new_binary();
                self.goes_on(UpdateWork::SetMode { path, mode: BINARY_MODE })
            },
            (UpdateWork::Unpack { .. }, UpdateEvent::Failure(why)) => self.fails_with(
                "Failed to extract cim binary: ",
                why,
            ),
            (UpdateWork::SetMode { .. }, UpdateEvent::Success) => {
                let from = self.exe_path.clone();
                let to = self.old_binary();
                self.goes_on(UpdateWork::Rename { from, to })
            },
            (UpdateWork::SetMode { .. }, UpdateEvent::Failure(why)) => self.fails_with(
                "Failed to set executable permissions: ",
                why,
            ),
            (UpdateWork::Rename { .. }, UpdateEvent::Success) => {
                let from = self.new_binary();
                let to = self.exe_path.clone();
                self.goes_on(UpdateWork::Copy { from, to })
            },
            (UpdateWork::Rename { .. }, UpdateEvent::Failure(why)) => self.fails_with(
                "Failed to rename current binary to cim.old: ",
                why,
            ),
            (UpdateWork::Copy { .. }, UpdateEvent::Success) => self.copy_done(None),
            (UpdateWork::Copy { .. }, UpdateEvent::Failure(why)) => self.copy_done(Some(why)),
            (UpdateWork::Restore { .. }, UpdateEvent::Success) => self.goes_on(UpdateWork::Done),
            (UpdateWork::Restore { .. }, UpdateEvent::Failure(_)) => self.goes_on(
                UpdateWork::Done,
            ),
            _ => (self, silent()),
        }
    }
}

// ----------------------------------------------------------------------------
// Laws
// ----------------------------------------------------------------------------

/// Whether the installed program is touched.
pub open spec fn touches_binary(work: UpdateWorkView) -> bool {
    work is Rename || work is Copy || work is Restore
}

/// Whether the archive has been searched.
pub open spec fn is_past_search(work: UpdateWorkView) -> bool {
    work is Unpack || work is SetMode || touches_binary(work)
}

/// Whether the download has been answered.
pub open spec fn is_past_download(work: UpdateWorkView) -> bool {
    work is ReadBody || work is WriteArchive || work is OpenArchive || is_past_search(work)
}

/// Whether the versions have been compared.
pub open spec fn is_past_comparison(work: UpdateWorkView) -> bool {
    work is NameArchive || work is MakeTempDir || work is BuildClient || work is Download
        || is_past_download(work)
}

/// Whether the download was answered with success.
pub open spec fn had_success(events: Seq<UpdateEventView>) -> bool {
    exists|i: int|
        0 <= i < events.len() && #[trigger] events[i] is Response && success_status(
            events[i]->Response_0,
        )
}

/// Nothing is downloaded unless the latest release is newer, nothing is read of
/// an unsuccessful response, and the installed program is not touched unless
/// the archive holds a new one and the platform allows for it.
pub proof fn law_binary_is_touched_last(
    current_version: Seq<char>,
    build_target: Seq<char>,
    windows: bool,
    events: Seq<UpdateEventView>,
)
    ensures
        ({
            let u = update_run(updating(current_version, build_target, windows), events);
            &&& is_past_comparison(u.work) ==> events.contains(UpdateEventView::Newer(true))
            &&& is_past_download(u.work) ==> had_success(events)
            &&& is_past_search(u.work) ==> search(u.archive) is Found
            &&& u.work is OpenArchive || is_past_search(u.work) ==> !windows
            &&& u.windows == windows
        }),
    decreases events.len(),
{
    if events.len() > 0 {
        let start = updating(current_version, build_target, windows);
        let earlier = events.drop_last();
        law_binary_is_touched_last(current_version, build_target, windows, earlier);
        let before = update_run(start, earlier);
        if earlier.contains(UpdateEventView::Newer(true)) {
            let i = choose|i: int|
                0 <= i < earlier.len() && earlier[i] == UpdateEventView::Newer(true);
            assert(events[i] == UpdateEventView::Newer(true));
        }
        if had_success(earlier) {
            let i = choose|i: int|
                0 <= i < earlier.len() && #[trigger] earlier[i] is Response && success_status(
                    earlier[i]->Response_0,
                );
            assert(events[i] == earlier[i]);
        }
        assert(events[events.len() - 1] == events.last());
    }
}

/// The installed program is renamed only once the new one was unpacked and made
/// executable, and replaced only once the old one was renamed.
pub proof fn law_binary_is_replaced_in_order(u: UpdateView, e: UpdateEventView)
    ensures
        ({
            let next = update_step(u, e).0;
            &&& next.work is SetMode && !(u.work is SetMode) ==> u.work is Unpack && e is Success
            &&& next.work is Rename && !(u.work is Rename) ==> u.work is SetMode && e is Success
            &&& next.work is Copy && !(u.work is Copy) ==> u.work is Rename && e is Success
        }),
{
}

/// A program that could not be replaced is put back: what was renamed is
/// renamed again, the other way round, and then the update ends.
pub proof fn law_failed_copy_is_undone(u: UpdateView, why: Seq<char>, last: UpdateEventView)
    requires
        u.work is SetMode,
        last is Success || last is Failure,
    ensures
        ({
            let renaming = update_step(u, UpdateEventView::Success).0;
            let copying = update_step(renaming, UpdateEventView::Success).0;
            let restoring = update_step(copying, UpdateEventView::Failure(why)).0;
            &&& renaming.work matches UpdateWorkView::Rename { from, to }
            &&& copying.work matches UpdateWorkView::Copy { from: _, to: place }
            &&& place == from
            &&& restoring.work == UpdateWorkView::Restore { from: to, to: from }
            &&& update_step(restoring, last).0.work is Done
        }),
{
}

/// The old program is kept beside the new one, as `cim.old`.
pub proof fn law_old_binary_is_kept_beside(u: UpdateView)
    requires
        crate::path::file_name(u.exe_path) is Some,
    ensures
        crate::path::file_name(u.old_binary()) == Some(encode_utf8("cim.old"@)),
        crate::path::parent(u.old_binary()) == crate::path::parent(u.exe_path),
{
    let name = encode_utf8("cim.old"@);
    reveal_strlit("cim.old");
    vstd::utf8::is_ascii_chars_encode_utf8("cim.old"@);
    assert forall|i: int| 0 <= i < name.len() implies name[i] != crate::path::SLASH by {
        assert(name[i] == "cim.old"@[i] as u8);
    }
    assert(crate::path::is_plain_name(name));
    crate::path::law_with_file_name_is_sibling(u.exe_path, name);
}

/// Every failure before the installed program is touched ends the update, with
/// one error.
pub proof fn law_early_failure_ends_update(u: UpdateView, why: Seq<char>)
    requires
        u.work is MakeTempDir || u.work is BuildClient || u.work is Download || u.work is ReadBody
            || u.work is WriteArchive || u.work is OpenArchive || u.work is Unpack || u.work
            is SetMode || u.work is Rename,
    ensures
        ({
            let (next, said) = update_step(u, UpdateEventView::Failure(why));
            &&& next == u.doing(UpdateWorkView::Done)
            &&& said.len() == 1
            &&& said[0].level == Level::Error
        }),
{
}

/// Where the latest release cannot be asked for, the update ends without a
/// word; where it is not newer, it ends with a success.
pub proof fn law_nothing_new_nothing_done(u: UpdateView)
    ensures
        u.work is FetchLatest ==> update_step(u, UpdateEventView::Latest(None)) == (
            u.doing(UpdateWorkView::Done),
            Seq::<MessageView>::empty(),
        ),
        u.work is CompareVersions ==> ({
            let (next, said) = update_step(u, UpdateEventView::Newer(false));
            &&& next == u.doing(UpdateWorkView::Done)
            &&& said.len() == 1
            &&& said[0].level == Level::Success
        }),
{
}

/// An update that has ended stays so.
pub proof fn law_update_end_is_final(u: UpdateView, e: UpdateEventView)
    requires
        u.work is Done,
    ensures
        update_step(u, e) == (u, Seq::<MessageView>::empty()),
{
}

/// Whether `e` is an outcome of `work`.
pub open spec fn is_outcome(work: UpdateWorkView, e: UpdateEventView) -> bool {
    match work {
        UpdateWorkView::FindInPath => e is InPath,
        UpdateWorkView::CurrentExe => e is Exe,
        UpdateWorkView::FetchLatest => e is Latest,
        UpdateWorkView::CompareVersions { .. } => e is Newer,
        UpdateWorkView::NameArchive(_) => e is ArchiveName,
        UpdateWorkView::MakeTempDir => e is TempDir || e is Failure,
        UpdateWorkView::Download(_) => e is Response || e is Failure,
        UpdateWorkView::ReadBody => e is Body || e is Failure,
        UpdateWorkView::Done => false,
        _ => e is Success || e is Failure,
    }
}

/// An event that is no outcome of the work that is waited for changes nothing.
pub proof fn law_update_ignores_other_events(u: UpdateView, e: UpdateEventView)
    requires
        !is_outcome(u.work, e),
    ensures
        update_step(u, e) == (u, Seq::<MessageView>::empty()),
{
}

/// Whether the event at index `i` is `e`, as an outcome of the work that was
/// waited for.
pub open spec fn reports(
    start: UpdateView,
    events: Seq<UpdateEventView>,
    i: int,
    e: UpdateEventView,
) -> bool {
    &&& 0 <= i < events.len()
    &&& events[i] == e
    &&& is_outcome(update_run(start, events.take(i)).work, e)
}

/// Whether `e` was reported as an outcome of the work that was waited for.
pub open spec fn was_reported(
    start: UpdateView,
    events: Seq<UpdateEventView>,
    e: UpdateEventView,
) -> bool {
    exists|i: int| #[trigger] reports(start, events, i, e)
}

/// Whether the address of the archive is being asked for, or was.
pub open spec fn has_archive_name(work: UpdateWorkView) -> bool {
    work is MakeTempDir || work is BuildClient || work is Download || is_past_download(work)
}

/// Whether there is a temporary directory.
pub open spec fn has_temp_dir(work: UpdateWorkView) -> bool {
    work is BuildClient || work is Download || is_past_download(work)
}

/// Whether the archive was read.
pub open spec fn has_archive(work: UpdateWorkView) -> bool {
    work is WriteArchive || work is OpenArchive || is_past_search(work)
}

/// Whether the latest version is known.
pub open spec fn has_latest(work: UpdateWorkView) -> bool {
    work is CompareVersions || is_past_comparison(work)
}

/// Whether the installed program was located.
pub open spec fn has_exe(work: UpdateWorkView) -> bool {
    work is FetchLatest || has_latest(work)
}

/// What an update knows is what was reported to it: the installed program, the
/// latest version, the name of the archive, the temporary directory and the
/// bytes of the archive.
pub open spec fn knows_what_was_reported(
    u: UpdateView,
    start: UpdateView,
    events: Seq<UpdateEventView>,
) -> bool {
    &&& has_exe(u.work) ==> was_reported(start, events, UpdateEventView::InPath(Some(u.exe_path)))
        || was_reported(start, events, UpdateEventView::Exe(Some(u.exe_path)))
    &&& has_latest(u.work) ==> was_reported(
        start,
        events,
        UpdateEventView::Latest(Some(u.latest_version)),
    )
    &&& has_archive_name(u.work) ==> was_reported(
        start,
        events,
        UpdateEventView::ArchiveName(Some(u.archive_name)),
    )
    &&& has_temp_dir(u.work) ==> was_reported(
        start,
        events,
        UpdateEventView::TempDir(u.temp_dir),
    )
    &&& has_archive(u.work) ==> was_reported(start, events, UpdateEventView::Body(u.archive))
}

/// What an update asks for, in terms of what it knows.
pub open spec fn asks_for_what_it_knows(u: UpdateView) -> bool {
    let new = joined(u.temp_dir, seq![0x63u8, 0x69u8, 0x6du8]);
    let old = with_file_name(
        u.exe_path,
        seq![0x63u8, 0x69u8, 0x6du8, 0x2eu8, 0x6fu8, 0x6cu8, 0x64u8],
    );
    let archive = joined(u.temp_dir, encode_utf8(u.archive_name));
    match u.work {
        UpdateWorkView::CompareVersions { current, latest } => current == u.current_version
            && latest == u.latest_version,
        UpdateWorkView::NameArchive(version) => version == u.latest_version,
        UpdateWorkView::BuildClient { timeout_secs, user_agent, max_redirects } => timeout_secs
            == 300 && user_agent == "cim/"@ + u.current_version && max_redirects == 10,
        UpdateWorkView::Download(url) => url
            == "https://github.com/analogdevicesinc/cim/releases/latest/download/"@
            + u.archive_name,
        UpdateWorkView::WriteArchive(p) => p == archive,
        UpdateWorkView::OpenArchive(p) => p == archive,
        UpdateWorkView::Unpack { entry, to } => to == new && search(u.archive)
            == BinarySearchView::Found(entry),
        UpdateWorkView::SetMode { path, mode } => path == new && mode == 0o755,
        UpdateWorkView::Rename { from, to } => from == u.exe_path && to == old,
        UpdateWorkView::Copy { from, to } => from == new && to == u.exe_path,
        UpdateWorkView::Restore { from, to } => from == old && to == u.exe_path,
        _ => true,
    }
}

proof fn lemma_binary_names()
    ensures
        encode_utf8("cim"@) == seq![0x63u8, 0x69u8, 0x6du8],
        encode_utf8("cim.old"@) == seq![0x63u8, 0x69u8, 0x6du8, 0x2eu8, 0x6fu8, 0x6cu8, 0x64u8],
{
    reveal_strlit("cim");
    reveal_strlit("cim.old");
    vstd::utf8::is_ascii_chars_encode_utf8("cim"@);
    vstd::utf8::is_ascii_chars_encode_utf8("cim.old"@);
    assert(encode_utf8("cim"@) =~= seq![0x63u8, 0x69u8, 0x6du8]);
    assert(encode_utf8("cim.old"@) =~= seq![
        0x63u8,
        0x69u8,
        0x6du8,
        0x2eu8,
        0x6fu8,
        0x6cu8,
        0x64u8,
    ]);
}

#[verifier::rlimit(30)]
proof fn lemma_step_asks_for_what_it_knows(u: UpdateView, e: UpdateEventView)
    requires
        asks_for_what_it_knows(u),
    ensures
        ({
            let next = update_step(u, e).0;
            &&& asks_for_what_it_knows(next)
            &&& next.current_version == u.current_version
            &&& next.build_target == u.build_target
            &&& next.windows == u.windows
        }),
{
    lemma_binary_names();
}

#[verifier::rlimit(30)]
proof fn lemma_step_keeps_what_it_knows(u: UpdateView, e: UpdateEventView)
    ensures
        ({
            let next = update_step(u, e).0;
            &&& has_exe(next.work) ==> has_exe(u.work) && next.exe_path == u.exe_path || (
            is_outcome(u.work, e) && (e == UpdateEventView::InPath(Some(next.exe_path)) || e
                == UpdateEventView::Exe(Some(next.exe_path))))
            &&& has_latest(next.work) ==> has_latest(u.work) && next.latest_version
                == u.latest_version || (is_outcome(u.work, e) && e == UpdateEventView::Latest(
                Some(next.latest_version),
            ))
            &&& has_archive_name(next.work) ==> has_archive_name(u.work) && next.archive_name
                == u.archive_name || (is_outcome(u.work, e) && e == UpdateEventView::ArchiveName(
                Some(next.archive_name),
            ))
            &&& has_temp_dir(next.work) ==> has_temp_dir(u.work) && next.temp_dir == u.temp_dir
                || (is_outcome(u.work, e) && e == UpdateEventView::TempDir(next.temp_dir))
            &&& has_archive(next.work) ==> has_archive(u.work) && next.archive == u.archive || (
            is_outcome(u.work, e) && e == UpdateEventView::Body(next.archive))
        }),
{
}

proof fn lemma_report_stays(
    start: UpdateView,
    events: Seq<UpdateEventView>,
    e: UpdateEventView,
)
    requires
        events.len() > 0,
    ensures
        was_reported(start, events.drop_last(), e) ==> was_reported(start, events, e),
        events.last() == e && is_outcome(update_run(start, events.drop_last()).work, e)
            ==> was_reported(start, events, e),
{
    let earlier = events.drop_last();
    let last = events.len() - 1;
    assert(events.take(last) =~= earlier);
    if was_reported(start, earlier, e) {
        let i = choose|i: int| #[trigger] reports(start, earlier, i, e);
        assert(events.take(i) =~= earlier.take(i));
        assert(reports(start, events, i, e));
    }
    if events.last() == e && is_outcome(update_run(start, earlier).work, e) {
        assert(reports(start, events, last, e));
    }
}

/// In every run, what is asked for is made of what was given at the start and of
/// what was reported since. The program in `PATH`, or else the running one, is
/// the one that is renamed and replaced. The address that is requested is that
/// of the archive whose name was reported, and so are the paths that it is
/// written to and opened at, in the temporary directory that was reported. What
/// is unpacked is what the archive that was read holds.
pub proof fn law_update_works_on_what_was_reported(
    current_version: Seq<char>,
    build_target: Seq<char>,
    windows: bool,
    events: Seq<UpdateEventView>,
)
    ensures
        ({
            let start = updating(current_version, build_target, windows);
            let u = update_run(start, events);
            &&& u.current_version == current_version
            &&& u.build_target == build_target
            &&& u.windows == windows
            &&& asks_for_what_it_knows(u)
            &&& knows_what_was_reported(u, start, events)
        }),
    decreases events.len(),
{
    if events.len() > 0 {
        let start = updating(current_version, build_target, windows);
        let earlier = events.drop_last();
        law_update_works_on_what_was_reported(current_version, build_target, windows, earlier);
        let before = update_run(start, earlier);
        let u = update_run(start, events);
        lemma_step_asks_for_what_it_knows(before, events.last());
        lemma_step_keeps_what_it_knows(before, events.last());
        lemma_report_stays(start, events, UpdateEventView::InPath(Some(u.exe_path)));
        lemma_report_stays(start, events, UpdateEventView::Exe(Some(u.exe_path)));
        lemma_report_stays(start, events, UpdateEventView::Latest(Some(u.latest_version)));
        lemma_report_stays(start, events, UpdateEventView::ArchiveName(Some(u.archive_name)));
        lemma_report_stays(start, events, UpdateEventView::TempDir(u.temp_dir));
        lemma_report_stays(start, events, UpdateEventView::Body(u.archive));
    }
}

/// Whichever name the archive for a platform has, the address that is requested
/// ends in it, and other names have other addresses.
pub proof fn law_address_follows_the_archive_name(
    u: UpdateView,
    name: Seq<char>,
    other: Seq<char>,
    dir: Seq<u8>,
)
    requires
        u.work is NameArchive,
        name != other,
    ensures
        ({
            let asked = seq![
                UpdateEventView::TempDir(dir),
                UpdateEventView::Success,
            ];
            let a = update_run(
                update_step(u, UpdateEventView::ArchiveName(Some(name))).0,
                asked,
            );
            let b = update_run(
                update_step(u, UpdateEventView::ArchiveName(Some(other))).0,
                asked,
            );
            &&& a.work matches UpdateWorkView::Download(url)
            &&& b.work matches UpdateWorkView::Download(elsewhere)
            &&& url.len() >= name.len()
            &&& url.skip(url.len() - name.len()) == name
            &&& url != elsewhere
        }),
{
    let e1 = UpdateEventView::TempDir(dir);
    let e2 = UpdateEventView::Success;
    assert(seq![e1, e2].drop_last() =~= seq![e1]);
    assert(seq![e1].drop_last() =~= Seq::<UpdateEventView>::empty());
    reveal_with_fuel(update_run, 3);
    let prefix = "https://github.com/analogdevicesinc/cim/releases/latest/download/"@;
    assert((prefix + name).skip(prefix.len() as int) =~= name);
    assert((prefix + other).skip(prefix.len() as int) =~= other);
}

/// Each thing that goes well leads to the next: locating, asking for the latest
/// release, comparing, naming, a temporary directory, a client, the download,
/// its body, the archive, the program in it, its permissions, the old program
/// out of the way, the new one in place.
pub proof fn law_update_goes_on_after_success(u: UpdateView, e: UpdateEventView)
    ensures
        ({
            let next = update_step(u, e).0;
            &&& u.work is FindInPath && e is InPath ==> if e->InPath_0 is Some {
                next.work is FetchLatest
            } else {
                next.work is CurrentExe
            }
            &&& u.work is CurrentExe && e is Exe ==> if e->Exe_0 is Some {
                next.work is FetchLatest
            } else {
                next.work is Done
            }
            &&& u.work is FetchLatest && e is Latest && e->Latest_0 is Some ==> next.work
                is CompareVersions
            &&& u.work is CompareVersions && e == UpdateEventView::Newer(true) ==> next.work
                is NameArchive
            &&& u.work is NameArchive && e is ArchiveName ==> if e->ArchiveName_0 is Some {
                next.work is MakeTempDir
            } else {
                next.work is Done
            }
            &&& u.work is MakeTempDir && e is TempDir ==> next.work is BuildClient
            &&& u.work is BuildClient && e is Success ==> next.work is Download
            &&& u.work is Download && e is Response ==> if 200 <= e->Response_0 <= 299 {
                next.work is ReadBody
            } else {
                next.work is Done
            }
            &&& u.work is ReadBody && e is Body ==> next.work is WriteArchive
            &&& u.work is WriteArchive && e is Success ==> if u.windows {
                next.work is Done
            } else {
                next.work is OpenArchive
            }
            &&& u.work is OpenArchive && e is Success ==> if search(u.archive) is Found {
                next.work is Unpack
            } else {
                next.work is Done
            }
            &&& u.work is Unpack && e is Success ==> next.work is SetMode
            &&& u.work is SetMode && e is Success ==> next.work is Rename
            &&& u.work is Rename && e is Success ==> next.work is Copy
            &&& u.work is Copy && e is Success ==> next.work is Done
        }),
{
}

/// One message.
pub open spec fn tells(level: Level, text: Seq<char>) -> Seq<MessageView> {
    seq![MessageView { level, text }]
}

/// What goes well is told with the program, the versions and the archive that it
/// is about.
pub proof fn law_update_tells_its_progress(u: UpdateView, exe: Seq<u8>, name: Seq<char>)
    ensures
        u.work is FindInPath ==> update_step(u, UpdateEventView::InPath(Some(exe))).1
            == located_messages(exe, u.current_version),
        u.work is CurrentExe ==> update_step(u, UpdateEventView::Exe(Some(exe))).1
            == located_messages(exe, u.current_version),
        u.work is CompareVersions ==> update_step(u, UpdateEventView::Newer(true)).1 == tells(
            Level::Status,
            "New version available: v"@ + u.current_version + " → v"@ + u.latest_version,
        ),
        u.work is CompareVersions ==> update_step(u, UpdateEventView::Newer(false)).1 == tells(
            Level::Success,
            "cim is already up to date (v"@ + u.current_version + ")"@,
        ),
        u.work is NameArchive ==> update_step(u, UpdateEventView::ArchiveName(Some(name))).1
            == tells(Level::Status, "Downloading "@ + name + "..."@),
        u.work is WriteArchive && !u.windows ==> update_step(u, UpdateEventView::Success).1
            == tells(Level::Status, "Extracting cim binary..."@),
        u.work is Copy ==> update_step(u, UpdateEventView::Success).1 == tells(
            Level::Success,
            "Successfully updated cim from v"@ + u.current_version + " to v"@ + u.latest_version,
        ),
{
}

/// What is told of a program that was located.
pub open spec fn located_messages(exe: Seq<u8>, version: Seq<char>) -> Seq<MessageView> {
    tells(Level::Status, "Updating: "@ + shown(exe)) + tells(
        Level::Status,
        "Current cim version: v"@ + version,
    )
}

/// Every failure is told with what failed and why.
pub proof fn law_update_tells_its_failures(u: UpdateView, why: Seq<char>, status: u16)
    ensures
        ({
            let failed = update_step(u, UpdateEventView::Failure(why)).1;
            &&& u.work is MakeTempDir ==> failed == tells(
                Level::Error,
                "Failed to create temporary directory: "@ + why,
            )
            &&& u.work is BuildClient ==> failed == tells(
                Level::Error,
                "Failed to build HTTP client: "@ + why,
            )
            &&& u.work is Download ==> failed == tells(Level::Error, "Download failed: "@ + why)
            &&& u.work is ReadBody ==> failed == tells(
                Level::Error,
                "Failed to read download: "@ + why,
            )
            &&& u.work is WriteArchive ==> failed == tells(
                Level::Error,
                "Failed to save archive: "@ + why,
            )
            &&& u.work is OpenArchive ==> failed == tells(
                Level::Error,
                "Failed to open archive: "@ + why,
            )
            &&& u.work is Unpack ==> failed == tells(
                Level::Error,
                "Failed to extract cim binary: "@ + why,
            )
            &&& u.work is SetMode ==> failed == tells(
                Level::Error,
                "Failed to set executable permissions: "@ + why,
            )
            &&& u.work is Rename ==> failed == tells(
                Level::Error,
                "Failed to rename current binary to cim.old: "@ + why,
            )
            &&& u.work is Copy ==> failed == tells(
                Level::Error,
                "Failed to copy new binary: "@ + why + ". Old binary preserved at "@ + shown(
                    with_file_name(u.exe_path, encode_utf8("cim.old"@)),
                ),
            )
            &&& u.work is Restore ==> failed.len() == 0
        }),
        u.work is CurrentExe ==> update_step(u, UpdateEventView::Exe(None)).1 == tells(
            Level::Error,
            "Cannot locate the installed cim binary in PATH."@,
        ),
        u.work is NameArchive ==> update_step(u, UpdateEventView::ArchiveName(None)).1 == tells(
            Level::Error,
            "No prebuilt release for platform '"@ + u.build_target
                + "'. Please build from source."@,
        ),
        u.work is Download && !(200 <= status <= 299) ==> update_step(
            u,
            UpdateEventView::Response(status),
        ).1 == tells(
            Level::Error,
            "HTTP "@ + text::decimal(status as nat) + " downloading "@ + u.archive_name + ": "@ + (
            match canonical_reason(status) {
                Some(reason) => reason,
                None => "error"@,
            }),
        ),
{
}

/// What comes of the search in the archive is told where it ends the update, and
/// the entry that it found is the one that is unpacked.
pub proof fn law_search_result_is_used(u: UpdateView, found: BinarySearchView)
    ensures
        ({
            let (next, said) = u.searched(found);
            match found {
                BinarySearchView::Found(i) => {
                    &&& next.work matches UpdateWorkView::Unpack { entry, to }
                    &&& entry == i
                    &&& to == joined(u.temp_dir, encode_utf8("cim"@))
                    &&& said.len() == 0
                },
                BinarySearchView::Missing => next.work is Done && said == tells(
                    Level::Error,
                    "Archive does not contain a 'cim' binary."@,
                ),
                BinarySearchView::BadEntry(why) => next.work is Done && said == tells(
                    Level::Error,
                    "Failed to read archive entry: "@ + why,
                ),
                BinarySearchView::BadArchive(why) => next.work is Done && said == tells(
                    Level::Error,
                    "Failed to read archive entries: "@ + why,
                ),
            }
        }),
        u.work is OpenArchive ==> update_step(u, UpdateEventView::Success) == u.searched(
            search(u.archive),
        ),
{
}

/// Whatever goes on without a message is not told: most of the work is done in
/// silence.
pub proof fn law_update_is_silent_otherwise(u: UpdateView, e: UpdateEventView)
    requires
        ({
            ||| u.work is FindInPath && e == UpdateEventView::InPath(None)
            ||| e is Latest
            ||| e is TempDir
            ||| e is Body
            ||| e is Response && 200 <= e->Response_0 <= 299
            ||| e is Success && (u.work is BuildClient || u.work is Unpack || u.work is SetMode
                || u.work is Rename || u.work is Restore)
        }),
    ensures
        update_step(u, e).1.len() == 0,
{
}

} // verus!
