//! Preparing the two external tools for a run, and removing them afterwards.
//!
//! The library decides which files are written, in which order, with which
//! mode, and which failures count. The caller performs each step on the real
//! filesystem and reports how it went.

use vstd::prelude::*;
use vstd::string::StringExecFns;
use crate::text::{joined, views_of};

verus! {

/// File name of the downloader inside the temporary directory.
pub const DOWNLOADER_FILE_NAME: &'static str = "yt-dlp-temp";

/// File name of the muxer inside the temporary directory.
pub const MUXER_FILE_NAME: &'static str = "ffmpeg-temp";

/// Suffix that executables carry on Windows.
pub const WINDOWS_SUFFIX: &'static str = ".exe";

/// Mode of a provisioned tool where executable bits exist: read, write and
/// execute for the owner, read and execute for everybody else.
pub const EXECUTABLE_MODE: u32 = 0o755;

/// The platform families that differ in how a tool is provisioned.
#[derive(Debug, Clone, Copy, PartialEq, Eq, Structural)]
pub enum Platform {
    /// Executables need an explicit mode.
    Unix,
    /// Executables are told by their `.exe` suffix.
    Windows,
    /// Neither of the two.
    Other,
}

/// The two external tools.
#[derive(Debug, Clone, Copy, PartialEq, Eq, Structural)]
pub enum ToolKind {
    Downloader,
    Muxer,
}

/// The file name under which a tool is provisioned on a platform.
pub open spec fn tool_file_name_of(kind: ToolKind, platform: Platform) -> Seq<char> {
    let base = match kind {
        ToolKind::Downloader => DOWNLOADER_FILE_NAME@,
        ToolKind::Muxer => MUXER_FILE_NAME@,
    };
    match platform {
        Platform::Windows => base + WINDOWS_SUFFIX@,
        _ => base,
    }
}

/// The file name under which a tool is provisioned on a platform.
pub fn tool_file_name(kind: ToolKind, platform: Platform) -> (name: String)
    ensures
        name@ == tool_file_name_of(kind, platform),
{
    let base = match kind {
        ToolKind::Downloader => DOWNLOADER_FILE_NAME,
        ToolKind::Muxer => MUXER_FILE_NAME,
    };
    match platform {
        Platform::Windows => joined(base, WINDOWS_SUFFIX),
        _ => String::from_str(base),
    }
}

/// The character of a decimal digit.
pub open spec fn digit_char(digit: nat) -> char {
    if digit == 0 {
        '0'
    } else if digit == 1 {
        '1'
    } else if digit == 2 {
        '2'
    } else if digit == 3 {
        '3'
    } else if digit == 4 {
        '4'
    } else if digit == 5 {
        '5'
    } else if digit == 6 {
        '6'
    } else if digit == 7 {
        '7'
    } else if digit == 8 {
        '8'
    } else {
        '9'
    }
}

/// The decimal numeral of `n`, most significant digit first and without
/// leading zeros.
pub open spec fn decimal_of(n: nat) -> Seq<char>
    decreases n,
{
    if n < 10 {
        seq![digit_char(n)]
    } else {
        decimal_of(n / 10).push(digit_char(n % 10))
    }
}

/// What stands between a tool's file name and the number of its session.
pub const SESSION_SEPARATOR: &'static str = "-";

/// The file name of a tool that belongs to one session: the tool's name, a
/// hyphen, the session's number in decimal, and the platform's suffix.
pub open spec fn session_file_name_of(kind: ToolKind, platform: Platform, session: nat) -> Seq<
    char,
> {
    tool_file_name_of(kind, Platform::Other) + SESSION_SEPARATOR@ + decimal_of(session)
        + tool_suffix_of(platform)
}

/// The suffix that an executable's file name carries on a platform.
pub open spec fn tool_suffix_of(platform: Platform) -> Seq<char> {
    match platform {
        Platform::Windows => WINDOWS_SUFFIX@,
        _ => Seq::empty(),
    }
}

/// The text of one decimal digit.
fn digit_text(digit: u64) -> (text: &'static str)
    requires
        digit < 10,
    ensures
        text@ == seq![digit_char(digit as nat)],
{
    proof {
        reveal_strlit("0");
        reveal_strlit("1");
        reveal_strlit("2");
        reveal_strlit("3");
        reveal_strlit("4");
        reveal_strlit("5");
        reveal_strlit("6");
        reveal_strlit("7");
        reveal_strlit("8");
        reveal_strlit("9");
    }
    let text = if digit == 0 {
        "0"
    } else if digit == 1 {
        "1"
    } else if digit == 2 {
        "2"
    } else if digit == 3 {
        "3"
    } else if digit == 4 {
        "4"
    } else if digit == 5 {
        "5"
    } else if digit == 6 {
        "6"
    } else if digit == 7 {
        "7"
    } else if digit == 8 {
        "8"
    } else {
        "9"
    };
    assert(text@ =~= seq![digit_char(digit as nat)]);
    text
}

/// The decimal numeral of `n`.
pub fn decimal(n: u64) -> (numeral: String)
    ensures
        numeral@ == decimal_of(n as nat),
    decreases n,
{
    if n < 10 {
        String::from_str(digit_text(n))
    } else {
        let mut numeral = decimal(n / 10);
        numeral.append(digit_text(n % 10));
        assert(numeral@ =~= decimal_of(n as nat));
        numeral
    }
}

/// The file name of a tool that belongs to the session with the given number.
/// Sessions with different numbers get different file names, so that two of
/// them never write to the same file.
pub fn session_tool_file_name(kind: ToolKind, platform: Platform, session: u64) -> (name: String)
    ensures
        name@ == session_file_name_of(kind, platform, session as nat),
{
    let mut name = tool_file_name(kind, Platform::Other);
    name.append(SESSION_SEPARATOR);
    name.append(decimal(session).as_str());
    match platform {
        Platform::Windows => {
            name.append(WINDOWS_SUFFIX);
        },
        _ => {},
    }
    assert(name@ =~= session_file_name_of(kind, platform, session as nat));
    name
}

/// Whether provisioned tools need an explicit executable mode on a platform.
pub fn needs_executable_mode(platform: Platform) -> (needed: bool)
    ensures
        needed == (platform == Platform::Unix),
{
    match platform {
        Platform::Unix => true,
        _ => false,
    }
}

/// Where the two tools of one session live.
#[derive(Debug, PartialEq, Eq)]
pub struct ProvisionedTools {
    pub downloader_path: String,
    pub muxer_path: String,
}

/// Mathematical model of `ProvisionedTools`.
pub ghost struct ToolsView {
    pub downloader_path: Seq<char>,
    pub muxer_path: Seq<char>,
}

impl View for ProvisionedTools {
    type V = ToolsView;

    open spec fn view(&self) -> ToolsView {
        ToolsView { downloader_path: self.downloader_path@, muxer_path: self.muxer_path@ }
    }
}

impl Clone for ProvisionedTools {
    /// A copy with the same two paths.
    fn clone(&self) -> (copy: ProvisionedTools)
        ensures
            copy@ == self@,
    {
        ProvisionedTools {
            downloader_path: self.downloader_path.clone(),
            muxer_path: self.muxer_path.clone(),
        }
    }
}

impl ProvisionedTools {
    /// The path of one of the two tools.
    pub fn path_of(&self, kind: ToolKind) -> (path: &String)
        ensures
            path@ == self@.path_of(kind),
    {
        match kind {
            ToolKind::Downloader => &self.downloader_path,
            ToolKind::Muxer => &self.muxer_path,
        }
    }
}

impl ToolsView {
    /// The path of one of the two tools.
    pub open spec fn path_of(self, kind: ToolKind) -> Seq<char> {
        match kind {
            ToolKind::Downloader => self.downloader_path,
            ToolKind::Muxer => self.muxer_path,
        }
    }
}

/// Why provisioning failed.
#[derive(Debug, PartialEq, Eq)]
pub enum ProvisioningError {
    /// A tool could not be written to its path.
    WriteFailed { reason: String },
    /// A written tool could not be made executable.
    PermissionFailed { reason: String },
}

/// Mathematical model of a `ProvisioningError`.
pub ghost enum ProvisioningErrorView {
    WriteFailed { reason: Seq<char> },
    PermissionFailed { reason: Seq<char> },
}

impl View for ProvisioningError {
    type V = ProvisioningErrorView;

    open spec fn view(&self) -> ProvisioningErrorView {
        match *self {
            ProvisioningError::WriteFailed { reason } => ProvisioningErrorView::WriteFailed {
                reason: reason@,
            },
            ProvisioningError::PermissionFailed {
                reason,
            } => ProvisioningErrorView::PermissionFailed { reason: reason@ },
        }
    }
}

impl Clone for ProvisioningError {
    /// A copy of the same error.
    fn clone(&self) -> (copy: ProvisioningError)
        ensures
            copy@ == self@,
    {
        match self {
            ProvisioningError::WriteFailed { reason } => ProvisioningError::WriteFailed {
                reason: reason.clone(),
            },
            ProvisioningError::PermissionFailed { reason } => ProvisioningError::PermissionFailed {
                reason: reason.clone(),
            },
        }
    }
}

/// Start of the message for a tool that could not be written.
pub const WRITE_FAILED_PREFIX: &'static str = "写入临时文件失败: ";

/// Start of the message for a tool that could not be made executable.
pub const PERMISSION_FAILED_PREFIX: &'static str = "设置可执行权限失败: ";

impl ProvisioningErrorView {
    /// The message for this error: what failed, then the reason reported.
    pub open spec fn message(self) -> Seq<char> {
        match self {
            ProvisioningErrorView::WriteFailed { reason } => WRITE_FAILED_PREFIX@ + reason,
            ProvisioningErrorView::PermissionFailed { reason } => PERMISSION_FAILED_PREFIX@
                + reason,
        }
    }
}

impl ProvisioningError {
    /// The message for this error: what failed, then the reason reported.
    pub fn describe(&self) -> (message: String)
        ensures
            message@ == self@.message(),
    {
        match self {
            ProvisioningError::WriteFailed { reason } => joined(
                WRITE_FAILED_PREFIX,
                reason.as_str(),
            ),
            ProvisioningError::PermissionFailed { reason } => joined(
                PERMISSION_FAILED_PREFIX,
                reason.as_str(),
            ),
        }
    }
}

/// One action on the filesystem.
#[derive(Debug, PartialEq, Eq)]
pub enum FileStep {
    /// Write the payload of a tool to a path, replacing what is there.
    Write { kind: ToolKind, path: String },
    /// Set the mode of the file at a path.
    SetMode { path: String, mode: u32 },
    /// Remove the file at a path.
    Remove { path: String },
}

/// Mathematical model of a `FileStep`.
pub ghost enum FileStepView {
    Write { kind: ToolKind, path: Seq<char> },
    SetMode { path: Seq<char>, mode: u32 },
    Remove { path: Seq<char> },
}

impl View for FileStep {
    type V = FileStepView;

    open spec fn view(&self) -> FileStepView {
        match *self {
            FileStep::Write { kind, path } => FileStepView::Write { kind, path: path@ },
            FileStep::SetMode { path, mode } => FileStepView::SetMode { path: path@, mode },
            FileStep::Remove { path } => FileStepView::Remove { path: path@ },
        }
    }
}

impl Clone for FileStep {
    /// A copy of the same step.
    fn clone(&self) -> (copy: FileStep)
        ensures
            copy@ == self@,
    {
        match self {
            FileStep::Write { kind, path } => FileStep::Write { kind: *kind, path: path.clone() },
            FileStep::SetMode { path, mode } => FileStep::SetMode {
                path: path.clone(),
                mode: *mode,
            },
            FileStep::Remove { path } => FileStep::Remove { path: path.clone() },
        }
    }
}

/// Copies a run of steps.
pub(crate) fn copy_steps(steps: &Vec<FileStep>) -> (copy: Vec<FileStep>)
    ensures
        views_of(copy@) == views_of(steps@),
{
    let mut copy: Vec<FileStep> = Vec::new();
    let mut i: usize = 0;
    while i < steps.len()
        invariant
            i <= steps.len(),
            copy.len() == i,
            forall|k: int| 0 <= k < i ==> copy[k]@ == steps[k]@,
        decreases steps.len() - i,
    {
        copy.push(steps[i].clone());
        i += 1;
    }
    assert(views_of(copy@) =~= views_of(steps@));
    copy
}

/// The steps that provision both tools: each tool is written, the downloader
/// first; where the platform needs it, each is then given `EXECUTABLE_MODE`.
pub open spec fn provision_steps_of(tools: ToolsView, platform: Platform) -> Seq<FileStepView> {
    let writes = seq![
        FileStepView::Write { kind: ToolKind::Downloader, path: tools.downloader_path },
        FileStepView::Write { kind: ToolKind::Muxer, path: tools.muxer_path },
    ];
    if platform == Platform::Unix {
        writes + seq![
            FileStepView::SetMode { path: tools.downloader_path, mode: EXECUTABLE_MODE },
            FileStepView::SetMode { path: tools.muxer_path, mode: EXECUTABLE_MODE },
        ]
    } else {
        writes
    }
}

/// The steps that clean up after a run: both tools are removed.
pub open spec fn cleanup_steps_of(tools: ToolsView) -> Seq<FileStepView> {
    seq![
        FileStepView::Remove { path: tools.downloader_path },
        FileStepView::Remove { path: tools.muxer_path },
    ]
}

/// What a failed step means for provisioning: a failed write or a failed
/// change of mode is an error, a failed removal is not.
pub open spec fn failure_of(step: FileStepView, reason: Seq<char>) -> Option<
    ProvisioningErrorView,
> {
    match step {
        FileStepView::Write { .. } => Some(ProvisioningErrorView::WriteFailed { reason }),
        FileStepView::SetMode { .. } => Some(ProvisioningErrorView::PermissionFailed { reason }),
        FileStepView::Remove { .. } => None,
    }
}

impl FileStep {
    /// What it means that this step failed for the given reason: an error for
    /// a write or a change of mode, nothing for a removal.
    pub fn failure(&self, reason: &str) -> (error: Option<ProvisioningError>)
        ensures
            error is Some <==> failure_of(self@, reason@) is Some,
            error matches Some(e) ==> Some(e@) == failure_of(self@, reason@),
    {
        match self {
            FileStep::Write { .. } => Some(
                ProvisioningError::WriteFailed { reason: String::from_str(reason) },
            ),
            FileStep::SetMode { .. } => Some(
                ProvisioningError::PermissionFailed { reason: String::from_str(reason) },
            ),
            FileStep::Remove { .. } => None,
        }
    }
}

/// The steps that provision both tools on a platform, in the order in which
/// they are to be performed.
pub fn provision_steps(tools: &ProvisionedTools, platform: Platform) -> (steps: Vec<FileStep>)
    ensures
        views_of(steps@) == provision_steps_of(tools@, platform),
{
    let mut steps: Vec<FileStep> = Vec::new();
    steps.push(FileStep::Write { kind: ToolKind::Downloader, path: tools.downloader_path.clone() });
    steps.push(FileStep::Write { kind: ToolKind::Muxer, path: tools.muxer_path.clone() });
    if needs_executable_mode(platform) {
        steps.push(
            FileStep::SetMode { path: tools.downloader_path.clone(), mode: EXECUTABLE_MODE },
        );
        steps.push(FileStep::SetMode { path: tools.muxer_path.clone(), mode: EXECUTABLE_MODE });
    }
    assert(views_of(steps@) =~= provision_steps_of(tools@, platform));
    steps
}

/// The steps that remove both tools after a run.
pub fn cleanup_steps(tools: &ProvisionedTools) -> (steps: Vec<FileStep>)
    ensures
        views_of(steps@) == cleanup_steps_of(tools@),
{
    let mut steps: Vec<FileStep> = Vec::new();
    steps.push(FileStep::Remove { path: tools.downloader_path.clone() });
    steps.push(FileStep::Remove { path: tools.muxer_path.clone() });
    assert(views_of(steps@) =~= cleanup_steps_of(tools@));
    steps
}

/// What a model of the filesystem knows of one file.
pub ghost struct FileEntry {
    /// The tool whose payload the file holds.
    pub payload: ToolKind,
    /// The mode it was given, if any was set.
    pub mode: Option<u32>,
}

/// The files that exist after a step that succeeded, given those before it.
pub open spec fn after_step(files: Map<Seq<char>, FileEntry>, step: FileStepView) -> Map<
    Seq<char>,
    FileEntry,
> {
    match step {
        FileStepView::Write { kind, path } => files.insert(
            path,
            FileEntry { payload: kind, mode: None },
        ),
        FileStepView::SetMode { path, mode } => if files.contains_key(path) {
            files.insert(path, FileEntry { payload: files[path].payload, mode: Some(mode) })
        } else {
            files
        },
        FileStepView::Remove { path } => files.remove(path),
    }
}

/// The files that exist after a run of steps that all succeeded.
pub open spec fn after_steps(files: Map<Seq<char>, FileEntry>, steps: Seq<FileStepView>) -> Map<
    Seq<char>,
    FileEntry,
>
    decreases steps.len(),
{
    if steps.len() == 0 {
        files
    } else {
        after_steps(after_step(files, steps.first()), steps.drop_first())
    }
}

/// Provisioning followed by cleanup leaves every file as it was, provided that
/// neither tool path named a file before: the model of the filesystem after
/// both runs of steps is the model before them.
pub proof fn lemma_cleanup_undoes_provisioning(
    files: Map<Seq<char>, FileEntry>,
    tools: ToolsView,
    platform: Platform,
)
    requires
        !files.contains_key(tools.downloader_path),
        !files.contains_key(tools.muxer_path),
    ensures
        after_steps(
            after_steps(files, provision_steps_of(tools, platform)),
            cleanup_steps_of(tools),
        ) == files,
{
    reveal_with_fuel(after_steps, 5);
    let provisioned = after_steps(files, provision_steps_of(tools, platform));
    let cleaned = after_steps(provisioned, cleanup_steps_of(tools));
    assert(provisioned.dom() =~= files.dom().insert(tools.downloader_path).insert(
        tools.muxer_path,
    ));
    assert(forall|path: Seq<char>|
        files.contains_key(path) ==> #[trigger] provisioned[path] == files[path]);
    assert(cleaned =~= files);
}

/// Different numbers have different decimal numerals.
pub proof fn lemma_decimal_is_injective(a: nat, b: nat)
    requires
        decimal_of(a) == decimal_of(b),
    ensures
        a == b,
    decreases a,
{
    if a >= 10 && b >= 10 {
        let front_a = decimal_of(a / 10);
        let front_b = decimal_of(b / 10);
        assert(decimal_of(a) == front_a.push(digit_char(a % 10)));
        assert(decimal_of(b) == front_b.push(digit_char(b % 10)));
        assert(front_a.push(digit_char(a % 10)).drop_last() =~= front_a);
        assert(front_b.push(digit_char(b % 10)).drop_last() =~= front_b);
        assert(front_a.push(digit_char(a % 10)).last() == digit_char(a % 10));
        assert(front_b.push(digit_char(b % 10)).last() == digit_char(b % 10));
        lemma_decimal_is_injective(a / 10, b / 10);
        assert(a % 10 == b % 10);
    } else if a < 10 && b < 10 {
        assert(decimal_of(a)[0] == digit_char(a));
        assert(decimal_of(b)[0] == digit_char(b));
    } else if a < 10 {
        lemma_decimal_is_not_empty(b / 10);
        assert(decimal_of(a).len() == 1);
        assert(decimal_of(b).len() == decimal_of(b / 10).len() + 1);
    } else {
        lemma_decimal_is_not_empty(a / 10);
        assert(decimal_of(b).len() == 1);
        assert(decimal_of(a).len() == decimal_of(a / 10).len() + 1);
    }
}

/// Every decimal numeral has at least one digit.
pub proof fn lemma_decimal_is_not_empty(n: nat)
    ensures
        decimal_of(n).len() >= 1,
    decreases n,
{
    if n >= 10 {
        lemma_decimal_is_not_empty(n / 10);
    }
}

/// On one platform, two tools share a session file name only if they are the
/// same tool of the same session: sessions with different numbers never
/// collide, and neither do the two tools of one session.
pub proof fn lemma_session_file_names_are_distinct(
    platform: Platform,
    kind_a: ToolKind,
    session_a: nat,
    kind_b: ToolKind,
    session_b: nat,
)
    requires
        session_file_name_of(kind_a, platform, session_a) == session_file_name_of(
            kind_b,
            platform,
            session_b,
        ),
    ensures
        kind_a == kind_b,
        session_a == session_b,
{
    reveal_strlit("yt-dlp-temp");
    reveal_strlit("ffmpeg-temp");
    reveal_strlit("-");
    let name_a = session_file_name_of(kind_a, platform, session_a);
    let name_b = session_file_name_of(kind_b, platform, session_b);
    let base_a = tool_file_name_of(kind_a, Platform::Other);
    let base_b = tool_file_name_of(kind_b, Platform::Other);
    let suffix = tool_suffix_of(platform);
    assert(name_a[0] == base_a[0]);
    assert(name_b[0] == base_b[0]);
    assert(kind_a == kind_b);
    let start = base_a.len() as int + 1;
    let digits_a = decimal_of(session_a);
    let digits_b = decimal_of(session_b);
    assert(name_a.len() == start + digits_a.len() + suffix.len());
    assert(name_b.len() == start + digits_b.len() + suffix.len());
    assert(name_a.subrange(start, start + digits_a.len()) =~= digits_a);
    assert(name_b.subrange(start, start + digits_b.len()) =~= digits_b);
    lemma_decimal_is_injective(session_a, session_b);
}

} // verus!
