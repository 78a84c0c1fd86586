//! What the command gateway is asked for and what it answers: the kinds of
//! command, the records it fetches, and the messages that carry its
//! results back. The gateway itself lives with the caller.

use vstd::prelude::*;

use crate::text::{clone_opt_string, clone_opt_strings, clone_strings};

verus! {

/// The commands that the dashboard runs.
#[derive(Clone, Copy, Debug, PartialEq, Eq, Structural)]
pub enum CommandKind {
    Search,
    Install,
    Uninstall,
    Upgrade,
    UpgradeAll,
    SelfUpdate,
    Cleanup,
    Autoremove,
    BundleDump,
}

/// The label of a command, as status lines show it.
pub open spec fn command_label(kind: CommandKind) -> Seq<char> {
    match kind {
        CommandKind::Search => "search"@,
        CommandKind::Install => "install"@,
        CommandKind::Uninstall => "uninstall"@,
        CommandKind::Upgrade => "upgrade"@,
        CommandKind::UpgradeAll => "upgrade-all"@,
        CommandKind::SelfUpdate => "self-update"@,
        CommandKind::Cleanup => "cleanup"@,
        CommandKind::Autoremove => "autoremove"@,
        CommandKind::BundleDump => "bundle dump"@,
    }
}

/// The title of a command in toasts.
pub open spec fn command_title(kind: CommandKind) -> Seq<char> {
    match kind {
        CommandKind::Install => "Install"@,
        CommandKind::Uninstall => "Uninstall"@,
        CommandKind::Upgrade => "Upgrade"@,
        _ => "Action"@,
    }
}

/// Whether a command acts on one named package.
pub open spec fn is_package_action(kind: CommandKind) -> bool {
    kind == CommandKind::Install || kind == CommandKind::Uninstall || kind == CommandKind::Upgrade
}

/// Whether a running command is shown in the activity tab.
pub open spec fn is_activity_command(kind: CommandKind) -> bool {
    is_package_action(kind) || kind == CommandKind::UpgradeAll || kind == CommandKind::SelfUpdate
}

/// Whether the installed lists are fetched again after a command
/// succeeded.
pub open spec fn refreshes_lists(kind: CommandKind) -> bool {
    is_package_action(kind) || kind == CommandKind::UpgradeAll
}

impl CommandKind {
    /// The label of the command, as status lines show it.
    pub fn label(self) -> (s: &'static str)
        ensures
            s@ == command_label(self),
    {
        match self {
            CommandKind::Search => "search",
            CommandKind::Install => "install",
            CommandKind::Uninstall => "uninstall",
            CommandKind::Upgrade => "upgrade",
            CommandKind::UpgradeAll => "upgrade-all",
            CommandKind::SelfUpdate => "self-update",
            CommandKind::Cleanup => "cleanup",
            CommandKind::Autoremove => "autoremove",
            CommandKind::BundleDump => "bundle dump",
        }
    }

    /// Whether the command acts on one named package.
    pub fn is_package_action(self) -> (b: bool)
        ensures
            b == is_package_action(self),
    {
        match self {
            CommandKind::Install | CommandKind::Uninstall | CommandKind::Upgrade => true,
            _ => false,
        }
    }

    /// Whether the command, while it runs, is shown in the activity tab.
    pub fn is_activity_command(self) -> (b: bool)
        ensures
            b == is_activity_command(self),
    {
        match self {
            CommandKind::Install
            | CommandKind::Uninstall
            | CommandKind::Upgrade
            | CommandKind::UpgradeAll
            | CommandKind::SelfUpdate => true,
            _ => false,
        }
    }

    /// Whether the installed lists are fetched again after the command
    /// succeeded.
    pub fn refreshes_lists_on_success(self) -> (b: bool)
        ensures
            b == refreshes_lists(self),
    {
        match self {
            CommandKind::Install
            | CommandKind::Uninstall
            | CommandKind::Upgrade
            | CommandKind::UpgradeAll => true,
            _ => false,
        }
    }

    /// The title of the command in toasts.
    pub fn action_title(self) -> (s: &'static str)
        ensures
            s@ == command_title(self),
    {
        match self {
            CommandKind::Install => "Install",
            CommandKind::Uninstall => "Uninstall",
            CommandKind::Upgrade => "Upgrade",
            _ => "Action",
        }
    }
}

/// What a finished command left behind.
#[derive(Clone, Debug)]
pub struct CommandResult {
    pub stdout: String,
    pub stderr: String,
    pub success: bool,
}

/// The mathematical value of a [`CommandResult`].
pub struct CommandResultView {
    pub stdout: Seq<char>,
    pub stderr: Seq<char>,
    pub success: bool,
}

impl DeepView for CommandResult {
    type V = CommandResultView;

    open spec fn deep_view(&self) -> CommandResultView {
        CommandResultView { stdout: self.stdout@, stderr: self.stderr@, success: self.success }
    }
}

impl View for CommandResult {
    type V = CommandResultView;

    open spec fn view(&self) -> CommandResultView {
        self.deep_view()
    }
}

/// The completion of a command: its result, or why it could not be run.
pub struct CommandMessage {
    pub kind: CommandKind,
    pub result: Result<CommandResult, String>,
}

/// The mathematical value of a [`CommandMessage`].
pub struct CommandMessageView {
    pub kind: CommandKind,
    pub result: Result<CommandResultView, Seq<char>>,
}

impl View for CommandMessage {
    type V = CommandMessageView;

    open spec fn view(&self) -> CommandMessageView {
        CommandMessageView {
            kind: self.kind,
            result: match self.result {
                Ok(r) => Ok(r@),
                Err(e) => Err(e@),
            },
        }
    }
}

/// How much of a package's details is asked for.
#[derive(Clone, Copy, Debug, PartialEq, Eq, Structural)]
pub enum DetailsLoad {
    Basic,
    Full,
}

/// What is known of one package. `deps` and `uses` are present only after
/// a full load; `artifacts` only for a cask.
#[derive(Clone, Debug)]
pub struct Details {
    pub desc: Option<String>,
    pub homepage: Option<String>,
    pub latest: Option<String>,
    pub installed: Vec<String>,
    pub deps: Option<Vec<String>>,
    pub uses: Option<Vec<String>>,
    pub artifacts: Option<Vec<String>>,
}

/// The mathematical value of [`Details`].
pub struct DetailsView {
    pub desc: Option<Seq<char>>,
    pub homepage: Option<Seq<char>>,
    pub latest: Option<Seq<char>>,
    pub installed: Seq<Seq<char>>,
    pub deps: Option<Seq<Seq<char>>>,
    pub uses: Option<Seq<Seq<char>>>,
    pub artifacts: Option<Seq<Seq<char>>>,
}

impl DeepView for Details {
    type V = DetailsView;

    open spec fn deep_view(&self) -> DetailsView {
        DetailsView {
            desc: self.desc.deep_view(),
            homepage: self.homepage.deep_view(),
            latest: self.latest.deep_view(),
            installed: self.installed.deep_view(),
            deps: self.deps.deep_view(),
            uses: self.uses.deep_view(),
            artifacts: self.artifacts.deep_view(),
        }
    }
}

impl View for Details {
    type V = DetailsView;

    open spec fn view(&self) -> DetailsView {
        self.deep_view()
    }
}

impl Details {
    /// A copy with the same value.
    pub fn duplicate(&self) -> (out: Details)
        ensures
            out@ == self@,
    {
        Details {
            desc: clone_opt_string(&self.desc),
            homepage: clone_opt_string(&self.homepage),
            latest: clone_opt_string(&self.latest),
            installed: clone_strings(&self.installed),
            deps: clone_opt_strings(&self.deps),
            uses: clone_opt_strings(&self.uses),
            artifacts: clone_opt_strings(&self.artifacts),
        }
    }
}

/// The completion of a details fetch for `pkg`.
pub struct DetailsMessage {
    pub pkg: String,
    pub load: DetailsLoad,
    pub result: Result<Details, String>,
}

/// The mathematical value of a [`DetailsMessage`].
pub struct DetailsMessageView {
    pub pkg: Seq<char>,
    pub load: DetailsLoad,
    pub result: Result<DetailsView, Seq<char>>,
}

impl View for DetailsMessage {
    type V = DetailsMessageView;

    open spec fn view(&self) -> DetailsMessageView {
        DetailsMessageView {
            pkg: self.pkg@,
            load: self.load,
            result: match self.result {
                Ok(d) => Ok(d@),
                Err(e) => Err(e@),
            },
        }
    }
}

/// The completion of a fetch of the installed formulae.
pub struct LeavesMessage {
    pub result: Result<Vec<String>, String>,
}

impl View for LeavesMessage {
    type V = Result<Seq<Seq<char>>, Seq<char>>;

    open spec fn view(&self) -> Result<Seq<Seq<char>>, Seq<char>> {
        match self.result {
            Ok(names) => Ok(names.deep_view()),
            Err(e) => Err(e@),
        }
    }
}

/// The completion of a fetch of the installed casks.
pub struct CasksMessage {
    pub result: Result<Vec<String>, String>,
}

impl View for CasksMessage {
    type V = Result<Seq<Seq<char>>, Seq<char>>;

    open spec fn view(&self) -> Result<Seq<Seq<char>>, Seq<char>> {
        match self.result {
            Ok(names) => Ok(names.deep_view()),
            Err(e) => Err(e@),
        }
    }
}

/// The footprint of one installed package.
#[derive(Clone, Debug)]
pub struct SizeEntry {
    pub name: String,
    pub size_kb: u64,
}

/// The mathematical value of a [`SizeEntry`].
pub struct SizeEntryView {
    pub name: Seq<char>,
    pub size_kb: u64,
}

impl DeepView for SizeEntry {
    type V = SizeEntryView;

    open spec fn deep_view(&self) -> SizeEntryView {
        SizeEntryView { name: self.name@, size_kb: self.size_kb }
    }
}

impl View for SizeEntry {
    type V = SizeEntryView;

    open spec fn view(&self) -> SizeEntryView {
        self.deep_view()
    }
}

/// The completion of a fetch of the footprints.
pub struct SizesMessage {
    pub result: Result<Vec<SizeEntry>, String>,
}

impl View for SizesMessage {
    type V = Result<Seq<SizeEntryView>, Seq<char>>;

    open spec fn view(&self) -> Result<Seq<SizeEntryView>, Seq<char>> {
        match self.result {
            Ok(sizes) => Ok(sizes.deep_view()),
            Err(e) => Err(e@),
        }
    }
}

/// The aggregate status of the package manager.
#[derive(Clone, Debug)]
pub struct StatusSnapshot {
    pub doctor_ok: Option<bool>,
    pub doctor_issues: Vec<String>,
    pub outdated_count: Option<usize>,
    pub outdated_packages: Vec<String>,
    pub brew_version: Option<String>,
    pub brew_info: Option<String>,
    pub brew_update_status: Option<String>,
    pub last_brew_update_secs_ago: Option<u64>,
    pub brewery_latest_version: Option<String>,
    pub brewery_update_available: bool,
}

/// The mathematical value of a [`StatusSnapshot`].
pub struct StatusSnapshotView {
    pub doctor_ok: Option<bool>,
    pub doctor_issues: Seq<Seq<char>>,
    pub outdated_count: Option<usize>,
    pub outdated_packages: Seq<Seq<char>>,
    pub brew_version: Option<Seq<char>>,
    pub brew_info: Option<Seq<char>>,
    pub brew_update_status: Option<Seq<char>>,
    pub last_brew_update_secs_ago: Option<u64>,
    pub brewery_latest_version: Option<Seq<char>>,
    pub brewery_update_available: bool,
}

impl DeepView for StatusSnapshot {
    type V = StatusSnapshotView;

    open spec fn deep_view(&self) -> StatusSnapshotView {
        StatusSnapshotView {
            doctor_ok: self.doctor_ok,
            doctor_issues: self.doctor_issues.deep_view(),
            outdated_count: self.outdated_count,
            outdated_packages: self.outdated_packages.deep_view(),
            brew_version: self.brew_version.deep_view(),
            brew_info: self.brew_info.deep_view(),
            brew_update_status: self.brew_update_status.deep_view(),
            last_brew_update_secs_ago: self.last_brew_update_secs_ago,
            brewery_latest_version: self.brewery_latest_version.deep_view(),
            brewery_update_available: self.brewery_update_available,
        }
    }
}

impl View for StatusSnapshot {
    type V = StatusSnapshotView;

    open spec fn view(&self) -> StatusSnapshotView {
        self.deep_view()
    }
}

impl Default for StatusSnapshot {
    fn default() -> (s: StatusSnapshot)
        ensures
            s@ == (StatusSnapshotView {
                doctor_ok: None,
                doctor_issues: Seq::empty(),
                outdated_count: None,
                outdated_packages: Seq::empty(),
                brew_version: None,
                brew_info: None,
                brew_update_status: None,
                last_brew_update_secs_ago: None,
                brewery_latest_version: None,
                brewery_update_available: false,
            }),
    {
        let s = StatusSnapshot {
            doctor_ok: None,
            doctor_issues: Vec::new(),
            outdated_count: None,
            outdated_packages: Vec::new(),
            brew_version: None,
            brew_info: None,
            brew_update_status: None,
            last_brew_update_secs_ago: None,
            brewery_latest_version: None,
            brewery_update_available: false,
        };
        proof {
            assert(s.doctor_issues.deep_view() =~= Seq::empty());
            assert(s.outdated_packages.deep_view() =~= Seq::empty());
        }
        s
    }
}

/// The completion of a status fetch.
pub struct StatusMessage {
    pub result: Result<StatusSnapshot, String>,
}

impl View for StatusMessage {
    type V = Result<StatusSnapshotView, Seq<char>>;

    open spec fn view(&self) -> Result<StatusSnapshotView, Seq<char>> {
        match self.result {
            Ok(snapshot) => Ok(snapshot@),
            Err(e) => Err(e@),
        }
    }
}

} // verus!
