//! The closed sets of modes, panels and actions of the dashboard.

use vstd::prelude::*;

verus! {

/// Where keyboard input goes.
#[derive(Clone, Copy, Debug, PartialEq, Eq, Structural)]
pub enum InputMode {
    Normal,
    SearchLeaves,
    PackageSearch,
    PackageResults,
}

/// How icons are chosen.
#[derive(Clone, Copy, Debug, PartialEq, Eq, Structural)]
pub enum IconMode {
    Auto,
    Nerd,
    Ascii,
}

/// How colours are chosen.
#[derive(Clone, Copy, Debug, PartialEq, Eq, Structural)]
pub enum ThemeMode {
    Auto,
    Light,
    Dark,
}

/// A mutating action on one package.
#[derive(Clone, Copy, Debug, PartialEq, Eq, Structural)]
pub enum PackageAction {
    Install,
    Uninstall,
    Upgrade,
}

/// The two kinds of installed package.
#[derive(Clone, Copy, Debug, PartialEq, Eq, Structural)]
pub enum PackageKind {
    Formula,
    Cask,
}

/// What the right-hand side of the screen shows.
#[derive(Clone, Copy, Debug, PartialEq, Eq, Structural)]
pub enum ViewMode {
    Details,
    PackageResults,
}

/// The panel that scrolling keys act on.
#[derive(Clone, Copy, Debug, PartialEq, Eq, Structural)]
pub enum FocusedPanel {
    Leaves,
    Sizes,
    Status,
    Details,
}

/// The tabs of the status panel.
#[derive(Clone, Copy, Debug, PartialEq, Eq, Structural)]
pub enum StatusTab {
    Activity,
    Issues,
    Outdated,
}

/// The colour of a toast.
#[derive(Clone, Copy, Debug, PartialEq, Eq, Structural)]
pub enum ToastLevel {
    Success,
    Error,
}

/// The two positions of a flag. The value of the state store holds each of
/// its flags in this form: a wide record of plain truth values makes for
/// verification conditions that grow with every flag.
#[derive(Clone, Copy, Debug, PartialEq, Eq, Structural)]
pub enum Switch {
    Off,
    On,
}

/// The position that stands for a truth value.
#[verifier::inline]
pub open spec fn switch(b: bool) -> Switch {
    if b {
        Switch::On
    } else {
        Switch::Off
    }
}

impl Switch {
    /// Whether the flag is raised.
    #[verifier::inline]
    pub open spec fn on(self) -> bool {
        self == Switch::On
    }
}

/// A package action that waits for its second key press.
#[derive(Clone, Debug)]
pub struct PendingPackageAction {
    pub action: PackageAction,
    pub kind: PackageKind,
    pub pkg: String,
}

/// The mathematical value of a [`PendingPackageAction`].
pub struct PendingPackageActionView {
    pub action: PackageAction,
    pub kind: PackageKind,
    pub pkg: Seq<char>,
}

impl DeepView for PendingPackageAction {
    type V = PendingPackageActionView;

    open spec fn deep_view(&self) -> PendingPackageActionView {
        PendingPackageActionView { action: self.action, kind: self.kind, pkg: self.pkg@ }
    }
}

impl View for PendingPackageAction {
    type V = PendingPackageActionView;

    open spec fn view(&self) -> PendingPackageActionView {
        self.deep_view()
    }
}

/// A short message that disappears by itself; `created_at` is in
/// milliseconds on the caller's clock.
#[derive(Clone, Debug)]
pub struct Toast {
    pub level: ToastLevel,
    pub message: String,
    pub created_at: u64,
}

/// The mathematical value of a [`Toast`].
pub struct ToastView {
    pub level: ToastLevel,
    pub message: Seq<char>,
    pub created_at: u64,
}

impl DeepView for Toast {
    type V = ToastView;

    open spec fn deep_view(&self) -> ToastView {
        ToastView { level: self.level, message: self.message@, created_at: self.created_at }
    }
}

impl View for Toast {
    type V = ToastView;

    open spec fn view(&self) -> ToastView {
        self.deep_view()
    }
}

impl Default for StatusTab {
    fn default() -> (tab: StatusTab)
        ensures
            tab == StatusTab::Activity,
    {
        StatusTab::Activity
    }
}

/// The name of a theme mode, as the status line shows it.
pub open spec fn theme_mode_name(mode: ThemeMode) -> Seq<char> {
    match mode {
        ThemeMode::Auto => "Auto"@,
        ThemeMode::Light => "Light"@,
        ThemeMode::Dark => "Dark"@,
    }
}

/// The name of a panel, as the status line shows it.
pub open spec fn panel_name(panel: FocusedPanel) -> Seq<char> {
    match panel {
        FocusedPanel::Leaves => "Leaves"@,
        FocusedPanel::Sizes => "Sizes"@,
        FocusedPanel::Status => "Status"@,
        FocusedPanel::Details => "Details"@,
    }
}

/// The noun for one package of a kind.
pub open spec fn kind_noun(kind: PackageKind) -> Seq<char> {
    match kind {
        PackageKind::Formula => "formula"@,
        PackageKind::Cask => "cask"@,
    }
}

impl ThemeMode {
    /// The name of the mode, as the status line shows it.
    pub fn name(self) -> (s: &'static str)
        ensures
            s@ == theme_mode_name(self),
    {
        match self {
            ThemeMode::Auto => "Auto",
            ThemeMode::Light => "Light",
            ThemeMode::Dark => "Dark",
        }
    }
}

impl FocusedPanel {
    /// The name of the panel, as the status line shows it.
    pub fn name(self) -> (s: &'static str)
        ensures
            s@ == panel_name(self),
    {
        match self {
            FocusedPanel::Leaves => "Leaves",
            FocusedPanel::Sizes => "Sizes",
            FocusedPanel::Status => "Status",
            FocusedPanel::Details => "Details",
        }
    }
}

/// The noun for one package of a kind.
pub fn package_kind_noun(kind: PackageKind) -> (s: &'static str)
    ensures
        s@ == kind_noun(kind),
{
    match kind {
        PackageKind::Formula => "formula",
        PackageKind::Cask => "cask",
    }
}

} // verus!
