//! The confirmation state machine: a mutating action runs on the second
//! of two equal requests. The first request only asks; a request for
//! something else asks anew; asking for one thing withdraws whatever else
//! was asked.

use vstd::prelude::*;
use vstd::string::*;

use crate::gateway::CommandKind;
use crate::requests::{Effect, EffectView};
use crate::store::{App, AppView};
use crate::text::{decimal, decimal_string, join3, same_text};
use crate::types::{
    kind_noun, package_kind_noun, PackageAction, PackageKind, PendingPackageAction,
    PendingPackageActionView, Switch,
};

verus! {

/// The command that carries out a package action.
pub open spec fn action_command(action: PackageAction) -> CommandKind {
    match action {
        PackageAction::Install => CommandKind::Install,
        PackageAction::Uninstall => CommandKind::Uninstall,
        PackageAction::Upgrade => CommandKind::Upgrade,
    }
}

/// What a package action is called while it runs.
pub open spec fn action_doing(action: PackageAction) -> Seq<char> {
    match action {
        PackageAction::Install => "Installing"@,
        PackageAction::Uninstall => "Uninstalling"@,
        PackageAction::Upgrade => "Upgrading"@,
    }
}

/// What a package action is called when it is asked for.
pub open spec fn action_title(action: PackageAction) -> Seq<char> {
    match action {
        PackageAction::Install => "Install"@,
        PackageAction::Uninstall => "Uninstall"@,
        PackageAction::Upgrade => "Upgrade"@,
    }
}

/// The key that asks for and confirms a package action.
pub open spec fn action_key(action: PackageAction) -> char {
    match action {
        PackageAction::Install => 'i',
        PackageAction::Uninstall => 'u',
        PackageAction::Upgrade => 'U',
    }
}

/// The word by which the package manager knows a package action.
pub open spec fn action_word(action: PackageAction) -> Seq<char> {
    match action {
        PackageAction::Install => "install"@,
        PackageAction::Uninstall => "uninstall"@,
        PackageAction::Upgrade => "upgrade"@,
    }
}

/// The arguments of the command that carries out a package action on
/// `pkg`.
pub open spec fn action_args(action: PackageAction, kind: PackageKind, pkg: Seq<char>) -> Seq<
    Seq<char>,
> {
    match kind {
        PackageKind::Formula => seq![action_word(action), pkg],
        PackageKind::Cask => seq![action_word(action), "--cask"@, pkg],
    }
}

/// The question that asks for the confirmation of a package action.
pub open spec fn action_question(action: PackageAction, kind: PackageKind, pkg: Seq<char>) -> Seq<
    char,
> {
    action_title(action) + " "@ + kind_noun(kind) + " "@ + pkg + "? ["@ + seq![action_key(action)]
        + "] confirm, [Esc] cancel"@
}

/// Command, running name, title and key of a package action.
pub fn package_action_labels(action: PackageAction) -> (labels: (
    CommandKind,
    &'static str,
    &'static str,
    char,
))
    ensures
        labels.0 == action_command(action),
        labels.1@ == action_doing(action),
        labels.2@ == action_title(action),
        labels.3 == action_key(action),
{
    match action {
        PackageAction::Install => (CommandKind::Install, "Installing", "Install", 'i'),
        PackageAction::Uninstall => (CommandKind::Uninstall, "Uninstalling", "Uninstall", 'u'),
        PackageAction::Upgrade => (CommandKind::Upgrade, "Upgrading", "Upgrade", 'U'),
    }
}

/// The arguments of the command that carries out a package action on
/// `pkg`.
pub fn package_action_args(action: PackageAction, kind: PackageKind, pkg: &str) -> (args: Vec<
    String,
>)
    ensures
        args.deep_view() == action_args(action, kind, pkg@),
{
    let word = match action {
        PackageAction::Install => "install",
        PackageAction::Uninstall => "uninstall",
        PackageAction::Upgrade => "upgrade",
    };
    let mut args: Vec<String> = Vec::new();
    args.push(word.to_owned());
    match kind {
        PackageKind::Formula => {},
        PackageKind::Cask => {
            args.push("--cask".to_owned());
        },
    }
    args.push(pkg.to_owned());
    proof {
        assert(args.deep_view() =~= action_args(action, kind, pkg@));
    }
    args
}

fn question_of(action: PackageAction, kind: PackageKind, pkg: &str) -> (text: String)
    ensures
        text@ == action_question(action, kind, pkg@),
{
    let labels = package_action_labels(action);
    let mut text = join3(labels.2, " ", package_kind_noun(kind));
    text.append(" ");
    text.append(pkg);
    text.append("? [");
    crate::text::push_char(&mut text, labels.3);
    text.append("] confirm, [Esc] cancel");
    text
}

impl AppView {
    /// Whether the package action that waits for its confirmation is this
    /// one.
    pub open spec fn awaits(
        self,
        action: PackageAction,
        kind: PackageKind,
        pkg: Seq<char>,
    ) -> bool {
        self.pending_package_action == Some(
            PendingPackageActionView { action: action, kind: kind, pkg: pkg },
        )
    }

    /// A request for a package action. Where this very action waits for its
    /// confirmation, it is carried out and nothing waits any more.
    /// Otherwise it is asked for, in place of whatever waited before.
    pub open spec fn run_or_confirm_package_action(
        self,
        action: PackageAction,
        kind: PackageKind,
        pkg: Seq<char>,
        now: u64,
    ) -> (AppView, Option<EffectView>) {
        if self.awaits(action, kind, pkg) {
            let started = self.request_command(
                action_command(action),
                action_args(action, kind, pkg),
                now,
            );
            (
                started.0.clear_pending_confirmations().set_status(
                    action_doing(action) + " "@ + kind_noun(kind) + "..."@,
                    now,
                ),
                started.1,
            )
        } else {
            (
                AppView {
                    pending_package_action: Some(
                        PendingPackageActionView { action: action, kind: kind, pkg: pkg },
                    ),
                    ..self.clear_pending_confirmations()
                }.set_status(action_question(action, kind, pkg), now),
                None,
            )
        }
    }

    /// How many packages the last status snapshot found outdated.
    pub open spec fn outdated_count(self) -> nat {
        match self.system_status {
            Some(snapshot) => snapshot.outdated_packages.len(),
            None => 0,
        }
    }

    /// A request to upgrade everything outdated: refused where nothing is
    /// outdated, carried out where it waits for its confirmation, and asked
    /// for otherwise, in place of whatever waited before.
    pub open spec fn run_or_confirm_upgrade_all_outdated(self, now: u64) -> (
        AppView,
        Option<EffectView>,
    ) {
        if self.outdated_count() == 0 {
            (self.set_status("No outdated packages"@, now), None)
        } else if self.pending_upgrade_all_outdated.on() {
            let started = self.request_command(CommandKind::UpgradeAll, seq!["upgrade"@], now);
            (
                started.0.clear_pending_confirmations().set_status(
                    "Upgrading "@ + decimal(self.outdated_count()) + " outdated packages..."@,
                    now,
                ),
                started.1,
            )
        } else {
            (
                AppView {
                    pending_upgrade_all_outdated: Switch::On,
                    ..self.clear_pending_confirmations()
                }.set_status(
                    "Upgrade all "@ + decimal(self.outdated_count())
                        + " outdated packages? [U] confirm, [Esc] cancel"@,
                    now,
                ),
                None,
            )
        }
    }

    /// A request to update the dashboard itself: carried out where it waits
    /// for its confirmation, asked for otherwise.
    pub open spec fn run_or_confirm_self_update(self, now: u64) -> (AppView, Option<EffectView>) {
        if self.pending_self_update.on() {
            let started = self.request_command(
                CommandKind::SelfUpdate,
                seq!["install"@, "brewery"@, "--locked"@, "--force"@],
                now,
            );
            (
                started.0.clear_pending_confirmations().set_status("Updating Brewery..."@, now),
                started.1,
            )
        } else {
            (
                AppView {
                    pending_self_update: Switch::On,
                    ..self.clear_pending_confirmations()
                }.set_status(
                    "Update Brewery via `cargo install brewery --locked --force`? [P] confirm, [Esc] cancel"@,
                    now,
                ),
                None,
            )
        }
    }

    /// An explicit cancel: nothing waits any more.
    pub open spec fn cancel_confirmation(self, now: u64) -> AppView {
        self.clear_pending_confirmations().set_status("Canceled"@, now)
    }
}

impl App {
    fn awaits(&self, action: PackageAction, kind: PackageKind, pkg: &str) -> (same: bool)
        ensures
            same == self@.awaits(action, kind, pkg@),
    {
        match self.pending_package_action() {
            Some(pending) => pending.action == action && pending.kind == kind && same_text(
                pending.pkg.as_str(),
                pkg,
            ),
            None => false,
        }
    }

    /// Asks for a package action, or carries it out where it was asked for
    /// before.
    pub fn run_or_confirm_package_action(
        &mut self,
        action: PackageAction,
        kind: PackageKind,
        pkg: String,
        now: u64,
    ) -> (effect: Option<Effect>)
        ensures
            (final(self)@, effect.deep_view()) == old(self)@.run_or_confirm_package_action(
                action,
                kind,
                pkg@,
                now,
            ),
    {
        let labels = package_action_labels(action);
        if self.awaits(action, kind, pkg.as_str()) {
            let args = package_action_args(action, kind, pkg.as_str());
            let effect = self.request_command(labels.0, args, now);
            self.clear_pending_confirmations();
            self.set_status(join3(labels.1, " ", package_kind_noun(kind)).concat("..."), now);
            return effect;
        }
        let question = question_of(action, kind, pkg.as_str());
        self.clear_pending_confirmations();
        self.set_pending_package_action(
            Some(PendingPackageAction { action: action, kind: kind, pkg: pkg }),
        );
        self.set_status(question, now);
        None
    }

    /// How many packages the last status snapshot found outdated.
    pub fn outdated_count(&self) -> (count: usize)
        ensures
            count == self@.outdated_count(),
    {
        match self.system_status() {
            Some(snapshot) => snapshot.outdated_packages.len(),
            None => 0,
        }
    }

    /// Asks for the upgrade of everything outdated, or carries it out where
    /// it was asked for before.
    pub fn run_or_confirm_upgrade_all_outdated(&mut self, now: u64) -> (effect: Option<Effect>)
        ensures
            (final(self)@, effect.deep_view()) == old(self)@.run_or_confirm_upgrade_all_outdated(
                now,
            ),
    {
        let outdated = self.outdated_count();
        if outdated == 0 {
            self.set_status("No outdated packages".to_owned(), now);
            return None;
        }
        let count = decimal_string(outdated);
        if self.pending_upgrade_all_outdated() {
            let mut args: Vec<String> = Vec::new();
            args.push("upgrade".to_owned());
            proof {
                assert(args.deep_view() =~= seq!["upgrade"@]);
            }
            let effect = self.request_command(CommandKind::UpgradeAll, args, now);
            self.clear_pending_confirmations();
            self.set_status(join3("Upgrading ", count.as_str(), " outdated packages..."), now);
            return effect;
        }
        self.clear_pending_confirmations();
        self.set_pending_upgrade_all_outdated(true);
        self.set_status(
            join3("Upgrade all ", count.as_str(), " outdated packages? [U] confirm, [Esc] cancel"),
            now,
        );
        None
    }

    /// Asks for the update of the dashboard itself, or carries it out where
    /// it was asked for before.
    pub fn run_or_confirm_self_update(&mut self, now: u64) -> (effect: Option<Effect>)
        ensures
            (final(self)@, effect.deep_view()) == old(self)@.run_or_confirm_self_update(now),
    {
        if self.pending_self_update() {
            let mut args: Vec<String> = Vec::new();
            args.push("install".to_owned());
            args.push("brewery".to_owned());
            args.push("--locked".to_owned());
            args.push("--force".to_owned());
            proof {
                assert(args.deep_view() =~= seq!["install"@, "brewery"@, "--locked"@, "--force"@]);
            }
            let effect = self.request_command(CommandKind::SelfUpdate, args, now);
            self.clear_pending_confirmations();
            self.set_status("Updating Brewery...".to_owned(), now);
            return effect;
        }
        self.clear_pending_confirmations();
        self.set_pending_self_update(true);
        self.set_status(
            "Update Brewery via `cargo install brewery --locked --force`? [P] confirm, [Esc] cancel".to_owned(),
            now,
        );
        None
    }

    /// Withdraws what waits for its confirmation, by the user's word.
    pub fn cancel_confirmation(&mut self, now: u64)
        ensures
            final(self)@ == old(self)@.cancel_confirmation(now),
    {
        self.clear_pending_confirmations();
        self.set_status("Canceled".to_owned(), now);
    }
}

} // verus!
