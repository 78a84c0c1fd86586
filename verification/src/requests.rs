//! The request dispatcher: what is started, and when a request is dropped
//! because one of its family is in flight. A request that is accepted
//! raises its family's flag and hands back the effect that the caller has
//! to launch; a request that is dropped hands back nothing and leaves the
//! store as it was.

use vstd::prelude::*;
use vstd::string::*;

use crate::cache::{lookup, touched};
use crate::gateway::{command_label, is_package_action, CommandKind, DetailsLoad};
use crate::matching::contains_name;
use crate::store::{App, AppView};
use crate::text::join3;
use crate::types::{switch, Switch};

verus! {

/// Background work that the caller has to launch. Each effect answers with
/// the message of its family.
#[derive(Debug)]
pub enum Effect {
    /// Fetch the installed formulae.
    FetchLeaves,
    /// Fetch the installed casks.
    FetchCasks,
    /// Fetch the footprints.
    FetchSizes,
    /// Fetch the status snapshot.
    FetchStatus,
    /// Fetch the details of `pkg` at level `load`.
    FetchDetails { pkg: String, load: DetailsLoad },
    /// Run a command with the arguments `args`.
    RunCommand { kind: CommandKind, args: Vec<String> },
}

/// The mathematical value of an [`Effect`].
pub enum EffectView {
    FetchLeaves,
    FetchCasks,
    FetchSizes,
    FetchStatus,
    FetchDetails { pkg: Seq<char>, load: DetailsLoad },
    RunCommand { kind: CommandKind, args: Seq<Seq<char>> },
}

impl DeepView for Effect {
    type V = EffectView;

    open spec fn deep_view(&self) -> EffectView {
        match self {
            Effect::FetchLeaves => EffectView::FetchLeaves,
            Effect::FetchCasks => EffectView::FetchCasks,
            Effect::FetchSizes => EffectView::FetchSizes,
            Effect::FetchStatus => EffectView::FetchStatus,
            Effect::FetchDetails { pkg, load } => EffectView::FetchDetails { pkg: pkg@, load: *load },
            Effect::RunCommand { kind, args } => EffectView::RunCommand {
                kind: *kind,
                args: args.deep_view(),
            },
        }
    }
}

impl View for Effect {
    type V = EffectView;

    open spec fn view(&self) -> EffectView {
        self.deep_view()
    }
}

/// The program that a command is run with.
pub open spec fn command_program(kind: CommandKind) -> Seq<char> {
    if kind == CommandKind::SelfUpdate {
        "cargo"@
    } else {
        "brew"@
    }
}

/// The program that a command is run with.
pub fn program_of(kind: CommandKind) -> (program: &'static str)
    ensures
        program@ == command_program(kind),
{
    match kind {
        CommandKind::SelfUpdate => "cargo",
        _ => "brew",
    }
}

/// The status line while details load.
pub open spec fn loading_status(load: DetailsLoad) -> Seq<char> {
    match load {
        DetailsLoad::Basic => "Loading details..."@,
        DetailsLoad::Full => "Loading deps/uses..."@,
    }
}

/// The last of `args`, if there is one.
pub open spec fn last_arg(args: Seq<Seq<char>>) -> Option<Seq<char>> {
    if args.len() > 0 {
        Some(args.last())
    } else {
        None
    }
}

impl AppView {
    /// The store with the status line of a request that was accepted.
    pub open spec fn set_request_status(
        self,
        status: Seq<char>,
        redraw: bool,
        now: u64,
    ) -> AppView {
        AppView {
            status: status,
            last_refresh: now,
            needs_redraw: switch(self.needs_redraw.on() || redraw),
            ..self
        }
    }

    /// A request for the installed formulae.
    pub open spec fn request_leaves(self, now: u64) -> (AppView, Option<EffectView>) {
        if self.pending_leaves.on() {
            (self, None)
        } else {
            (
                AppView { pending_leaves: Switch::On, ..self }.set_request_status(
                    "Loading leaves..."@,
                    true,
                    now,
                ),
                Some(EffectView::FetchLeaves),
            )
        }
    }

    /// A request for the installed casks.
    pub open spec fn request_casks(self, now: u64) -> (AppView, Option<EffectView>) {
        if self.pending_casks.on() {
            (self, None)
        } else {
            (
                AppView { pending_casks: Switch::On, ..self }.set_request_status(
                    "Loading casks..."@,
                    true,
                    now,
                ),
                Some(EffectView::FetchCasks),
            )
        }
    }

    /// A request for the footprints.
    pub open spec fn request_sizes(self, now: u64) -> (AppView, Option<EffectView>) {
        if self.pending_sizes.on() {
            (self, None)
        } else {
            (
                AppView { pending_sizes: Switch::On, ..self }.set_request_status(
                    "Loading sizes..."@,
                    true,
                    now,
                ),
                Some(EffectView::FetchSizes),
            )
        }
    }

    /// A request for the status snapshot.
    pub open spec fn request_status(self, now: u64) -> (AppView, Option<EffectView>) {
        if self.pending_status.on() {
            (self, None)
        } else {
            (
                AppView { pending_status: Switch::On, ..self }.set_request_status(
                    "Checking status..."@,
                    true,
                    now,
                ),
                Some(EffectView::FetchStatus),
            )
        }
    }

    /// Whether what the cache holds for `pkg` answers a request at level
    /// `load`: any record answers a basic request, and one with both
    /// dependencies and dependents a full one.
    pub open spec fn cache_answers(self, pkg: Seq<char>, load: DetailsLoad) -> bool {
        match lookup(self.details_cache, pkg) {
            Some(d) => load == DetailsLoad::Basic || (d.deps is Some && d.uses is Some),
            None => false,
        }
    }

    /// A request for the details of `pkg`. It is dropped while a details
    /// fetch is in flight. Unless it is forced, the cache is asked first,
    /// which counts as a use of the entry, and the request is dropped where
    /// the cache answers it.
    pub open spec fn request_details_for_inner(
        self,
        pkg: Seq<char>,
        load: DetailsLoad,
        force: bool,
        now: u64,
    ) -> (AppView, Option<EffectView>) {
        if self.pending_details is Some {
            (self, None)
        } else {
            let asked = if force {
                self
            } else {
                AppView { details_cache: touched(self.details_cache, pkg), ..self }
            };
            if !force && self.cache_answers(pkg, load) {
                (asked, None)
            } else {
                (
                    AppView { pending_details: Some(pkg), ..asked }.set_request_status(
                        loading_status(load),
                        false,
                        now,
                    ),
                    Some(EffectView::FetchDetails { pkg: pkg, load: load }),
                )
            }
        }
    }

    /// A request for the details of `pkg` that the cache may answer.
    pub open spec fn request_details_for(self, pkg: Seq<char>, load: DetailsLoad, now: u64) -> (
        AppView,
        Option<EffectView>,
    ) {
        self.request_details_for_inner(pkg, load, false, now)
    }

    /// A request for the details of `pkg` that goes past the cache.
    pub open spec fn request_details_forced(self, pkg: Seq<char>, load: DetailsLoad, now: u64) -> (
        AppView,
        Option<EffectView>,
    ) {
        self.request_details_for_inner(pkg, load, true, now)
    }

    /// A request for the details of the selected installed package.
    pub open spec fn request_details(self, load: DetailsLoad, now: u64) -> (
        AppView,
        Option<EffectView>,
    ) {
        match self.selected_installed_package() {
            Some(pkg) => self.request_details_for(pkg, load, now),
            None => (self, None),
        }
    }

    /// A request to run a command. The target of a package action is the
    /// last argument.
    pub open spec fn request_command(self, kind: CommandKind, args: Seq<Seq<char>>, now: u64) -> (
        AppView,
        Option<EffectView>,
    ) {
        if self.pending_command.on() {
            (self, None)
        } else {
            (
                AppView {
                    pending_command: Switch::On,
                    last_command: Some(kind),
                    last_command_target: if is_package_action(kind) {
                        last_arg(args)
                    } else {
                        None
                    },
                    last_command_target_is_cask: switch(
                        is_package_action(kind) && args.contains("--cask"@),
                    ),
                    command_started_at: Some(now),
                    last_command_output: Seq::empty(),
                    last_command_error: None,
                    status: "Running "@ + command_label(kind) + "..."@,
                    last_refresh: now,
                    needs_redraw: Switch::On,
                    ..self
                },
                Some(EffectView::RunCommand { kind: kind, args: args }),
            )
        }
    }
}

impl App {
    fn set_request_status(&mut self, status: String, redraw: bool, now: u64)
        ensures
            final(self)@ == old(self)@.set_request_status(status@, redraw, now),
    {
        let dirty = self.needs_redraw() || redraw;
        self.set_status_text(status);
        self.set_last_refresh(now);
        self.set_needs_redraw(dirty);
    }

    /// Asks for the installed formulae.
    pub fn request_leaves(&mut self, now: u64) -> (effect: Option<Effect>)
        ensures
            (final(self)@, effect.deep_view()) == old(self)@.request_leaves(now),
    {
        if self.pending_leaves() {
            return None;
        }
        self.set_pending_leaves(true);
        self.set_request_status("Loading leaves...".to_owned(), true, now);
        Some(Effect::FetchLeaves)
    }

    /// Asks for the installed casks.
    pub fn request_casks(&mut self, now: u64) -> (effect: Option<Effect>)
        ensures
            (final(self)@, effect.deep_view()) == old(self)@.request_casks(now),
    {
        if self.pending_casks() {
            return None;
        }
        self.set_pending_casks(true);
        self.set_request_status("Loading casks...".to_owned(), true, now);
        Some(Effect::FetchCasks)
    }

    /// Asks for the footprints.
    pub fn request_sizes(&mut self, now: u64) -> (effect: Option<Effect>)
        ensures
            (final(self)@, effect.deep_view()) == old(self)@.request_sizes(now),
    {
        if self.pending_sizes() {
            return None;
        }
        self.set_pending_sizes(true);
        self.set_request_status("Loading sizes...".to_owned(), true, now);
        Some(Effect::FetchSizes)
    }

    /// Asks for the status snapshot.
    pub fn request_status(&mut self, now: u64) -> (effect: Option<Effect>)
        ensures
            (final(self)@, effect.deep_view()) == old(self)@.request_status(now),
    {
        if self.pending_status() {
            return None;
        }
        self.set_pending_status(true);
        self.set_request_status("Checking status...".to_owned(), true, now);
        Some(Effect::FetchStatus)
    }

    fn request_details_for_inner(
        &mut self,
        pkg: &str,
        load: DetailsLoad,
        force: bool,
        now: u64,
    ) -> (effect:
        Option<Effect>)
        ensures
            (final(self)@, effect.deep_view()) == old(self)@.request_details_for_inner(
                pkg@,
                load,
                force,
                now,
            ),
    {
        if self.pending_details().is_some() {
            return None;
        }
        if !force {
            let answered = match self.use_details(pkg) {
                Some(full) => load == DetailsLoad::Basic || full,
                None => false,
            };
            if answered {
                return None;
            }
        }
        self.set_pending_details(Some(pkg.to_owned()));
        let status = match load {
            DetailsLoad::Basic => "Loading details...",
            DetailsLoad::Full => "Loading deps/uses...",
        };
        self.set_request_status(status.to_owned(), false, now);
        Some(Effect::FetchDetails { pkg: pkg.to_owned(), load: load })
    }

    /// Asks for the details of `pkg`, unless the cache has them.
    pub fn request_details_for(
        &mut self,
        pkg: &str,
        load: DetailsLoad,
        now: u64,
    ) -> (effect: Option<
        Effect,
    >)
        ensures
            (final(self)@, effect.deep_view()) == old(self)@.request_details_for(pkg@, load, now),
    {
        self.request_details_for_inner(pkg, load, false, now)
    }

    /// Asks for the details of `pkg` whatever the cache has.
    pub fn request_details_forced(&mut self, pkg: &str, load: DetailsLoad, now: u64) -> (effect:
        Option<Effect>)
        ensures
            (final(self)@, effect.deep_view()) == old(self)@.request_details_forced(pkg@, load, now),
    {
        self.request_details_for_inner(pkg, load, true, now)
    }

    /// Asks for the details of the selected installed package.
    pub fn request_details(&mut self, load: DetailsLoad, now: u64) -> (effect: Option<Effect>)
        ensures
            (final(self)@, effect.deep_view()) == old(self)@.request_details(load, now),
    {
        let pkg = match self.selected_installed_package() {
            Some(name) => name.to_owned(),
            None => {
                return None;
            },
        };
        self.request_details_for(pkg.as_str(), load, now)
    }

    /// Asks for a command to be run with the arguments `args`.
    pub fn request_command(&mut self, kind: CommandKind, args: Vec<String>, now: u64) -> (effect:
        Option<Effect>)
        ensures
            (final(self)@, effect.deep_view()) == old(self)@.request_command(
                kind,
                args.deep_view(),
                now,
            ),
    {
        if self.pending_command() {
            return None;
        }
        let package_action = kind.is_package_action();
        let target: Option<String> = if package_action && args.len() > 0 {
            proof {
                assert(args.deep_view().last() == args[args.len() - 1]@);
            }
            Some(args[args.len() - 1].clone())
        } else {
            None
        };
        let is_cask = package_action && contains_name(&args, "--cask");
        let none: Vec<String> = Vec::new();
        proof {
            assert(none.deep_view() =~= Seq::empty());
        }
        self.set_pending_command(true);
        self.set_last_command(Some(kind));
        self.set_last_command_target(target);
        self.set_last_command_target_is_cask(is_cask);
        self.set_command_started_at(Some(now));
        self.set_last_command_output(none);
        self.set_last_command_error(None);
        self.set_status_text(join3("Running ", kind.label(), "..."));
        self.set_last_refresh(now);
        self.set_needs_redraw(true);
        Some(Effect::RunCommand { kind: kind, args: args })
    }
}

} // verus!
