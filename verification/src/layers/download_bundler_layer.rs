//! The layer that installs bundler.

use crate::buildpack::{ErrorView, RubyBuildpackError};
use crate::env::Env;
use crate::layer::{
    outcomes_view, Command, CommandOutcome, CommandView, ExistingLayerStrategy, LayerTypes,
    OutcomeView,
};
use crate::layer_env::{LayerEnv, Modification, ModificationBehavior, Scope};
use crate::layers::{LayerMetadata, LayerResult, LayerStep, MetadataView, ResultView, StepView};
use vstd::pervasive::unreached;
use vstd::prelude::*;
use vstd::std_specs::cmp::PartialEqSpecImpl;

verus! {

/// The bundler version that an application asks for.
#[derive(Debug)]
pub enum BundlerVersion {
    /// This version.
    Explicit(String),
    /// No version in particular.
    Default,
}

/// The version that is installed where the application asks for none.
pub open spec fn default_bundler_version() -> Seq<char> {
    "2.3.7"@
}

/// The version to install, as text.
pub open spec fn version_text(version: BundlerVersion) -> Seq<char> {
    match version {
        BundlerVersion::Explicit(v) => v@,
        BundlerVersion::Default => default_bundler_version(),
    }
}

/// The record of the layer: the bundler version that it holds.
#[derive(Debug)]
pub struct DownloadBundlerLayerMetadata {
    pub version: String,
}

impl View for DownloadBundlerLayerMetadata {
    type V = Seq<char>;

    open spec fn view(&self) -> Seq<char> {
        self.version@
    }
}

impl Clone for DownloadBundlerLayerMetadata {
    fn clone(&self) -> (r: Self)
        ensures
            r@ == self@,
    {
        DownloadBundlerLayerMetadata { version: self.version.clone() }
    }
}

impl PartialEq for DownloadBundlerLayerMetadata {
    fn eq(&self, other: &Self) -> (r: bool) {
        self.version == other.version
    }
}

impl PartialEqSpecImpl for DownloadBundlerLayerMetadata {
    open spec fn obeys_eq_spec() -> bool {
        true
    }

    open spec fn eq_spec(&self, other: &Self) -> bool {
        self.version@ == other.version@
    }
}

/// The name of the variable that holds the directory into which gems are
/// installed.
pub open spec fn gem_path_name() -> Seq<char> {
    "GEM_PATH"@
}

/// The command that installs bundler `version` into `gem_path`.
pub open spec fn install_command(version: Seq<char>, gem_path: Seq<char>) -> CommandView {
    CommandView {
        program: "gem"@,
        args: seq![
            "install"@,
            "bundler"@,
            "--force"@,
            "--no-document"@,
            "-v"@,
            version,
            "--install-dir"@,
            gem_path,
        ],
    }
}

/// The command that removes bundler `version` from `gem_path`.
pub open spec fn uninstall_command(version: Seq<char>, gem_path: Seq<char>) -> CommandView {
    CommandView {
        program: "gem"@,
        args: seq![
            "uninstall"@,
            "bundler"@,
            "--force"@,
            "-v"@,
            version,
            "--install-dir"@,
            gem_path,
        ],
    }
}

/// The error that the outcome of a `gem` command stands for, if any.
pub open spec fn command_error(outcome: OutcomeView) -> Option<ErrorView> {
    match outcome {
        OutcomeView::Success => None,
        OutcomeView::ExitStatus(code) => Some(
            ErrorView::GemInstallBundlerUnexpectedExitStatus(code),
        ),
        OutcomeView::Failed(reason) => Some(ErrorView::GemInstallBundlerCommandError(reason)),
    }
}

/// The environment modifications of the layer, for an application whose
/// Gemfile is at `gemfile`.
pub open spec fn bundler_modifications(gemfile: Seq<char>) -> Seq<Modification> {
    seq![
        Modification {
            scope: Scope::Build,
            behavior: ModificationBehavior::Delimiter,
            key: "BUNDLE_WITHOUT"@,
            value: ":"@,
        },
        Modification {
            scope: Scope::All,
            behavior: ModificationBehavior::Prepend,
            key: "BUNDLE_WITHOUT"@,
            value: "development:test"@,
        },
        Modification {
            scope: Scope::Build,
            behavior: ModificationBehavior::Override,
            key: "BUNDLE_GEMFILE"@,
            value: gemfile,
        },
        Modification {
            scope: Scope::All,
            behavior: ModificationBehavior::Override,
            key: "BUNDLE_CLEAN"@,
            value: "1"@,
        },
        Modification {
            scope: Scope::All,
            behavior: ModificationBehavior::Override,
            key: "BUNDLE_DEPLOYMENT"@,
            value: "1"@,
        },
        Modification {
            scope: Scope::All,
            behavior: ModificationBehavior::Override,
            key: "BUNDLE_GLOBAL_PATH_APPENDS_RUBY_SCOPE"@,
            value: "1"@,
        },
        Modification {
            scope: Scope::All,
            behavior: ModificationBehavior::Override,
            key: "NOKOGIRI_USE_SYSTEM_LIBRARIES"@,
            value: "1"@,
        },
    ]
}

/// What the layer hands back once bundler `version` is installed.
pub open spec fn bundler_result(version: Seq<char>, gemfile: Seq<char>) -> ResultView {
    ResultView {
        metadata: MetadataView::DownloadBundler(version),
        env: bundler_modifications(gemfile),
    }
}

/// The next step of `create`: with no command run yet, the install command;
/// after it, the layer's result, or the error of the command.
pub open spec fn create_step(
    version: Seq<char>,
    gem_path: Seq<char>,
    gemfile: Seq<char>,
    outcomes: Seq<OutcomeView>,
) -> StepView {
    if outcomes.len() == 0 {
        StepView::Run(install_command(version, gem_path))
    } else {
        match command_error(outcomes[0]) {
            Some(error) => StepView::Failed(error),
            None => StepView::Done(bundler_result(version, gemfile)),
        }
    }
}

/// The next step of `update`: with no command run yet, the command that
/// removes the old version; if that fails, its error; else the steps of
/// `create`, counted from the second command.
pub open spec fn update_step(
    version: Seq<char>,
    old_version: Seq<char>,
    gem_path: Seq<char>,
    gemfile: Seq<char>,
    outcomes: Seq<OutcomeView>,
) -> StepView {
    if outcomes.len() == 0 {
        StepView::Run(uninstall_command(old_version, gem_path))
    } else {
        match command_error(outcomes[0]) {
            Some(error) => StepView::Failed(error),
            None => create_step(version, gem_path, gemfile, outcomes.skip(1)),
        }
    }
}

/// Installs bundler, in the version that the application asks for, into
/// the directory that the variable `GEM_PATH` names.
#[derive(Debug)]
pub struct DownloadBundlerLayer {
    version: BundlerVersion,
    env: Env,
}

/// The error for a command that did not succeed.
fn error_of(outcome: &CommandOutcome) -> (r: Option<RubyBuildpackError>)
    ensures
        match r {
            Some(error) => command_error(outcome@) == Some(error@),
            None => command_error(outcome@) is None,
        },
{
    match outcome {
        CommandOutcome::Success => None,
        CommandOutcome::ExitStatus(code) => Some(
            RubyBuildpackError::GemInstallBundlerUnexpectedExitStatus(*code),
        ),
        CommandOutcome::Failed(reason) => Some(
            RubyBuildpackError::GemInstallBundlerCommandError(reason.clone()),
        ),
    }
}

impl DownloadBundlerLayer {
    #[verifier::type_invariant]
    spec fn gem_path_is_set(&self) -> bool {
        self.env@.contains_key(gem_path_name())
    }

    /// The version that the application asks for.
    pub closed spec fn version(&self) -> BundlerVersion {
        self.version
    }

    /// The environment that the layer's commands run in.
    pub closed spec fn env(&self) -> Map<Seq<char>, Seq<char>> {
        self.env@
    }

    /// The directory into which gems are installed.
    pub open spec fn gem_path(&self) -> Seq<char> {
        self.env()[gem_path_name()]
    }

    /// The layer for `version`, whose commands run in `env`. There is none
    /// where `env` does not set `GEM_PATH`.
    pub fn new(version: BundlerVersion, env: Env) -> (r: Option<Self>)
        ensures
            r is Some == env@.contains_key(gem_path_name()),
            r matches Some(layer) ==> layer.version() == version && layer.env() == env@,
    {
        if env.contains_key("GEM_PATH") {
            Some(DownloadBundlerLayer { version, env })
        } else {
            None
        }
    }

    /// The environment that the layer's commands run in.
    pub fn command_env(&self) -> (r: &Env)
        ensures
            r@ == self.env(),
            r@.contains_key(gem_path_name()),
    {
        proof {
            use_type_invariant(self);
        }
        &self.env
    }

    /// The version to install, as text.
    pub fn version_string(&self) -> (r: String)
        ensures
            r@ == version_text(self.version()),
    {
        match &self.version {
            BundlerVersion::Explicit(v) => v.clone(),
            BundlerVersion::Default => "2.3.7".to_owned(),
        }
    }

    /// The layer is available to the build and at launch, and is cached.
    pub fn types(&self) -> (r: LayerTypes)
        ensures
            r == (LayerTypes { build: true, launch: true, cache: true }),
    {
        LayerTypes { build: true, launch: true, cache: true }
    }

    /// The record that the layer wants to find: that of its version.
    pub fn desired_metadata(&self) -> (r: DownloadBundlerLayerMetadata)
        ensures
            r@ == version_text(self.version()),
    {
        DownloadBundlerLayerMetadata { version: self.version_string() }
    }

    /// Keeps a cached layer that holds the wanted version, and updates one
    /// that holds another.
    pub fn existing_layer_strategy(&self, layer: &DownloadBundlerLayerMetadata) -> (r:
        ExistingLayerStrategy)
        ensures
            r == if version_text(self.version()) == layer@ {
                ExistingLayerStrategy::Keep
            } else {
                ExistingLayerStrategy::Update
            },
    {
        if self.version_string() == layer.version {
            ExistingLayerStrategy::Keep
        } else {
            ExistingLayerStrategy::Update
        }
    }

    fn gem_path_value(&self) -> (r: String)
        ensures
            r@ == self.gem_path(),
    {
        proof {
            use_type_invariant(self);
        }
        match self.env.get("GEM_PATH") {
            Some(path) => path.clone(),
            None => unreached(),
        }
    }

    fn install(&self) -> (r: Command)
        ensures
            r@ == install_command(version_text(self.version()), self.gem_path()),
    {
        let mut args: Vec<String> = Vec::new();
        args.push("install".to_owned());
        args.push("bundler".to_owned());
        args.push("--force".to_owned());
        args.push("--no-document".to_owned());
        args.push("-v".to_owned());
        args.push(self.version_string());
        args.push("--install-dir".to_owned());
        args.push(self.gem_path_value());
        let command = Command { program: "gem".to_owned(), args };
        proof {
            assert(command@.args =~= install_command(
                version_text(self.version()),
                self.gem_path(),
            ).args);
        }
        command
    }

    fn uninstall(&self, old_version: &str) -> (r: Command)
        ensures
            r@ == uninstall_command(old_version@, self.gem_path()),
    {
        let mut args: Vec<String> = Vec::new();
        args.push("uninstall".to_owned());
        args.push("bundler".to_owned());
        args.push("--force".to_owned());
        args.push("-v".to_owned());
        args.push(old_version.to_owned());
        args.push("--install-dir".to_owned());
        args.push(self.gem_path_value());
        let command = Command { program: "gem".to_owned(), args };
        proof {
            assert(command@.args =~= uninstall_command(old_version@, self.gem_path()).args);
        }
        command
    }

    fn result(&self, gemfile: &str) -> (r: LayerResult)
        ensures
            r@ == bundler_result(version_text(self.version()), gemfile@),
    {
        let env = LayerEnv::new().chainable_insert(
            Scope::Build,
            ModificationBehavior::Delimiter,
            "BUNDLE_WITHOUT",
            ":",
        ).chainable_insert(
            Scope::All,
            ModificationBehavior::Prepend,
            "BUNDLE_WITHOUT",
            "development:test",
        ).chainable_insert(
            Scope::Build,
            ModificationBehavior::Override,
            "BUNDLE_GEMFILE",
            gemfile,
        ).chainable_insert(
            Scope::All,
            ModificationBehavior::Override,
            "BUNDLE_CLEAN",
            "1",
        ).chainable_insert(
            Scope::All,
            ModificationBehavior::Override,
            "BUNDLE_DEPLOYMENT",
            "1",
        ).chainable_insert(
            Scope::All,
            ModificationBehavior::Override,
            "BUNDLE_GLOBAL_PATH_APPENDS_RUBY_SCOPE",
            "1",
        ).chainable_insert(
            Scope::All,
            ModificationBehavior::Override,
            "NOKOGIRI_USE_SYSTEM_LIBRARIES",
            "1",
        );
        proof {
            assert(env@ =~= bundler_modifications(gemfile@));
        }
        LayerResult {
            metadata: LayerMetadata::DownloadBundler(self.desired_metadata()),
            env,
        }
    }

    fn create_from(&self, gemfile: &str, outcomes: &Vec<CommandOutcome>, first: usize) -> (r:
        LayerStep)
        requires
            first <= outcomes.len(),
        ensures
            r@ == create_step(
                version_text(self.version()),
                self.gem_path(),
                gemfile@,
                outcomes_view(outcomes@).skip(first as int),
            ),
    {
        if first == outcomes.len() {
            LayerStep::Run(self.install())
        } else {
            proof {
                assert(outcomes_view(outcomes@).skip(first as int)[0] == outcomes[first as int]@);
            }
            match error_of(&outcomes[first]) {
                Some(error) => LayerStep::Failed(error),
                None => LayerStep::Done(self.result(gemfile)),
            }
        }
    }

    /// The next step in creating the layer, given the outcomes of the
    /// commands run for it so far: first bundler is installed; then the
    /// layer records the version and reports its environment, where
    /// `gemfile` is the path of the application's Gemfile.
    pub fn create(&self, gemfile: &str, outcomes: &Vec<CommandOutcome>) -> (r: LayerStep)
        ensures
            r@ == create_step(
                version_text(self.version()),
                self.gem_path(),
                gemfile@,
                outcomes_view(outcomes@),
            ),
    {
        proof {
            assert(outcomes_view(outcomes@).skip(0) =~= outcomes_view(outcomes@));
        }
        self.create_from(gemfile, outcomes, 0)
    }

    /// The next step in updating a layer that holds another version, given
    /// the outcomes of the commands run for it so far: first the old
    /// version is removed, then the layer is created as by `create`.
    pub fn update(
        &self,
        gemfile: &str,
        layer: &DownloadBundlerLayerMetadata,
        outcomes: &Vec<CommandOutcome>,
    ) -> (r: LayerStep)
        ensures
            r@ == update_step(
                version_text(self.version()),
                layer@,
                self.gem_path(),
                gemfile@,
                outcomes_view(outcomes@),
            ),
    {
        if outcomes.len() == 0 {
            LayerStep::Run(self.uninstall(layer.version.as_str()))
        } else {
            match error_of(&outcomes[0]) {
                Some(error) => LayerStep::Failed(error),
                None => self.create_from(gemfile, outcomes, 1),
            }
        }
    }
}

} // verus!
