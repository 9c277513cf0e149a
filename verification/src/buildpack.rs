//! The Ruby buildpack: what it detects, the errors of its layers, and the
//! process it launches.

use crate::env::Env;
use crate::string_map::entries_map;
use vstd::prelude::*;

verus! {

/// The errors of the buildpack's layers.
#[derive(Debug)]
pub enum RubyBuildpackError {
    /// The `gem` command that installs or uninstalls bundler could not be
    /// run; the text says why.
    GemInstallBundlerCommandError(String),
    /// The `gem` command that installs or uninstalls bundler ended with
    /// this exit code, or without one.
    GemInstallBundlerUnexpectedExitStatus(Option<i32>),
}

/// An error, as contracts speak of it.
pub enum ErrorView {
    GemInstallBundlerCommandError(Seq<char>),
    GemInstallBundlerUnexpectedExitStatus(Option<i32>),
}

impl View for RubyBuildpackError {
    type V = ErrorView;

    open spec fn view(&self) -> ErrorView {
        match self {
            RubyBuildpackError::GemInstallBundlerCommandError(reason) => {
                ErrorView::GemInstallBundlerCommandError(reason@)
            },
            RubyBuildpackError::GemInstallBundlerUnexpectedExitStatus(code) => {
                ErrorView::GemInstallBundlerUnexpectedExitStatus(*code)
            },
        }
    }
}

/// What the buildpack provides to a build and what it asks of it.
#[derive(Debug, PartialEq, Eq)]
pub struct BuildPlan {
    /// What the buildpack provides.
    pub provided: Vec<String>,
    /// What the buildpack asks of the build.
    pub required: Vec<String>,
}

/// A process that the launched application offers.
#[derive(Debug, PartialEq, Eq)]
pub struct Process {
    /// The type of the process, such as `web`.
    pub process_type: String,
    pub command: String,
    pub args: Vec<String>,
    /// Whether this is the process that runs when none is named.
    pub default: bool,
}

/// A process, as contracts speak of it.
pub struct ProcessView {
    pub process_type: Seq<char>,
    pub command: Seq<char>,
    pub args: Seq<Seq<char>>,
    pub default: bool,
}

impl View for Process {
    type V = ProcessView;

    open spec fn view(&self) -> ProcessView {
        ProcessView {
            process_type: self.process_type@,
            command: self.command@,
            args: self.args.deep_view(),
            default: self.default,
        }
    }
}

/// What the buildpack asks of the build: `ruby` for an application with a
/// `Gemfile.lock`, and also `node` where that application has a
/// `package.json`.
pub open spec fn required(has_gemfile_lock: bool, has_package_json: bool) -> Seq<Seq<char>> {
    if !has_gemfile_lock {
        Seq::empty()
    } else if has_package_json {
        seq!["ruby"@, "node"@]
    } else {
        seq!["ruby"@]
    }
}

/// The process of a Ruby web application: `rackup` under bundler, on the
/// port that the platform names, open to every host.
pub open spec fn web_process() -> ProcessView {
    ProcessView {
        process_type: "web"@,
        command: "bundle"@,
        args: seq!["exec"@, "rackup"@, "--port"@, "$PORT"@, "--host"@, "0.0.0.0"@],
        default: true,
    }
}

/// The buildpack for Ruby applications.
#[derive(Debug)]
pub struct RubyBuildpack;

impl RubyBuildpack {
    /// The build plan for an application, given whether its directory
    /// holds a `Gemfile.lock` and a `package.json`. The buildpack always
    /// passes detection and always provides `ruby`.
    pub fn detect(&self, has_gemfile_lock: bool, has_package_json: bool) -> (r: BuildPlan)
        ensures
            r.provided.deep_view() == seq!["ruby"@],
            r.required.deep_view() == required(has_gemfile_lock, has_package_json),
    {
        let mut provided: Vec<String> = Vec::new();
        provided.push("ruby".to_owned());
        let mut needed: Vec<String> = Vec::new();
        if has_gemfile_lock {
            needed.push("ruby".to_owned());
            if has_package_json {
                needed.push("node".to_owned());
            }
        }
        proof {
            assert(provided.deep_view() =~= seq!["ruby"@]);
            assert(needed.deep_view() =~= required(has_gemfile_lock, has_package_json));
        }
        BuildPlan { provided, required: needed }
    }

    /// The environment that a build starts from: the variables of the
    /// system, and over them those that the user set on the platform.
    pub fn base_env(&self, system: &Vec<(String, String)>, user: &Vec<(String, String)>) -> (r: Env)
        ensures
            r@ == entries_map(system@ + user@),
    {
        let mut env = Env::from_vars(system);
        let mut i: usize = 0;
        proof {
            assert(system@ + user@.take(0) =~= system@);
        }
        while i < user.len()
            invariant
                i <= user.len(),
                env@ == entries_map(system@ + user@.take(i as int)),
            decreases user.len() - i,
        {
            proof {
                assert((system@ + user@.take(i + 1)).drop_last() =~= system@ + user@.take(
                    i as int,
                ));
            }
            env.insert(user[i].0.as_str(), user[i].1.as_str());
            i += 1;
        }
        proof {
            assert(user@.take(user.len() as int) =~= user@);
        }
        env
    }

    /// The processes of the launched application, in the order in which
    /// they are declared: the web process alone.
    pub fn processes(&self) -> (r: Vec<Process>)
        ensures
            r@.len() == 1,
            r@[0]@ == web_process(),
    {
        let mut args: Vec<String> = Vec::new();
        args.push("exec".to_owned());
        args.push("rackup".to_owned());
        args.push("--port".to_owned());
        args.push("$PORT".to_owned());
        args.push("--host".to_owned());
        args.push("0.0.0.0".to_owned());
        let process = Process {
            process_type: "web".to_owned(),
            command: "bundle".to_owned(),
            args,
            default: true,
        };
        proof {
            assert(process@.args =~= web_process().args);
        }
        let mut processes: Vec<Process> = Vec::new();
        processes.push(process);
        processes
    }
}

} // verus!
