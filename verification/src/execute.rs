//! The execution aggregate and its derived-query interface.

use vstd::prelude::*;
use vstd::string::StringExecFns;
use crate::cli_options::CliOptions;
use crate::features::{spec_features, FeatureName};
use crate::modes::{ExecutionEnvironment, FixFileMode, MigrateSubCommand, Stdin, TraversalMode};

verus! {

/// How the gathered information is reported to the user.
#[derive(Debug, Clone, Copy, PartialEq, Eq, Structural)]
pub enum ReportMode {
    /// Report straight to the console; the default.
    Terminal,
    /// Report in JSON format.
    Json,
}

impl Default for ReportMode {
    fn default() -> (r: Self)
        ensures
            r == ReportMode::Terminal,
    {
        ReportMode::Terminal
    }
}

/// Everything a run needs to know while traversing files or virtual content:
/// the traversal mode, how results are reported, and the cap on the number of
/// diagnostics printed. The cap starts at a mode-dependent default and is
/// patched by the dispatcher from the caller's options before any pipeline
/// runs.
#[derive(Debug)]
pub struct Execution {
    /// How the information should be collected and reported.
    report_mode: ReportMode,
    /// The modality of execution of the traversal.
    traversal_mode: TraversalMode,
    /// The maximum number of diagnostics that can be printed in console.
    max_diagnostics: u16,
}

impl Execution {
    /// The traversal mode this execution carries.
    pub closed spec fn spec_traversal_mode(self) -> TraversalMode {
        self.traversal_mode
    }

    /// The report mode this execution carries.
    pub closed spec fn spec_report_mode(self) -> ReportMode {
        self.report_mode
    }

    /// The current cap on reported diagnostics.
    pub closed spec fn spec_max_diagnostics(self) -> u16 {
        self.max_diagnostics
    }

    /// A bare formatting execution: nothing is ignored, nothing is written,
    /// no content comes from standard input, and the diagnostics cap is left
    /// at the unset placeholder for the dispatcher to patch.
    pub fn new_format() -> (r: Self)
        ensures
            r.spec_traversal_mode() == (TraversalMode::Format {
                ignore_errors: false,
                write: false,
                stdin: None,
            }),
            r.spec_report_mode() == ReportMode::Terminal,
            r.spec_max_diagnostics() == 0,
    {
        Self {
            traversal_mode: TraversalMode::Format { ignore_errors: false, write: false, stdin: None },
            report_mode: ReportMode::Terminal,
            max_diagnostics: 0,
        }
    }

    /// Wraps an already-built traversal mode with terminal reporting and the
    /// default diagnostics cap.
    pub fn new(mode: TraversalMode) -> (r: Self)
        ensures
            r.spec_traversal_mode() == mode,
            r.spec_report_mode() == ReportMode::Terminal,
            r.spec_max_diagnostics() == 20,
    {
        Self { report_mode: ReportMode::Terminal, traversal_mode: mode, max_diagnostics: 20 }
    }

    /// A continuous-integration execution. The caller hands in the value of
    /// the designated environment variable, read at the process edge; the
    /// hosted provider is recognised exactly when that value is the literal
    /// string `true`, and left undetected otherwise — an absent variable is
    /// never an error.
    pub fn new_ci(environment_value: Option<String>) -> (r: Self)
        ensures
            r.spec_traversal_mode() == (TraversalMode::CI {
                environment: spec_detected_environment(environment_value),
            }),
            r.spec_report_mode() == ReportMode::Terminal,
            r.spec_max_diagnostics() == 20,
    {
        let is_github = match &environment_value {
            Some(value) => *value == String::from_str("true"),
            None => false,
        };
        Self {
            report_mode: ReportMode::Terminal,
            traversal_mode: TraversalMode::CI {
                environment: if is_github {
                    Some(ExecutionEnvironment::GitHub)
                } else {
                    None
                },
            },
            max_diagnostics: 20,
        }
    }

    /// Builds an execution from both a traversal mode and a report mode.
    pub fn with_report(traversal_mode: TraversalMode, report_mode: ReportMode) -> (r: Self)
        ensures
            r.spec_traversal_mode() == traversal_mode,
            r.spec_report_mode() == report_mode,
            r.spec_max_diagnostics() == 20,
    {
        Self { traversal_mode, report_mode, max_diagnostics: 20 }
    }

    /// Tells if the reporting is happening straight to the terminal.
    pub fn should_report_to_terminal(&self) -> (r: bool)
        ensures
            r == (self.spec_report_mode() matches ReportMode::Terminal),
    {
        matches!(self.report_mode, ReportMode::Terminal)
    }

    /// The traversal mode of this execution.
    pub fn traversal_mode(&self) -> (r: &TraversalMode)
        ensures
            *r == self.spec_traversal_mode(),
    {
        &self.traversal_mode
    }

    /// The current cap on reported diagnostics.
    pub fn get_max_diagnostics(&self) -> (r: u16)
        ensures
            r == self.spec_max_diagnostics(),
    {
        self.max_diagnostics
    }

    /// The minimal set of optional capabilities the downstream workspace must
    /// enable for this run.
    pub fn to_features(&self) -> (r: Vec<FeatureName>)
        ensures
            r@ == spec_features(self.spec_traversal_mode()),
    {
        let r: Vec<FeatureName> = match self.traversal_mode {
            TraversalMode::Format { .. } => vec![FeatureName::Format],
            TraversalMode::Lint { .. } => vec![FeatureName::Lint],
            TraversalMode::Check { .. } | TraversalMode::CI { .. } => vec![
                FeatureName::OrganizeImports,
                FeatureName::Format,
                FeatureName::Lint,
            ],
            TraversalMode::Migrate { .. } => Vec::new(),
            TraversalMode::Search { .. } => vec![FeatureName::Search],
        };
        proof {
            assert(r@ =~= spec_features(self.spec_traversal_mode()));
        }
        r
    }

    /// The fix policy of the run; set only when traversing in `Check` or
    /// `Lint` mode with fixes requested.
    pub fn as_fix_file_mode(&self) -> (r: Option<&FixFileMode>)
        ensures
            (r is Some) == (self.spec_traversal_mode().spec_fix_file_mode() is Some),
            r matches Some(f) ==> Some(*f) == self.spec_traversal_mode().spec_fix_file_mode(),
    {
        match &self.traversal_mode {
            TraversalMode::Check { fix_file_mode, .. } => fix_file_mode.as_ref(),
            TraversalMode::Lint { fix_file_mode, .. } => fix_file_mode.as_ref(),
            _ => None,
        }
    }

    /// The diagnostic category under which this run's own failures are filed:
    /// the label of its traversal mode.
    pub fn as_diagnostic_category(&self) -> (r: &'static str)
        ensures
            r@ == self.spec_traversal_mode().spec_label(),
    {
        match self.traversal_mode {
            TraversalMode::Check { .. } => "check",
            TraversalMode::Lint { .. } => "lint",
            TraversalMode::CI { .. } => "ci",
            TraversalMode::Format { .. } => "format",
            TraversalMode::Migrate { .. } => "migrate",
            TraversalMode::Search { .. } => "search",
        }
    }

    /// Whether this run is a continuous-integration validation.
    pub fn is_ci(&self) -> (r: bool)
        ensures
            r == (self.spec_traversal_mode() matches TraversalMode::CI { .. }),
    {
        matches!(self.traversal_mode, TraversalMode::CI { .. })
    }

    /// Whether this run is a continuous-integration validation on the known
    /// hosted provider.
    pub fn is_ci_github(&self) -> (r: bool)
        ensures
            r == (self.spec_traversal_mode() matches TraversalMode::CI {
                environment: Some(ExecutionEnvironment::GitHub),
            }),
    {
        matches!(
            self.traversal_mode,
            TraversalMode::CI { environment: Some(ExecutionEnvironment::GitHub) }
        )
    }

    /// Whether this run is a check pass.
    pub fn is_check(&self) -> (r: bool)
        ensures
            r == (self.spec_traversal_mode() matches TraversalMode::Check { .. }),
    {
        matches!(self.traversal_mode, TraversalMode::Check { .. })
    }

    /// Whether this run is a lint pass.
    pub fn is_lint(&self) -> (r: bool)
        ensures
            r == (self.spec_traversal_mode() matches TraversalMode::Lint { .. }),
    {
        matches!(self.traversal_mode, TraversalMode::Lint { .. })
    }

    /// Whether this run is a check pass that applies safe fixes.
    pub fn is_check_apply(&self) -> (r: bool)
        ensures
            r == (self.spec_traversal_mode() matches TraversalMode::Check {
                fix_file_mode: Some(FixFileMode::SafeFixes),
                ..
            }),
    {
        matches!(
            self.traversal_mode,
            TraversalMode::Check { fix_file_mode: Some(FixFileMode::SafeFixes), .. }
        )
    }

    /// Whether this run is a check pass that applies both safe and unsafe
    /// fixes.
    pub fn is_check_apply_unsafe(&self) -> (r: bool)
        ensures
            r == (self.spec_traversal_mode() matches TraversalMode::Check {
                fix_file_mode: Some(FixFileMode::SafeAndUnsafeFixes),
                ..
            }),
    {
        matches!(
            self.traversal_mode,
            TraversalMode::Check { fix_file_mode: Some(FixFileMode::SafeAndUnsafeFixes), .. }
        )
    }

    /// Whether this run is a formatting pass.
    pub fn is_format(&self) -> (r: bool)
        ensures
            r == (self.spec_traversal_mode() matches TraversalMode::Format { .. }),
    {
        matches!(self.traversal_mode, TraversalMode::Format { .. })
    }

    /// Whether this run is a formatting pass that writes the result back.
    pub fn is_format_write(&self) -> (r: bool)
        ensures
            r == (self.spec_traversal_mode() matches TraversalMode::Format { write: true, .. }),
    {
        match self.traversal_mode {
            TraversalMode::Format { write, .. } => write,
            _ => false,
        }
    }

    /// Whether the traversal mode requires write access to the files it
    /// visits: true exactly when `Check`/`Lint` carries a fix policy, or
    /// `Format`/`Migrate` was asked to write; never for `CI` or `Search`.
    pub fn requires_write_access(&self) -> (r: bool)
        ensures
            r == self.spec_traversal_mode().spec_requires_write_access(),
    {
        match &self.traversal_mode {
            TraversalMode::Check { fix_file_mode, .. } => fix_file_mode.is_some(),
            TraversalMode::Lint { fix_file_mode, .. } => fix_file_mode.is_some(),
            TraversalMode::CI { .. } => false,
            TraversalMode::Search { .. } => false,
            TraversalMode::Format { write, .. } => *write,
            TraversalMode::Migrate { write, .. } => *write,
        }
    }

    /// The standard-input content of this run, when the mode carries one.
    pub fn as_stdin_file(&self) -> (r: Option<&Stdin>)
        ensures
            (r is Some) == (self.spec_traversal_mode().spec_stdin() is Some),
            r matches Some(s) ==> Some(*s) == self.spec_traversal_mode().spec_stdin(),
    {
        match &self.traversal_mode {
            TraversalMode::Format { stdin, .. } => stdin.as_ref(),
            TraversalMode::Lint { stdin, .. } => stdin.as_ref(),
            TraversalMode::Check { stdin, .. } => stdin.as_ref(),
            TraversalMode::Search { stdin, .. } => stdin.as_ref(),
            TraversalMode::CI { .. } => None,
            TraversalMode::Migrate { .. } => None,
        }
    }
}

/// The provider recognised from the designated environment variable: exactly
/// the literal value `true` selects the known hosted provider; any other
/// value, or an absent variable, leaves the environment undetected.
pub open spec fn spec_detected_environment(value: Option<String>) -> Option<ExecutionEnvironment> {
    if value matches Some(v) && v@ == "true"@ {
        Some(ExecutionEnvironment::GitHub)
    } else {
        None
    }
}

/// The one downstream pipeline invocation selected for a run, with everything
/// that pipeline consumes. The caller performs the invocation: the pipelines
/// themselves — single-content analysis, configuration migration, filesystem
/// traversal plus reporting — are external collaborators.
#[derive(Debug)]
pub enum Dispatch {
    /// Run the single-content pipeline on the virtual path and its content;
    /// no filesystem traversal, no reporter stage.
    Stdin {
        /// The execution, with its diagnostics cap already patched.
        execution: Execution,
        /// The virtual path of the content.
        path: String,
        /// The content itself.
        content: String,
        /// Whether the pipeline runs verbosely.
        verbose: bool,
    },
    /// Run the configuration-migration pipeline with these exact fields.
    Migrate {
        /// Whether the result is written to disk.
        write: bool,
        /// The path to the configuration file.
        configuration_file_path: String,
        /// The directory where the configuration file is placed.
        configuration_directory_path: String,
        /// Whether the pipeline runs verbosely.
        verbose: bool,
        /// The migration sub-command, when one was given.
        sub_command: Option<MigrateSubCommand>,
    },
    /// Run the filesystem-traversal pipeline over the full path list, then
    /// build a reporter from the execution and the pipeline's output.
    Traverse {
        /// The execution, with its diagnostics cap already patched.
        execution: Execution,
        /// The target paths of the traversal.
        paths: Vec<String>,
    },
}

/// What the dispatcher must decide for a given execution, caller options and
/// path list: the diagnostics cap is patched from the options, and exactly
/// one pipeline is selected in strict priority order — standard-input content
/// pre-empts migration, which pre-empts general traversal.
pub open spec fn dispatch_ok(
    mode: Execution,
    options: CliOptions,
    paths: Vec<String>,
    d: Dispatch,
) -> bool {
    let m = mode.spec_traversal_mode();
    match m.spec_stdin() {
        Some(stdin) => match d {
            Dispatch::Stdin { execution, path, content, verbose } => {
                &&& patched(mode, options, execution)
                &&& path@ == stdin.0@
                &&& content@ == stdin.1@
                &&& verbose == options.verbose
            },
            _ => false,
        },
        None => match m {
            TraversalMode::Migrate {
                write,
                configuration_file_path,
                configuration_directory_path,
                sub_command,
            } => match d {
                Dispatch::Migrate {
                    write: w,
                    configuration_file_path: file,
                    configuration_directory_path: dir,
                    verbose,
                    sub_command: sub,
                } => {
                    &&& w == write
                    &&& file@ == configuration_file_path@
                    &&& dir@ == configuration_directory_path@
                    &&& verbose == options.verbose
                    &&& sub == sub_command
                },
                _ => false,
            },
            _ => match d {
                Dispatch::Traverse { execution, paths: p } => {
                    &&& patched(mode, options, execution)
                    &&& p == paths
                },
                _ => false,
            },
        },
    }
}

/// The execution handed to a pipeline is the caller's execution with its
/// diagnostics cap — and nothing else — overwritten from the options.
pub open spec fn patched(mode: Execution, options: CliOptions, execution: Execution) -> bool {
    &&& execution.spec_traversal_mode() == mode.spec_traversal_mode()
    &&& execution.spec_report_mode() == mode.spec_report_mode()
    &&& execution.spec_max_diagnostics() == options.max_diagnostics
}

/// The dispatcher: finalizes the diagnostics cap from the late-bound options
/// and selects exactly one downstream pipeline. Content supplied in place of
/// real files always wins; a migration run comes next; every other run goes
/// to the filesystem traversal over the full path list.
pub fn execute_mode(mode: Execution, cli_options: &CliOptions, paths: Vec<String>) -> (r: Dispatch)
    ensures
        dispatch_ok(mode, *cli_options, paths, r),
{
    let Execution { report_mode, traversal_mode, max_diagnostics: _ } = mode;
    let patched_mode = Execution {
        report_mode,
        traversal_mode,
        max_diagnostics: cli_options.max_diagnostics,
    };

    // don't do any traversal if there's some content coming from stdin
    let stdin_pair: Option<(String, String)> = match patched_mode.as_stdin_file() {
        Some(stdin) => Some((stdin.0.clone(), stdin.1.clone())),
        None => None,
    };
    match stdin_pair {
        Some((path, content)) => Dispatch::Stdin {
            execution: patched_mode,
            path,
            content,
            verbose: cli_options.verbose,
        },
        None => match patched_mode.traversal_mode {
            TraversalMode::Migrate {
                write,
                configuration_file_path,
                configuration_directory_path,
                sub_command,
            } => Dispatch::Migrate {
                write,
                configuration_file_path,
                configuration_directory_path,
                verbose: cli_options.verbose,
                sub_command,
            },
            _ => Dispatch::Traverse { execution: patched_mode, paths },
        },
    }
}

/// Dispatch priority is total and deterministic: whatever the underlying
/// traversal mode, an execution with a standard-input source always selects
/// the single-content pipeline.
pub proof fn lemma_dispatch_priority(
    mode: Execution,
    options: CliOptions,
    paths: Vec<String>,
    d: Dispatch,
)
    requires
        dispatch_ok(mode, options, paths, d),
        mode.spec_traversal_mode().spec_stdin() is Some,
    ensures
        d matches Dispatch::Stdin { .. },
{
}

} // verus!
