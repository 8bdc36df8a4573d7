//! The data model of a run: what kind of traversal was requested and the
//! mode-specific options it carries.

use vstd::prelude::*;

verus! {

/// The kind of automatic fixes that may be applied while analyzing a file
/// during a `check` or `lint` run.
#[derive(Debug, Clone, Copy, PartialEq, Eq, Structural)]
pub enum FixFileMode {
    /// Apply only the fixes considered safe.
    SafeFixes,
    /// Apply both safe and unsafe fixes.
    SafeAndUnsafeFixes,
}

/// A hosted continuous-integration provider recognised from the environment.
#[derive(Debug, Clone, Copy, PartialEq, Eq, Structural)]
pub enum ExecutionEnvironment {
    GitHub,
}

/// The sub-command of a `migrate` run, when one was given.
#[derive(Debug, Clone, Copy, PartialEq, Eq, Structural)]
pub enum MigrateSubCommand {
    Prettier,
    Eslint,
}

/// The identifier of a compiled search pattern.
#[derive(Debug)]
pub struct PatternId(pub String);

/// A type that holds the information to execute the tool via standard input:
/// a virtual path and the literal content standing in for that file.
#[derive(Debug)]
pub struct Stdin(
    /// The virtual path to the file.
    pub String,
    /// The content of the file.
    pub String,
);

impl Stdin {
    /// The virtual path of the in-memory file.
    pub fn as_path(&self) -> (r: &str)
        ensures
            r@ == self.0@,
    {
        self.0.as_str()
    }

    /// The content of the in-memory file.
    pub fn as_content(&self) -> (r: &str)
        ensures
            r@ == self.1@,
    {
        self.1.as_str()
    }
}

impl From<(String, String)> for Stdin {
    fn from(pair: (String, String)) -> (r: Self) {
        Stdin(pair.0, pair.1)
    }
}

impl vstd::std_specs::convert::FromSpecImpl<(String, String)> for Stdin {
    open spec fn obeys_from_spec() -> bool {
        true
    }

    open spec fn from_spec(pair: (String, String)) -> Stdin {
        Stdin(pair.0, pair.1)
    }
}

/// The modality of execution of the traversal: a closed set of variants, each
/// carrying only the data meaningful to it. In particular a `Migrate` run can
/// never carry standard-input content — the variant has no such field.
#[derive(Debug)]
pub enum TraversalMode {
    /// A full check pass over the targets.
    Check {
        /// The fixes that may be applied while analyzing a file; absent when
        /// the run only reports diagnostics.
        fix_file_mode: Option<FixFileMode>,
        /// Content supplied in place of real files, when present.
        stdin: Option<Stdin>,
    },
    /// A lint pass over the targets.
    Lint {
        /// The fixes that may be applied while analyzing a file; absent when
        /// the run only reports diagnostics.
        fix_file_mode: Option<FixFileMode>,
        /// Content supplied in place of real files, when present.
        stdin: Option<Stdin>,
    },
    /// A validation pass run under continuous integration.
    CI {
        /// The hosted provider the run was detected to be on, if any.
        environment: Option<ExecutionEnvironment>,
    },
    /// A formatting pass over the targets.
    Format {
        /// Whether parse errors in the targets are ignored.
        ignore_errors: bool,
        /// Whether the new content is written back to the files.
        write: bool,
        /// Content supplied in place of real files, when present.
        stdin: Option<Stdin>,
    },
    /// A migration of the configuration file.
    Migrate {
        /// Whether the result is written to disk.
        write: bool,
        /// The path to the configuration file.
        configuration_file_path: String,
        /// The directory where the configuration file is placed.
        configuration_directory_path: String,
        /// The migration sub-command, when one was given.
        sub_command: Option<MigrateSubCommand>,
    },
    /// A pattern search over the targets; rewriting is not supported.
    Search {
        /// The pattern to search for.
        pattern: PatternId,
        /// Content supplied in place of real files, when present.
        stdin: Option<Stdin>,
    },
}

impl TraversalMode {
    /// The standard-input content of this mode: present only on the variants
    /// that can carry one.
    pub open spec fn spec_stdin(self) -> Option<Stdin> {
        match self {
            TraversalMode::Check { stdin, .. } => stdin,
            TraversalMode::Lint { stdin, .. } => stdin,
            TraversalMode::Format { stdin, .. } => stdin,
            TraversalMode::Search { stdin, .. } => stdin,
            TraversalMode::CI { .. } => None,
            TraversalMode::Migrate { .. } => None,
        }
    }

    /// The fix policy of this mode: only `Check` and `Lint` can carry one.
    pub open spec fn spec_fix_file_mode(self) -> Option<FixFileMode> {
        match self {
            TraversalMode::Check { fix_file_mode, .. } => fix_file_mode,
            TraversalMode::Lint { fix_file_mode, .. } => fix_file_mode,
            _ => None,
        }
    }

    /// Whether the mode requires write access to the files it visits: a fix
    /// policy is set on `Check`/`Lint`, or `Format`/`Migrate` asked to write.
    /// `CI` and `Search` never require it.
    pub open spec fn spec_requires_write_access(self) -> bool {
        ||| self.spec_fix_file_mode() is Some
        ||| self matches TraversalMode::Format { write: true, .. }
        ||| self matches TraversalMode::Migrate { write: true, .. }
    }

    /// The label of the mode, used both for display and as the diagnostic
    /// category of the run.
    pub open spec fn spec_label(self) -> Seq<char> {
        match self {
            TraversalMode::Check { .. } => "check"@,
            TraversalMode::Lint { .. } => "lint"@,
            TraversalMode::CI { .. } => "ci"@,
            TraversalMode::Format { .. } => "format"@,
            TraversalMode::Migrate { .. } => "migrate"@,
            TraversalMode::Search { .. } => "search"@,
        }
    }

    /// The mode's name as shown to the user.
    pub fn display_name(&self) -> (r: &'static str)
        ensures
            r@ == self.spec_label(),
    {
        match self {
            TraversalMode::Check { .. } => "check",
            TraversalMode::Lint { .. } => "lint",
            TraversalMode::CI { .. } => "ci",
            TraversalMode::Format { .. } => "format",
            TraversalMode::Migrate { .. } => "migrate",
            TraversalMode::Search { .. } => "search",
        }
    }
}

/// A standard-input source is present exactly when the variant is one of
/// `Check`, `Lint`, `Format`, `Search` and its field was set at construction;
/// `CI` and `Migrate` never carry one.
pub proof fn lemma_stdin_source(m: TraversalMode)
    ensures
        (m.spec_stdin() is Some) <==> {
            ||| m matches TraversalMode::Check { stdin: Some(_), .. }
            ||| m matches TraversalMode::Lint { stdin: Some(_), .. }
            ||| m matches TraversalMode::Format { stdin: Some(_), .. }
            ||| m matches TraversalMode::Search { stdin: Some(_), .. }
        },
        (m matches TraversalMode::CI { .. } || m matches TraversalMode::Migrate { .. })
            ==> m.spec_stdin() is None,
{
}

} // verus!
