use biome_cli::cli_options::CliOptions;
use biome_cli::execute::{execute_mode, Dispatch, Execution};
use biome_cli::modes::{FixFileMode, MigrateSubCommand, PatternId, Stdin, TraversalMode};

fn options(max_diagnostics: u16, verbose: bool) -> CliOptions {
    CliOptions { max_diagnostics, verbose }
}

#[test]
fn stdin_format_runs_the_single_content_pipeline() {
    let mode = Execution::new(TraversalMode::Format {
        ignore_errors: false,
        write: false,
        stdin: Some(Stdin::from(("a.js".to_string(), "let x=1".to_string()))),
    });
    let d = execute_mode(mode, &options(20, false), vec!["a.js".to_string()]);
    match d {
        Dispatch::Stdin { execution, path, content, verbose } => {
            assert_eq!(path, "a.js");
            assert_eq!(content, "let x=1");
            assert!(!verbose);
            assert!(execution.is_format());
        }
        _ => panic!("content from stdin must select the single-content pipeline"),
    }
}

#[test]
fn stdin_wins_for_every_mode_that_can_carry_it() {
    let modes = [
        TraversalMode::Check {
            fix_file_mode: Some(FixFileMode::SafeFixes),
            stdin: Some(Stdin::from(("f".to_string(), "c".to_string()))),
        },
        TraversalMode::Lint {
            fix_file_mode: None,
            stdin: Some(Stdin::from(("f".to_string(), "c".to_string()))),
        },
        TraversalMode::Format {
            ignore_errors: true,
            write: true,
            stdin: Some(Stdin::from(("f".to_string(), "c".to_string()))),
        },
        TraversalMode::Search {
            pattern: PatternId("p0".to_string()),
            stdin: Some(Stdin::from(("f".to_string(), "c".to_string()))),
        },
    ];
    for mode in modes {
        let d = execute_mode(Execution::new(mode), &options(1, true), Vec::new());
        assert!(matches!(d, Dispatch::Stdin { .. }));
    }
}

#[test]
fn migrate_hands_its_fields_to_the_migration_pipeline() {
    let mode = Execution::new(TraversalMode::Migrate {
        write: true,
        configuration_file_path: "biome.json".to_string(),
        configuration_directory_path: ".".to_string(),
        sub_command: None,
    });
    let d = execute_mode(mode, &options(20, false), Vec::new());
    match d {
        Dispatch::Migrate {
            write,
            configuration_file_path,
            configuration_directory_path,
            verbose,
            sub_command,
        } => {
            assert!(write);
            assert_eq!(configuration_file_path, "biome.json");
            assert_eq!(configuration_directory_path, ".");
            assert!(!verbose);
            assert_eq!(sub_command, None);
        }
        _ => panic!("a migrate run without stdin must select the migration pipeline"),
    }
}

#[test]
fn migrate_keeps_the_sub_command_and_verbosity() {
    let mode = Execution::new(TraversalMode::Migrate {
        write: false,
        configuration_file_path: "biome.json".to_string(),
        configuration_directory_path: "config".to_string(),
        sub_command: Some(MigrateSubCommand::Eslint),
    });
    let d = execute_mode(mode, &options(20, true), Vec::new());
    match d {
        Dispatch::Migrate { write, verbose, sub_command, .. } => {
            assert!(!write);
            assert!(verbose);
            assert_eq!(sub_command, Some(MigrateSubCommand::Eslint));
        }
        _ => panic!("a migrate run without stdin must select the migration pipeline"),
    }
}

#[test]
fn check_without_stdin_traverses_the_path_list() {
    let mode = Execution::new(TraversalMode::Check {
        fix_file_mode: Some(FixFileMode::SafeFixes),
        stdin: None,
    });
    let d = execute_mode(mode, &options(20, false), vec!["src/".to_string()]);
    match d {
        Dispatch::Traverse { execution, paths } => {
            assert_eq!(paths, vec!["src/".to_string()]);
            assert!(execution.is_check_apply());
            assert!(!execution.is_check_apply_unsafe());
        }
        _ => panic!("a plain check run must select the traversal pipeline"),
    }
}

#[test]
fn the_dispatcher_patches_the_diagnostics_cap() {
    let mode = Execution::new_format();
    assert_eq!(mode.get_max_diagnostics(), 0);
    let d = execute_mode(mode, &options(75, false), Vec::new());
    match d {
        Dispatch::Traverse { execution, paths } => {
            assert_eq!(execution.get_max_diagnostics(), 75);
            assert!(paths.is_empty());
        }
        _ => panic!("a bare format run must select the traversal pipeline"),
    }
}

#[test]
fn ci_runs_traverse_the_path_list() {
    let mode = Execution::new_ci(Some("true".to_string()));
    let paths = vec!["a".to_string(), "b".to_string()];
    let d = execute_mode(mode, &options(20, false), paths.clone());
    match d {
        Dispatch::Traverse { execution, paths: got } => {
            assert_eq!(got, paths);
            assert!(execution.is_ci());
            assert!(execution.is_ci_github());
        }
        _ => panic!("a CI run must select the traversal pipeline"),
    }
}

#[test]
fn search_without_stdin_traverses() {
    let mode = Execution::new(TraversalMode::Search {
        pattern: PatternId("p1".to_string()),
        stdin: None,
    });
    let d = execute_mode(mode, &options(20, false), vec!["lib/".to_string()]);
    assert!(matches!(d, Dispatch::Traverse { .. }));
}
