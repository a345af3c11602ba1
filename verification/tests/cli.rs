use sw::cli::{first_run_action, Cli, Commands, FirstRunAction, OperationMode, Shell};

// What the argument parser makes of the arguments that these tests use.
fn parse(args: &[&str]) -> Cli {
    let mut cli = Cli {
        project_name: None,
        interactive: false,
        list: false,
        fzf: false,
        refresh: false,
        verbose: false,
        command: None,
    };
    let mut i = 1;
    while i < args.len() {
        match args[i] {
            "--interactive" => cli.interactive = true,
            "--list" => cli.list = true,
            "--fzf" => cli.fzf = true,
            "--refresh" => cli.refresh = true,
            "--verbose" => cli.verbose = true,
            "setup" => cli.command = Some(Commands::Setup),
            "list" => cli.command = Some(Commands::List),
            "refresh" => cli.command = Some(Commands::Refresh),
            "config" => cli.command = Some(Commands::Config),
            "completions" => {
                i += 1;
                let shell = match args[i] {
                    "bash" => Shell::Bash,
                    "zsh" => Shell::Zsh,
                    "fish" => Shell::Fish,
                    "powershell" => Shell::PowerShell,
                    _ => Shell::Elvish,
                };
                cli.command = Some(Commands::Completions { shell });
            }
            name => cli.project_name = Some(name.to_string()),
        }
        i += 1;
    }
    cli
}

#[test]
fn test_cli_basic_parsing() {
    let cli = parse(&["sw"]);

    assert!(cli.project_name.is_none());
    assert!(!cli.interactive);
    assert!(!cli.list);
    assert!(!cli.fzf);
    assert!(!cli.refresh);
    assert!(!cli.verbose);
    assert!(cli.command.is_none());
}

#[test]
fn test_cli_project_name() {
    let cli = parse(&["sw", "my-project"]);

    assert_eq!(cli.project_name, Some("my-project".to_string()));
    assert_eq!(
        cli.operation_mode(),
        OperationMode::Direct("my-project".to_string())
    );
}

#[test]
fn test_cli_flags() {
    let cli = parse(&["sw", "--list", "--verbose"]);

    assert!(cli.list);
    assert!(cli.verbose);
    assert_eq!(cli.operation_mode(), OperationMode::List);
}

#[test]
fn test_cli_interactive_flag() {
    let cli = parse(&["sw", "--interactive"]);

    assert!(cli.interactive);
    assert_eq!(cli.operation_mode(), OperationMode::Interactive);
}

#[test]
fn test_cli_fzf_flag() {
    let cli = parse(&["sw", "--fzf"]);

    assert!(cli.fzf);
    assert_eq!(cli.operation_mode(), OperationMode::Fzf);
}

#[test]
fn test_cli_subcommands() {
    let cli = parse(&["sw", "setup"]);
    assert!(matches!(cli.command, Some(Commands::Setup)));
    assert_eq!(cli.operation_mode(), OperationMode::Setup);

    let cli = parse(&["sw", "list"]);
    assert!(matches!(cli.command, Some(Commands::List)));
    assert_eq!(cli.operation_mode(), OperationMode::List);

    let cli = parse(&["sw", "refresh"]);
    assert!(matches!(cli.command, Some(Commands::Refresh)));
    assert_eq!(cli.operation_mode(), OperationMode::Refresh);

    let cli = parse(&["sw", "config"]);
    assert!(matches!(cli.command, Some(Commands::Config)));
    assert_eq!(cli.operation_mode(), OperationMode::ShowConfig);
}

#[test]
fn test_operation_mode_defaults() {
    let cli = parse(&["sw"]);
    assert_eq!(cli.operation_mode(), OperationMode::Interactive);
}

#[test]
fn test_operation_mode_precedence() {
    let cli = parse(&["sw", "project-name"]);
    assert_eq!(
        cli.operation_mode(),
        OperationMode::Direct("project-name".to_string())
    );

    let cli = parse(&["sw", "setup"]);
    assert_eq!(cli.operation_mode(), OperationMode::Setup);
}

#[test]
fn test_cli_completions_subcommand() {
    let cli = parse(&["sw", "completions", "bash"]);
    assert!(matches!(
        cli.command,
        Some(Commands::Completions { shell: Shell::Bash })
    ));
    assert_eq!(
        cli.operation_mode(),
        OperationMode::Completions(Shell::Bash)
    );

    let cli = parse(&["sw", "completions", "zsh"]);
    assert!(matches!(
        cli.command,
        Some(Commands::Completions { shell: Shell::Zsh })
    ));
    assert_eq!(cli.operation_mode(), OperationMode::Completions(Shell::Zsh));

    let cli = parse(&["sw", "completions", "fish"]);
    assert!(matches!(
        cli.command,
        Some(Commands::Completions { shell: Shell::Fish })
    ));
    assert_eq!(
        cli.operation_mode(),
        OperationMode::Completions(Shell::Fish)
    );

    let cli = parse(&["sw", "completions", "powershell"]);
    assert!(matches!(
        cli.command,
        Some(Commands::Completions {
            shell: Shell::PowerShell
        })
    ));
    assert_eq!(
        cli.operation_mode(),
        OperationMode::Completions(Shell::PowerShell)
    );
}

#[test]
fn a_project_name_comes_before_everything() {
    let mut cli = parse(&["sw", "--list", "setup", "name"]);
    assert_eq!(cli.operation_mode(), OperationMode::Direct("name".to_string()));
    cli.project_name = None;
    assert_eq!(cli.operation_mode(), OperationMode::Setup);
    cli.command = None;
    cli.fzf = true;
    assert_eq!(cli.operation_mode(), OperationMode::List);
    cli.list = false;
    assert_eq!(cli.operation_mode(), OperationMode::Fzf);
}

#[test]
fn first_run_asks_before_a_picker_only() {
    let picker = OperationMode::Interactive;
    assert_eq!(first_run_action(true, true, &picker, false), FirstRunAction::PromptGithubSetup);
    assert_eq!(first_run_action(true, true, &OperationMode::Fzf, true), FirstRunAction::PromptGithubSetup);
    assert_eq!(first_run_action(true, true, &OperationMode::List, true), FirstRunAction::ShowSetupTip);
    assert_eq!(first_run_action(true, true, &OperationMode::ShowConfig, false), FirstRunAction::Nothing);
    assert_eq!(first_run_action(true, true, &OperationMode::Setup, true), FirstRunAction::Nothing);
    assert_eq!(first_run_action(false, true, &picker, true), FirstRunAction::Nothing);
    assert_eq!(first_run_action(true, false, &picker, true), FirstRunAction::Nothing);
}
