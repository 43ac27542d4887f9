use robocopyrs::filter::{FileExclusionFilter, Filter};
use robocopyrs::logging::LoggingSettings;
use robocopyrs::performance::{PerformanceChoice, PerformanceOptions, RetrySettings};
use robocopyrs::{
    CopyMode, DirectoryProperties, FileAttributes, FileProperties, FilesystemOptions, Move,
    PostCopyActions, RobocopyCommand,
};

#[test]
fn default_command_renders_source_destination_and_recursion() {
    let command = RobocopyCommand::default();
    assert_eq!(command.arguments(), vec![".", ".", "/s"]);
}

#[test]
fn mirror_request_collapses_to_consolidated_tokens() {
    let command = RobocopyCommand {
        source: "from".to_string(),
        destination: "to".to_string(),
        empty_dir_copy: true,
        remove_files_and_dirs_not_in_src: true,
        overwrite_destination_dir_sec_settings_when_mirror: true,
        ..RobocopyCommand::default()
    };
    assert_eq!(command.arguments(), vec!["from", "to", "/mir", "/e"]);
}

#[test]
fn without_security_overwrite_the_flags_render_separately() {
    let command = RobocopyCommand {
        source: "from".to_string(),
        destination: "to".to_string(),
        empty_dir_copy: true,
        remove_files_and_dirs_not_in_src: true,
        ..RobocopyCommand::default()
    };
    assert_eq!(command.arguments(), vec!["from", "to", "/e", "/purge"]);
}

#[test]
fn recursion_falls_back_without_empty_dir_copy() {
    let command = RobocopyCommand {
        source: "from".to_string(),
        destination: "to".to_string(),
        remove_files_and_dirs_not_in_src: true,
        ..RobocopyCommand::default()
    };
    assert_eq!(command.arguments(), vec!["from", "to", "/s", "/purge"]);
}

#[test]
fn files_follow_source_and_destination() {
    let command = RobocopyCommand {
        source: "src_dir".to_string(),
        destination: "dst_dir".to_string(),
        files: vec!["*.txt".to_string(), "notes.md".to_string()],
        ..RobocopyCommand::default()
    };
    assert_eq!(
        command.arguments(),
        vec!["src_dir", "dst_dir", "*.txt", "notes.md", "/s"]
    );
}

#[test]
fn depth_limit_renders_a_numeric_token() {
    let command = RobocopyCommand {
        only_copy_top_n_levels: Some(25),
        ..RobocopyCommand::default()
    };
    assert_eq!(command.arguments(), vec![".", ".", "/s", "/lev:25"]);
}

#[test]
fn full_command_renders_every_family_in_global_order() {
    let command = RobocopyCommand {
        source: "./source".to_string(),
        destination: "./destination".to_string(),
        files: vec!["*.log".to_string()],
        copy_mode: Some(CopyMode::RESTARTABLE_MODE_BACKUP_MODE_FALLBACK),
        unbuffered: true,
        empty_dir_copy: true,
        remove_files_and_dirs_not_in_src: false,
        only_copy_top_n_levels: Some(3),
        structure_and_size_zero_files_only: true,
        copy_file_properties: Some(FileProperties::all()),
        copy_dir_properties: Some(DirectoryProperties::all()),
        filter: Some(Filter {
            file_exclusion_filter: Some(FileExclusionFilter::OLDER),
            max_size: Some(4096),
            ..Filter::default()
        }),
        filesystem_options: Some(FilesystemOptions::ASSUME_FAT_FILE_TIMES),
        performance_options: Some(PerformanceOptions::DONT_OFFLOAD(
            PerformanceChoice::Threads(8),
        )),
        retry_settings: Some(RetrySettings {
            specify_retries_failed_copies: Some(3),
            specify_wait_between_retries: Some(10),
            save_specifications: false,
            await_share_names_def: false,
        }),
        logging: Some(LoggingSettings {
            log: "copy.log".to_string(),
            unicode: false,
            append: true,
        }),
        mv: Some(Move::FILES),
        post_copy_actions: Some(PostCopyActions::AddAttribsToFiles(
            FileAttributes::READ_ONLY,
        )),
        overwrite_destination_dir_sec_settings_when_mirror: false,
    };
    assert_eq!(
        command.arguments(),
        vec![
            "./source",
            "./destination",
            "*.log",
            "/zb",
            "/j",
            "/e",
            "/lev:3",
            "/create",
            "/copy:DATSOU",
            "/dcopy:DAT",
            "/xo",
            "/max:4096",
            "/fft",
            "/MT:8",
            "/nooffload",
            "/r:3",
            "/w:10",
            "/log+:copy.log",
            "/mov",
            "/a+:R",
        ]
    );
}

#[test]
fn large_numeric_payloads_render_in_full() {
    let command = RobocopyCommand {
        filter: Some(Filter {
            max_size: Some(u128::MAX),
            ..Filter::default()
        }),
        ..RobocopyCommand::default()
    };
    assert_eq!(
        command.arguments(),
        vec![".", ".", "/s", "/max:340282366920938463463374607431768211455"]
    );
}
