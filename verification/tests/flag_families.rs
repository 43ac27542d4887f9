use robocopyrs::{
    CopyMode, DirectoryProperties, FileAttributes, FileProperties, FilesystemOptions, Move,
    MultipleVariant, PostCopyActions,
};
use robocopyrs::performance::{PerformanceChoice, PerformanceOptions, RetrySettings};
use robocopyrs::logging::LoggingSettings;

#[test]
fn file_properties_single_tokens() {
    assert_eq!(FileProperties::DATA.render(), "/copy:D");
    assert_eq!(FileProperties::ATTRIBUTES.render(), "/copy:A");
    assert_eq!(FileProperties::TIME_STAMPS.render(), "/copy:T");
    assert_eq!(FileProperties::NTFS_ACCESS_CONTROL_LIST.render(), "/copy:S");
    assert_eq!(FileProperties::OWNER_INFO.render(), "/copy:O");
    assert_eq!(FileProperties::AUDITING_INFO.render(), "/copy:U");
}

#[test]
fn file_properties_all_renders_every_letter() {
    assert_eq!(FileProperties::all().render(), "/copy:DATSOU");
    assert_eq!(FileProperties::none().render(), "/copy:");
}

#[test]
fn file_properties_all_by_combination_renders_the_same() {
    let combined = FileProperties::DATA
        .combine(FileProperties::ATTRIBUTES)
        .combine(FileProperties::TIME_STAMPS)
        .combine(FileProperties::NTFS_ACCESS_CONTROL_LIST)
        .combine(FileProperties::OWNER_INFO)
        .combine(FileProperties::AUDITING_INFO);
    assert_eq!(combined.render(), FileProperties::all().render());
    let scrambled = FileProperties::OWNER_INFO
        .combine(FileProperties::DATA)
        .combine(FileProperties::AUDITING_INFO)
        .combine(FileProperties::NTFS_ACCESS_CONTROL_LIST)
        .combine(FileProperties::ATTRIBUTES)
        .combine(FileProperties::TIME_STAMPS);
    assert_eq!(scrambled.render(), "/copy:DATSOU");
}

#[test]
fn file_properties_combination_is_commutative() {
    let a = FileProperties::DATA.combine(FileProperties::OWNER_INFO);
    let b = FileProperties::OWNER_INFO.combine(FileProperties::DATA);
    assert_eq!(a, b);
    assert_eq!(a.render(), "/copy:DO");
}

#[test]
fn file_properties_none_is_identity() {
    let v = FileProperties::DATA.combine(FileProperties::TIME_STAMPS);
    assert_eq!(v.combine(FileProperties::none()), v);
    assert_eq!(FileProperties::none().combine(v), v);
}

#[test]
fn file_properties_decompose_in_vocabulary_order() {
    let v = FileProperties::AUDITING_INFO.combine(FileProperties::DATA);
    assert_eq!(
        v.single_variants(),
        vec![FileProperties::DATA, FileProperties::AUDITING_INFO]
    );
    assert_eq!(
        FileProperties::DATA.single_variants(),
        vec![FileProperties::DATA]
    );
}

#[test]
fn directory_properties_tokens() {
    assert_eq!(DirectoryProperties::all().render(), "/dcopy:DAT");
    assert_eq!(DirectoryProperties::none().render(), "/dcopy:");
    assert_eq!(DirectoryProperties::TIME_STAMPS.render(), "/dcopy:T");
    let v = DirectoryProperties::TIME_STAMPS.combine(DirectoryProperties::DATA);
    assert_eq!(v.render(), "/dcopy:DT");
    assert_eq!(
        v.single_variants(),
        vec![DirectoryProperties::DATA, DirectoryProperties::TIME_STAMPS]
    );
}

#[test]
fn file_attributes_letters() {
    assert_eq!(FileAttributes::all().letters(), "RASHCNET");
    assert_eq!(FileAttributes::none().letters(), "");
    assert_eq!(FileAttributes::READ_ONLY.letters(), "R");
    let v = FileAttributes::HIDDEN.combine(FileAttributes::READ_ONLY);
    assert_eq!(v.letters(), "RH");
}

#[test]
fn file_attributes_combination_laws_on_values() {
    let a = FileAttributes::READ_ONLY;
    let b = FileAttributes::ENCRYPTED;
    let c = FileAttributes::SYSTEM;
    assert_eq!(a.combine(b), b.combine(a));
    assert_eq!(a.combine(b).combine(c), a.combine(b.combine(c)));
    let v = a.combine(b);
    assert_eq!(v.combine(FileAttributes::none()), v);
}

#[test]
fn file_attributes_decompose() {
    let v = FileAttributes::TEMPORARY.combine(FileAttributes::ARCHIVE);
    assert_eq!(
        v.single_variants(),
        vec![FileAttributes::ARCHIVE, FileAttributes::TEMPORARY]
    );
}

#[test]
fn copy_mode_and_move_tokens() {
    assert_eq!(CopyMode::RESTARTABLE_MODE.render(), "/z");
    assert_eq!(CopyMode::BACKUP_MODE.render(), "/b");
    assert_eq!(CopyMode::RESTARTABLE_MODE_BACKUP_MODE_FALLBACK.render(), "/zb");
    assert_eq!(Move::FILES.render(), "/mov");
    assert_eq!(Move::FILES_AND_DIRS.render(), "/move");
}

#[test]
fn filesystem_options_combine_and_render() {
    assert_eq!(FilesystemOptions::FAT_FILE_NAMES.render(), vec!["/fat"]);
    let v = FilesystemOptions::DISABLE_LONG_PATHS.combine(FilesystemOptions::FAT_FILE_NAMES);
    assert_eq!(v.render(), vec!["/fat", "/256"]);
    assert_eq!(
        v.single_variants(),
        vec![
            FilesystemOptions::FAT_FILE_NAMES,
            FilesystemOptions::DISABLE_LONG_PATHS
        ]
    );
}

#[test]
fn post_copy_actions_combine_and_render() {
    let add = PostCopyActions::AddAttribsToFiles(FileAttributes::READ_ONLY);
    let rmv = PostCopyActions::RmvAttribsFromFiles(FileAttributes::SYSTEM);
    assert_eq!(add.render(), vec!["/a+:R"]);
    assert_eq!(rmv.render(), vec!["/a-:S"]);
    let both = add.combine(rmv);
    assert_eq!(both.render(), vec!["/a+:R", "/a-:S"]);
    let adds = add.combine(PostCopyActions::AddAttribsToFiles(FileAttributes::ARCHIVE));
    assert_eq!(adds.render(), vec!["/a+:RA"]);
    assert_eq!(add.combine(rmv), rmv.combine(add));
}

#[test]
fn post_copy_actions_decompose() {
    let both = PostCopyActions::AddAttribsToFiles(FileAttributes::READ_ONLY)
        .combine(PostCopyActions::RmvAttribsFromFiles(FileAttributes::SYSTEM));
    let singles = both.single_variants();
    assert_eq!(singles.len(), 2);
    assert_eq!(singles[0].render(), vec!["/a+:R"]);
    assert_eq!(singles[1].render(), vec!["/a-:S"]);
}

#[test]
fn performance_choice_tokens() {
    assert_eq!(PerformanceChoice::Threads(4).render(), vec!["/MT:4"]);
    assert_eq!(PerformanceChoice::InterPacketGap(250).render(), vec!["/ipg:250"]);
    assert_eq!(PerformanceChoice::Default.render(), Vec::<String>::new());
}

#[test]
fn performance_options_combine_and_render() {
    let a = PerformanceOptions::DONT_OFFLOAD(PerformanceChoice::Threads(4));
    let b = PerformanceOptions::REQUEST_NETWORK_COMPRESSION(PerformanceChoice::Threads(4));
    let v = a.combine(b).unwrap();
    assert_eq!(v.render(), vec!["/MT:4", "/nooffload", "/compress"]);
    assert_eq!(v.performance_choice(), PerformanceChoice::Threads(4));
}

#[test]
fn performance_choice_conflict_is_an_error() {
    let a = PerformanceOptions::PerformanceChoiceOnly(PerformanceChoice::Threads(4));
    let b = PerformanceOptions::PerformanceChoiceOnly(PerformanceChoice::InterPacketGap(1));
    assert_eq!(a.combine(b), Err("Performance choices do not match."));
    assert_eq!(b.combine(a), Err("Performance choices do not match."));
}

#[test]
fn performance_default_choice_is_adopted() {
    let a = PerformanceOptions::COPY_RATHER_THAN_FOLLOW_LINK(PerformanceChoice::Default);
    let b = PerformanceOptions::PerformanceChoiceOnly(PerformanceChoice::InterPacketGap(7));
    let v = a.combine(b).unwrap();
    assert_eq!(v.performance_choice(), PerformanceChoice::InterPacketGap(7));
    assert_eq!(v.render(), vec!["/ipg:7", "/sl"]);
    let w = a.combine(PerformanceOptions::Default).unwrap();
    assert_eq!(w.performance_choice(), PerformanceChoice::Default);
    assert_eq!(w.render(), vec!["/sl"]);
}

#[test]
fn retry_settings_render() {
    let all = RetrySettings {
        specify_retries_failed_copies: Some(5),
        specify_wait_between_retries: Some(30),
        save_specifications: true,
        await_share_names_def: true,
    };
    assert_eq!(all.render(), vec!["/r:5", "/w:30", "/reg", "/tbd"]);
    assert_eq!(RetrySettings::default().render(), Vec::<String>::new());
}

#[test]
fn logging_settings_render() {
    let plain = LoggingSettings {
        log: "out.txt".to_string(),
        unicode: false,
        append: false,
    };
    assert_eq!(plain.render(), "/log:out.txt");
    let unicode_append = LoggingSettings {
        log: "log.txt".to_string(),
        unicode: true,
        append: true,
    };
    assert_eq!(unicode_append.render(), "/unilog+:log.txt");
}

#[test]
fn vocabulary_positions_of_single_flags() {
    assert_eq!(FileProperties::DATA.index_of(), Some(0));
    assert_eq!(FileProperties::AUDITING_INFO.index_of(), Some(5));
    assert_eq!(FileProperties::all().index_of(), None);
    assert_eq!(DirectoryProperties::TIME_STAMPS.index_of(), Some(2));
    assert_eq!(FileAttributes::READ_ONLY.index_of(), Some(0));
    assert_eq!(FileAttributes::TEMPORARY.index_of(), Some(7));
    assert_eq!(FileAttributes::none().index_of(), None);
    assert_eq!(
        PerformanceOptions::DONT_OFFLOAD(PerformanceChoice::Default).index_of(),
        Some(0)
    );
    assert_eq!(PerformanceOptions::Default.index_of(), None);
}

#[test]
fn performance_options_decompose_carries_the_choice() {
    let v = PerformanceOptions::COPY_RATHER_THAN_FOLLOW_LINK(PerformanceChoice::Threads(2))
        .combine(PerformanceOptions::DONT_OFFLOAD(PerformanceChoice::Threads(2)))
        .unwrap();
    assert_eq!(
        v.single_variants(),
        vec![
            PerformanceOptions::DONT_OFFLOAD(PerformanceChoice::Threads(2)),
            PerformanceOptions::COPY_RATHER_THAN_FOLLOW_LINK(PerformanceChoice::Threads(2))
        ]
    );
}

#[test]
fn zero_valued_numeric_payloads_render_one_digit() {
    assert_eq!(PerformanceChoice::Threads(0).render(), vec!["/MT:0"]);
    let r = RetrySettings {
        specify_retries_failed_copies: Some(0),
        specify_wait_between_retries: None,
        save_specifications: false,
        await_share_names_def: false,
    };
    assert_eq!(r.render(), vec!["/r:0"]);
}
