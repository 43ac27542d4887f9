use robocopyrs::filter::{
    DirectoryExclusionFilter, FileAndDirectoryExclusionFilter, FileExclusionFilter,
    FileExclusionFilterException, Filter,
};
use robocopyrs::{FileAttributes, MultipleVariant};

#[test]
fn attribute_filter_with_older_renders_in_fixed_order() {
    let combined = FileExclusionFilter::Attributes(FileAttributes::READ_ONLY)
        .combine(FileExclusionFilter::OLDER);
    assert_eq!(combined.render(), vec!["/xa:R", "/xo"]);
}

#[test]
fn file_exclusion_single_tokens() {
    assert_eq!(FileExclusionFilter::CHANGED.render(), vec!["/xc"]);
    assert_eq!(FileExclusionFilter::OLDER.render(), vec!["/xo"]);
    assert_eq!(FileExclusionFilter::NEWER.render(), vec!["/xn"]);
    assert_eq!(FileExclusionFilter::JUNCTION_POINTS.render(), vec!["/xjf"]);
    assert_eq!(
        FileExclusionFilter::Attributes(FileAttributes::all()).render(),
        vec!["/xa:RASHCNET"]
    );
}

#[test]
fn file_exclusion_path_lists_concatenate() {
    let a = FileExclusionFilter::PathOrName(vec!["a.tmp".to_string(), "b.tmp".to_string()]);
    let b = FileExclusionFilter::PathOrName(vec!["c.tmp".to_string()]);
    let combined = a.combine(b);
    assert_eq!(combined.render(), vec!["/xf", "a.tmp", "b.tmp", "c.tmp"]);
}

#[test]
fn file_exclusion_full_combination_renders_every_part() {
    let combined = FileExclusionFilter::NEWER
        .combine(FileExclusionFilter::Attributes(FileAttributes::SYSTEM))
        .combine(FileExclusionFilter::PathOrName(vec!["tmp".to_string()]))
        .combine(FileExclusionFilter::CHANGED);
    assert_eq!(combined.render(), vec!["/xa:S", "/xf", "tmp", "/xc", "/xn"]);
}

#[test]
fn file_exclusion_attribute_payloads_merge() {
    let a = FileExclusionFilter::Attributes(FileAttributes::READ_ONLY);
    let b = FileExclusionFilter::Attributes(FileAttributes::HIDDEN);
    assert_eq!(a.combine(b).render(), vec!["/xa:RH"]);
}

#[test]
fn file_exclusion_decompose_matches_render() {
    let combined = FileExclusionFilter::OLDER
        .combine(FileExclusionFilter::Attributes(FileAttributes::READ_ONLY))
        .combine(FileExclusionFilter::PathOrName(vec!["x".to_string()]));
    let singles = combined.single_variants();
    let mut tokens: Vec<String> = Vec::new();
    for s in &singles {
        tokens.extend(s.render());
    }
    assert_eq!(tokens, combined.render());
}

#[test]
fn directory_exclusion_combine_and_render() {
    let paths = DirectoryExclusionFilter::PathOrName(vec!["node_modules".to_string()]);
    assert_eq!(paths.render(), vec!["/xd", "node_modules"]);
    assert_eq!(DirectoryExclusionFilter::JUNCTION_POINTS.render(), vec!["/xjd"]);
    let both = paths.combine(DirectoryExclusionFilter::JUNCTION_POINTS);
    assert_eq!(both.render(), vec!["/xjd", "/xd", "node_modules"]);
}

#[test]
fn directory_exclusion_junction_survives_combination() {
    let both = DirectoryExclusionFilter::JUNCTION_POINTS
        .combine(DirectoryExclusionFilter::PathOrName(vec!["a".to_string()]))
        .combine(DirectoryExclusionFilter::PathOrName(vec!["b".to_string()]));
    assert_eq!(both.render(), vec!["/xjd", "/xd", "a", "b"]);
}

#[test]
fn directory_exclusion_decompose_matches_render() {
    let both = DirectoryExclusionFilter::PathOrName(vec!["a".to_string()])
        .combine(DirectoryExclusionFilter::JUNCTION_POINTS);
    let singles = both.single_variants();
    let mut tokens: Vec<String> = Vec::new();
    for s in &singles {
        tokens.extend(s.render());
    }
    assert_eq!(tokens, both.render());
}

#[test]
fn file_and_directory_exclusion_combine_and_render() {
    let v = FileAndDirectoryExclusionFilter::JUNCTION_POINTS
        .combine(FileAndDirectoryExclusionFilter::EXTRA);
    assert_eq!(v.render(), vec!["/xx", "/xj"]);
    assert_eq!(
        v.single_variants(),
        vec![
            FileAndDirectoryExclusionFilter::EXTRA,
            FileAndDirectoryExclusionFilter::JUNCTION_POINTS
        ]
    );
    assert_eq!(FileAndDirectoryExclusionFilter::LONELY.render(), vec!["/xl"]);
}

#[test]
fn exclusion_exceptions_combine_and_render() {
    let v = FileExclusionFilterException::TWEAKED
        .combine(FileExclusionFilterException::MODIFIED);
    assert_eq!(v.render(), vec!["/im", "/it"]);
    assert_eq!(FileExclusionFilterException::SAME.render(), vec!["/is"]);
}

#[test]
fn filter_renders_all_parts_in_order() {
    let filter = Filter {
        handle_archive_and_reset: true,
        include_only_files_with_any_of_these_attribs: Some(FileAttributes::ARCHIVE),
        file_exclusion_filter: Some(FileExclusionFilter::CHANGED),
        directory_exclusion_filter: Some(DirectoryExclusionFilter::JUNCTION_POINTS),
        file_and_directory_exclusion_filter: Some(FileAndDirectoryExclusionFilter::LONELY),
        file_exclusion_filter_exceptions: Some(FileExclusionFilterException::SAME),
        max_size: Some(1000),
        min_size: Some(2),
        max_age: Some("20250101".to_string()),
        min_age: Some("5".to_string()),
        max_last_access_date: Some("20240101".to_string()),
        min_last_access_date: Some("10".to_string()),
    };
    assert_eq!(
        filter.render(),
        vec![
            "/m", "/ia:A", "/xc", "/xjd", "/xl", "/is", "/max:1000", "/min:2",
            "/maxage:20250101", "/minage:5", "/maxlad:20240101", "/minlad:10"
        ]
    );
}

#[test]
fn empty_filter_renders_no_tokens() {
    assert_eq!(Filter::default().render(), Vec::<String>::new());
}

#[test]
fn exclusion_flag_positions_follow_the_vocabulary() {
    assert_eq!(FileExclusionFilter::CHANGED.index_of(), Some(0));
    assert_eq!(FileExclusionFilter::OLDER.index_of(), Some(1));
    assert_eq!(FileExclusionFilter::NEWER.index_of(), Some(2));
    assert_eq!(FileExclusionFilter::JUNCTION_POINTS.index_of(), Some(3));
    assert_eq!(
        FileExclusionFilter::Attributes(FileAttributes::READ_ONLY).index_of(),
        None
    );
    assert_eq!(FileAndDirectoryExclusionFilter::JUNCTION_POINTS.index_of(), Some(2));
    assert_eq!(FileExclusionFilterException::TWEAKED.index_of(), Some(2));
}

#[test]
fn empty_path_lists_render_the_bare_flag_token() {
    assert_eq!(FileExclusionFilter::PathOrName(Vec::new()).render(), vec!["/xf"]);
    assert_eq!(DirectoryExclusionFilter::PathOrName(Vec::new()).render(), vec!["/xd"]);
}

#[test]
fn combining_away_an_empty_path_list_drops_its_token() {
    let combined = FileExclusionFilter::PathOrName(Vec::new())
        .combine(FileExclusionFilter::CHANGED);
    assert_eq!(combined.render(), vec!["/xc"]);
}
