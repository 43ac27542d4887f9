use robocopyrs::exit_codes::{ErrExitCode, OkExitCode};

#[test]
fn classify_success_codes() {
    assert_eq!(OkExitCode::try_from(0), Ok(OkExitCode::NO_CHANGE));
    assert_eq!(OkExitCode::try_from(1), Ok(OkExitCode::SOME_COPIES));
    assert_eq!(OkExitCode::try_from(2), Ok(OkExitCode::EXTRA_FOUND));
    assert_eq!(OkExitCode::try_from(3), Ok(OkExitCode::SOME_COPIES_EXTRA_FOUND));
    assert_eq!(OkExitCode::try_from(4), Ok(OkExitCode::MISMATCHES));
    assert_eq!(OkExitCode::try_from(5), Ok(OkExitCode::SOME_COPIES_MISMATCHES));
    assert_eq!(OkExitCode::try_from(6), Ok(OkExitCode::MISMATCHES_EXTRA_FOUND));
    assert_eq!(
        OkExitCode::try_from(7),
        Ok(OkExitCode::SOME_COPIES_MISMATCHES_EXTRA_FOUND)
    );
}

#[test]
fn classify_failure_codes() {
    assert_eq!(OkExitCode::try_from(8), Err(Ok(ErrExitCode::FAIL)));
    assert_eq!(OkExitCode::try_from(9), Err(Ok(ErrExitCode::SOME_COPIES_FAIL)));
    assert_eq!(OkExitCode::try_from(10), Err(Ok(ErrExitCode::FAIL_EXTRA_FOUND)));
    assert_eq!(
        OkExitCode::try_from(11),
        Err(Ok(ErrExitCode::SOME_COPIES_FAIL_EXTRA_FOUND))
    );
    assert_eq!(OkExitCode::try_from(12), Err(Ok(ErrExitCode::FAIL_MISMATCHES)));
    assert_eq!(
        OkExitCode::try_from(13),
        Err(Ok(ErrExitCode::SOME_COPIES_FAIL_MISMATCHES))
    );
    assert_eq!(
        OkExitCode::try_from(14),
        Err(Ok(ErrExitCode::FAIL_MISMATCHES_EXTRA_FOUND))
    );
    assert_eq!(
        OkExitCode::try_from(15),
        Err(Ok(ErrExitCode::SOME_COPIES_FAIL_MISMATCHES_EXTRA_FOUND))
    );
    assert_eq!(OkExitCode::try_from(16), Err(Ok(ErrExitCode::NO_CHANGE_FATAL_ERROR)));
}

#[test]
fn classify_unrecognized_codes() {
    assert_eq!(OkExitCode::try_from(-1), Err(Err(("Invalid exit code", -1))));
    assert_eq!(OkExitCode::try_from(17), Err(Err(("Invalid exit code", 17))));
    assert_eq!(OkExitCode::try_from(127), Err(Err(("Invalid exit code", 127))));
    assert_eq!(OkExitCode::try_from(-128), Err(Err(("Invalid exit code", -128))));
}

#[test]
fn classify_outcomes_are_distinct() {
    let outcomes: Vec<_> = (0i8..=16).map(OkExitCode::try_from).collect();
    for (i, a) in outcomes.iter().enumerate() {
        assert!(!matches!(a, Err(Err(_))));
        for (j, b) in outcomes.iter().enumerate() {
            if i != j {
                assert_ne!(a, b);
            }
        }
    }
}

#[test]
fn classify_code_five_and_thirteen() {
    assert_eq!(OkExitCode::try_from(5), Ok(OkExitCode::SOME_COPIES_MISMATCHES));
    assert_eq!(
        OkExitCode::try_from(13),
        Err(Ok(ErrExitCode::SOME_COPIES_FAIL_MISMATCHES))
    );
}
