//! Classification of the numeric exit status of `robocopy`.
//!
//! The raw status is a small signed integer.  Codes `0..=7` are success
//! codes: a three-bit field whose bits mean "some files were copied",
//! "extra files were found in the destination" and "mismatches were
//! detected".  Codes `8..=15` are the same three-bit field with the
//! "a failure occurred" bit added, and code `16` is the single outcome
//! "no changes were made and a fatal error occurred".  Anything outside
//! `0..=16` is unclassifiable and is reported together with the raw code.

use vstd::prelude::*;

verus! {

/// Success exit codes (no failure bit set).
#[derive(Debug, Clone, Copy, PartialEq, Eq, Structural)]
pub enum OkExitCode {
    NO_CHANGE,
    SOME_COPIES,
    EXTRA_FOUND,
    SOME_COPIES_EXTRA_FOUND,
    MISMATCHES,
    SOME_COPIES_MISMATCHES,
    MISMATCHES_EXTRA_FOUND,
    SOME_COPIES_MISMATCHES_EXTRA_FOUND,
}

/// Exit codes that include a failure.
#[derive(Debug, Clone, Copy, PartialEq, Eq, Structural)]
pub enum ErrExitCode {
    FAIL,
    SOME_COPIES_FAIL,
    FAIL_EXTRA_FOUND,
    SOME_COPIES_FAIL_EXTRA_FOUND,
    FAIL_MISMATCHES,
    SOME_COPIES_FAIL_MISMATCHES,
    FAIL_MISMATCHES_EXTRA_FOUND,
    SOME_COPIES_FAIL_MISMATCHES_EXTRA_FOUND,
    NO_CHANGE_FATAL_ERROR,
}

impl OkExitCode {
    /// The raw exit code this outcome stands for.
    pub open spec fn code(self) -> int {
        match self {
            OkExitCode::NO_CHANGE => 0,
            OkExitCode::SOME_COPIES => 1,
            OkExitCode::EXTRA_FOUND => 2,
            OkExitCode::SOME_COPIES_EXTRA_FOUND => 3,
            OkExitCode::MISMATCHES => 4,
            OkExitCode::SOME_COPIES_MISMATCHES => 5,
            OkExitCode::MISMATCHES_EXTRA_FOUND => 6,
            OkExitCode::SOME_COPIES_MISMATCHES_EXTRA_FOUND => 7,
        }
    }

    /// Bit 0 of the raw code: some files were copied.
    pub open spec fn some_copies(self) -> bool {
        self.code() % 2 == 1
    }

    /// Bit 1 of the raw code: extra files were found in the destination.
    pub open spec fn extra_found(self) -> bool {
        (self.code() / 2) % 2 == 1
    }

    /// Bit 2 of the raw code: mismatches were detected.
    pub open spec fn mismatches(self) -> bool {
        (self.code() / 4) % 2 == 1
    }
}

impl ErrExitCode {
    /// The raw exit code this outcome stands for.
    pub open spec fn code(self) -> int {
        match self {
            ErrExitCode::FAIL => 8,
            ErrExitCode::SOME_COPIES_FAIL => 9,
            ErrExitCode::FAIL_EXTRA_FOUND => 10,
            ErrExitCode::SOME_COPIES_FAIL_EXTRA_FOUND => 11,
            ErrExitCode::FAIL_MISMATCHES => 12,
            ErrExitCode::SOME_COPIES_FAIL_MISMATCHES => 13,
            ErrExitCode::FAIL_MISMATCHES_EXTRA_FOUND => 14,
            ErrExitCode::SOME_COPIES_FAIL_MISMATCHES_EXTRA_FOUND => 15,
            ErrExitCode::NO_CHANGE_FATAL_ERROR => 16,
        }
    }

    /// Bit 0 of the raw code: some files were copied.
    pub open spec fn some_copies(self) -> bool {
        self.code() != 16 && self.code() % 2 == 1
    }

    /// Bit 1 of the raw code: extra files were found in the destination.
    pub open spec fn extra_found(self) -> bool {
        self.code() != 16 && (self.code() / 2) % 2 == 1
    }

    /// Bit 2 of the raw code: mismatches were detected.
    pub open spec fn mismatches(self) -> bool {
        self.code() != 16 && (self.code() / 4) % 2 == 1
    }
}

/// The outcome of classifying one raw exit code: either a success
/// outcome, or a failure outcome, or — for a code outside `0..=16` — a
/// diagnostic message together with the offending code.
pub open spec fn spec_classify(n: i8) -> Result<OkExitCode, Result<ErrExitCode, (&'static str, i8)>> {
    if n == 0 {
        Ok(OkExitCode::NO_CHANGE)
    } else if n == 1 {
        Ok(OkExitCode::SOME_COPIES)
    } else if n == 2 {
        Ok(OkExitCode::EXTRA_FOUND)
    } else if n == 3 {
        Ok(OkExitCode::SOME_COPIES_EXTRA_FOUND)
    } else if n == 4 {
        Ok(OkExitCode::MISMATCHES)
    } else if n == 5 {
        Ok(OkExitCode::SOME_COPIES_MISMATCHES)
    } else if n == 6 {
        Ok(OkExitCode::MISMATCHES_EXTRA_FOUND)
    } else if n == 7 {
        Ok(OkExitCode::SOME_COPIES_MISMATCHES_EXTRA_FOUND)
    } else if n == 8 {
        Err(Ok(ErrExitCode::FAIL))
    } else if n == 9 {
        Err(Ok(ErrExitCode::SOME_COPIES_FAIL))
    } else if n == 10 {
        Err(Ok(ErrExitCode::FAIL_EXTRA_FOUND))
    } else if n == 11 {
        Err(Ok(ErrExitCode::SOME_COPIES_FAIL_EXTRA_FOUND))
    } else if n == 12 {
        Err(Ok(ErrExitCode::FAIL_MISMATCHES))
    } else if n == 13 {
        Err(Ok(ErrExitCode::SOME_COPIES_FAIL_MISMATCHES))
    } else if n == 14 {
        Err(Ok(ErrExitCode::FAIL_MISMATCHES_EXTRA_FOUND))
    } else if n == 15 {
        Err(Ok(ErrExitCode::SOME_COPIES_FAIL_MISMATCHES_EXTRA_FOUND))
    } else if n == 16 {
        Err(Ok(ErrExitCode::NO_CHANGE_FATAL_ERROR))
    } else {
        Err(Err(("Invalid exit code", n)))
    }
}

impl OkExitCode {
    /// Decode a raw exit status into a structured outcome.
    ///
    /// Success codes `0..=7` yield the success outcome with exactly that
    /// code; failure codes `8..=16` yield the failure outcome with exactly
    /// that code; every other code yields the unclassifiable error
    /// carrying a diagnostic message and the code itself.
    pub fn try_from(n: i8) -> (r: Result<OkExitCode, Result<ErrExitCode, (&'static str, i8)>>)
        ensures
            r == spec_classify(n),
            0 <= n < 8 ==> (r matches Ok(ok) && ok.code() == n),
            8 <= n <= 16 ==> (r matches Err(Ok(e)) && e.code() == n),
            n < 0 || n > 16 ==> (r matches Err(Err((m, c))) && m@ == "Invalid exit code"@ && c == n),
    {
        if 0 <= n && n < 8 {
            Ok(
                match n {
                    0 => OkExitCode::NO_CHANGE,
                    1 => OkExitCode::SOME_COPIES,
                    2 => OkExitCode::EXTRA_FOUND,
                    3 => OkExitCode::SOME_COPIES_EXTRA_FOUND,
                    4 => OkExitCode::MISMATCHES,
                    5 => OkExitCode::SOME_COPIES_MISMATCHES,
                    6 => OkExitCode::MISMATCHES_EXTRA_FOUND,
                    _ => OkExitCode::SOME_COPIES_MISMATCHES_EXTRA_FOUND,
                },
            )
        } else {
            Err(
                match n {
                    8 => Ok(ErrExitCode::FAIL),
                    9 => Ok(ErrExitCode::SOME_COPIES_FAIL),
                    10 => Ok(ErrExitCode::FAIL_EXTRA_FOUND),
                    11 => Ok(ErrExitCode::SOME_COPIES_FAIL_EXTRA_FOUND),
                    12 => Ok(ErrExitCode::FAIL_MISMATCHES),
                    13 => Ok(ErrExitCode::SOME_COPIES_FAIL_MISMATCHES),
                    14 => Ok(ErrExitCode::FAIL_MISMATCHES_EXTRA_FOUND),
                    15 => Ok(ErrExitCode::SOME_COPIES_FAIL_MISMATCHES_EXTRA_FOUND),
                    16 => Ok(ErrExitCode::NO_CHANGE_FATAL_ERROR),
                    c => Err(("Invalid exit code", c)),
                },
            )
        }
    }
}

/// Classifier totality and distinctness: every code in `0..=16` maps to a
/// named outcome, no two such codes share an outcome, and every code
/// outside `0..=16` maps to the unclassifiable error carrying that code.
pub proof fn lemma_classify_total_and_distinct(m: i8, n: i8)
    ensures
        0 <= m <= 16 ==> !(spec_classify(m) matches Err(Err(_))),
        m < 0 || m > 16 ==> (spec_classify(m) matches Err(Err((_, c))) && c == m),
        0 <= m <= 16 && 0 <= n <= 16 && m != n ==> spec_classify(m) != spec_classify(n),
{
}

/// The success outcomes decode the raw code as a bit field: bit 0 is
/// "some files copied", bit 1 is "extra files found", bit 2 is
/// "mismatches detected"; the failure outcomes below `16` add bit 3.
pub proof fn lemma_code_bits(ok: OkExitCode, err: ErrExitCode)
    ensures
        ok.code() == (if ok.some_copies() { 1int } else { 0int })
            + (if ok.extra_found() { 2int } else { 0int })
            + (if ok.mismatches() { 4int } else { 0int }),
        err.code() != 16 ==> err.code() == 8int
            + (if err.some_copies() { 1int } else { 0int })
            + (if err.extra_found() { 2int } else { 0int })
            + (if err.mismatches() { 4int } else { 0int }),
{
}

} // verus!
