//! A typed builder for the Windows `robocopy` command line.
//!
//! Callers describe the desired behaviour of a copy operation with
//! structured option values (property sets, attribute sets, exclusion
//! filters, performance choices, retry and logging settings).  Options of
//! the same family can be merged with `combine`, decomposed back into
//! single flags with `single_variants`, and rendered deterministically
//! into the exact token sequence that `robocopy` expects.  The numeric
//! exit status of the tool is decoded into a structured outcome by
//! `OkExitCode::try_from`.
//!
//! Every rendering and combination function carries a contract that pins
//! its result down exactly; the algebraic laws of `combine` (commutativity
//! and associativity of presence, identity elements) are stated and proved
//! alongside the types they speak about.

#![allow(non_camel_case_types)]

pub mod actions;
pub mod attributes;
pub mod command;
pub mod decimal;
pub mod exit_codes;
pub mod filter;
pub mod logging;
pub mod performance;
pub mod properties;
pub mod tokens;

pub use actions::CopyMode;
pub use actions::FilesystemFlagSet;
pub use actions::FilesystemOptions;
pub use actions::Move;
pub use actions::PostCopyActions;
pub use attributes::FileAttributeSet;
pub use attributes::FileAttributes;
pub use command::RobocopyCommand;
pub use properties::DirectoryProperties;
pub use properties::DirectoryPropertySet;
pub use properties::FileProperties;
pub use properties::FilePropertySet;

use vstd::prelude::*;

verus! {

/// For enums that allow for multiple variants to be joined into a single
/// combined variant: decomposes a value back into its single flags.
pub trait MultipleVariant: Sized {
    /// What it means for `s` to be the canonical decomposition of `self`
    /// into single flags, in the family's fixed vocabulary order.
    spec fn is_decomposition(&self, s: Seq<Self>) -> bool;

    /// Get each single variant contained in a (possibly combined) value.
    fn single_variants(&self) -> (r: Vec<Self>)
        ensures
            self.is_decomposition(r@),
    ;
}

} // verus!
