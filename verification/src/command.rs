//! The robocopy command object and its argument-vector rendering.
//!
//! A command holds one optional flag-set value per family plus a handful
//! of independent scalar fields.  `arguments` renders it into the exact
//! ordered token vector that the external tool expects; invoking the
//! tool itself and decoding its exit status are left to the caller.

use vstd::prelude::*;
use crate::actions::CopyMode;
use crate::actions::FilesystemOptions;
use crate::actions::Move;
use crate::actions::PostCopyActions;
use crate::decimal::dec;
use crate::decimal::dec_str;
use crate::filter::Filter;
use crate::logging::LoggingSettings;
use crate::performance::PerformanceOptions;
use crate::performance::RetrySettings;
use crate::properties::DirectoryProperties;
use crate::properties::FileProperties;
use crate::tokens::append_tokens;
use crate::tokens::push_token;

verus! {

/// A single robocopy invocation, described by structured option values.
#[derive(Debug, Clone)]
pub struct RobocopyCommand {
    pub source: String,
    pub destination: String,
    /// Explicit file patterns; wildcard characters are supported.
    pub files: Vec<String>,
    pub copy_mode: Option<CopyMode>,
    pub unbuffered: bool,
    pub empty_dir_copy: bool,
    pub remove_files_and_dirs_not_in_src: bool,
    pub only_copy_top_n_levels: Option<usize>,
    pub structure_and_size_zero_files_only: bool,
    pub copy_file_properties: Option<FileProperties>,
    pub copy_dir_properties: Option<DirectoryProperties>,
    pub filter: Option<Filter>,
    pub filesystem_options: Option<FilesystemOptions>,
    pub performance_options: Option<PerformanceOptions>,
    pub retry_settings: Option<RetrySettings>,
    pub logging: Option<LoggingSettings>,
    pub mv: Option<Move>,
    pub post_copy_actions: Option<PostCopyActions>,
    /// To use this option, `empty_dir_copy` and
    /// `remove_files_and_dirs_not_in_src` must also be in use: the three
    /// together render as the consolidated mirror token pair.
    pub overwrite_destination_dir_sec_settings_when_mirror: bool,
}

impl RobocopyCommand {
    /// The mode, buffering, recursion, purge, depth and structure-only
    /// tokens, in that order.  When empty-directory copy, removal of
    /// extraneous entries and security overwriting are all requested at
    /// once, the consolidated `/mir /e` pair replaces the individual
    /// recursion and purge tokens; otherwise recursion renders as `/e`
    /// or falls back to `/s`, and `/purge` renders independently.
    pub open spec fn spec_behavior_tokens(self) -> Seq<Seq<char>> {
        (match self.copy_mode {
            Some(m) => seq![m.spec_token()],
            None => Seq::<Seq<char>>::empty(),
        }) + (if self.unbuffered { seq!["/j"@] } else { Seq::<Seq<char>>::empty() }) + (if self.empty_dir_copy
            && self.remove_files_and_dirs_not_in_src
            && self.overwrite_destination_dir_sec_settings_when_mirror {
            seq!["/mir"@, "/e"@]
        } else {
            seq![if self.empty_dir_copy { "/e"@ } else { "/s"@ }] + (if self.remove_files_and_dirs_not_in_src {
                seq!["/purge"@]
            } else {
                Seq::<Seq<char>>::empty()
            })
        }) + (match self.only_copy_top_n_levels {
            Some(n) => seq!["/lev:"@ + dec(n as nat)],
            None => Seq::<Seq<char>>::empty(),
        }) + (if self.structure_and_size_zero_files_only {
            seq!["/create"@]
        } else {
            Seq::<Seq<char>>::empty()
        })
    }

    /// The file and directory property tokens.
    pub open spec fn spec_property_tokens(self) -> Seq<Seq<char>> {
        (match self.copy_file_properties {
            Some(p) => seq![p.spec_token()],
            None => Seq::<Seq<char>>::empty(),
        }) + (match self.copy_dir_properties {
            Some(p) => seq![p.spec_token()],
            None => Seq::<Seq<char>>::empty(),
        })
    }

    /// The filter, filesystem, performance and retry tokens, in that
    /// order.
    pub open spec fn spec_option_tokens(self) -> Seq<Seq<char>> {
        (match self.filter {
            Some(f) => f.spec_render(),
            None => Seq::<Seq<char>>::empty(),
        }) + (match self.filesystem_options {
            Some(f) => f.spec_render(),
            None => Seq::<Seq<char>>::empty(),
        }) + (match self.performance_options {
            Some(p) => p.spec_render(),
            None => Seq::<Seq<char>>::empty(),
        }) + (match self.retry_settings {
            Some(s) => s.spec_render(),
            None => Seq::<Seq<char>>::empty(),
        })
    }

    /// The logging, move and post-copy action tokens, in that order.
    pub open spec fn spec_tail_tokens(self) -> Seq<Seq<char>> {
        (match self.logging {
            Some(l) => seq![l.spec_token()],
            None => Seq::<Seq<char>>::empty(),
        }) + (match self.mv {
            Some(m) => seq![m.spec_token()],
            None => Seq::<Seq<char>>::empty(),
        }) + (match self.post_copy_actions {
            Some(a) => a.spec_render(),
            None => Seq::<Seq<char>>::empty(),
        })
    }

    /// The full argument vector: source, destination and explicit file
    /// patterns first, then every present family in the fixed global
    /// order.
    pub open spec fn spec_arguments(self) -> Seq<Seq<char>> {
        seq![self.source@, self.destination@] + self.files.deep_view()
            + self.spec_behavior_tokens() + self.spec_property_tokens()
            + self.spec_option_tokens() + self.spec_tail_tokens()
    }

    #[verifier::rlimit(100)]
    fn behavior_tokens(&self) -> (r: Vec<String>)
        ensures
            r.deep_view() == self.spec_behavior_tokens(),
    {
        let ghost p1 = match self.copy_mode {
            Some(m) => seq![m.spec_token()],
            None => Seq::<Seq<char>>::empty(),
        };
        let ghost p2 = if self.unbuffered { seq!["/j"@] } else { Seq::<Seq<char>>::empty() };
        let ghost p3 = if self.empty_dir_copy && self.remove_files_and_dirs_not_in_src
            && self.overwrite_destination_dir_sec_settings_when_mirror {
            seq!["/mir"@, "/e"@]
        } else {
            seq![if self.empty_dir_copy { "/e"@ } else { "/s"@ }] + (if self.remove_files_and_dirs_not_in_src {
                seq!["/purge"@]
            } else {
                Seq::<Seq<char>>::empty()
            })
        };
        let ghost p4 = match self.only_copy_top_n_levels {
            Some(n) => seq!["/lev:"@ + dec(n as nat)],
            None => Seq::<Seq<char>>::empty(),
        };
        let ghost p5 = if self.structure_and_size_zero_files_only {
            seq!["/create"@]
        } else {
            Seq::<Seq<char>>::empty()
        };
        let mut r: Vec<String> = Vec::new();
        if let Some(m) = &self.copy_mode {
            push_token(&mut r, m.render());
        }
        proof {
            assert(r.deep_view() =~= p1);
        }
        if self.unbuffered {
            push_token(&mut r, String::from_str("/j"));
        }
        proof {
            assert(r.deep_view() =~= p1 + p2);
        }
        if self.empty_dir_copy && self.remove_files_and_dirs_not_in_src
            && self.overwrite_destination_dir_sec_settings_when_mirror {
            push_token(&mut r, String::from_str("/mir"));
            push_token(&mut r, String::from_str("/e"));
        } else {
            if self.empty_dir_copy {
                push_token(&mut r, String::from_str("/e"));
            } else {
                push_token(&mut r, String::from_str("/s"));
            }
            if self.remove_files_and_dirs_not_in_src {
                push_token(&mut r, String::from_str("/purge"));
            }
        }
        proof {
            assert(r.deep_view() =~= p1 + p2 + p3);
        }
        if let Some(n) = self.only_copy_top_n_levels {
            let mut t = String::from_str("/lev:");
            let digits = dec_str(n as u128);
            t.append(digits.as_str());
            push_token(&mut r, t);
        }
        proof {
            assert(r.deep_view() =~= p1 + p2 + p3 + p4);
        }
        if self.structure_and_size_zero_files_only {
            push_token(&mut r, String::from_str("/create"));
        }
        proof {
            assert(r.deep_view() =~= p1 + p2 + p3 + p4 + p5);
            assert(r.deep_view() == self.spec_behavior_tokens());
        }
        r
    }

    fn property_tokens(&self) -> (r: Vec<String>)
        ensures
            r.deep_view() == self.spec_property_tokens(),
    {
        let ghost p1 = match self.copy_file_properties {
            Some(p) => seq![p.spec_token()],
            None => Seq::<Seq<char>>::empty(),
        };
        let ghost p2 = match self.copy_dir_properties {
            Some(p) => seq![p.spec_token()],
            None => Seq::<Seq<char>>::empty(),
        };
        let mut r: Vec<String> = Vec::new();
        if let Some(p) = &self.copy_file_properties {
            push_token(&mut r, p.render());
        }
        proof {
            assert(r.deep_view() =~= p1);
        }
        if let Some(p) = &self.copy_dir_properties {
            push_token(&mut r, p.render());
        }
        proof {
            assert(r.deep_view() =~= p1 + p2);
            assert(r.deep_view() == self.spec_property_tokens());
        }
        r
    }

    fn option_tokens(&self) -> (r: Vec<String>)
        ensures
            r.deep_view() == self.spec_option_tokens(),
    {
        let ghost p1 = match &self.filter {
            Some(f) => f.spec_render(),
            None => Seq::<Seq<char>>::empty(),
        };
        let ghost p2 = match self.filesystem_options {
            Some(f) => f.spec_render(),
            None => Seq::<Seq<char>>::empty(),
        };
        let ghost p3 = match self.performance_options {
            Some(p) => p.spec_render(),
            None => Seq::<Seq<char>>::empty(),
        };
        let ghost p4 = match self.retry_settings {
            Some(s) => s.spec_render(),
            None => Seq::<Seq<char>>::empty(),
        };
        let mut r: Vec<String> = Vec::new();
        if let Some(f) = &self.filter {
            append_tokens(&mut r, f.render());
        }
        proof {
            assert(r.deep_view() =~= p1);
        }
        if let Some(f) = &self.filesystem_options {
            append_tokens(&mut r, f.render());
        }
        proof {
            assert(r.deep_view() =~= p1 + p2);
        }
        if let Some(p) = &self.performance_options {
            append_tokens(&mut r, p.render());
        }
        proof {
            assert(r.deep_view() =~= p1 + p2 + p3);
        }
        if let Some(s) = &self.retry_settings {
            append_tokens(&mut r, s.render());
        }
        proof {
            assert(r.deep_view() =~= p1 + p2 + p3 + p4);
            assert(r.deep_view() == self.spec_option_tokens());
        }
        r
    }

    fn tail_tokens(&self) -> (r: Vec<String>)
        ensures
            r.deep_view() == self.spec_tail_tokens(),
    {
        let ghost p1 = match &self.logging {
            Some(l) => seq![l.spec_token()],
            None => Seq::<Seq<char>>::empty(),
        };
        let ghost p2 = match self.mv {
            Some(m) => seq![m.spec_token()],
            None => Seq::<Seq<char>>::empty(),
        };
        let ghost p3 = match self.post_copy_actions {
            Some(a) => a.spec_render(),
            None => Seq::<Seq<char>>::empty(),
        };
        let mut r: Vec<String> = Vec::new();
        if let Some(l) = &self.logging {
            push_token(&mut r, l.render());
        }
        proof {
            assert(r.deep_view() =~= p1);
        }
        if let Some(m) = &self.mv {
            push_token(&mut r, m.render());
        }
        proof {
            assert(r.deep_view() =~= p1 + p2);
        }
        if let Some(a) = &self.post_copy_actions {
            append_tokens(&mut r, a.render());
        }
        proof {
            assert(r.deep_view() =~= p1 + p2 + p3);
            assert(r.deep_view() == self.spec_tail_tokens());
        }
        r
    }

    /// Render this command into the exact ordered argument vector that
    /// robocopy expects.
    pub fn arguments(&self) -> (r: Vec<String>)
        ensures
            r.deep_view() == self.spec_arguments(),
    {
        let mut r: Vec<String> = Vec::new();
        push_token(&mut r, self.source.clone());
        push_token(&mut r, self.destination.clone());
        proof {
            assert(r.deep_view() =~= seq![self.source@, self.destination@]);
        }
        let mut i: usize = 0;
        while i < self.files.len()
            invariant
                i <= self.files.len(),
                r.deep_view() == seq![self.source@, self.destination@]
                    + self.files.deep_view().take(i as int),
            decreases self.files.len() - i,
        {
            push_token(&mut r, self.files[i].clone());
            i += 1;
            proof {
                assert(r.deep_view() =~= seq![self.source@, self.destination@]
                    + self.files.deep_view().take(i as int));
            }
        }
        proof {
            assert(self.files.deep_view().take(self.files.len() as int)
                =~= self.files.deep_view());
        }
        let behavior = self.behavior_tokens();
        append_tokens(&mut r, behavior);
        let properties = self.property_tokens();
        append_tokens(&mut r, properties);
        let options = self.option_tokens();
        append_tokens(&mut r, options);
        let tail = self.tail_tokens();
        append_tokens(&mut r, tail);
        proof {
            assert(r.deep_view() == self.spec_arguments());
        }
        r
    }
}

impl Default for RobocopyCommand {
    /// The command that copies the current directory onto itself with
    /// every option left to the tool's own defaults.
    fn default() -> (r: RobocopyCommand)
        ensures
            r.source@ == "."@,
            r.destination@ == "."@,
            r.files.deep_view() == Seq::<Seq<char>>::empty(),
            r.copy_mode is None,
            !r.unbuffered,
            !r.empty_dir_copy,
            !r.remove_files_and_dirs_not_in_src,
            r.only_copy_top_n_levels is None,
            !r.structure_and_size_zero_files_only,
            r.copy_file_properties is None,
            r.copy_dir_properties is None,
            r.filter is None,
            r.filesystem_options is None,
            r.performance_options is None,
            r.retry_settings is None,
            r.logging is None,
            r.mv is None,
            r.post_copy_actions is None,
            !r.overwrite_destination_dir_sec_settings_when_mirror,
    {
        let r = RobocopyCommand {
            source: String::from_str("."),
            destination: String::from_str("."),
            files: Vec::new(),
            copy_mode: None,
            unbuffered: false,
            empty_dir_copy: false,
            remove_files_and_dirs_not_in_src: false,
            only_copy_top_n_levels: None,
            structure_and_size_zero_files_only: false,
            copy_file_properties: None,
            copy_dir_properties: None,
            filter: None,
            filesystem_options: None,
            performance_options: None,
            retry_settings: None,
            logging: None,
            mv: None,
            post_copy_actions: None,
            overwrite_destination_dir_sec_settings_when_mirror: false,
        };
        proof {
            assert(r.files.deep_view() =~= Seq::<Seq<char>>::empty());
        }
        r
    }
}

} // verus!
