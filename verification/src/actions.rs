//! Copy mode, move mode, filesystem options and post-copy actions.

use vstd::prelude::*;
use vstd::seq_lib::lemma_flatten_concat;
use crate::MultipleVariant;
use crate::attributes::FileAttributes;
use crate::tokens::push_token;

verus! {

/// How the tool copies files: restartable mode, backup mode, or
/// restartable mode with a fallback to backup mode.
#[derive(Debug, Clone, Copy, PartialEq, Eq, Structural)]
pub enum CopyMode {
    RESTARTABLE_MODE,
    BACKUP_MODE,
    RESTARTABLE_MODE_BACKUP_MODE_FALLBACK,
}

impl CopyMode {
    /// The one token this mode renders as.
    pub open spec fn spec_token(self) -> Seq<char> {
        match self {
            CopyMode::RESTARTABLE_MODE => "/z"@,
            CopyMode::BACKUP_MODE => "/b"@,
            CopyMode::RESTARTABLE_MODE_BACKUP_MODE_FALLBACK => "/zb"@,
        }
    }

    /// Render this mode as its token.
    pub fn render(&self) -> (r: String)
        ensures
            r@ == self.spec_token(),
    {
        match self {
            CopyMode::RESTARTABLE_MODE => String::from_str("/z"),
            CopyMode::BACKUP_MODE => String::from_str("/b"),
            CopyMode::RESTARTABLE_MODE_BACKUP_MODE_FALLBACK => String::from_str("/zb"),
        }
    }
}

/// Whether to move (copy, then delete from the source) files only, or
/// files and directories.
#[derive(Debug, Clone, Copy, PartialEq, Eq, Structural)]
pub enum Move {
    FILES,
    FILES_AND_DIRS,
}

impl Move {
    /// The one token this move mode renders as.
    pub open spec fn spec_token(self) -> Seq<char> {
        match self {
            Move::FILES => "/mov"@,
            Move::FILES_AND_DIRS => "/move"@,
        }
    }

    /// Render this move mode as its token.
    pub fn render(&self) -> (r: String)
        ensures
            r@ == self.spec_token(),
    {
        match self {
            Move::FILES => String::from_str("/mov"),
            Move::FILES_AND_DIRS => String::from_str("/move"),
        }
    }
}

/// Which filesystem options of the fixed vocabulary are present in a
/// combined value.
#[derive(Debug, Clone, Copy, PartialEq, Eq, Structural)]
#[verifier::ext_equal]
pub struct FilesystemFlagSet {
    pub fat_file_names: bool,
    pub assume_fat_file_times: bool,
    pub disable_long_paths: bool,
}

impl FilesystemFlagSet {
    /// The set with no filesystem option present.
    pub open spec fn empty_set() -> FilesystemFlagSet {
        FilesystemFlagSet {
            fat_file_names: false,
            assume_fat_file_times: false,
            disable_long_paths: false,
        }
    }

    /// The union of two filesystem option sets.
    pub open spec fn spec_merge(self, other: FilesystemFlagSet) -> FilesystemFlagSet {
        FilesystemFlagSet {
            fat_file_names: self.fat_file_names || other.fat_file_names,
            assume_fat_file_times: self.assume_fat_file_times || other.assume_fat_file_times,
            disable_long_paths: self.disable_long_paths || other.disable_long_paths,
        }
    }

    /// Union two filesystem option sets.
    pub fn merge(self, other: FilesystemFlagSet) -> (r: FilesystemFlagSet)
        ensures
            r == self.spec_merge(other),
    {
        FilesystemFlagSet {
            fat_file_names: self.fat_file_names || other.fat_file_names,
            assume_fat_file_times: self.assume_fat_file_times || other.assume_fat_file_times,
            disable_long_paths: self.disable_long_paths || other.disable_long_paths,
        }
    }

    /// The tokens of the present options, in the fixed vocabulary order
    /// `/fat`, `/fft`, `/256`.
    pub open spec fn tokens(self) -> Seq<Seq<char>> {
        (if self.fat_file_names { seq!["/fat"@] } else { Seq::<Seq<char>>::empty() })
            + (if self.assume_fat_file_times { seq!["/fft"@] } else { Seq::<Seq<char>>::empty() })
            + (if self.disable_long_paths { seq!["/256"@] } else { Seq::<Seq<char>>::empty() })
    }
}

/// Options for filesystem compatibility: 8.3 FAT file names, FAT file
/// time granularity, and disabling very long path support.
#[derive(Debug, Clone, Copy, PartialEq, Eq, Structural)]
pub enum FilesystemOptions {
    FAT_FILE_NAMES,
    ASSUME_FAT_FILE_TIMES,
    DISABLE_LONG_PATHS,
    _MULTIPLE(FilesystemFlagSet),
}

impl FilesystemOptions {
    /// The set of filesystem options this value stands for.
    pub open spec fn spec_set(self) -> FilesystemFlagSet {
        match self {
            FilesystemOptions::FAT_FILE_NAMES => FilesystemFlagSet {
                fat_file_names: true,
                ..FilesystemFlagSet::empty_set()
            },
            FilesystemOptions::ASSUME_FAT_FILE_TIMES => FilesystemFlagSet {
                assume_fat_file_times: true,
                ..FilesystemFlagSet::empty_set()
            },
            FilesystemOptions::DISABLE_LONG_PATHS => FilesystemFlagSet {
                disable_long_paths: true,
                ..FilesystemFlagSet::empty_set()
            },
            FilesystemOptions::_MULTIPLE(t) => t,
        }
    }

    /// The set of filesystem options this value stands for.
    pub fn to_set(&self) -> (r: FilesystemFlagSet)
        ensures
            r == self.spec_set(),
    {
        let none = FilesystemFlagSet {
            fat_file_names: false,
            assume_fat_file_times: false,
            disable_long_paths: false,
        };
        match self {
            FilesystemOptions::FAT_FILE_NAMES => FilesystemFlagSet { fat_file_names: true, ..none },
            FilesystemOptions::ASSUME_FAT_FILE_TIMES => FilesystemFlagSet {
                assume_fat_file_times: true,
                ..none
            },
            FilesystemOptions::DISABLE_LONG_PATHS => FilesystemFlagSet {
                disable_long_paths: true,
                ..none
            },
            FilesystemOptions::_MULTIPLE(t) => *t,
        }
    }

    /// The combined value that merging two filesystem option values
    /// yields.
    pub open spec fn spec_combine(a: FilesystemOptions, b: FilesystemOptions) -> FilesystemOptions {
        FilesystemOptions::_MULTIPLE(a.spec_set().spec_merge(b.spec_set()))
    }

    /// Merge two filesystem option values into one combined value whose
    /// presence set is the union of the operands'.
    pub fn combine(self, rhs: FilesystemOptions) -> (r: FilesystemOptions)
        ensures
            r == FilesystemOptions::spec_combine(self, rhs),
    {
        FilesystemOptions::_MULTIPLE(self.to_set().merge(rhs.to_set()))
    }

    /// The single options present in `t`, in vocabulary order.
    pub open spec fn singles_of_set(t: FilesystemFlagSet) -> Seq<FilesystemOptions> {
        (if t.fat_file_names { seq![FilesystemOptions::FAT_FILE_NAMES] } else { Seq::<FilesystemOptions>::empty() })
            + (if t.assume_fat_file_times { seq![FilesystemOptions::ASSUME_FAT_FILE_TIMES] } else { Seq::<FilesystemOptions>::empty() })
            + (if t.disable_long_paths { seq![FilesystemOptions::DISABLE_LONG_PATHS] } else { Seq::<FilesystemOptions>::empty() })
    }

    /// The canonical decomposition of this value into single options.
    pub open spec fn spec_singles(self) -> Seq<FilesystemOptions> {
        match self {
            FilesystemOptions::_MULTIPLE(t) => FilesystemOptions::singles_of_set(t),
            _ => seq![self],
        }
    }

    /// The tokens this value renders as: one per present option, in
    /// vocabulary order.
    pub open spec fn spec_render(self) -> Seq<Seq<char>> {
        self.spec_set().tokens()
    }

    /// Render this value as its token list.
    pub fn render(&self) -> (r: Vec<String>)
        ensures
            r.deep_view() == self.spec_render(),
    {
        let t = self.to_set();
        let ghost p1 = if t.fat_file_names { seq!["/fat"@] } else { Seq::<Seq<char>>::empty() };
        let ghost p2 = if t.assume_fat_file_times { seq!["/fft"@] } else { Seq::<Seq<char>>::empty() };
        let ghost p3 = if t.disable_long_paths { seq!["/256"@] } else { Seq::<Seq<char>>::empty() };
        let mut r: Vec<String> = Vec::new();
        if t.fat_file_names {
            push_token(&mut r, String::from_str("/fat"));
        }
        proof {
            assert(r.deep_view() =~= p1);
        }
        if t.assume_fat_file_times {
            push_token(&mut r, String::from_str("/fft"));
        }
        proof {
            assert(r.deep_view() =~= p1 + p2);
        }
        if t.disable_long_paths {
            push_token(&mut r, String::from_str("/256"));
        }
        proof {
            assert(r.deep_view() =~= p1 + p2 + p3);
            assert(r.deep_view() == self.spec_render());
        }
        r
    }
}

impl MultipleVariant for FilesystemOptions {
    open spec fn is_decomposition(&self, s: Seq<FilesystemOptions>) -> bool {
        s == self.spec_singles()
    }

    fn single_variants(&self) -> (r: Vec<FilesystemOptions>) {
        match self {
            FilesystemOptions::_MULTIPLE(t) => {
                let ghost s1 = if t.fat_file_names { seq![FilesystemOptions::FAT_FILE_NAMES] } else { Seq::<FilesystemOptions>::empty() };
                let ghost s2 = if t.assume_fat_file_times { seq![FilesystemOptions::ASSUME_FAT_FILE_TIMES] } else { Seq::<FilesystemOptions>::empty() };
                let ghost s3 = if t.disable_long_paths { seq![FilesystemOptions::DISABLE_LONG_PATHS] } else { Seq::<FilesystemOptions>::empty() };
                let mut r: Vec<FilesystemOptions> = Vec::new();
                if t.fat_file_names {
                    r.push(FilesystemOptions::FAT_FILE_NAMES);
                }
                proof {
                    assert(r@ =~= s1);
                }
                if t.assume_fat_file_times {
                    r.push(FilesystemOptions::ASSUME_FAT_FILE_TIMES);
                }
                proof {
                    assert(r@ =~= s1 + s2);
                }
                if t.disable_long_paths {
                    r.push(FilesystemOptions::DISABLE_LONG_PATHS);
                }
                proof {
                    assert(r@ =~= s1 + s2 + s3);
                    assert(r@ == self.spec_singles());
                }
                r
            },
            _ => {
                let mut r: Vec<FilesystemOptions> = Vec::new();
                r.push(*self);
                proof {
                    assert(r@ =~= self.spec_singles());
                }
                r
            },
        }
    }
}

/// Combination of filesystem option values yields the same presence set
/// in either order; since the result is always the combined variant, the
/// results are equal outright.
pub proof fn lemma_filesystem_combine_commutative(a: FilesystemOptions, b: FilesystemOptions)
    ensures
        FilesystemOptions::spec_combine(a, b) == FilesystemOptions::spec_combine(b, a),
{
}

/// Combination of filesystem option values is associative.
pub proof fn lemma_filesystem_combine_associative(
    a: FilesystemOptions,
    b: FilesystemOptions,
    c: FilesystemOptions,
)
    ensures
        FilesystemOptions::spec_combine(FilesystemOptions::spec_combine(a, b), c)
            == FilesystemOptions::spec_combine(a, FilesystemOptions::spec_combine(b, c)),
{
}

/// The empty combined value is an identity for combination: the presence
/// set is unchanged, and a combined operand comes back unchanged.
pub proof fn lemma_filesystem_combine_none_identity(v: FilesystemOptions)
    ensures
        FilesystemOptions::spec_combine(
            v,
            FilesystemOptions::_MULTIPLE(FilesystemFlagSet::empty_set()),
        ).spec_set() == v.spec_set(),
        v is _MULTIPLE ==> FilesystemOptions::spec_combine(
            v,
            FilesystemOptions::_MULTIPLE(FilesystemFlagSet::empty_set()),
        ) == v,
{
    assert(v.spec_set().spec_merge(FilesystemFlagSet::empty_set()) =~= v.spec_set());
}

/// The token lists of a decomposition, in order.
pub open spec fn filesystem_render_runs(s: Seq<FilesystemOptions>) -> Seq<Seq<Seq<char>>> {
    s.map_values(|f: FilesystemOptions| f.spec_render())
}

/// The token list of each single option of a decomposition, concatenated
/// in order.
pub open spec fn filesystem_renders_of_singles(s: Seq<FilesystemOptions>) -> Seq<Seq<char>> {
    filesystem_render_runs(s).flatten()
}

proof fn lemma_filesystem_renders_concat(x: Seq<FilesystemOptions>, y: Seq<FilesystemOptions>)
    ensures
        filesystem_renders_of_singles(x + y) == filesystem_renders_of_singles(x)
            + filesystem_renders_of_singles(y),
{
    assert(filesystem_render_runs(x + y) =~= filesystem_render_runs(x)
        + filesystem_render_runs(y));
    lemma_flatten_concat(filesystem_render_runs(x), filesystem_render_runs(y));
}

proof fn lemma_filesystem_renders_one_or_nil(s: Seq<FilesystemOptions>, f: FilesystemOptions)
    requires
        s == seq![f] || s == Seq::<FilesystemOptions>::empty(),
    ensures
        s == seq![f] ==> filesystem_renders_of_singles(s) == f.spec_render(),
        s == Seq::<FilesystemOptions>::empty() ==> filesystem_renders_of_singles(s)
            == Seq::<Seq<char>>::empty(),
{
    if s == seq![f] {
        assert(filesystem_render_runs(seq![f]) =~= seq![f.spec_render()]);
        filesystem_render_runs(seq![f]).lemma_flatten_one_element();
    } else {
        assert(filesystem_render_runs(Seq::<FilesystemOptions>::empty())
            =~= Seq::<Seq<Seq<char>>>::empty());
        assert(filesystem_renders_of_singles(Seq::<FilesystemOptions>::empty())
            =~= Seq::<Seq<char>>::empty());
    }
}

/// Round-trip law: rendering a filesystem option value yields exactly the
/// concatenation of the renderings of its decomposition into single
/// flags.
pub proof fn lemma_filesystem_render_round_trip(v: FilesystemOptions)
    ensures
        filesystem_renders_of_singles(v.spec_singles()) == v.spec_render(),
{
    match v {
        FilesystemOptions::_MULTIPLE(t) => {
            let s1 = if t.fat_file_names { seq![FilesystemOptions::FAT_FILE_NAMES] } else { Seq::<FilesystemOptions>::empty() };
            let s2 = if t.assume_fat_file_times { seq![FilesystemOptions::ASSUME_FAT_FILE_TIMES] } else { Seq::<FilesystemOptions>::empty() };
            let s3 = if t.disable_long_paths { seq![FilesystemOptions::DISABLE_LONG_PATHS] } else { Seq::<FilesystemOptions>::empty() };
            lemma_filesystem_renders_one_or_nil(s1, FilesystemOptions::FAT_FILE_NAMES);
            lemma_filesystem_renders_one_or_nil(s2, FilesystemOptions::ASSUME_FAT_FILE_TIMES);
            lemma_filesystem_renders_one_or_nil(s3, FilesystemOptions::DISABLE_LONG_PATHS);
            lemma_filesystem_renders_concat(s1, s2);
            lemma_filesystem_renders_concat(s1 + s2, s3);
            assert(filesystem_renders_of_singles(v.spec_singles()) =~= v.spec_render());
        },
        _ => {
            lemma_filesystem_renders_one_or_nil(seq![v], v);
        },
    }
}

/// Actions applied to the copied files after the copy: adding attributes
/// to them, removing attributes from them, or both.
#[derive(Debug, Clone, Copy, PartialEq, Eq, Structural)]
pub enum PostCopyActions {
    AddAttribsToFiles(FileAttributes),
    RmvAttribsFromFiles(FileAttributes),
    _MULTIPLE(FileAttributes, FileAttributes),
}

/// Merge two optional attribute payloads: present payloads are combined
/// via the attribute family's own union.
pub open spec fn spec_opt_attr_combine(
    x: Option<FileAttributes>,
    y: Option<FileAttributes>,
) -> Option<FileAttributes> {
    match (x, y) {
        (Some(a), Some(b)) => Some(FileAttributes::spec_combine(a, b)),
        (Some(a), None) => Some(a),
        (None, other) => other,
    }
}

impl PostCopyActions {
    /// The attributes this value asks to add, if any.
    pub open spec fn spec_add(self) -> Option<FileAttributes> {
        match self {
            PostCopyActions::AddAttribsToFiles(a) => Some(a),
            PostCopyActions::RmvAttribsFromFiles(_) => None,
            PostCopyActions::_MULTIPLE(a, _) => Some(a),
        }
    }

    /// The attributes this value asks to remove, if any.
    pub open spec fn spec_rmv(self) -> Option<FileAttributes> {
        match self {
            PostCopyActions::AddAttribsToFiles(_) => None,
            PostCopyActions::RmvAttribsFromFiles(r) => Some(r),
            PostCopyActions::_MULTIPLE(_, r) => Some(r),
        }
    }

    /// The value that merging two post-copy action values yields: each
    /// payload slot present on either side survives, and slots present on
    /// both sides are merged via the attribute family's union.
    pub open spec fn spec_combine(a: PostCopyActions, b: PostCopyActions) -> PostCopyActions {
        match (
            spec_opt_attr_combine(a.spec_add(), b.spec_add()),
            spec_opt_attr_combine(a.spec_rmv(), b.spec_rmv()),
        ) {
            (Some(add), Some(rmv)) => PostCopyActions::_MULTIPLE(add, rmv),
            (Some(add), None) => PostCopyActions::AddAttribsToFiles(add),
            (None, Some(rmv)) => PostCopyActions::RmvAttribsFromFiles(rmv),
            (None, None) => a,
        }
    }

    /// Merge two post-copy action values.
    pub fn combine(self, rhs: PostCopyActions) -> (r: PostCopyActions)
        ensures
            r == PostCopyActions::spec_combine(self, rhs),
    {
        let (self_add, self_rmv) = match self {
            PostCopyActions::AddAttribsToFiles(a) => (Some(a), None),
            PostCopyActions::RmvAttribsFromFiles(r) => (None, Some(r)),
            PostCopyActions::_MULTIPLE(a, r) => (Some(a), Some(r)),
        };
        let (rhs_add, rhs_rmv) = match rhs {
            PostCopyActions::AddAttribsToFiles(a) => (Some(a), None),
            PostCopyActions::RmvAttribsFromFiles(r) => (None, Some(r)),
            PostCopyActions::_MULTIPLE(a, r) => (Some(a), Some(r)),
        };
        let add = match (self_add, rhs_add) {
            (Some(a), Some(b)) => Some(a.combine(b)),
            (Some(a), None) => Some(a),
            (None, other) => other,
        };
        let rmv = match (self_rmv, rhs_rmv) {
            (Some(a), Some(b)) => Some(a.combine(b)),
            (Some(a), None) => Some(a),
            (None, other) => other,
        };
        match (add, rmv) {
            (Some(a), Some(r)) => PostCopyActions::_MULTIPLE(a, r),
            (Some(a), None) => PostCopyActions::AddAttribsToFiles(a),
            (None, Some(r)) => PostCopyActions::RmvAttribsFromFiles(r),
            (None, None) => {
                proof {
                    assert(false);
                }
                self
            },
        }
    }

    /// The canonical decomposition of this value into single actions:
    /// the add action before the remove action.
    pub open spec fn spec_singles(self) -> Seq<PostCopyActions> {
        match self {
            PostCopyActions::_MULTIPLE(a, r) => seq![
                PostCopyActions::AddAttribsToFiles(a),
                PostCopyActions::RmvAttribsFromFiles(r),
            ],
            _ => seq![self],
        }
    }

    /// The tokens this value renders as: an `/a+:` token with the letter
    /// run of the attributes to add, then an `/a-:` token with the letter
    /// run of the attributes to remove, for whichever slots are present.
    pub open spec fn spec_render(self) -> Seq<Seq<char>> {
        match self {
            PostCopyActions::AddAttribsToFiles(a) => seq!["/a+:"@ + a.spec_letters()],
            PostCopyActions::RmvAttribsFromFiles(r) => seq!["/a-:"@ + r.spec_letters()],
            PostCopyActions::_MULTIPLE(a, r) => seq![
                "/a+:"@ + a.spec_letters(),
                "/a-:"@ + r.spec_letters(),
            ],
        }
    }

    /// Render this value as its token list.
    pub fn render(&self) -> (r: Vec<String>)
        ensures
            r.deep_view() == self.spec_render(),
    {
        let mut r: Vec<String> = Vec::new();
        match self {
            PostCopyActions::AddAttribsToFiles(a) => {
                let mut t = String::from_str("/a+:");
                let letters = a.letters();
                t.append(letters.as_str());
                push_token(&mut r, t);
            },
            PostCopyActions::RmvAttribsFromFiles(rm) => {
                let mut t = String::from_str("/a-:");
                let letters = rm.letters();
                t.append(letters.as_str());
                push_token(&mut r, t);
            },
            PostCopyActions::_MULTIPLE(a, rm) => {
                let mut t = String::from_str("/a+:");
                let letters = a.letters();
                t.append(letters.as_str());
                push_token(&mut r, t);
                let mut u = String::from_str("/a-:");
                let rletters = rm.letters();
                u.append(rletters.as_str());
                push_token(&mut r, u);
            },
        }
        proof {
            assert(r.deep_view() =~= self.spec_render());
        }
        r
    }
}

impl MultipleVariant for PostCopyActions {
    open spec fn is_decomposition(&self, s: Seq<PostCopyActions>) -> bool {
        s == self.spec_singles()
    }

    fn single_variants(&self) -> (r: Vec<PostCopyActions>) {
        let mut r: Vec<PostCopyActions> = Vec::new();
        match self {
            PostCopyActions::_MULTIPLE(a, rm) => {
                r.push(PostCopyActions::AddAttribsToFiles(*a));
                r.push(PostCopyActions::RmvAttribsFromFiles(*rm));
            },
            _ => {
                r.push(*self);
            },
        }
        proof {
            assert(r@ =~= self.spec_singles());
        }
        r
    }
}

/// Combination of post-copy action values is commutative: each payload
/// slot is merged by the attribute family's union, which commutes.
pub proof fn lemma_post_copy_combine_commutative(a: PostCopyActions, b: PostCopyActions)
    ensures
        PostCopyActions::spec_combine(a, b) == PostCopyActions::spec_combine(b, a),
{
}

/// Combination of post-copy action values is associative.
pub proof fn lemma_post_copy_combine_associative(
    a: PostCopyActions,
    b: PostCopyActions,
    c: PostCopyActions,
)
    ensures
        PostCopyActions::spec_combine(PostCopyActions::spec_combine(a, b), c)
            == PostCopyActions::spec_combine(a, PostCopyActions::spec_combine(b, c)),
{
}

/// Round-trip law: rendering a post-copy action value yields exactly the
/// concatenation of the renderings of its decomposition into single
/// actions.
pub proof fn lemma_post_copy_render_round_trip(v: PostCopyActions)
    ensures
        v.spec_singles().map_values(|f: PostCopyActions| f.spec_render()).flatten()
            == v.spec_render(),
{
    let runs = v.spec_singles().map_values(|f: PostCopyActions| f.spec_render());
    match v {
        PostCopyActions::_MULTIPLE(a, rm) => {
            let ra = PostCopyActions::AddAttribsToFiles(a).spec_render();
            let rr = PostCopyActions::RmvAttribsFromFiles(rm).spec_render();
            assert(runs =~= seq![ra, rr]);
            assert(runs.drop_first() =~= seq![rr]);
            runs.drop_first().lemma_flatten_one_element();
            assert(runs.flatten() =~= v.spec_render());
        },
        _ => {
            assert(runs =~= seq![v.spec_render()]);
            runs.lemma_flatten_one_element();
        },
    }
}

} // verus!
