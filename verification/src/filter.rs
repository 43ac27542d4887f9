//! File and directory filter options.
//!
//! All filters and exceptions are gathered by the [`Filter`] struct.  The
//! exclusion families follow the same algebra as the other flag
//! families: single flags are combined into one canonical combined
//! value, decomposed back in the family's fixed vocabulary order, and
//! rendered into tokens.  The file exclusion family carries two payload
//! slots — an attribute bundle, merged by the attribute family's own
//! union, and a path-or-name list, merged by concatenation.

use vstd::prelude::*;
use vstd::seq_lib::lemma_flatten_concat;
use crate::MultipleVariant;
use crate::attributes::FileAttributes;
use crate::actions::spec_opt_attr_combine;
use crate::tokens::push_token;
use crate::tokens::append_tokens;
use crate::tokens::clone_strings;
use crate::decimal::dec;
use crate::decimal::dec_str;

verus! {

/// Filters out files and directories that match the variant.
#[derive(Debug, Clone, Copy, PartialEq, Eq, Structural)]
#[verifier::ext_equal]
pub struct FileAndDirectoryExclusionFlagSet {
    pub extra: bool,
    pub lonely: bool,
    pub junction_points: bool,
}

impl FileAndDirectoryExclusionFlagSet {
    /// The set with no flag present.
    pub open spec fn empty_set() -> FileAndDirectoryExclusionFlagSet {
        FileAndDirectoryExclusionFlagSet { extra: false, lonely: false, junction_points: false }
    }

    /// The union of two flag sets.
    pub open spec fn spec_merge(
        self,
        other: FileAndDirectoryExclusionFlagSet,
    ) -> FileAndDirectoryExclusionFlagSet {
        FileAndDirectoryExclusionFlagSet {
            extra: self.extra || other.extra,
            lonely: self.lonely || other.lonely,
            junction_points: self.junction_points || other.junction_points,
        }
    }

    /// Union two flag sets.
    pub fn merge(self, other: FileAndDirectoryExclusionFlagSet) -> (r:
        FileAndDirectoryExclusionFlagSet)
        ensures
            r == self.spec_merge(other),
    {
        FileAndDirectoryExclusionFlagSet {
            extra: self.extra || other.extra,
            lonely: self.lonely || other.lonely,
            junction_points: self.junction_points || other.junction_points,
        }
    }

    /// The tokens of the present flags, in the fixed vocabulary order
    /// `/xx`, `/xl`, `/xj`.
    pub open spec fn tokens(self) -> Seq<Seq<char>> {
        (if self.extra { seq!["/xx"@] } else { Seq::<Seq<char>>::empty() })
            + (if self.lonely { seq!["/xl"@] } else { Seq::<Seq<char>>::empty() })
            + (if self.junction_points { seq!["/xj"@] } else { Seq::<Seq<char>>::empty() })
    }
}

/// Filters out files and directories that match the variant: extra
/// entries in the destination, lonely entries in the source, or junction
/// points.
#[derive(Debug, Clone, Copy, PartialEq, Eq, Structural)]
pub enum FileAndDirectoryExclusionFilter {
    EXTRA,
    LONELY,
    JUNCTION_POINTS,
    _MULTIPLE(FileAndDirectoryExclusionFlagSet),
}

impl FileAndDirectoryExclusionFilter {
    /// The set of flags this value stands for.
    pub open spec fn spec_set(self) -> FileAndDirectoryExclusionFlagSet {
        match self {
            FileAndDirectoryExclusionFilter::EXTRA => FileAndDirectoryExclusionFlagSet {
                extra: true,
                ..FileAndDirectoryExclusionFlagSet::empty_set()
            },
            FileAndDirectoryExclusionFilter::LONELY => FileAndDirectoryExclusionFlagSet {
                lonely: true,
                ..FileAndDirectoryExclusionFlagSet::empty_set()
            },
            FileAndDirectoryExclusionFilter::JUNCTION_POINTS => FileAndDirectoryExclusionFlagSet {
                junction_points: true,
                ..FileAndDirectoryExclusionFlagSet::empty_set()
            },
            FileAndDirectoryExclusionFilter::_MULTIPLE(t) => t,
        }
    }

    /// The set of flags this value stands for.
    pub fn to_set(&self) -> (r: FileAndDirectoryExclusionFlagSet)
        ensures
            r == self.spec_set(),
    {
        let none = FileAndDirectoryExclusionFlagSet {
            extra: false,
            lonely: false,
            junction_points: false,
        };
        match self {
            FileAndDirectoryExclusionFilter::EXTRA => FileAndDirectoryExclusionFlagSet {
                extra: true,
                ..none
            },
            FileAndDirectoryExclusionFilter::LONELY => FileAndDirectoryExclusionFlagSet {
                lonely: true,
                ..none
            },
            FileAndDirectoryExclusionFilter::JUNCTION_POINTS => FileAndDirectoryExclusionFlagSet {
                junction_points: true,
                ..none
            },
            FileAndDirectoryExclusionFilter::_MULTIPLE(t) => *t,
        }
    }

    /// The combined value that merging two values yields.
    pub open spec fn spec_combine(
        a: FileAndDirectoryExclusionFilter,
        b: FileAndDirectoryExclusionFilter,
    ) -> FileAndDirectoryExclusionFilter {
        FileAndDirectoryExclusionFilter::_MULTIPLE(a.spec_set().spec_merge(b.spec_set()))
    }

    /// Merge two values into one combined value whose presence set is the
    /// union of the operands'.
    pub fn combine(self, rhs: FileAndDirectoryExclusionFilter) -> (r:
        FileAndDirectoryExclusionFilter)
        ensures
            r == FileAndDirectoryExclusionFilter::spec_combine(self, rhs),
    {
        FileAndDirectoryExclusionFilter::_MULTIPLE(self.to_set().merge(rhs.to_set()))
    }

    /// The position of a single flag in the fixed vocabulary order.
    pub open spec fn spec_index(self) -> Option<usize> {
        match self {
            FileAndDirectoryExclusionFilter::EXTRA => Some(0usize),
            FileAndDirectoryExclusionFilter::LONELY => Some(1usize),
            FileAndDirectoryExclusionFilter::JUNCTION_POINTS => Some(2usize),
            FileAndDirectoryExclusionFilter::_MULTIPLE(_) => None,
        }
    }

    /// The position of a single flag in the fixed vocabulary order;
    /// `None` for a combined value.
    pub fn index_of(&self) -> (r: Option<usize>)
        ensures
            r == self.spec_index(),
    {
        match self {
            FileAndDirectoryExclusionFilter::EXTRA => Some(0),
            FileAndDirectoryExclusionFilter::LONELY => Some(1),
            FileAndDirectoryExclusionFilter::JUNCTION_POINTS => Some(2),
            FileAndDirectoryExclusionFilter::_MULTIPLE(_) => None,
        }
    }

    /// The single flags present in `t`, in vocabulary order.
    pub open spec fn singles_of_set(t: FileAndDirectoryExclusionFlagSet) -> Seq<
        FileAndDirectoryExclusionFilter,
    > {
        (if t.extra { seq![FileAndDirectoryExclusionFilter::EXTRA] } else { Seq::<FileAndDirectoryExclusionFilter>::empty() })
            + (if t.lonely { seq![FileAndDirectoryExclusionFilter::LONELY] } else { Seq::<FileAndDirectoryExclusionFilter>::empty() })
            + (if t.junction_points { seq![FileAndDirectoryExclusionFilter::JUNCTION_POINTS] } else { Seq::<FileAndDirectoryExclusionFilter>::empty() })
    }

    /// The canonical decomposition of this value into single flags.
    pub open spec fn spec_singles(self) -> Seq<FileAndDirectoryExclusionFilter> {
        match self {
            FileAndDirectoryExclusionFilter::_MULTIPLE(t) => {
                FileAndDirectoryExclusionFilter::singles_of_set(t)
            },
            _ => seq![self],
        }
    }

    /// The tokens this value renders as: one per present flag, in
    /// vocabulary order.
    pub open spec fn spec_render(self) -> Seq<Seq<char>> {
        self.spec_set().tokens()
    }

    /// Render this value as its token list.
    pub fn render(&self) -> (r: Vec<String>)
        ensures
            r.deep_view() == self.spec_render(),
    {
        let t = self.to_set();
        let ghost p1 = if t.extra { seq!["/xx"@] } else { Seq::<Seq<char>>::empty() };
        let ghost p2 = if t.lonely { seq!["/xl"@] } else { Seq::<Seq<char>>::empty() };
        let ghost p3 = if t.junction_points { seq!["/xj"@] } else { Seq::<Seq<char>>::empty() };
        let mut r: Vec<String> = Vec::new();
        if t.extra {
            push_token(&mut r, String::from_str("/xx"));
        }
        proof {
            assert(r.deep_view() =~= p1);
        }
        if t.lonely {
            push_token(&mut r, String::from_str("/xl"));
        }
        proof {
            assert(r.deep_view() =~= p1 + p2);
        }
        if t.junction_points {
            push_token(&mut r, String::from_str("/xj"));
        }
        proof {
            assert(r.deep_view() =~= p1 + p2 + p3);
            assert(r.deep_view() == self.spec_render());
        }
        r
    }
}

impl MultipleVariant for FileAndDirectoryExclusionFilter {
    open spec fn is_decomposition(&self, s: Seq<FileAndDirectoryExclusionFilter>) -> bool {
        s == self.spec_singles()
    }

    fn single_variants(&self) -> (r: Vec<FileAndDirectoryExclusionFilter>) {
        match self {
            FileAndDirectoryExclusionFilter::_MULTIPLE(t) => {
                let ghost s1 = if t.extra { seq![FileAndDirectoryExclusionFilter::EXTRA] } else { Seq::<FileAndDirectoryExclusionFilter>::empty() };
                let ghost s2 = if t.lonely { seq![FileAndDirectoryExclusionFilter::LONELY] } else { Seq::<FileAndDirectoryExclusionFilter>::empty() };
                let ghost s3 = if t.junction_points { seq![FileAndDirectoryExclusionFilter::JUNCTION_POINTS] } else { Seq::<FileAndDirectoryExclusionFilter>::empty() };
                let mut r: Vec<FileAndDirectoryExclusionFilter> = Vec::new();
                if t.extra {
                    r.push(FileAndDirectoryExclusionFilter::EXTRA);
                }
                proof {
                    assert(r@ =~= s1);
                }
                if t.lonely {
                    r.push(FileAndDirectoryExclusionFilter::LONELY);
                }
                proof {
                    assert(r@ =~= s1 + s2);
                }
                if t.junction_points {
                    r.push(FileAndDirectoryExclusionFilter::JUNCTION_POINTS);
                }
                proof {
                    assert(r@ =~= s1 + s2 + s3);
                    assert(r@ == self.spec_singles());
                }
                r
            },
            _ => {
                let mut r: Vec<FileAndDirectoryExclusionFilter> = Vec::new();
                r.push(*self);
                proof {
                    assert(r@ =~= self.spec_singles());
                }
                r
            },
        }
    }
}

/// Combination is commutative; since the result is always the combined
/// variant, the results are equal outright.
pub proof fn lemma_fadef_combine_commutative(
    a: FileAndDirectoryExclusionFilter,
    b: FileAndDirectoryExclusionFilter,
)
    ensures
        FileAndDirectoryExclusionFilter::spec_combine(a, b)
            == FileAndDirectoryExclusionFilter::spec_combine(b, a),
{
}

/// Combination is associative.
pub proof fn lemma_fadef_combine_associative(
    a: FileAndDirectoryExclusionFilter,
    b: FileAndDirectoryExclusionFilter,
    c: FileAndDirectoryExclusionFilter,
)
    ensures
        FileAndDirectoryExclusionFilter::spec_combine(
            FileAndDirectoryExclusionFilter::spec_combine(a, b),
            c,
        ) == FileAndDirectoryExclusionFilter::spec_combine(
            a,
            FileAndDirectoryExclusionFilter::spec_combine(b, c),
        ),
{
}

/// The empty combined value is an identity for combination.
pub proof fn lemma_fadef_combine_none_identity(v: FileAndDirectoryExclusionFilter)
    ensures
        FileAndDirectoryExclusionFilter::spec_combine(
            v,
            FileAndDirectoryExclusionFilter::_MULTIPLE(
                FileAndDirectoryExclusionFlagSet::empty_set(),
            ),
        ).spec_set() == v.spec_set(),
        v is _MULTIPLE ==> FileAndDirectoryExclusionFilter::spec_combine(
            v,
            FileAndDirectoryExclusionFilter::_MULTIPLE(
                FileAndDirectoryExclusionFlagSet::empty_set(),
            ),
        ) == v,
{
    assert(v.spec_set().spec_merge(FileAndDirectoryExclusionFlagSet::empty_set())
        =~= v.spec_set());
}

/// The token lists of a decomposition, in order.
pub open spec fn fadef_render_runs(s: Seq<FileAndDirectoryExclusionFilter>) -> Seq<Seq<Seq<char>>> {
    s.map_values(|f: FileAndDirectoryExclusionFilter| f.spec_render())
}

/// The token list of each single flag of a decomposition, concatenated
/// in order.
pub open spec fn fadef_renders_of_singles(s: Seq<FileAndDirectoryExclusionFilter>) -> Seq<
    Seq<char>,
> {
    fadef_render_runs(s).flatten()
}

proof fn lemma_fadef_renders_concat(
    x: Seq<FileAndDirectoryExclusionFilter>,
    y: Seq<FileAndDirectoryExclusionFilter>,
)
    ensures
        fadef_renders_of_singles(x + y) == fadef_renders_of_singles(x)
            + fadef_renders_of_singles(y),
{
    assert(fadef_render_runs(x + y) =~= fadef_render_runs(x) + fadef_render_runs(y));
    lemma_flatten_concat(fadef_render_runs(x), fadef_render_runs(y));
}

proof fn lemma_fadef_renders_one_or_nil(
    s: Seq<FileAndDirectoryExclusionFilter>,
    f: FileAndDirectoryExclusionFilter,
)
    requires
        s == seq![f] || s == Seq::<FileAndDirectoryExclusionFilter>::empty(),
    ensures
        s == seq![f] ==> fadef_renders_of_singles(s) == f.spec_render(),
        s == Seq::<FileAndDirectoryExclusionFilter>::empty() ==> fadef_renders_of_singles(s)
            == Seq::<Seq<char>>::empty(),
{
    if s == seq![f] {
        assert(fadef_render_runs(seq![f]) =~= seq![f.spec_render()]);
        fadef_render_runs(seq![f]).lemma_flatten_one_element();
    } else {
        assert(fadef_render_runs(Seq::<FileAndDirectoryExclusionFilter>::empty())
            =~= Seq::<Seq<Seq<char>>>::empty());
        assert(fadef_renders_of_singles(Seq::<FileAndDirectoryExclusionFilter>::empty())
            =~= Seq::<Seq<char>>::empty());
    }
}

/// Round-trip law: rendering a value yields exactly the concatenation of
/// the renderings of its decomposition into single flags.
pub proof fn lemma_fadef_render_round_trip(v: FileAndDirectoryExclusionFilter)
    ensures
        fadef_renders_of_singles(v.spec_singles()) == v.spec_render(),
{
    match v {
        FileAndDirectoryExclusionFilter::_MULTIPLE(t) => {
            let s1 = if t.extra { seq![FileAndDirectoryExclusionFilter::EXTRA] } else { Seq::<FileAndDirectoryExclusionFilter>::empty() };
            let s2 = if t.lonely { seq![FileAndDirectoryExclusionFilter::LONELY] } else { Seq::<FileAndDirectoryExclusionFilter>::empty() };
            let s3 = if t.junction_points { seq![FileAndDirectoryExclusionFilter::JUNCTION_POINTS] } else { Seq::<FileAndDirectoryExclusionFilter>::empty() };
            lemma_fadef_renders_one_or_nil(s1, FileAndDirectoryExclusionFilter::EXTRA);
            lemma_fadef_renders_one_or_nil(s2, FileAndDirectoryExclusionFilter::LONELY);
            lemma_fadef_renders_one_or_nil(s3, FileAndDirectoryExclusionFilter::JUNCTION_POINTS);
            lemma_fadef_renders_concat(s1, s2);
            lemma_fadef_renders_concat(s1 + s2, s3);
            assert(fadef_renders_of_singles(v.spec_singles()) =~= v.spec_render());
        },
        _ => {
            lemma_fadef_renders_one_or_nil(seq![v], v);
        },
    }
}

/// Which exception flags of the fixed vocabulary are present in a
/// combined value.
#[derive(Debug, Clone, Copy, PartialEq, Eq, Structural)]
#[verifier::ext_equal]
pub struct ExclusionExceptionFlagSet {
    pub modified: bool,
    pub same: bool,
    pub tweaked: bool,
}

impl ExclusionExceptionFlagSet {
    /// The set with no exception present.
    pub open spec fn empty_set() -> ExclusionExceptionFlagSet {
        ExclusionExceptionFlagSet { modified: false, same: false, tweaked: false }
    }

    /// The union of two exception sets.
    pub open spec fn spec_merge(self, other: ExclusionExceptionFlagSet) -> ExclusionExceptionFlagSet {
        ExclusionExceptionFlagSet {
            modified: self.modified || other.modified,
            same: self.same || other.same,
            tweaked: self.tweaked || other.tweaked,
        }
    }

    /// Union two exception sets.
    pub fn merge(self, other: ExclusionExceptionFlagSet) -> (r: ExclusionExceptionFlagSet)
        ensures
            r == self.spec_merge(other),
    {
        ExclusionExceptionFlagSet {
            modified: self.modified || other.modified,
            same: self.same || other.same,
            tweaked: self.tweaked || other.tweaked,
        }
    }

    /// The tokens of the present exceptions, in the fixed vocabulary
    /// order `/im`, `/is`, `/it`.
    pub open spec fn tokens(self) -> Seq<Seq<char>> {
        (if self.modified { seq!["/im"@] } else { Seq::<Seq<char>>::empty() })
            + (if self.same { seq!["/is"@] } else { Seq::<Seq<char>>::empty() })
            + (if self.tweaked { seq!["/it"@] } else { Seq::<Seq<char>>::empty() })
    }
}

/// Includes files despite the filters, when they are modified, same, or
/// tweaked.
#[derive(Debug, Clone, Copy, PartialEq, Eq, Structural)]
pub enum FileExclusionFilterException {
    MODIFIED,
    SAME,
    TWEAKED,
    _MULTIPLE(ExclusionExceptionFlagSet),
}

impl FileExclusionFilterException {
    /// The set of exceptions this value stands for.
    pub open spec fn spec_set(self) -> ExclusionExceptionFlagSet {
        match self {
            FileExclusionFilterException::MODIFIED => ExclusionExceptionFlagSet {
                modified: true,
                ..ExclusionExceptionFlagSet::empty_set()
            },
            FileExclusionFilterException::SAME => ExclusionExceptionFlagSet {
                same: true,
                ..ExclusionExceptionFlagSet::empty_set()
            },
            FileExclusionFilterException::TWEAKED => ExclusionExceptionFlagSet {
                tweaked: true,
                ..ExclusionExceptionFlagSet::empty_set()
            },
            FileExclusionFilterException::_MULTIPLE(t) => t,
        }
    }

    /// The set of exceptions this value stands for.
    pub fn to_set(&self) -> (r: ExclusionExceptionFlagSet)
        ensures
            r == self.spec_set(),
    {
        let none = ExclusionExceptionFlagSet { modified: false, same: false, tweaked: false };
        match self {
            FileExclusionFilterException::MODIFIED => ExclusionExceptionFlagSet {
                modified: true,
                ..none
            },
            FileExclusionFilterException::SAME => ExclusionExceptionFlagSet { same: true, ..none },
            FileExclusionFilterException::TWEAKED => ExclusionExceptionFlagSet {
                tweaked: true,
                ..none
            },
            FileExclusionFilterException::_MULTIPLE(t) => *t,
        }
    }

    /// The combined value that merging two exception values yields.
    pub open spec fn spec_combine(
        a: FileExclusionFilterException,
        b: FileExclusionFilterException,
    ) -> FileExclusionFilterException {
        FileExclusionFilterException::_MULTIPLE(a.spec_set().spec_merge(b.spec_set()))
    }

    /// Merge two exception values into one combined value whose presence
    /// set is the union of the operands'.
    pub fn combine(self, rhs: FileExclusionFilterException) -> (r: FileExclusionFilterException)
        ensures
            r == FileExclusionFilterException::spec_combine(self, rhs),
    {
        FileExclusionFilterException::_MULTIPLE(self.to_set().merge(rhs.to_set()))
    }

    /// The position of a single exception in the fixed vocabulary order.
    pub open spec fn spec_index(self) -> Option<usize> {
        match self {
            FileExclusionFilterException::MODIFIED => Some(0usize),
            FileExclusionFilterException::SAME => Some(1usize),
            FileExclusionFilterException::TWEAKED => Some(2usize),
            FileExclusionFilterException::_MULTIPLE(_) => None,
        }
    }

    /// The position of a single exception in the fixed vocabulary order;
    /// `None` for a combined value.
    pub fn index_of(&self) -> (r: Option<usize>)
        ensures
            r == self.spec_index(),
    {
        match self {
            FileExclusionFilterException::MODIFIED => Some(0),
            FileExclusionFilterException::SAME => Some(1),
            FileExclusionFilterException::TWEAKED => Some(2),
            FileExclusionFilterException::_MULTIPLE(_) => None,
        }
    }

    /// The single exceptions present in `t`, in vocabulary order.
    pub open spec fn singles_of_set(t: ExclusionExceptionFlagSet) -> Seq<
        FileExclusionFilterException,
    > {
        (if t.modified { seq![FileExclusionFilterException::MODIFIED] } else { Seq::<FileExclusionFilterException>::empty() })
            + (if t.same { seq![FileExclusionFilterException::SAME] } else { Seq::<FileExclusionFilterException>::empty() })
            + (if t.tweaked { seq![FileExclusionFilterException::TWEAKED] } else { Seq::<FileExclusionFilterException>::empty() })
    }

    /// The canonical decomposition of this value into single exceptions.
    pub open spec fn spec_singles(self) -> Seq<FileExclusionFilterException> {
        match self {
            FileExclusionFilterException::_MULTIPLE(t) => {
                FileExclusionFilterException::singles_of_set(t)
            },
            _ => seq![self],
        }
    }

    /// The tokens this value renders as: one per present exception, in
    /// vocabulary order.
    pub open spec fn spec_render(self) -> Seq<Seq<char>> {
        self.spec_set().tokens()
    }

    /// Render this value as its token list.
    pub fn render(&self) -> (r: Vec<String>)
        ensures
            r.deep_view() == self.spec_render(),
    {
        let t = self.to_set();
        let ghost p1 = if t.modified { seq!["/im"@] } else { Seq::<Seq<char>>::empty() };
        let ghost p2 = if t.same { seq!["/is"@] } else { Seq::<Seq<char>>::empty() };
        let ghost p3 = if t.tweaked { seq!["/it"@] } else { Seq::<Seq<char>>::empty() };
        let mut r: Vec<String> = Vec::new();
        if t.modified {
            push_token(&mut r, String::from_str("/im"));
        }
        proof {
            assert(r.deep_view() =~= p1);
        }
        if t.same {
            push_token(&mut r, String::from_str("/is"));
        }
        proof {
            assert(r.deep_view() =~= p1 + p2);
        }
        if t.tweaked {
            push_token(&mut r, String::from_str("/it"));
        }
        proof {
            assert(r.deep_view() =~= p1 + p2 + p3);
            assert(r.deep_view() == self.spec_render());
        }
        r
    }
}

impl MultipleVariant for FileExclusionFilterException {
    open spec fn is_decomposition(&self, s: Seq<FileExclusionFilterException>) -> bool {
        s == self.spec_singles()
    }

    fn single_variants(&self) -> (r: Vec<FileExclusionFilterException>) {
        match self {
            FileExclusionFilterException::_MULTIPLE(t) => {
                let ghost s1 = if t.modified { seq![FileExclusionFilterException::MODIFIED] } else { Seq::<FileExclusionFilterException>::empty() };
                let ghost s2 = if t.same { seq![FileExclusionFilterException::SAME] } else { Seq::<FileExclusionFilterException>::empty() };
                let ghost s3 = if t.tweaked { seq![FileExclusionFilterException::TWEAKED] } else { Seq::<FileExclusionFilterException>::empty() };
                let mut r: Vec<FileExclusionFilterException> = Vec::new();
                if t.modified {
                    r.push(FileExclusionFilterException::MODIFIED);
                }
                proof {
                    assert(r@ =~= s1);
                }
                if t.same {
                    r.push(FileExclusionFilterException::SAME);
                }
                proof {
                    assert(r@ =~= s1 + s2);
                }
                if t.tweaked {
                    r.push(FileExclusionFilterException::TWEAKED);
                }
                proof {
                    assert(r@ =~= s1 + s2 + s3);
                    assert(r@ == self.spec_singles());
                }
                r
            },
            _ => {
                let mut r: Vec<FileExclusionFilterException> = Vec::new();
                r.push(*self);
                proof {
                    assert(r@ =~= self.spec_singles());
                }
                r
            },
        }
    }
}

/// Combination is commutative; since the result is always the combined
/// variant, the results are equal outright.
pub proof fn lemma_exception_combine_commutative(
    a: FileExclusionFilterException,
    b: FileExclusionFilterException,
)
    ensures
        FileExclusionFilterException::spec_combine(a, b)
            == FileExclusionFilterException::spec_combine(b, a),
{
}

/// Combination is associative.
pub proof fn lemma_exception_combine_associative(
    a: FileExclusionFilterException,
    b: FileExclusionFilterException,
    c: FileExclusionFilterException,
)
    ensures
        FileExclusionFilterException::spec_combine(
            FileExclusionFilterException::spec_combine(a, b),
            c,
        ) == FileExclusionFilterException::spec_combine(
            a,
            FileExclusionFilterException::spec_combine(b, c),
        ),
{
}

/// The empty combined value is an identity for combination.
pub proof fn lemma_exception_combine_none_identity(v: FileExclusionFilterException)
    ensures
        FileExclusionFilterException::spec_combine(
            v,
            FileExclusionFilterException::_MULTIPLE(ExclusionExceptionFlagSet::empty_set()),
        ).spec_set() == v.spec_set(),
        v is _MULTIPLE ==> FileExclusionFilterException::spec_combine(
            v,
            FileExclusionFilterException::_MULTIPLE(ExclusionExceptionFlagSet::empty_set()),
        ) == v,
{
    assert(v.spec_set().spec_merge(ExclusionExceptionFlagSet::empty_set()) =~= v.spec_set());
}

/// The token lists of a decomposition, in order.
pub open spec fn exception_render_runs(s: Seq<FileExclusionFilterException>) -> Seq<
    Seq<Seq<char>>,
> {
    s.map_values(|f: FileExclusionFilterException| f.spec_render())
}

/// The token list of each single exception of a decomposition,
/// concatenated in order.
pub open spec fn exception_renders_of_singles(s: Seq<FileExclusionFilterException>) -> Seq<
    Seq<char>,
> {
    exception_render_runs(s).flatten()
}

proof fn lemma_exception_renders_concat(
    x: Seq<FileExclusionFilterException>,
    y: Seq<FileExclusionFilterException>,
)
    ensures
        exception_renders_of_singles(x + y) == exception_renders_of_singles(x)
            + exception_renders_of_singles(y),
{
    assert(exception_render_runs(x + y) =~= exception_render_runs(x) + exception_render_runs(y));
    lemma_flatten_concat(exception_render_runs(x), exception_render_runs(y));
}

proof fn lemma_exception_renders_one_or_nil(
    s: Seq<FileExclusionFilterException>,
    f: FileExclusionFilterException,
)
    requires
        s == seq![f] || s == Seq::<FileExclusionFilterException>::empty(),
    ensures
        s == seq![f] ==> exception_renders_of_singles(s) == f.spec_render(),
        s == Seq::<FileExclusionFilterException>::empty() ==> exception_renders_of_singles(s)
            == Seq::<Seq<char>>::empty(),
{
    if s == seq![f] {
        assert(exception_render_runs(seq![f]) =~= seq![f.spec_render()]);
        exception_render_runs(seq![f]).lemma_flatten_one_element();
    } else {
        assert(exception_render_runs(Seq::<FileExclusionFilterException>::empty())
            =~= Seq::<Seq<Seq<char>>>::empty());
        assert(exception_renders_of_singles(Seq::<FileExclusionFilterException>::empty())
            =~= Seq::<Seq<char>>::empty());
    }
}

/// Round-trip law: rendering an exception value yields exactly the
/// concatenation of the renderings of its decomposition into single
/// exceptions.
pub proof fn lemma_exception_render_round_trip(v: FileExclusionFilterException)
    ensures
        exception_renders_of_singles(v.spec_singles()) == v.spec_render(),
{
    match v {
        FileExclusionFilterException::_MULTIPLE(t) => {
            let s1 = if t.modified { seq![FileExclusionFilterException::MODIFIED] } else { Seq::<FileExclusionFilterException>::empty() };
            let s2 = if t.same { seq![FileExclusionFilterException::SAME] } else { Seq::<FileExclusionFilterException>::empty() };
            let s3 = if t.tweaked { seq![FileExclusionFilterException::TWEAKED] } else { Seq::<FileExclusionFilterException>::empty() };
            lemma_exception_renders_one_or_nil(s1, FileExclusionFilterException::MODIFIED);
            lemma_exception_renders_one_or_nil(s2, FileExclusionFilterException::SAME);
            lemma_exception_renders_one_or_nil(s3, FileExclusionFilterException::TWEAKED);
            lemma_exception_renders_concat(s1, s2);
            lemma_exception_renders_concat(s1 + s2, s3);
            assert(exception_renders_of_singles(v.spec_singles()) =~= v.spec_render());
        },
        _ => {
            lemma_exception_renders_one_or_nil(seq![v], v);
        },
    }
}


/// Filters out directories that match the variant: by path or name, at
/// junction points, or both.
#[derive(Debug, Clone)]
pub enum DirectoryExclusionFilter {
    PathOrName(Vec<String>),
    JUNCTION_POINTS,
    _BOTH(Vec<String>),
}

impl DirectoryExclusionFilter {
    /// The path-or-name strings this value carries.
    pub open spec fn spec_paths(self) -> Seq<Seq<char>> {
        match self {
            DirectoryExclusionFilter::PathOrName(p) => p.deep_view(),
            DirectoryExclusionFilter::JUNCTION_POINTS => Seq::<Seq<char>>::empty(),
            DirectoryExclusionFilter::_BOTH(p) => p.deep_view(),
        }
    }

    /// Whether this value excludes junction points.
    pub open spec fn spec_junction(self) -> bool {
        match self {
            DirectoryExclusionFilter::PathOrName(_) => false,
            DirectoryExclusionFilter::JUNCTION_POINTS => true,
            DirectoryExclusionFilter::_BOTH(_) => true,
        }
    }

    /// Which variant this value is, as a position in the declaration
    /// order.
    pub open spec fn spec_shape(self) -> int {
        match self {
            DirectoryExclusionFilter::PathOrName(_) => 0,
            DirectoryExclusionFilter::JUNCTION_POINTS => 1,
            DirectoryExclusionFilter::_BOTH(_) => 2,
        }
    }

    /// Merge two directory exclusion values: the path lists are
    /// concatenated, preserving all entries from both sides, and junction
    /// point exclusion survives from either side.
    pub fn combine(self, rhs: DirectoryExclusionFilter) -> (r: DirectoryExclusionFilter)
        ensures
            r.spec_junction() == (self.spec_junction() || rhs.spec_junction()),
            r.spec_paths() == self.spec_paths() + rhs.spec_paths(),
            r.spec_junction() ==> r is _BOTH,
            !r.spec_junction() ==> r is PathOrName,
    {
        let ghost ap = self.spec_paths();
        let ghost bp = rhs.spec_paths();
        let (p1, j1) = match self {
            DirectoryExclusionFilter::PathOrName(p) => (p, false),
            DirectoryExclusionFilter::JUNCTION_POINTS => (Vec::new(), true),
            DirectoryExclusionFilter::_BOTH(p) => (p, true),
        };
        let (p2, j2) = match rhs {
            DirectoryExclusionFilter::PathOrName(p) => (p, false),
            DirectoryExclusionFilter::JUNCTION_POINTS => (Vec::new(), true),
            DirectoryExclusionFilter::_BOTH(p) => (p, true),
        };
        let mut p = p1;
        let mut p2 = p2;
        p.append(&mut p2);
        proof {
            assert(p.deep_view() =~= ap + bp);
        }
        if j1 || j2 {
            DirectoryExclusionFilter::_BOTH(p)
        } else {
            DirectoryExclusionFilter::PathOrName(p)
        }
    }

    /// The canonical decomposition of this value into single filters:
    /// the junction point flag before the path-or-name list.
    pub open spec fn spec_singles(self) -> Seq<DirectoryExclusionFilter> {
        match self {
            DirectoryExclusionFilter::_BOTH(p) => seq![
                DirectoryExclusionFilter::JUNCTION_POINTS,
                DirectoryExclusionFilter::PathOrName(p),
            ],
            _ => seq![self],
        }
    }

    /// The tokens this value renders as: `/xjd` for junction point
    /// exclusion, and `/xd` followed by one token per path or name.
    pub open spec fn spec_render(self) -> Seq<Seq<char>> {
        match self {
            DirectoryExclusionFilter::PathOrName(p) => seq!["/xd"@] + p.deep_view(),
            DirectoryExclusionFilter::JUNCTION_POINTS => seq!["/xjd"@],
            DirectoryExclusionFilter::_BOTH(p) => seq!["/xjd"@, "/xd"@] + p.deep_view(),
        }
    }

    /// Render this value as its token list.
    pub fn render(&self) -> (r: Vec<String>)
        ensures
            r.deep_view() == self.spec_render(),
    {
        let mut r: Vec<String> = Vec::new();
        match self {
            DirectoryExclusionFilter::PathOrName(p) => {
                push_token(&mut r, String::from_str("/xd"));
                append_tokens(&mut r, clone_strings(p));
            },
            DirectoryExclusionFilter::JUNCTION_POINTS => {
                push_token(&mut r, String::from_str("/xjd"));
            },
            DirectoryExclusionFilter::_BOTH(p) => {
                push_token(&mut r, String::from_str("/xjd"));
                push_token(&mut r, String::from_str("/xd"));
                append_tokens(&mut r, clone_strings(p));
            },
        }
        proof {
            assert(r.deep_view() =~= self.spec_render());
        }
        r
    }
}

/// Two directory exclusion values are alike when they are the same
/// variant with the same junction flag and the same path strings.
pub open spec fn dir_filter_alike(a: DirectoryExclusionFilter, b: DirectoryExclusionFilter) -> bool {
    a.spec_shape() == b.spec_shape() && a.spec_junction() == b.spec_junction() && a.spec_paths()
        == b.spec_paths()
}

/// Pointwise likeness of two decompositions.
pub open spec fn dir_filter_alike_seq(
    s: Seq<DirectoryExclusionFilter>,
    m: Seq<DirectoryExclusionFilter>,
) -> bool {
    s.len() == m.len() && (forall|i: int|
        0 <= i < s.len() ==> dir_filter_alike(#[trigger] s[i], m[i]))
}

impl MultipleVariant for DirectoryExclusionFilter {
    open spec fn is_decomposition(&self, s: Seq<DirectoryExclusionFilter>) -> bool {
        dir_filter_alike_seq(s, self.spec_singles())
    }

    fn single_variants(&self) -> (r: Vec<DirectoryExclusionFilter>) {
        let mut r: Vec<DirectoryExclusionFilter> = Vec::new();
        match self {
            DirectoryExclusionFilter::_BOTH(p) => {
                r.push(DirectoryExclusionFilter::JUNCTION_POINTS);
                r.push(DirectoryExclusionFilter::PathOrName(clone_strings(p)));
            },
            DirectoryExclusionFilter::PathOrName(p) => {
                r.push(DirectoryExclusionFilter::PathOrName(clone_strings(p)));
            },
            DirectoryExclusionFilter::JUNCTION_POINTS => {
                r.push(DirectoryExclusionFilter::JUNCTION_POINTS);
            },
        }
        proof {
            let m = self.spec_singles();
            assert(r@.len() == m.len());
            assert(forall|i: int| 0 <= i < r@.len() ==> dir_filter_alike(#[trigger] r@[i], m[i]));
        }
        r
    }
}

/// Alike directory exclusion values render to the same tokens.
pub proof fn lemma_dir_filter_alike_render(a: DirectoryExclusionFilter, b: DirectoryExclusionFilter)
    requires
        dir_filter_alike(a, b),
    ensures
        a.spec_render() == b.spec_render(),
{
    assert(a.spec_render() =~= b.spec_render());
}

/// Combination of directory exclusion values is commutative up to the
/// order of the concatenated path lists: junction point exclusion and
/// the multiset of path strings do not depend on the operand order.
pub proof fn lemma_dir_filter_combine_commutative(
    a: DirectoryExclusionFilter,
    b: DirectoryExclusionFilter,
)
    ensures
        (a.spec_junction() || b.spec_junction()) == (b.spec_junction() || a.spec_junction()),
        (a.spec_paths() + b.spec_paths()).to_multiset() == (b.spec_paths()
            + a.spec_paths()).to_multiset(),
{
    vstd::seq_lib::lemma_multiset_commutative(a.spec_paths(), b.spec_paths());
    vstd::seq_lib::lemma_multiset_commutative(b.spec_paths(), a.spec_paths());
    assert(a.spec_paths().to_multiset().add(b.spec_paths().to_multiset())
        =~= b.spec_paths().to_multiset().add(a.spec_paths().to_multiset()));
}

/// Combination of directory exclusion values is associative: both
/// groupings yield the same junction flag and the same path list.
pub proof fn lemma_dir_filter_combine_associative(
    a: DirectoryExclusionFilter,
    b: DirectoryExclusionFilter,
    c: DirectoryExclusionFilter,
)
    ensures
        ((a.spec_junction() || b.spec_junction()) || c.spec_junction()) == (a.spec_junction() || (
        b.spec_junction() || c.spec_junction())),
        (a.spec_paths() + b.spec_paths()) + c.spec_paths() == a.spec_paths() + (b.spec_paths()
            + c.spec_paths()),
{
    assert((a.spec_paths() + b.spec_paths()) + c.spec_paths() =~= a.spec_paths() + (b.spec_paths()
        + c.spec_paths()));
}

/// An empty path-or-name list is an identity for combination at the
/// model level: junction point exclusion and the path list are
/// unchanged.
pub proof fn lemma_dir_filter_combine_identity(
    v: DirectoryExclusionFilter,
    e: DirectoryExclusionFilter,
)
    requires
        !e.spec_junction(),
        e.spec_paths() == Seq::<Seq<char>>::empty(),
    ensures
        (v.spec_junction() || e.spec_junction()) == v.spec_junction(),
        v.spec_paths() + e.spec_paths() == v.spec_paths(),
{
    assert(v.spec_paths() + e.spec_paths() =~= v.spec_paths());
}

/// The token lists of a decomposition, in order.
pub open spec fn dir_filter_render_runs(s: Seq<DirectoryExclusionFilter>) -> Seq<Seq<Seq<char>>> {
    s.map_values(|f: DirectoryExclusionFilter| f.spec_render())
}

/// The token list of each single filter of a decomposition, concatenated
/// in order.
pub open spec fn dir_filter_renders_of_singles(s: Seq<DirectoryExclusionFilter>) -> Seq<Seq<char>> {
    dir_filter_render_runs(s).flatten()
}

/// Round-trip law: rendering a directory exclusion value yields exactly
/// the concatenation of the renderings of any decomposition of it into
/// single filters.
pub proof fn lemma_dir_filter_render_round_trip(
    v: DirectoryExclusionFilter,
    s: Seq<DirectoryExclusionFilter>,
)
    requires
        v.is_decomposition(s),
    ensures
        dir_filter_renders_of_singles(s) == v.spec_render(),
{
    let m = v.spec_singles();
    assert forall|i: int| 0 <= i < s.len() implies (#[trigger] dir_filter_render_runs(s)[i])
        == dir_filter_render_runs(m)[i] by {
        lemma_dir_filter_alike_render(s[i], m[i]);
    }
    assert(dir_filter_render_runs(s) =~= dir_filter_render_runs(m));
    match v {
        DirectoryExclusionFilter::_BOTH(p) => {
            let rj = DirectoryExclusionFilter::JUNCTION_POINTS.spec_render();
            let rp = DirectoryExclusionFilter::PathOrName(p).spec_render();
            let runs = dir_filter_render_runs(m);
            assert(runs =~= seq![rj, rp]);
            assert(runs.drop_first() =~= seq![rp]);
            runs.drop_first().lemma_flatten_one_element();
            assert(runs.flatten() =~= v.spec_render());
        },
        _ => {
            let runs = dir_filter_render_runs(m);
            assert(runs =~= seq![v.spec_render()]);
            runs.lemma_flatten_one_element();
        },
    }
}



/// Which boolean file exclusion flags of the fixed vocabulary are
/// present in a combined value.
#[derive(Debug, Clone, Copy, PartialEq, Eq, Structural)]
#[verifier::ext_equal]
pub struct FileExclusionFlagSet {
    pub changed: bool,
    pub older: bool,
    pub newer: bool,
    pub junction_points: bool,
}

impl FileExclusionFlagSet {
    /// The set with no flag present.
    pub open spec fn empty_set() -> FileExclusionFlagSet {
        FileExclusionFlagSet { changed: false, older: false, newer: false, junction_points: false }
    }

    /// The union of two flag sets.
    pub open spec fn spec_merge(self, other: FileExclusionFlagSet) -> FileExclusionFlagSet {
        FileExclusionFlagSet {
            changed: self.changed || other.changed,
            older: self.older || other.older,
            newer: self.newer || other.newer,
            junction_points: self.junction_points || other.junction_points,
        }
    }

    /// Union two flag sets.
    pub fn merge(self, other: FileExclusionFlagSet) -> (r: FileExclusionFlagSet)
        ensures
            r == self.spec_merge(other),
    {
        FileExclusionFlagSet {
            changed: self.changed || other.changed,
            older: self.older || other.older,
            newer: self.newer || other.newer,
            junction_points: self.junction_points || other.junction_points,
        }
    }

    /// The tokens of the present flags, in the fixed vocabulary order
    /// `/xc`, `/xo`, `/xn`, `/xjf`.
    pub open spec fn tokens(self) -> Seq<Seq<char>> {
        (if self.changed { seq!["/xc"@] } else { Seq::<Seq<char>>::empty() })
            + (if self.older { seq!["/xo"@] } else { Seq::<Seq<char>>::empty() })
            + (if self.newer { seq!["/xn"@] } else { Seq::<Seq<char>>::empty() })
            + (if self.junction_points { seq!["/xjf"@] } else { Seq::<Seq<char>>::empty() })
    }
}

/// Filters out files that match the variant.  Besides the boolean flags
/// the family carries two payload slots: an attribute bundle and a
/// path-or-name list.
#[derive(Debug, Clone)]
pub enum FileExclusionFilter {
    Attributes(FileAttributes),
    PathOrName(Vec<String>),
    CHANGED,
    OLDER,
    NEWER,
    JUNCTION_POINTS,
    _MULTIPLE(Option<FileAttributes>, Vec<String>, FileExclusionFlagSet),
}

impl FileExclusionFilter {
    /// The attribute bundle this value carries, if any.
    pub open spec fn spec_attribs(self) -> Option<FileAttributes> {
        match self {
            FileExclusionFilter::Attributes(a) => Some(a),
            FileExclusionFilter::_MULTIPLE(att, _, _) => att,
            _ => None,
        }
    }

    /// The path-or-name strings this value carries.
    pub open spec fn spec_paths(self) -> Seq<Seq<char>> {
        match self {
            FileExclusionFilter::PathOrName(p) => p.deep_view(),
            FileExclusionFilter::_MULTIPLE(_, p, _) => p.deep_view(),
            _ => Seq::<Seq<char>>::empty(),
        }
    }

    /// The set of boolean flags this value stands for.
    pub open spec fn spec_flags(self) -> FileExclusionFlagSet {
        match self {
            FileExclusionFilter::CHANGED => FileExclusionFlagSet {
                changed: true,
                ..FileExclusionFlagSet::empty_set()
            },
            FileExclusionFilter::OLDER => FileExclusionFlagSet {
                older: true,
                ..FileExclusionFlagSet::empty_set()
            },
            FileExclusionFilter::NEWER => FileExclusionFlagSet {
                newer: true,
                ..FileExclusionFlagSet::empty_set()
            },
            FileExclusionFilter::JUNCTION_POINTS => FileExclusionFlagSet {
                junction_points: true,
                ..FileExclusionFlagSet::empty_set()
            },
            FileExclusionFilter::_MULTIPLE(_, _, f) => f,
            _ => FileExclusionFlagSet::empty_set(),
        }
    }

    /// Which variant this value is, as a position in the declaration
    /// order.
    pub open spec fn spec_shape(self) -> int {
        match self {
            FileExclusionFilter::Attributes(_) => 0,
            FileExclusionFilter::PathOrName(_) => 1,
            FileExclusionFilter::CHANGED => 2,
            FileExclusionFilter::OLDER => 3,
            FileExclusionFilter::NEWER => 4,
            FileExclusionFilter::JUNCTION_POINTS => 5,
            FileExclusionFilter::_MULTIPLE(_, _, _) => 6,
        }
    }

    /// The position of a single boolean flag in the fixed vocabulary
    /// order.
    pub open spec fn spec_index(self) -> Option<usize> {
        match self {
            FileExclusionFilter::CHANGED => Some(0usize),
            FileExclusionFilter::OLDER => Some(1usize),
            FileExclusionFilter::NEWER => Some(2usize),
            FileExclusionFilter::JUNCTION_POINTS => Some(3usize),
            _ => None,
        }
    }

    /// The position of a single boolean flag in the fixed vocabulary
    /// order; `None` for the payload-bearing and combined shapes.
    pub fn index_of(&self) -> (r: Option<usize>)
        ensures
            r == self.spec_index(),
    {
        match self {
            FileExclusionFilter::CHANGED => Some(0),
            FileExclusionFilter::OLDER => Some(1),
            FileExclusionFilter::NEWER => Some(2),
            FileExclusionFilter::JUNCTION_POINTS => Some(3),
            _ => None,
        }
    }

    /// Split this value into its three payload slots.
    fn into_parts(self) -> (r: (Option<FileAttributes>, Vec<String>, FileExclusionFlagSet))
        ensures
            r.0 == self.spec_attribs(),
            r.1.deep_view() == self.spec_paths(),
            r.2 == self.spec_flags(),
    {
        let none = FileExclusionFlagSet {
            changed: false,
            older: false,
            newer: false,
            junction_points: false,
        };
        match self {
            FileExclusionFilter::_MULTIPLE(att, p, f) => (att, p, f),
            FileExclusionFilter::Attributes(a) => (Some(a), Vec::new(), none),
            FileExclusionFilter::PathOrName(p) => (None, p, none),
            FileExclusionFilter::CHANGED => (None, Vec::new(), FileExclusionFlagSet {
                changed: true,
                ..none
            }),
            FileExclusionFilter::OLDER => (None, Vec::new(), FileExclusionFlagSet {
                older: true,
                ..none
            }),
            FileExclusionFilter::NEWER => (None, Vec::new(), FileExclusionFlagSet {
                newer: true,
                ..none
            }),
            FileExclusionFilter::JUNCTION_POINTS => (None, Vec::new(), FileExclusionFlagSet {
                junction_points: true,
                ..none
            }),
        }
    }

    /// Merge two file exclusion values: the boolean presence sets are
    /// unioned, attribute bundles present on both sides are merged via
    /// the attribute family's own union, and the path lists are
    /// concatenated, preserving all entries from both sides.
    pub fn combine(self, rhs: FileExclusionFilter) -> (r: FileExclusionFilter)
        ensures
            r is _MULTIPLE,
            r.spec_attribs() == spec_opt_attr_combine(self.spec_attribs(), rhs.spec_attribs()),
            r.spec_paths() == self.spec_paths() + rhs.spec_paths(),
            r.spec_flags() == self.spec_flags().spec_merge(rhs.spec_flags()),
    {
        let ghost ap = self.spec_paths();
        let ghost bp = rhs.spec_paths();
        let (att1, p1, f1) = self.into_parts();
        let (att2, p2, f2) = rhs.into_parts();
        let att = match (att1, att2) {
            (Some(a), Some(b)) => Some(a.combine(b)),
            (Some(a), None) => Some(a),
            (None, other) => other,
        };
        let mut p = p1;
        let mut p2 = p2;
        p.append(&mut p2);
        proof {
            assert(p.deep_view() =~= ap + bp);
        }
        FileExclusionFilter::_MULTIPLE(att, p, f1.merge(f2))
    }

    /// The single boolean flags present in `f`, in vocabulary order.
    pub open spec fn flag_singles(f: FileExclusionFlagSet) -> Seq<FileExclusionFilter> {
        (if f.changed { seq![FileExclusionFilter::CHANGED] } else { Seq::<FileExclusionFilter>::empty() })
            + (if f.older { seq![FileExclusionFilter::OLDER] } else { Seq::<FileExclusionFilter>::empty() })
            + (if f.newer { seq![FileExclusionFilter::NEWER] } else { Seq::<FileExclusionFilter>::empty() })
            + (if f.junction_points { seq![FileExclusionFilter::JUNCTION_POINTS] } else { Seq::<FileExclusionFilter>::empty() })
    }

    /// The canonical decomposition of this value into single filters, in
    /// the declaration order of the vocabulary: the attribute bundle,
    /// then the path-or-name list, then the boolean flags.
    pub open spec fn spec_singles(self) -> Seq<FileExclusionFilter> {
        match self {
            FileExclusionFilter::_MULTIPLE(att, paths, flags) => (match att {
                Some(a) => seq![FileExclusionFilter::Attributes(a)],
                None => Seq::<FileExclusionFilter>::empty(),
            }) + (if paths.deep_view().len() > 0 {
                seq![FileExclusionFilter::PathOrName(paths)]
            } else {
                Seq::<FileExclusionFilter>::empty()
            }) + FileExclusionFilter::flag_singles(flags),
            _ => seq![self],
        }
    }

    /// The tokens this value renders as: an `/xa:` token with the letter
    /// run of the attribute bundle, `/xf` followed by one token per path
    /// or name, and one token per boolean flag, in that order.
    pub open spec fn spec_render(self) -> Seq<Seq<char>> {
        match self {
            FileExclusionFilter::_MULTIPLE(att, paths, flags) => (match att {
                Some(a) => seq!["/xa:"@ + a.spec_letters()],
                None => Seq::<Seq<char>>::empty(),
            }) + (if paths.deep_view().len() > 0 {
                seq!["/xf"@] + paths.deep_view()
            } else {
                Seq::<Seq<char>>::empty()
            }) + flags.tokens(),
            FileExclusionFilter::Attributes(a) => seq!["/xa:"@ + a.spec_letters()],
            FileExclusionFilter::PathOrName(p) => seq!["/xf"@] + p.deep_view(),
            FileExclusionFilter::CHANGED => seq!["/xc"@],
            FileExclusionFilter::OLDER => seq!["/xo"@],
            FileExclusionFilter::NEWER => seq!["/xn"@],
            FileExclusionFilter::JUNCTION_POINTS => seq!["/xjf"@],
        }
    }

    /// Render this value as its token list.
    #[verifier::rlimit(100)]
    pub fn render(&self) -> (r: Vec<String>)
        ensures
            r.deep_view() == self.spec_render(),
    {
        let mut r: Vec<String> = Vec::new();
        match self {
            FileExclusionFilter::_MULTIPLE(att, paths, flags) => {
                let ghost p1 = match att {
                    Some(a) => seq!["/xa:"@ + a.spec_letters()],
                    None => Seq::<Seq<char>>::empty(),
                };
                let ghost p2 = if paths.deep_view().len() > 0 {
                    seq!["/xf"@] + paths.deep_view()
                } else {
                    Seq::<Seq<char>>::empty()
                };
                let ghost g1 = if flags.changed { seq!["/xc"@] } else { Seq::<Seq<char>>::empty() };
                let ghost g2 = if flags.older { seq!["/xo"@] } else { Seq::<Seq<char>>::empty() };
                let ghost g3 = if flags.newer { seq!["/xn"@] } else { Seq::<Seq<char>>::empty() };
                let ghost g4 = if flags.junction_points { seq!["/xjf"@] } else { Seq::<Seq<char>>::empty() };
                if let Some(a) = att {
                    let mut t = String::from_str("/xa:");
                    let letters = a.letters();
                    t.append(letters.as_str());
                    push_token(&mut r, t);
                }
                proof {
                    assert(r.deep_view() =~= p1);
                }
                if paths.len() > 0 {
                    push_token(&mut r, String::from_str("/xf"));
                    append_tokens(&mut r, clone_strings(paths));
                }
                proof {
                    assert(r.deep_view() =~= p1 + p2);
                }
                if flags.changed {
                    push_token(&mut r, String::from_str("/xc"));
                }
                proof {
                    assert(r.deep_view() =~= p1 + p2 + g1);
                }
                if flags.older {
                    push_token(&mut r, String::from_str("/xo"));
                }
                proof {
                    assert(r.deep_view() =~= p1 + p2 + g1 + g2);
                }
                if flags.newer {
                    push_token(&mut r, String::from_str("/xn"));
                }
                proof {
                    assert(r.deep_view() =~= p1 + p2 + g1 + g2 + g3);
                }
                if flags.junction_points {
                    push_token(&mut r, String::from_str("/xjf"));
                }
                proof {
                    assert(r.deep_view() =~= p1 + p2 + g1 + g2 + g3 + g4);
                    assert(r.deep_view() == self.spec_render());
                }
            },
            FileExclusionFilter::Attributes(a) => {
                let mut t = String::from_str("/xa:");
                let letters = a.letters();
                t.append(letters.as_str());
                push_token(&mut r, t);
                proof {
                    assert(r.deep_view() =~= self.spec_render());
                }
            },
            FileExclusionFilter::PathOrName(p) => {
                push_token(&mut r, String::from_str("/xf"));
                append_tokens(&mut r, clone_strings(p));
                proof {
                    assert(r.deep_view() =~= self.spec_render());
                }
            },
            FileExclusionFilter::CHANGED => {
                push_token(&mut r, String::from_str("/xc"));
                proof {
                    assert(r.deep_view() =~= self.spec_render());
                }
            },
            FileExclusionFilter::OLDER => {
                push_token(&mut r, String::from_str("/xo"));
                proof {
                    assert(r.deep_view() =~= self.spec_render());
                }
            },
            FileExclusionFilter::NEWER => {
                push_token(&mut r, String::from_str("/xn"));
                proof {
                    assert(r.deep_view() =~= self.spec_render());
                }
            },
            FileExclusionFilter::JUNCTION_POINTS => {
                push_token(&mut r, String::from_str("/xjf"));
                proof {
                    assert(r.deep_view() =~= self.spec_render());
                }
            },
        }
        r
    }
}

/// Two file exclusion values are alike when they are the same variant
/// with the same attribute bundle, the same path strings and the same
/// boolean flags.
pub open spec fn file_filter_alike(a: FileExclusionFilter, b: FileExclusionFilter) -> bool {
    a.spec_shape() == b.spec_shape() && a.spec_attribs() == b.spec_attribs() && a.spec_paths()
        == b.spec_paths() && a.spec_flags() == b.spec_flags()
}

/// Pointwise likeness of two decompositions.
pub open spec fn file_filter_alike_seq(
    s: Seq<FileExclusionFilter>,
    m: Seq<FileExclusionFilter>,
) -> bool {
    s.len() == m.len() && (forall|i: int|
        0 <= i < s.len() ==> file_filter_alike(#[trigger] s[i], m[i]))
}

impl MultipleVariant for FileExclusionFilter {
    open spec fn is_decomposition(&self, s: Seq<FileExclusionFilter>) -> bool {
        file_filter_alike_seq(s, self.spec_singles())
    }

    #[verifier::rlimit(100)]
    fn single_variants(&self) -> (r: Vec<FileExclusionFilter>) {
        let mut r: Vec<FileExclusionFilter> = Vec::new();
        match self {
            FileExclusionFilter::_MULTIPLE(att, paths, flags) => {
                let ghost m1 = match att {
                    Some(a) => seq![FileExclusionFilter::Attributes(*a)],
                    None => Seq::<FileExclusionFilter>::empty(),
                };
                let ghost m2 = if paths.deep_view().len() > 0 {
                    seq![FileExclusionFilter::PathOrName(*paths)]
                } else {
                    Seq::<FileExclusionFilter>::empty()
                };
                let ghost g1 = if flags.changed { seq![FileExclusionFilter::CHANGED] } else { Seq::<FileExclusionFilter>::empty() };
                let ghost g2 = if flags.older { seq![FileExclusionFilter::OLDER] } else { Seq::<FileExclusionFilter>::empty() };
                let ghost g3 = if flags.newer { seq![FileExclusionFilter::NEWER] } else { Seq::<FileExclusionFilter>::empty() };
                let ghost g4 = if flags.junction_points { seq![FileExclusionFilter::JUNCTION_POINTS] } else { Seq::<FileExclusionFilter>::empty() };
                if let Some(a) = att {
                    r.push(FileExclusionFilter::Attributes(*a));
                }
                proof {
                    assert(file_filter_alike_seq(r@, m1));
                }
                if paths.len() > 0 {
                    r.push(FileExclusionFilter::PathOrName(clone_strings(paths)));
                }
                proof {
                    assert(file_filter_alike_seq(r@, m1 + m2));
                }
                if flags.changed {
                    r.push(FileExclusionFilter::CHANGED);
                }
                proof {
                    assert(file_filter_alike_seq(r@, m1 + m2 + g1));
                }
                if flags.older {
                    r.push(FileExclusionFilter::OLDER);
                }
                proof {
                    assert(file_filter_alike_seq(r@, m1 + m2 + g1 + g2));
                }
                if flags.newer {
                    r.push(FileExclusionFilter::NEWER);
                }
                proof {
                    assert(file_filter_alike_seq(r@, m1 + m2 + g1 + g2 + g3));
                }
                if flags.junction_points {
                    r.push(FileExclusionFilter::JUNCTION_POINTS);
                }
                proof {
                    assert(file_filter_alike_seq(r@, m1 + m2 + g1 + g2 + g3 + g4));
                    assert(m1 + m2 + g1 + g2 + g3 + g4 == self.spec_singles());
                }
            },
            FileExclusionFilter::Attributes(a) => {
                r.push(FileExclusionFilter::Attributes(*a));
                proof {
                    assert(file_filter_alike_seq(r@, self.spec_singles()));
                }
            },
            FileExclusionFilter::PathOrName(p) => {
                r.push(FileExclusionFilter::PathOrName(clone_strings(p)));
                proof {
                    assert(file_filter_alike_seq(r@, self.spec_singles()));
                }
            },
            FileExclusionFilter::CHANGED => {
                r.push(FileExclusionFilter::CHANGED);
                proof {
                    assert(file_filter_alike_seq(r@, self.spec_singles()));
                }
            },
            FileExclusionFilter::OLDER => {
                r.push(FileExclusionFilter::OLDER);
                proof {
                    assert(file_filter_alike_seq(r@, self.spec_singles()));
                }
            },
            FileExclusionFilter::NEWER => {
                r.push(FileExclusionFilter::NEWER);
                proof {
                    assert(file_filter_alike_seq(r@, self.spec_singles()));
                }
            },
            FileExclusionFilter::JUNCTION_POINTS => {
                r.push(FileExclusionFilter::JUNCTION_POINTS);
                proof {
                    assert(file_filter_alike_seq(r@, self.spec_singles()));
                }
            },
        }
        r
    }
}

/// Alike file exclusion values render to the same tokens.
pub proof fn lemma_file_filter_alike_render(a: FileExclusionFilter, b: FileExclusionFilter)
    requires
        file_filter_alike(a, b),
    ensures
        a.spec_render() == b.spec_render(),
{
    assert(a.spec_render() =~= b.spec_render());
}

/// Combination of file exclusion values is commutative up to the order
/// of the concatenated path lists: the boolean presence set, the merged
/// attribute bundle and the multiset of path strings do not depend on
/// the operand order.
pub proof fn lemma_file_filter_combine_commutative(a: FileExclusionFilter, b: FileExclusionFilter)
    ensures
        spec_opt_attr_combine(a.spec_attribs(), b.spec_attribs()) == spec_opt_attr_combine(
            b.spec_attribs(),
            a.spec_attribs(),
        ),
        a.spec_flags().spec_merge(b.spec_flags()) == b.spec_flags().spec_merge(a.spec_flags()),
        (a.spec_paths() + b.spec_paths()).to_multiset() == (b.spec_paths()
            + a.spec_paths()).to_multiset(),
{
    vstd::seq_lib::lemma_multiset_commutative(a.spec_paths(), b.spec_paths());
    vstd::seq_lib::lemma_multiset_commutative(b.spec_paths(), a.spec_paths());
    assert(a.spec_paths().to_multiset().add(b.spec_paths().to_multiset())
        =~= b.spec_paths().to_multiset().add(a.spec_paths().to_multiset()));
}

/// Combination of file exclusion values is associative: each payload
/// slot and the boolean presence set associate.
pub proof fn lemma_file_filter_combine_associative(
    a: FileExclusionFilter,
    b: FileExclusionFilter,
    c: FileExclusionFilter,
)
    ensures
        spec_opt_attr_combine(
            spec_opt_attr_combine(a.spec_attribs(), b.spec_attribs()),
            c.spec_attribs(),
        ) == spec_opt_attr_combine(
            a.spec_attribs(),
            spec_opt_attr_combine(b.spec_attribs(), c.spec_attribs()),
        ),
        a.spec_flags().spec_merge(b.spec_flags()).spec_merge(c.spec_flags())
            == a.spec_flags().spec_merge(b.spec_flags().spec_merge(c.spec_flags())),
        (a.spec_paths() + b.spec_paths()) + c.spec_paths() == a.spec_paths() + (b.spec_paths()
            + c.spec_paths()),
{
    assert((a.spec_paths() + b.spec_paths()) + c.spec_paths() =~= a.spec_paths() + (b.spec_paths()
        + c.spec_paths()));
}

/// A value with no attribute bundle, no paths and no boolean flags is an
/// identity for combination at the model level.
pub proof fn lemma_file_filter_combine_identity(v: FileExclusionFilter, e: FileExclusionFilter)
    requires
        e.spec_attribs() is None,
        e.spec_paths() == Seq::<Seq<char>>::empty(),
        e.spec_flags() == FileExclusionFlagSet::empty_set(),
    ensures
        spec_opt_attr_combine(v.spec_attribs(), e.spec_attribs()) == v.spec_attribs(),
        v.spec_paths() + e.spec_paths() == v.spec_paths(),
        v.spec_flags().spec_merge(e.spec_flags()) == v.spec_flags(),
{
    assert(v.spec_paths() + e.spec_paths() =~= v.spec_paths());
    assert(v.spec_flags().spec_merge(e.spec_flags()) =~= v.spec_flags());
}

/// The token lists of a decomposition, in order.
pub open spec fn file_filter_render_runs(s: Seq<FileExclusionFilter>) -> Seq<Seq<Seq<char>>> {
    s.map_values(|f: FileExclusionFilter| f.spec_render())
}

/// The token list of each single filter of a decomposition, concatenated
/// in order.
pub open spec fn file_filter_renders_of_singles(s: Seq<FileExclusionFilter>) -> Seq<Seq<char>> {
    file_filter_render_runs(s).flatten()
}

proof fn lemma_file_filter_renders_concat(x: Seq<FileExclusionFilter>, y: Seq<FileExclusionFilter>)
    ensures
        file_filter_renders_of_singles(x + y) == file_filter_renders_of_singles(x)
            + file_filter_renders_of_singles(y),
{
    assert(file_filter_render_runs(x + y) =~= file_filter_render_runs(x)
        + file_filter_render_runs(y));
    lemma_flatten_concat(file_filter_render_runs(x), file_filter_render_runs(y));
}

proof fn lemma_file_filter_renders_one_or_nil(s: Seq<FileExclusionFilter>, f: FileExclusionFilter)
    requires
        s == seq![f] || s == Seq::<FileExclusionFilter>::empty(),
    ensures
        s == seq![f] ==> file_filter_renders_of_singles(s) == f.spec_render(),
        s == Seq::<FileExclusionFilter>::empty() ==> file_filter_renders_of_singles(s)
            == Seq::<Seq<char>>::empty(),
{
    if s == seq![f] {
        assert(file_filter_render_runs(seq![f]) =~= seq![f.spec_render()]);
        file_filter_render_runs(seq![f]).lemma_flatten_one_element();
    } else {
        assert(file_filter_render_runs(Seq::<FileExclusionFilter>::empty())
            =~= Seq::<Seq<Seq<char>>>::empty());
        assert(file_filter_renders_of_singles(Seq::<FileExclusionFilter>::empty())
            =~= Seq::<Seq<char>>::empty());
    }
}

/// Round-trip for the boolean flag part of a combined value.
proof fn lemma_file_filter_rt_flags(flags: FileExclusionFlagSet)
    ensures
        file_filter_renders_of_singles(FileExclusionFilter::flag_singles(flags)) == flags.tokens(),
{
    let g1 = if flags.changed { seq![FileExclusionFilter::CHANGED] } else { Seq::<FileExclusionFilter>::empty() };
    let g2 = if flags.older { seq![FileExclusionFilter::OLDER] } else { Seq::<FileExclusionFilter>::empty() };
    let g3 = if flags.newer { seq![FileExclusionFilter::NEWER] } else { Seq::<FileExclusionFilter>::empty() };
    let g4 = if flags.junction_points { seq![FileExclusionFilter::JUNCTION_POINTS] } else { Seq::<FileExclusionFilter>::empty() };
    let t1 = if flags.changed { seq!["/xc"@] } else { Seq::<Seq<char>>::empty() };
    let t2 = if flags.older { seq!["/xo"@] } else { Seq::<Seq<char>>::empty() };
    let t3 = if flags.newer { seq!["/xn"@] } else { Seq::<Seq<char>>::empty() };
    let t4 = if flags.junction_points { seq!["/xjf"@] } else { Seq::<Seq<char>>::empty() };
    lemma_file_filter_renders_one_or_nil(g1, FileExclusionFilter::CHANGED);
    assert(file_filter_renders_of_singles(g1) == t1);
    lemma_file_filter_renders_one_or_nil(g2, FileExclusionFilter::OLDER);
    assert(file_filter_renders_of_singles(g2) == t2);
    lemma_file_filter_renders_one_or_nil(g3, FileExclusionFilter::NEWER);
    assert(file_filter_renders_of_singles(g3) == t3);
    lemma_file_filter_renders_one_or_nil(g4, FileExclusionFilter::JUNCTION_POINTS);
    assert(file_filter_renders_of_singles(g4) == t4);
    lemma_file_filter_renders_concat(g1, g2);
    lemma_file_filter_renders_concat(g1 + g2, g3);
    lemma_file_filter_renders_concat(g1 + g2 + g3, g4);
}

/// Round-trip for one combined file exclusion value.
proof fn lemma_file_filter_rt_multiple(
    att: Option<FileAttributes>,
    paths: Vec<String>,
    flags: FileExclusionFlagSet,
)
    ensures
        file_filter_renders_of_singles(
            FileExclusionFilter::_MULTIPLE(att, paths, flags).spec_singles(),
        ) == FileExclusionFilter::_MULTIPLE(att, paths, flags).spec_render(),
{
    let v = FileExclusionFilter::_MULTIPLE(att, paths, flags);
    let m1 = match att {
        Some(a) => seq![FileExclusionFilter::Attributes(a)],
        None => Seq::<FileExclusionFilter>::empty(),
    };
    let m2 = if paths.deep_view().len() > 0 {
        seq![FileExclusionFilter::PathOrName(paths)]
    } else {
        Seq::<FileExclusionFilter>::empty()
    };
    let gs = FileExclusionFilter::flag_singles(flags);
    let q1 = match att {
        Some(a) => seq!["/xa:"@ + a.spec_letters()],
        None => Seq::<Seq<char>>::empty(),
    };
    let q2 = if paths.deep_view().len() > 0 {
        seq!["/xf"@] + paths.deep_view()
    } else {
        Seq::<Seq<char>>::empty()
    };
    if att is Some {
        lemma_file_filter_renders_one_or_nil(m1, FileExclusionFilter::Attributes(att->0));
    } else {
        lemma_file_filter_renders_one_or_nil(m1, FileExclusionFilter::CHANGED);
    }
    assert(file_filter_renders_of_singles(m1) == q1);
    if paths.deep_view().len() > 0 {
        lemma_file_filter_renders_one_or_nil(m2, FileExclusionFilter::PathOrName(paths));
    } else {
        lemma_file_filter_renders_one_or_nil(m2, FileExclusionFilter::CHANGED);
    }
    assert(file_filter_renders_of_singles(m2) == q2);
    lemma_file_filter_rt_flags(flags);
    lemma_file_filter_renders_concat(m1, m2);
    lemma_file_filter_renders_concat(m1 + m2, gs);
    assert(v.spec_singles() == (m1 + m2) + gs);
    assert(v.spec_render() == (q1 + q2) + flags.tokens());
}

/// Round-trip law: rendering a file exclusion value yields exactly the
/// concatenation of the renderings of any decomposition of it into
/// single filters.
pub proof fn lemma_file_filter_render_round_trip(
    v: FileExclusionFilter,
    s: Seq<FileExclusionFilter>,
)
    requires
        v.is_decomposition(s),
    ensures
        file_filter_renders_of_singles(s) == v.spec_render(),
{
    let m = v.spec_singles();
    assert forall|i: int| 0 <= i < s.len() implies (#[trigger] file_filter_render_runs(s)[i])
        == file_filter_render_runs(m)[i] by {
        lemma_file_filter_alike_render(s[i], m[i]);
    }
    assert(file_filter_render_runs(s) =~= file_filter_render_runs(m));
    match v {
        FileExclusionFilter::_MULTIPLE(att, paths, flags) => {
            lemma_file_filter_rt_multiple(att, paths, flags);
        },
        _ => {
            lemma_file_filter_renders_one_or_nil(m, v);
        },
    }
}


/// Handles all filter attributes supported by robocopy: the archive
/// flag, attribute-based inclusion, the four exclusion families, and the
/// size, age and access-date bounds.
#[derive(Debug, Clone)]
pub struct Filter {
    pub handle_archive_and_reset: bool,
    pub include_only_files_with_any_of_these_attribs: Option<FileAttributes>,
    pub file_exclusion_filter: Option<FileExclusionFilter>,
    pub directory_exclusion_filter: Option<DirectoryExclusionFilter>,
    pub file_and_directory_exclusion_filter: Option<FileAndDirectoryExclusionFilter>,
    pub file_exclusion_filter_exceptions: Option<FileExclusionFilterException>,
    pub max_size: Option<u128>,
    pub min_size: Option<u128>,
    pub max_age: Option<String>,
    pub min_age: Option<String>,
    pub max_last_access_date: Option<String>,
    pub min_last_access_date: Option<String>,
}

impl Filter {
    /// The size, age and access-date bound tokens, in the fixed order
    /// `/max:`, `/min:`, `/maxage:`, `/minage:`, `/maxlad:`, `/minlad:`.
    pub open spec fn spec_bound_tokens(self) -> Seq<Seq<char>> {
        (match self.max_size {
            Some(n) => seq!["/max:"@ + dec(n as nat)],
            None => Seq::<Seq<char>>::empty(),
        }) + (match self.min_size {
            Some(n) => seq!["/min:"@ + dec(n as nat)],
            None => Seq::<Seq<char>>::empty(),
        }) + (match self.max_age {
            Some(s) => seq!["/maxage:"@ + s@],
            None => Seq::<Seq<char>>::empty(),
        }) + (match self.min_age {
            Some(s) => seq!["/minage:"@ + s@],
            None => Seq::<Seq<char>>::empty(),
        }) + (match self.max_last_access_date {
            Some(s) => seq!["/maxlad:"@ + s@],
            None => Seq::<Seq<char>>::empty(),
        }) + (match self.min_last_access_date {
            Some(s) => seq!["/minlad:"@ + s@],
            None => Seq::<Seq<char>>::empty(),
        })
    }

    /// The tokens this filter renders as: the archive flag, the
    /// attribute inclusion token, the four exclusion families in order
    /// (files, directories, files and directories, exceptions), then the
    /// bounds.
    pub open spec fn spec_render(self) -> Seq<Seq<char>> {
        (if self.handle_archive_and_reset { seq!["/m"@] } else { Seq::<Seq<char>>::empty() })
            + (match self.include_only_files_with_any_of_these_attribs {
                Some(a) => seq!["/ia:"@ + a.spec_letters()],
                None => Seq::<Seq<char>>::empty(),
            }) + (match self.file_exclusion_filter {
                Some(f) => f.spec_render(),
                None => Seq::<Seq<char>>::empty(),
            }) + (match self.directory_exclusion_filter {
                Some(f) => f.spec_render(),
                None => Seq::<Seq<char>>::empty(),
            }) + (match self.file_and_directory_exclusion_filter {
                Some(f) => f.spec_render(),
                None => Seq::<Seq<char>>::empty(),
            }) + (match self.file_exclusion_filter_exceptions {
                Some(f) => f.spec_render(),
                None => Seq::<Seq<char>>::empty(),
            }) + self.spec_bound_tokens()
    }

    /// Render the size, age and access-date bound tokens.
    #[verifier::rlimit(100)]
    fn render_bounds(&self) -> (r: Vec<String>)
        ensures
            r.deep_view() == self.spec_bound_tokens(),
    {
        let ghost b1 = match self.max_size {
            Some(n) => seq!["/max:"@ + dec(n as nat)],
            None => Seq::<Seq<char>>::empty(),
        };
        let ghost b2 = match self.min_size {
            Some(n) => seq!["/min:"@ + dec(n as nat)],
            None => Seq::<Seq<char>>::empty(),
        };
        let ghost b3 = match &self.max_age {
            Some(s) => seq!["/maxage:"@ + s@],
            None => Seq::<Seq<char>>::empty(),
        };
        let ghost b4 = match &self.min_age {
            Some(s) => seq!["/minage:"@ + s@],
            None => Seq::<Seq<char>>::empty(),
        };
        let ghost b5 = match &self.max_last_access_date {
            Some(s) => seq!["/maxlad:"@ + s@],
            None => Seq::<Seq<char>>::empty(),
        };
        let ghost b6 = match &self.min_last_access_date {
            Some(s) => seq!["/minlad:"@ + s@],
            None => Seq::<Seq<char>>::empty(),
        };
        let mut r: Vec<String> = Vec::new();
        if let Some(n) = self.max_size {
            let mut t = String::from_str("/max:");
            let digits = dec_str(n);
            t.append(digits.as_str());
            push_token(&mut r, t);
        }
        proof {
            assert(r.deep_view() =~= b1);
        }
        if let Some(n) = self.min_size {
            let mut t = String::from_str("/min:");
            let digits = dec_str(n);
            t.append(digits.as_str());
            push_token(&mut r, t);
        }
        proof {
            assert(r.deep_view() =~= b1 + b2);
        }
        if let Some(s) = &self.max_age {
            let mut t = String::from_str("/maxage:");
            t.append(s.as_str());
            push_token(&mut r, t);
        }
        proof {
            assert(r.deep_view() =~= b1 + b2 + b3);
        }
        if let Some(s) = &self.min_age {
            let mut t = String::from_str("/minage:");
            t.append(s.as_str());
            push_token(&mut r, t);
        }
        proof {
            assert(r.deep_view() =~= b1 + b2 + b3 + b4);
        }
        if let Some(s) = &self.max_last_access_date {
            let mut t = String::from_str("/maxlad:");
            t.append(s.as_str());
            push_token(&mut r, t);
        }
        proof {
            assert(r.deep_view() =~= b1 + b2 + b3 + b4 + b5);
        }
        if let Some(s) = &self.min_last_access_date {
            let mut t = String::from_str("/minlad:");
            t.append(s.as_str());
            push_token(&mut r, t);
        }
        proof {
            assert(r.deep_view() =~= b1 + b2 + b3 + b4 + b5 + b6);
            assert(r.deep_view() == self.spec_bound_tokens());
        }
        r
    }

    /// Render this filter as its token list.
    #[verifier::rlimit(100)]
    pub fn render(&self) -> (r: Vec<String>)
        ensures
            r.deep_view() == self.spec_render(),
    {
        let ghost p1 = if self.handle_archive_and_reset { seq!["/m"@] } else { Seq::<Seq<char>>::empty() };
        let ghost p2 = match self.include_only_files_with_any_of_these_attribs {
            Some(a) => seq!["/ia:"@ + a.spec_letters()],
            None => Seq::<Seq<char>>::empty(),
        };
        let ghost p3 = match &self.file_exclusion_filter {
            Some(f) => f.spec_render(),
            None => Seq::<Seq<char>>::empty(),
        };
        let ghost p4 = match &self.directory_exclusion_filter {
            Some(f) => f.spec_render(),
            None => Seq::<Seq<char>>::empty(),
        };
        let ghost p5 = match self.file_and_directory_exclusion_filter {
            Some(f) => f.spec_render(),
            None => Seq::<Seq<char>>::empty(),
        };
        let ghost p6 = match self.file_exclusion_filter_exceptions {
            Some(f) => f.spec_render(),
            None => Seq::<Seq<char>>::empty(),
        };
        let mut r: Vec<String> = Vec::new();
        if self.handle_archive_and_reset {
            push_token(&mut r, String::from_str("/m"));
        }
        proof {
            assert(r.deep_view() =~= p1);
        }
        if let Some(a) = &self.include_only_files_with_any_of_these_attribs {
            let mut t = String::from_str("/ia:");
            let letters = a.letters();
            t.append(letters.as_str());
            push_token(&mut r, t);
        }
        proof {
            assert(r.deep_view() =~= p1 + p2);
        }
        if let Some(f) = &self.file_exclusion_filter {
            append_tokens(&mut r, f.render());
        }
        proof {
            assert(r.deep_view() =~= p1 + p2 + p3);
        }
        if let Some(f) = &self.directory_exclusion_filter {
            append_tokens(&mut r, f.render());
        }
        proof {
            assert(r.deep_view() =~= p1 + p2 + p3 + p4);
        }
        if let Some(f) = &self.file_and_directory_exclusion_filter {
            append_tokens(&mut r, f.render());
        }
        proof {
            assert(r.deep_view() =~= p1 + p2 + p3 + p4 + p5);
        }
        if let Some(f) = &self.file_exclusion_filter_exceptions {
            append_tokens(&mut r, f.render());
        }
        proof {
            assert(r.deep_view() =~= p1 + p2 + p3 + p4 + p5 + p6);
        }
        let bounds = self.render_bounds();
        append_tokens(&mut r, bounds);
        proof {
            assert(r.deep_view() == self.spec_render());
        }
        r
    }
}

impl Default for Filter {
    /// The filter that filters nothing: no flags, no exclusions, no
    /// bounds.
    fn default() -> (r: Filter)
        ensures
            !r.handle_archive_and_reset,
            r.include_only_files_with_any_of_these_attribs is None,
            r.file_exclusion_filter is None,
            r.directory_exclusion_filter is None,
            r.file_and_directory_exclusion_filter is None,
            r.file_exclusion_filter_exceptions is None,
            r.max_size is None,
            r.min_size is None,
            r.max_age is None,
            r.min_age is None,
            r.max_last_access_date is None,
            r.min_last_access_date is None,
            r.spec_render() == Seq::<Seq<char>>::empty(),
    {
        let r = Filter {
            handle_archive_and_reset: false,
            include_only_files_with_any_of_these_attribs: None,
            file_exclusion_filter: None,
            directory_exclusion_filter: None,
            file_and_directory_exclusion_filter: None,
            file_exclusion_filter_exceptions: None,
            max_size: None,
            min_size: None,
            max_age: None,
            min_age: None,
            max_last_access_date: None,
            min_last_access_date: None,
        };
        proof {
            assert(r.spec_render() =~= Seq::<Seq<char>>::empty());
        }
        r
    }
}


} // verus!
