//! File attribute sets: the `R,A,S,H,C,N,E,T` vocabulary.
//!
//! An attribute value either names exactly one attribute or holds a
//! combined set of them.  Combined values render as a run of
//! single-character codes in the fixed vocabulary order; this run is the
//! sub-serialization embedded in the `/xa:`, `/ia:`, `/a+:` and `/a-:`
//! tokens.

use vstd::prelude::*;
use vstd::seq_lib::lemma_flatten_concat;
use crate::MultipleVariant;

verus! {

/// Which attributes of the fixed vocabulary are present in a combined
/// attribute value.
#[derive(Debug, Clone, Copy, PartialEq, Eq, Structural)]
#[verifier::ext_equal]
pub struct FileAttributeSet {
    pub read_only: bool,
    pub archive: bool,
    pub system: bool,
    pub hidden: bool,
    pub compressed: bool,
    pub not_content_indexed: bool,
    pub encrypted: bool,
    pub temporary: bool,
}

impl FileAttributeSet {
    /// The set with every attribute present.
    pub open spec fn all_set() -> FileAttributeSet {
        FileAttributeSet {
            read_only: true,
            archive: true,
            system: true,
            hidden: true,
            compressed: true,
            not_content_indexed: true,
            encrypted: true,
            temporary: true,
        }
    }

    /// The set with no attribute present.
    pub open spec fn empty_set() -> FileAttributeSet {
        FileAttributeSet {
            read_only: false,
            archive: false,
            system: false,
            hidden: false,
            compressed: false,
            not_content_indexed: false,
            encrypted: false,
            temporary: false,
        }
    }

    /// The union of two attribute sets.
    pub open spec fn spec_merge(self, other: FileAttributeSet) -> FileAttributeSet {
        FileAttributeSet {
            read_only: self.read_only || other.read_only,
            archive: self.archive || other.archive,
            system: self.system || other.system,
            hidden: self.hidden || other.hidden,
            compressed: self.compressed || other.compressed,
            not_content_indexed: self.not_content_indexed || other.not_content_indexed,
            encrypted: self.encrypted || other.encrypted,
            temporary: self.temporary || other.temporary,
        }
    }

    /// Union two attribute sets.
    pub fn merge(self, other: FileAttributeSet) -> (r: FileAttributeSet)
        ensures
            r == self.spec_merge(other),
    {
        FileAttributeSet {
            read_only: self.read_only || other.read_only,
            archive: self.archive || other.archive,
            system: self.system || other.system,
            hidden: self.hidden || other.hidden,
            compressed: self.compressed || other.compressed,
            not_content_indexed: self.not_content_indexed || other.not_content_indexed,
            encrypted: self.encrypted || other.encrypted,
            temporary: self.temporary || other.temporary,
        }
    }

    /// The single-character codes of the present attributes, in the fixed
    /// vocabulary order `R,A,S,H,C,N,E,T`.
    pub open spec fn letters(self) -> Seq<char> {
        (if self.read_only { seq!['R'] } else { Seq::<char>::empty() })
            + (if self.archive { seq!['A'] } else { Seq::<char>::empty() })
            + (if self.system { seq!['S'] } else { Seq::<char>::empty() })
            + (if self.hidden { seq!['H'] } else { Seq::<char>::empty() })
            + (if self.compressed { seq!['C'] } else { Seq::<char>::empty() })
            + (if self.not_content_indexed { seq!['N'] } else { Seq::<char>::empty() })
            + (if self.encrypted { seq!['E'] } else { Seq::<char>::empty() })
            + (if self.temporary { seq!['T'] } else { Seq::<char>::empty() })
    }

    /// Render the run of single-character codes of this set.
    #[verifier::rlimit(100)]
    pub fn letters_string(&self) -> (r: String)
        ensures
            r@ == self.letters(),
    {
        proof {
            reveal_strlit("R");
            reveal_strlit("A");
            reveal_strlit("S");
            reveal_strlit("H");
            reveal_strlit("C");
            reveal_strlit("N");
            reveal_strlit("E");
            reveal_strlit("T");
        }
        let ghost p1 = if self.read_only { seq!['R'] } else { Seq::<char>::empty() };
        let ghost p2 = if self.archive { seq!['A'] } else { Seq::<char>::empty() };
        let ghost p3 = if self.system { seq!['S'] } else { Seq::<char>::empty() };
        let ghost p4 = if self.hidden { seq!['H'] } else { Seq::<char>::empty() };
        let ghost p5 = if self.compressed { seq!['C'] } else { Seq::<char>::empty() };
        let ghost p6 = if self.not_content_indexed { seq!['N'] } else { Seq::<char>::empty() };
        let ghost p7 = if self.encrypted { seq!['E'] } else { Seq::<char>::empty() };
        let ghost p8 = if self.temporary { seq!['T'] } else { Seq::<char>::empty() };
        let mut s = String::new();
        if self.read_only {
            s.append("R");
        }
        proof {
            assert(s@ =~= p1);
        }
        if self.archive {
            s.append("A");
        }
        proof {
            assert(s@ =~= p1 + p2);
        }
        if self.system {
            s.append("S");
        }
        proof {
            assert(s@ =~= p1 + p2 + p3);
        }
        if self.hidden {
            s.append("H");
        }
        proof {
            assert(s@ =~= p1 + p2 + p3 + p4);
        }
        if self.compressed {
            s.append("C");
        }
        proof {
            assert(s@ =~= p1 + p2 + p3 + p4 + p5);
        }
        if self.not_content_indexed {
            s.append("N");
        }
        proof {
            assert(s@ =~= p1 + p2 + p3 + p4 + p5 + p6);
        }
        if self.encrypted {
            s.append("E");
        }
        proof {
            assert(s@ =~= p1 + p2 + p3 + p4 + p5 + p6 + p7);
        }
        if self.temporary {
            s.append("T");
        }
        proof {
            assert(s@ =~= p1 + p2 + p3 + p4 + p5 + p6 + p7 + p8);
            assert(s@ == self.letters());
        }
        s
    }
}

/// Union of attribute sets is commutative.
pub proof fn lemma_attr_set_merge_commutative(a: FileAttributeSet, b: FileAttributeSet)
    ensures
        a.spec_merge(b) == b.spec_merge(a),
{
}

/// Union of attribute sets is associative.
pub proof fn lemma_attr_set_merge_associative(
    a: FileAttributeSet,
    b: FileAttributeSet,
    c: FileAttributeSet,
)
    ensures
        a.spec_merge(b).spec_merge(c) == a.spec_merge(b.spec_merge(c)),
{
}

/// The empty set is an identity for union.
pub proof fn lemma_attr_set_merge_empty(a: FileAttributeSet)
    ensures
        a.spec_merge(FileAttributeSet::empty_set()) == a,
        FileAttributeSet::empty_set().spec_merge(a) == a,
{
    assert(a.spec_merge(FileAttributeSet::empty_set()) =~= a);
    assert(FileAttributeSet::empty_set().spec_merge(a) =~= a);
}

/// A file attribute value: either exactly one named attribute, or a
/// combined set of them.
#[derive(Debug, Clone, Copy, PartialEq, Eq, Structural)]
pub enum FileAttributes {
    READ_ONLY,
    ARCHIVE,
    SYSTEM,
    HIDDEN,
    COMPRESSED,
    NOT_CONTENT_INDEXED,
    ENCRYPTED,
    TEMPORARY,
    _MULTIPLE(FileAttributeSet),
}

impl FileAttributes {
    /// The set of attributes this value stands for: a single attribute is
    /// the one-element set.
    pub open spec fn spec_set(self) -> FileAttributeSet {
        match self {
            FileAttributes::READ_ONLY => FileAttributeSet {
                read_only: true,
                ..FileAttributeSet::empty_set()
            },
            FileAttributes::ARCHIVE => FileAttributeSet {
                archive: true,
                ..FileAttributeSet::empty_set()
            },
            FileAttributes::SYSTEM => FileAttributeSet {
                system: true,
                ..FileAttributeSet::empty_set()
            },
            FileAttributes::HIDDEN => FileAttributeSet {
                hidden: true,
                ..FileAttributeSet::empty_set()
            },
            FileAttributes::COMPRESSED => FileAttributeSet {
                compressed: true,
                ..FileAttributeSet::empty_set()
            },
            FileAttributes::NOT_CONTENT_INDEXED => FileAttributeSet {
                not_content_indexed: true,
                ..FileAttributeSet::empty_set()
            },
            FileAttributes::ENCRYPTED => FileAttributeSet {
                encrypted: true,
                ..FileAttributeSet::empty_set()
            },
            FileAttributes::TEMPORARY => FileAttributeSet {
                temporary: true,
                ..FileAttributeSet::empty_set()
            },
            FileAttributes::_MULTIPLE(t) => t,
        }
    }

    /// The set of attributes this value stands for.
    pub fn to_set(&self) -> (r: FileAttributeSet)
        ensures
            r == self.spec_set(),
    {
        match self {
            FileAttributes::READ_ONLY => FileAttributeSet {
                read_only: true,
                ..FileAttributeSet::empty()
            },
            FileAttributes::ARCHIVE => FileAttributeSet {
                archive: true,
                ..FileAttributeSet::empty()
            },
            FileAttributes::SYSTEM => FileAttributeSet {
                system: true,
                ..FileAttributeSet::empty()
            },
            FileAttributes::HIDDEN => FileAttributeSet {
                hidden: true,
                ..FileAttributeSet::empty()
            },
            FileAttributes::COMPRESSED => FileAttributeSet {
                compressed: true,
                ..FileAttributeSet::empty()
            },
            FileAttributes::NOT_CONTENT_INDEXED => FileAttributeSet {
                not_content_indexed: true,
                ..FileAttributeSet::empty()
            },
            FileAttributes::ENCRYPTED => FileAttributeSet {
                encrypted: true,
                ..FileAttributeSet::empty()
            },
            FileAttributes::TEMPORARY => FileAttributeSet {
                temporary: true,
                ..FileAttributeSet::empty()
            },
            FileAttributes::_MULTIPLE(t) => *t,
        }
    }

    /// The combined value that merging two attribute values yields.
    pub open spec fn spec_combine(a: FileAttributes, b: FileAttributes) -> FileAttributes {
        FileAttributes::_MULTIPLE(a.spec_set().spec_merge(b.spec_set()))
    }

    /// Merge two attribute values into one combined value whose presence
    /// set is the union of the operands'.
    pub fn combine(self, rhs: FileAttributes) -> (r: FileAttributes)
        ensures
            r == FileAttributes::spec_combine(self, rhs),
    {
        FileAttributes::_MULTIPLE(self.to_set().merge(rhs.to_set()))
    }

    /// Returns a variant containing all available file attributes.
    pub fn all() -> (r: FileAttributes)
        ensures
            r == FileAttributes::_MULTIPLE(FileAttributeSet::all_set()),
    {
        FileAttributes::_MULTIPLE(
            FileAttributeSet {
                read_only: true,
                archive: true,
                system: true,
                hidden: true,
                compressed: true,
                not_content_indexed: true,
                encrypted: true,
                temporary: true,
            },
        )
    }

    /// Returns a variant containing no file attributes.
    pub fn none() -> (r: FileAttributes)
        ensures
            r == FileAttributes::_MULTIPLE(FileAttributeSet::empty_set()),
    {
        FileAttributes::_MULTIPLE(FileAttributeSet::empty())
    }

    /// The position of a single attribute in the fixed vocabulary order.
    pub open spec fn spec_index(self) -> Option<usize> {
        match self {
            FileAttributes::READ_ONLY => Some(0usize),
            FileAttributes::ARCHIVE => Some(1usize),
            FileAttributes::SYSTEM => Some(2usize),
            FileAttributes::HIDDEN => Some(3usize),
            FileAttributes::COMPRESSED => Some(4usize),
            FileAttributes::NOT_CONTENT_INDEXED => Some(5usize),
            FileAttributes::ENCRYPTED => Some(6usize),
            FileAttributes::TEMPORARY => Some(7usize),
            FileAttributes::_MULTIPLE(_) => None,
        }
    }

    /// The position of a single attribute in the fixed vocabulary order;
    /// `None` for a combined value.
    pub fn index_of(&self) -> (r: Option<usize>)
        ensures
            r == self.spec_index(),
    {
        match self {
            FileAttributes::READ_ONLY => Some(0),
            FileAttributes::ARCHIVE => Some(1),
            FileAttributes::SYSTEM => Some(2),
            FileAttributes::HIDDEN => Some(3),
            FileAttributes::COMPRESSED => Some(4),
            FileAttributes::NOT_CONTENT_INDEXED => Some(5),
            FileAttributes::ENCRYPTED => Some(6),
            FileAttributes::TEMPORARY => Some(7),
            FileAttributes::_MULTIPLE(_) => None,
        }
    }

    /// The single attributes present in `t`, in vocabulary order.
    pub open spec fn singles_of_set(t: FileAttributeSet) -> Seq<FileAttributes> {
        (if t.read_only { seq![FileAttributes::READ_ONLY] } else { Seq::<FileAttributes>::empty() })
            + (if t.archive { seq![FileAttributes::ARCHIVE] } else { Seq::<FileAttributes>::empty() })
            + (if t.system { seq![FileAttributes::SYSTEM] } else { Seq::<FileAttributes>::empty() })
            + (if t.hidden { seq![FileAttributes::HIDDEN] } else { Seq::<FileAttributes>::empty() })
            + (if t.compressed { seq![FileAttributes::COMPRESSED] } else { Seq::<FileAttributes>::empty() })
            + (if t.not_content_indexed { seq![FileAttributes::NOT_CONTENT_INDEXED] } else { Seq::<FileAttributes>::empty() })
            + (if t.encrypted { seq![FileAttributes::ENCRYPTED] } else { Seq::<FileAttributes>::empty() })
            + (if t.temporary { seq![FileAttributes::TEMPORARY] } else { Seq::<FileAttributes>::empty() })
    }

    /// The canonical decomposition of this value into single attributes.
    pub open spec fn spec_singles(self) -> Seq<FileAttributes> {
        match self {
            FileAttributes::_MULTIPLE(t) => FileAttributes::singles_of_set(t),
            _ => seq![self],
        }
    }

    /// The run of single-character codes this value renders as.
    pub open spec fn spec_letters(self) -> Seq<char> {
        self.spec_set().letters()
    }

    /// Render this value as its run of single-character codes.
    pub fn letters(&self) -> (r: String)
        ensures
            r@ == self.spec_letters(),
    {
        let t = self.to_set();
        t.letters_string()
    }
}

impl FileAttributeSet {
    /// The set with no attribute present.
    pub fn empty() -> (r: FileAttributeSet)
        ensures
            r == FileAttributeSet::empty_set(),
    {
        FileAttributeSet {
            read_only: false,
            archive: false,
            system: false,
            hidden: false,
            compressed: false,
            not_content_indexed: false,
            encrypted: false,
            temporary: false,
        }
    }
}

impl MultipleVariant for FileAttributes {
    open spec fn is_decomposition(&self, s: Seq<FileAttributes>) -> bool {
        s == self.spec_singles()
    }

    fn single_variants(&self) -> (r: Vec<FileAttributes>) {
        match self {
            FileAttributes::_MULTIPLE(t) => singles_vec_of_set(*t),
            _ => {
                let mut r: Vec<FileAttributes> = Vec::new();
                r.push(*self);
                proof {
                    assert(r@ =~= self.spec_singles());
                }
                r
            },
        }
    }
}

/// Build the decomposition of a combined attribute set into single
/// attribute values, in vocabulary order.
#[verifier::rlimit(100)]
fn singles_vec_of_set(t: FileAttributeSet) -> (r: Vec<FileAttributes>)
    ensures
        r@ == FileAttributes::singles_of_set(t),
{
    let ghost s1 = if t.read_only { seq![FileAttributes::READ_ONLY] } else { Seq::<FileAttributes>::empty() };
    let ghost s2 = if t.archive { seq![FileAttributes::ARCHIVE] } else { Seq::<FileAttributes>::empty() };
    let ghost s3 = if t.system { seq![FileAttributes::SYSTEM] } else { Seq::<FileAttributes>::empty() };
    let ghost s4 = if t.hidden { seq![FileAttributes::HIDDEN] } else { Seq::<FileAttributes>::empty() };
    let ghost s5 = if t.compressed { seq![FileAttributes::COMPRESSED] } else { Seq::<FileAttributes>::empty() };
    let ghost s6 = if t.not_content_indexed { seq![FileAttributes::NOT_CONTENT_INDEXED] } else { Seq::<FileAttributes>::empty() };
    let ghost s7 = if t.encrypted { seq![FileAttributes::ENCRYPTED] } else { Seq::<FileAttributes>::empty() };
    let ghost s8 = if t.temporary { seq![FileAttributes::TEMPORARY] } else { Seq::<FileAttributes>::empty() };
    let mut r: Vec<FileAttributes> = Vec::new();
    if t.read_only {
        r.push(FileAttributes::READ_ONLY);
    }
    proof {
        assert(r@ =~= s1);
    }
    if t.archive {
        r.push(FileAttributes::ARCHIVE);
    }
    proof {
        assert(r@ =~= s1 + s2);
    }
    if t.system {
        r.push(FileAttributes::SYSTEM);
    }
    proof {
        assert(r@ =~= s1 + s2 + s3);
    }
    if t.hidden {
        r.push(FileAttributes::HIDDEN);
    }
    proof {
        assert(r@ =~= s1 + s2 + s3 + s4);
    }
    if t.compressed {
        r.push(FileAttributes::COMPRESSED);
    }
    proof {
        assert(r@ =~= s1 + s2 + s3 + s4 + s5);
    }
    if t.not_content_indexed {
        r.push(FileAttributes::NOT_CONTENT_INDEXED);
    }
    proof {
        assert(r@ =~= s1 + s2 + s3 + s4 + s5 + s6);
    }
    if t.encrypted {
        r.push(FileAttributes::ENCRYPTED);
    }
    proof {
        assert(r@ =~= s1 + s2 + s3 + s4 + s5 + s6 + s7);
    }
    if t.temporary {
        r.push(FileAttributes::TEMPORARY);
    }
    proof {
        assert(r@ =~= s1 + s2 + s3 + s4 + s5 + s6 + s7 + s8);
        assert(r@ == FileAttributes::singles_of_set(t));
    }
    r
}

/// Combination of attribute values yields the same presence set in either
/// order; since the result is always the combined variant, the results
/// are equal outright.
pub proof fn lemma_attr_combine_commutative(a: FileAttributes, b: FileAttributes)
    ensures
        FileAttributes::spec_combine(a, b) == FileAttributes::spec_combine(b, a),
{
}

/// Combination of attribute values is associative.
pub proof fn lemma_attr_combine_associative(
    a: FileAttributes,
    b: FileAttributes,
    c: FileAttributes,
)
    ensures
        FileAttributes::spec_combine(FileAttributes::spec_combine(a, b), c)
            == FileAttributes::spec_combine(a, FileAttributes::spec_combine(b, c)),
{
}

/// The empty combined value is an identity for combination: the presence
/// set is unchanged, and a combined operand comes back unchanged.
pub proof fn lemma_attr_combine_none_identity(v: FileAttributes)
    ensures
        FileAttributes::spec_combine(v, FileAttributes::_MULTIPLE(FileAttributeSet::empty_set())).spec_set()
            == v.spec_set(),
        v is _MULTIPLE ==> FileAttributes::spec_combine(
            v,
            FileAttributes::_MULTIPLE(FileAttributeSet::empty_set()),
        ) == v,
{
    lemma_attr_set_merge_empty(v.spec_set());
}

/// The letter runs of a decomposition, in order.
pub open spec fn letter_runs(s: Seq<FileAttributes>) -> Seq<Seq<char>> {
    s.map_values(|f: FileAttributes| f.spec_letters())
}

/// The letter run of each single attribute of a decomposition,
/// concatenated in order.
pub open spec fn letters_of_singles(s: Seq<FileAttributes>) -> Seq<char> {
    letter_runs(s).flatten()
}

proof fn lemma_letters_of_singles_concat(x: Seq<FileAttributes>, y: Seq<FileAttributes>)
    ensures
        letters_of_singles(x + y) == letters_of_singles(x) + letters_of_singles(y),
{
    assert(letter_runs(x + y) =~= letter_runs(x) + letter_runs(y));
    lemma_flatten_concat(letter_runs(x), letter_runs(y));
}

proof fn lemma_letters_of_singles_one(f: FileAttributes)
    ensures
        letters_of_singles(seq![f]) == f.spec_letters(),
{
    assert(letter_runs(seq![f]) =~= seq![f.spec_letters()]);
    letter_runs(seq![f]).lemma_flatten_one_element();
}

proof fn lemma_letters_of_singles_nil()
    ensures
        letters_of_singles(Seq::<FileAttributes>::empty()) == Seq::<char>::empty(),
{
    assert(letter_runs(Seq::<FileAttributes>::empty()) =~= Seq::<Seq<char>>::empty());
    assert(letters_of_singles(Seq::<FileAttributes>::empty()) =~= Seq::<char>::empty());
}

/// Sub-serialization round trip: the letter run of a value equals the
/// concatenation of the letter runs of its decomposition into single
/// attributes.
pub proof fn lemma_attr_letters_round_trip(v: FileAttributes)
    ensures
        letters_of_singles(v.spec_singles()) == v.spec_letters(),
{
    match v {
        FileAttributes::_MULTIPLE(t) => {
            let s1 = if t.read_only { seq![FileAttributes::READ_ONLY] } else { Seq::<FileAttributes>::empty() };
            let s2 = if t.archive { seq![FileAttributes::ARCHIVE] } else { Seq::<FileAttributes>::empty() };
            let s3 = if t.system { seq![FileAttributes::SYSTEM] } else { Seq::<FileAttributes>::empty() };
            let s4 = if t.hidden { seq![FileAttributes::HIDDEN] } else { Seq::<FileAttributes>::empty() };
            let s5 = if t.compressed { seq![FileAttributes::COMPRESSED] } else { Seq::<FileAttributes>::empty() };
            let s6 = if t.not_content_indexed { seq![FileAttributes::NOT_CONTENT_INDEXED] } else { Seq::<FileAttributes>::empty() };
            let s7 = if t.encrypted { seq![FileAttributes::ENCRYPTED] } else { Seq::<FileAttributes>::empty() };
            let s8 = if t.temporary { seq![FileAttributes::TEMPORARY] } else { Seq::<FileAttributes>::empty() };
            lemma_letters_one_or_nil(s1, FileAttributes::READ_ONLY);
            lemma_letters_one_or_nil(s2, FileAttributes::ARCHIVE);
            lemma_letters_one_or_nil(s3, FileAttributes::SYSTEM);
            lemma_letters_one_or_nil(s4, FileAttributes::HIDDEN);
            lemma_letters_one_or_nil(s5, FileAttributes::COMPRESSED);
            lemma_letters_one_or_nil(s6, FileAttributes::NOT_CONTENT_INDEXED);
            lemma_letters_one_or_nil(s7, FileAttributes::ENCRYPTED);
            lemma_letters_one_or_nil(s8, FileAttributes::TEMPORARY);
            lemma_letters_of_singles_concat(s1, s2);
            lemma_letters_of_singles_concat(s1 + s2, s3);
            lemma_letters_of_singles_concat(s1 + s2 + s3, s4);
            lemma_letters_of_singles_concat(s1 + s2 + s3 + s4, s5);
            lemma_letters_of_singles_concat(s1 + s2 + s3 + s4 + s5, s6);
            lemma_letters_of_singles_concat(s1 + s2 + s3 + s4 + s5 + s6, s7);
            lemma_letters_of_singles_concat(s1 + s2 + s3 + s4 + s5 + s6 + s7, s8);
            assert(letters_of_singles(v.spec_singles()) =~= v.spec_letters());
        },
        _ => {
            lemma_letters_of_singles_one(v);
        },
    }
}

proof fn lemma_letters_one_or_nil(s: Seq<FileAttributes>, f: FileAttributes)
    requires
        s == seq![f] || s == Seq::<FileAttributes>::empty(),
    ensures
        s == seq![f] ==> letters_of_singles(s) == f.spec_letters(),
        s == Seq::<FileAttributes>::empty() ==> letters_of_singles(s) == Seq::<char>::empty(),
{
    if s == seq![f] {
        lemma_letters_of_singles_one(f);
    } else {
        lemma_letters_of_singles_nil();
    }
}

} // verus!
