//! File and directory property families.
//!
//! A property value either names exactly one property to copy or holds a
//! combined set of them.  A value renders as a single token: the family's
//! flag followed by the single-character codes of the present properties
//! in the fixed vocabulary order (`D,A,T,S,O,U` for files, `D,A,T` for
//! directories).

use vstd::prelude::*;
use vstd::seq_lib::lemma_flatten_concat;
use crate::MultipleVariant;

verus! {

/// Which file properties of the fixed vocabulary are present in a
/// combined value.
#[derive(Debug, Clone, Copy, PartialEq, Eq, Structural)]
#[verifier::ext_equal]
pub struct FilePropertySet {
    pub data: bool,
    pub attributes: bool,
    pub time_stamps: bool,
    pub ntfs_access_control_list: bool,
    pub owner_info: bool,
    pub auditing_info: bool,
}

impl FilePropertySet {
    /// The set with every file property present.
    pub open spec fn all_set() -> FilePropertySet {
        FilePropertySet {
            data: true,
            attributes: true,
            time_stamps: true,
            ntfs_access_control_list: true,
            owner_info: true,
            auditing_info: true,
        }
    }

    /// The set with no file property present.
    pub open spec fn empty_set() -> FilePropertySet {
        FilePropertySet {
            data: false,
            attributes: false,
            time_stamps: false,
            ntfs_access_control_list: false,
            owner_info: false,
            auditing_info: false,
        }
    }

    /// The union of two file property sets.
    pub open spec fn spec_merge(self, other: FilePropertySet) -> FilePropertySet {
        FilePropertySet {
            data: self.data || other.data,
            attributes: self.attributes || other.attributes,
            time_stamps: self.time_stamps || other.time_stamps,
            ntfs_access_control_list: self.ntfs_access_control_list
                || other.ntfs_access_control_list,
            owner_info: self.owner_info || other.owner_info,
            auditing_info: self.auditing_info || other.auditing_info,
        }
    }

    /// Union two file property sets.
    pub fn merge(self, other: FilePropertySet) -> (r: FilePropertySet)
        ensures
            r == self.spec_merge(other),
    {
        FilePropertySet {
            data: self.data || other.data,
            attributes: self.attributes || other.attributes,
            time_stamps: self.time_stamps || other.time_stamps,
            ntfs_access_control_list: self.ntfs_access_control_list
                || other.ntfs_access_control_list,
            owner_info: self.owner_info || other.owner_info,
            auditing_info: self.auditing_info || other.auditing_info,
        }
    }

    /// The single-character codes of the present file properties, in the
    /// fixed vocabulary order `D,A,T,S,O,U`.
    pub open spec fn letters(self) -> Seq<char> {
        (if self.data { seq!['D'] } else { Seq::<char>::empty() })
            + (if self.attributes { seq!['A'] } else { Seq::<char>::empty() })
            + (if self.time_stamps { seq!['T'] } else { Seq::<char>::empty() })
            + (if self.ntfs_access_control_list { seq!['S'] } else { Seq::<char>::empty() })
            + (if self.owner_info { seq!['O'] } else { Seq::<char>::empty() })
            + (if self.auditing_info { seq!['U'] } else { Seq::<char>::empty() })
    }

    /// Render the run of single-character codes of this set.
    #[verifier::rlimit(100)]
    pub fn letters_string(&self) -> (r: String)
        ensures
            r@ == self.letters(),
    {
        proof {
            reveal_strlit("D");
            reveal_strlit("A");
            reveal_strlit("T");
            reveal_strlit("S");
            reveal_strlit("O");
            reveal_strlit("U");
        }
        let ghost p1 = if self.data { seq!['D'] } else { Seq::<char>::empty() };
        let ghost p2 = if self.attributes { seq!['A'] } else { Seq::<char>::empty() };
        let ghost p3 = if self.time_stamps { seq!['T'] } else { Seq::<char>::empty() };
        let ghost p4 = if self.ntfs_access_control_list { seq!['S'] } else { Seq::<char>::empty() };
        let ghost p5 = if self.owner_info { seq!['O'] } else { Seq::<char>::empty() };
        let ghost p6 = if self.auditing_info { seq!['U'] } else { Seq::<char>::empty() };
        let mut s = String::new();
        if self.data {
            s.append("D");
        }
        proof {
            assert(s@ =~= p1);
        }
        if self.attributes {
            s.append("A");
        }
        proof {
            assert(s@ =~= p1 + p2);
        }
        if self.time_stamps {
            s.append("T");
        }
        proof {
            assert(s@ =~= p1 + p2 + p3);
        }
        if self.ntfs_access_control_list {
            s.append("S");
        }
        proof {
            assert(s@ =~= p1 + p2 + p3 + p4);
        }
        if self.owner_info {
            s.append("O");
        }
        proof {
            assert(s@ =~= p1 + p2 + p3 + p4 + p5);
        }
        if self.auditing_info {
            s.append("U");
        }
        proof {
            assert(s@ =~= p1 + p2 + p3 + p4 + p5 + p6);
            assert(s@ == self.letters());
        }
        s
    }
}

/// The file properties to copy.
/// Default is both Data and Attributes.
#[derive(Debug, Clone, Copy, PartialEq, Eq, Structural)]
pub enum FileProperties {
    DATA,
    ATTRIBUTES,
    TIME_STAMPS,
    NTFS_ACCESS_CONTROL_LIST,
    OWNER_INFO,
    AUDITING_INFO,
    _MULTIPLE(FilePropertySet),
}

impl FileProperties {
    /// The set of file properties this value stands for.
    pub open spec fn spec_set(self) -> FilePropertySet {
        match self {
            FileProperties::DATA => FilePropertySet { data: true, ..FilePropertySet::empty_set() },
            FileProperties::ATTRIBUTES => FilePropertySet {
                attributes: true,
                ..FilePropertySet::empty_set()
            },
            FileProperties::TIME_STAMPS => FilePropertySet {
                time_stamps: true,
                ..FilePropertySet::empty_set()
            },
            FileProperties::NTFS_ACCESS_CONTROL_LIST => FilePropertySet {
                ntfs_access_control_list: true,
                ..FilePropertySet::empty_set()
            },
            FileProperties::OWNER_INFO => FilePropertySet {
                owner_info: true,
                ..FilePropertySet::empty_set()
            },
            FileProperties::AUDITING_INFO => FilePropertySet {
                auditing_info: true,
                ..FilePropertySet::empty_set()
            },
            FileProperties::_MULTIPLE(t) => t,
        }
    }

    /// The set of file properties this value stands for.
    pub fn to_set(&self) -> (r: FilePropertySet)
        ensures
            r == self.spec_set(),
    {
        let none = FilePropertySet {
            data: false,
            attributes: false,
            time_stamps: false,
            ntfs_access_control_list: false,
            owner_info: false,
            auditing_info: false,
        };
        match self {
            FileProperties::DATA => FilePropertySet { data: true, ..none },
            FileProperties::ATTRIBUTES => FilePropertySet { attributes: true, ..none },
            FileProperties::TIME_STAMPS => FilePropertySet { time_stamps: true, ..none },
            FileProperties::NTFS_ACCESS_CONTROL_LIST => FilePropertySet {
                ntfs_access_control_list: true,
                ..none
            },
            FileProperties::OWNER_INFO => FilePropertySet { owner_info: true, ..none },
            FileProperties::AUDITING_INFO => FilePropertySet { auditing_info: true, ..none },
            FileProperties::_MULTIPLE(t) => *t,
        }
    }

    /// The combined value that merging two file property values yields.
    pub open spec fn spec_combine(a: FileProperties, b: FileProperties) -> FileProperties {
        FileProperties::_MULTIPLE(a.spec_set().spec_merge(b.spec_set()))
    }

    /// Merge two file property values into one combined value whose
    /// presence set is the union of the operands'.
    pub fn combine(self, rhs: FileProperties) -> (r: FileProperties)
        ensures
            r == FileProperties::spec_combine(self, rhs),
    {
        FileProperties::_MULTIPLE(self.to_set().merge(rhs.to_set()))
    }

    /// Returns a variant containing all available file properties.
    pub fn all() -> (r: FileProperties)
        ensures
            r == FileProperties::_MULTIPLE(FilePropertySet::all_set()),
    {
        FileProperties::_MULTIPLE(
            FilePropertySet {
                data: true,
                attributes: true,
                time_stamps: true,
                ntfs_access_control_list: true,
                owner_info: true,
                auditing_info: true,
            },
        )
    }

    /// Returns a variant containing no file properties.
    pub fn none() -> (r: FileProperties)
        ensures
            r == FileProperties::_MULTIPLE(FilePropertySet::empty_set()),
    {
        FileProperties::_MULTIPLE(
            FilePropertySet {
                data: false,
                attributes: false,
                time_stamps: false,
                ntfs_access_control_list: false,
                owner_info: false,
                auditing_info: false,
            },
        )
    }

    /// The position of a single file property in the fixed vocabulary
    /// order.
    pub open spec fn spec_index(self) -> Option<usize> {
        match self {
            FileProperties::DATA => Some(0usize),
            FileProperties::ATTRIBUTES => Some(1usize),
            FileProperties::TIME_STAMPS => Some(2usize),
            FileProperties::NTFS_ACCESS_CONTROL_LIST => Some(3usize),
            FileProperties::OWNER_INFO => Some(4usize),
            FileProperties::AUDITING_INFO => Some(5usize),
            FileProperties::_MULTIPLE(_) => None,
        }
    }

    /// The position of a single file property in the fixed vocabulary
    /// order; `None` for a combined value.
    pub fn index_of(&self) -> (r: Option<usize>)
        ensures
            r == self.spec_index(),
    {
        match self {
            FileProperties::DATA => Some(0),
            FileProperties::ATTRIBUTES => Some(1),
            FileProperties::TIME_STAMPS => Some(2),
            FileProperties::NTFS_ACCESS_CONTROL_LIST => Some(3),
            FileProperties::OWNER_INFO => Some(4),
            FileProperties::AUDITING_INFO => Some(5),
            FileProperties::_MULTIPLE(_) => None,
        }
    }

    /// The single file properties present in `t`, in vocabulary order.
    pub open spec fn singles_of_set(t: FilePropertySet) -> Seq<FileProperties> {
        (if t.data { seq![FileProperties::DATA] } else { Seq::<FileProperties>::empty() })
            + (if t.attributes { seq![FileProperties::ATTRIBUTES] } else { Seq::<FileProperties>::empty() })
            + (if t.time_stamps { seq![FileProperties::TIME_STAMPS] } else { Seq::<FileProperties>::empty() })
            + (if t.ntfs_access_control_list { seq![FileProperties::NTFS_ACCESS_CONTROL_LIST] } else { Seq::<FileProperties>::empty() })
            + (if t.owner_info { seq![FileProperties::OWNER_INFO] } else { Seq::<FileProperties>::empty() })
            + (if t.auditing_info { seq![FileProperties::AUDITING_INFO] } else { Seq::<FileProperties>::empty() })
    }

    /// The canonical decomposition of this value into single properties.
    pub open spec fn spec_singles(self) -> Seq<FileProperties> {
        match self {
            FileProperties::_MULTIPLE(t) => FileProperties::singles_of_set(t),
            _ => seq![self],
        }
    }

    /// The one token this value renders as.
    pub open spec fn spec_token(self) -> Seq<char> {
        "/copy:"@ + self.spec_set().letters()
    }

    /// Render this value as its one `/copy:` token.
    pub fn render(&self) -> (r: String)
        ensures
            r@ == self.spec_token(),
    {
        let mut s = String::from_str("/copy:");
        let letters = self.to_set().letters_string();
        s.append(letters.as_str());
        s
    }
}

/// Build the decomposition of a combined file property set into single
/// property values, in vocabulary order.
#[verifier::rlimit(100)]
fn file_singles_vec_of_set(t: FilePropertySet) -> (r: Vec<FileProperties>)
    ensures
        r@ == FileProperties::singles_of_set(t),
{
    let ghost s1 = if t.data { seq![FileProperties::DATA] } else { Seq::<FileProperties>::empty() };
    let ghost s2 = if t.attributes { seq![FileProperties::ATTRIBUTES] } else { Seq::<FileProperties>::empty() };
    let ghost s3 = if t.time_stamps { seq![FileProperties::TIME_STAMPS] } else { Seq::<FileProperties>::empty() };
    let ghost s4 = if t.ntfs_access_control_list { seq![FileProperties::NTFS_ACCESS_CONTROL_LIST] } else { Seq::<FileProperties>::empty() };
    let ghost s5 = if t.owner_info { seq![FileProperties::OWNER_INFO] } else { Seq::<FileProperties>::empty() };
    let ghost s6 = if t.auditing_info { seq![FileProperties::AUDITING_INFO] } else { Seq::<FileProperties>::empty() };
    let mut r: Vec<FileProperties> = Vec::new();
    if t.data {
        r.push(FileProperties::DATA);
    }
    proof {
        assert(r@ =~= s1);
    }
    if t.attributes {
        r.push(FileProperties::ATTRIBUTES);
    }
    proof {
        assert(r@ =~= s1 + s2);
    }
    if t.time_stamps {
        r.push(FileProperties::TIME_STAMPS);
    }
    proof {
        assert(r@ =~= s1 + s2 + s3);
    }
    if t.ntfs_access_control_list {
        r.push(FileProperties::NTFS_ACCESS_CONTROL_LIST);
    }
    proof {
        assert(r@ =~= s1 + s2 + s3 + s4);
    }
    if t.owner_info {
        r.push(FileProperties::OWNER_INFO);
    }
    proof {
        assert(r@ =~= s1 + s2 + s3 + s4 + s5);
    }
    if t.auditing_info {
        r.push(FileProperties::AUDITING_INFO);
    }
    proof {
        assert(r@ =~= s1 + s2 + s3 + s4 + s5 + s6);
        assert(r@ == FileProperties::singles_of_set(t));
    }
    r
}

impl MultipleVariant for FileProperties {
    open spec fn is_decomposition(&self, s: Seq<FileProperties>) -> bool {
        s == self.spec_singles()
    }

    fn single_variants(&self) -> (r: Vec<FileProperties>) {
        match self {
            FileProperties::_MULTIPLE(t) => file_singles_vec_of_set(*t),
            _ => {
                let mut r: Vec<FileProperties> = Vec::new();
                r.push(*self);
                proof {
                    assert(r@ =~= self.spec_singles());
                }
                r
            },
        }
    }
}

/// Combination of file property values yields the same presence set in
/// either order; since the result is always the combined variant, the
/// results are equal outright.
pub proof fn lemma_file_properties_combine_commutative(a: FileProperties, b: FileProperties)
    ensures
        FileProperties::spec_combine(a, b) == FileProperties::spec_combine(b, a),
{
}

/// Combination of file property values is associative.
pub proof fn lemma_file_properties_combine_associative(
    a: FileProperties,
    b: FileProperties,
    c: FileProperties,
)
    ensures
        FileProperties::spec_combine(FileProperties::spec_combine(a, b), c)
            == FileProperties::spec_combine(a, FileProperties::spec_combine(b, c)),
{
}

/// `FileProperties::none()` is an identity for combination: the presence
/// set is unchanged, and a combined operand comes back unchanged.
pub proof fn lemma_file_properties_combine_none_identity(v: FileProperties)
    ensures
        FileProperties::spec_combine(
            v,
            FileProperties::_MULTIPLE(FilePropertySet::empty_set()),
        ).spec_set() == v.spec_set(),
        v is _MULTIPLE ==> FileProperties::spec_combine(
            v,
            FileProperties::_MULTIPLE(FilePropertySet::empty_set()),
        ) == v,
{
    assert(v.spec_set().spec_merge(FilePropertySet::empty_set()) =~= v.spec_set());
}

/// The letter runs of a decomposition, in order.
pub open spec fn file_letter_runs(s: Seq<FileProperties>) -> Seq<Seq<char>> {
    s.map_values(|f: FileProperties| f.spec_set().letters())
}

/// The letter run of each single property of a decomposition,
/// concatenated in order.
pub open spec fn file_letters_of_singles(s: Seq<FileProperties>) -> Seq<char> {
    file_letter_runs(s).flatten()
}

proof fn lemma_file_letters_concat(x: Seq<FileProperties>, y: Seq<FileProperties>)
    ensures
        file_letters_of_singles(x + y) == file_letters_of_singles(x) + file_letters_of_singles(y),
{
    assert(file_letter_runs(x + y) =~= file_letter_runs(x) + file_letter_runs(y));
    lemma_flatten_concat(file_letter_runs(x), file_letter_runs(y));
}

proof fn lemma_file_letters_one_or_nil(s: Seq<FileProperties>, f: FileProperties)
    requires
        s == seq![f] || s == Seq::<FileProperties>::empty(),
    ensures
        s == seq![f] ==> file_letters_of_singles(s) == f.spec_set().letters(),
        s == Seq::<FileProperties>::empty() ==> file_letters_of_singles(s) == Seq::<char>::empty(),
{
    if s == seq![f] {
        assert(file_letter_runs(seq![f]) =~= seq![f.spec_set().letters()]);
        file_letter_runs(seq![f]).lemma_flatten_one_element();
    } else {
        assert(file_letter_runs(Seq::<FileProperties>::empty()) =~= Seq::<Seq<char>>::empty());
        assert(file_letters_of_singles(Seq::<FileProperties>::empty()) =~= Seq::<char>::empty());
    }
}

/// Sub-serialization round trip: the letter run inside the one rendered
/// token of a value equals the concatenation of the letter runs of its
/// decomposition into single properties, however the value was built.
pub proof fn lemma_file_properties_letters_round_trip(v: FileProperties)
    ensures
        file_letters_of_singles(v.spec_singles()) == v.spec_set().letters(),
        v.spec_token() == "/copy:"@ + file_letters_of_singles(v.spec_singles()),
{
    match v {
        FileProperties::_MULTIPLE(t) => {
            let s1 = if t.data { seq![FileProperties::DATA] } else { Seq::<FileProperties>::empty() };
            let s2 = if t.attributes { seq![FileProperties::ATTRIBUTES] } else { Seq::<FileProperties>::empty() };
            let s3 = if t.time_stamps { seq![FileProperties::TIME_STAMPS] } else { Seq::<FileProperties>::empty() };
            let s4 = if t.ntfs_access_control_list { seq![FileProperties::NTFS_ACCESS_CONTROL_LIST] } else { Seq::<FileProperties>::empty() };
            let s5 = if t.owner_info { seq![FileProperties::OWNER_INFO] } else { Seq::<FileProperties>::empty() };
            let s6 = if t.auditing_info { seq![FileProperties::AUDITING_INFO] } else { Seq::<FileProperties>::empty() };
            lemma_file_letters_one_or_nil(s1, FileProperties::DATA);
            lemma_file_letters_one_or_nil(s2, FileProperties::ATTRIBUTES);
            lemma_file_letters_one_or_nil(s3, FileProperties::TIME_STAMPS);
            lemma_file_letters_one_or_nil(s4, FileProperties::NTFS_ACCESS_CONTROL_LIST);
            lemma_file_letters_one_or_nil(s5, FileProperties::OWNER_INFO);
            lemma_file_letters_one_or_nil(s6, FileProperties::AUDITING_INFO);
            lemma_file_letters_concat(s1, s2);
            lemma_file_letters_concat(s1 + s2, s3);
            lemma_file_letters_concat(s1 + s2 + s3, s4);
            lemma_file_letters_concat(s1 + s2 + s3 + s4, s5);
            lemma_file_letters_concat(s1 + s2 + s3 + s4 + s5, s6);
            assert(file_letters_of_singles(v.spec_singles()) =~= v.spec_set().letters());
        },
        _ => {
            lemma_file_letters_one_or_nil(seq![v], v);
        },
    }
}

/// Which directory properties of the fixed vocabulary are present in a
/// combined value.
#[derive(Debug, Clone, Copy, PartialEq, Eq, Structural)]
#[verifier::ext_equal]
pub struct DirectoryPropertySet {
    pub data: bool,
    pub attributes: bool,
    pub time_stamps: bool,
}

impl DirectoryPropertySet {
    /// The set with every directory property present.
    pub open spec fn all_set() -> DirectoryPropertySet {
        DirectoryPropertySet { data: true, attributes: true, time_stamps: true }
    }

    /// The set with no directory property present.
    pub open spec fn empty_set() -> DirectoryPropertySet {
        DirectoryPropertySet { data: false, attributes: false, time_stamps: false }
    }

    /// The union of two directory property sets.
    pub open spec fn spec_merge(self, other: DirectoryPropertySet) -> DirectoryPropertySet {
        DirectoryPropertySet {
            data: self.data || other.data,
            attributes: self.attributes || other.attributes,
            time_stamps: self.time_stamps || other.time_stamps,
        }
    }

    /// Union two directory property sets.
    pub fn merge(self, other: DirectoryPropertySet) -> (r: DirectoryPropertySet)
        ensures
            r == self.spec_merge(other),
    {
        DirectoryPropertySet {
            data: self.data || other.data,
            attributes: self.attributes || other.attributes,
            time_stamps: self.time_stamps || other.time_stamps,
        }
    }

    /// The single-character codes of the present directory properties, in
    /// the fixed vocabulary order `D,A,T`.
    pub open spec fn letters(self) -> Seq<char> {
        (if self.data { seq!['D'] } else { Seq::<char>::empty() })
            + (if self.attributes { seq!['A'] } else { Seq::<char>::empty() })
            + (if self.time_stamps { seq!['T'] } else { Seq::<char>::empty() })
    }

    /// Render the run of single-character codes of this set.
    pub fn letters_string(&self) -> (r: String)
        ensures
            r@ == self.letters(),
    {
        proof {
            reveal_strlit("D");
            reveal_strlit("A");
            reveal_strlit("T");
        }
        let ghost p1 = if self.data { seq!['D'] } else { Seq::<char>::empty() };
        let ghost p2 = if self.attributes { seq!['A'] } else { Seq::<char>::empty() };
        let ghost p3 = if self.time_stamps { seq!['T'] } else { Seq::<char>::empty() };
        let mut s = String::new();
        if self.data {
            s.append("D");
        }
        proof {
            assert(s@ =~= p1);
        }
        if self.attributes {
            s.append("A");
        }
        proof {
            assert(s@ =~= p1 + p2);
        }
        if self.time_stamps {
            s.append("T");
        }
        proof {
            assert(s@ =~= p1 + p2 + p3);
            assert(s@ == self.letters());
        }
        s
    }
}

/// The directory properties to copy.
/// Default is both Data and Attributes.
#[derive(Debug, Clone, Copy, PartialEq, Eq, Structural)]
pub enum DirectoryProperties {
    DATA,
    ATTRIBUTES,
    TIME_STAMPS,
    _MULTIPLE(DirectoryPropertySet),
}

impl DirectoryProperties {
    /// The set of directory properties this value stands for.
    pub open spec fn spec_set(self) -> DirectoryPropertySet {
        match self {
            DirectoryProperties::DATA => DirectoryPropertySet {
                data: true,
                ..DirectoryPropertySet::empty_set()
            },
            DirectoryProperties::ATTRIBUTES => DirectoryPropertySet {
                attributes: true,
                ..DirectoryPropertySet::empty_set()
            },
            DirectoryProperties::TIME_STAMPS => DirectoryPropertySet {
                time_stamps: true,
                ..DirectoryPropertySet::empty_set()
            },
            DirectoryProperties::_MULTIPLE(t) => t,
        }
    }

    /// The set of directory properties this value stands for.
    pub fn to_set(&self) -> (r: DirectoryPropertySet)
        ensures
            r == self.spec_set(),
    {
        let none = DirectoryPropertySet { data: false, attributes: false, time_stamps: false };
        match self {
            DirectoryProperties::DATA => DirectoryPropertySet { data: true, ..none },
            DirectoryProperties::ATTRIBUTES => DirectoryPropertySet { attributes: true, ..none },
            DirectoryProperties::TIME_STAMPS => DirectoryPropertySet { time_stamps: true, ..none },
            DirectoryProperties::_MULTIPLE(t) => *t,
        }
    }

    /// The combined value that merging two directory property values
    /// yields.
    pub open spec fn spec_combine(
        a: DirectoryProperties,
        b: DirectoryProperties,
    ) -> DirectoryProperties {
        DirectoryProperties::_MULTIPLE(a.spec_set().spec_merge(b.spec_set()))
    }

    /// Merge two directory property values into one combined value whose
    /// presence set is the union of the operands'.
    pub fn combine(self, rhs: DirectoryProperties) -> (r: DirectoryProperties)
        ensures
            r == DirectoryProperties::spec_combine(self, rhs),
    {
        DirectoryProperties::_MULTIPLE(self.to_set().merge(rhs.to_set()))
    }

    /// Returns a variant containing all available directory properties.
    pub fn all() -> (r: DirectoryProperties)
        ensures
            r == DirectoryProperties::_MULTIPLE(DirectoryPropertySet::all_set()),
    {
        DirectoryProperties::_MULTIPLE(
            DirectoryPropertySet { data: true, attributes: true, time_stamps: true },
        )
    }

    /// Returns a variant containing no directory properties.
    pub fn none() -> (r: DirectoryProperties)
        ensures
            r == DirectoryProperties::_MULTIPLE(DirectoryPropertySet::empty_set()),
    {
        DirectoryProperties::_MULTIPLE(
            DirectoryPropertySet { data: false, attributes: false, time_stamps: false },
        )
    }

    /// The position of a single directory property in the fixed
    /// vocabulary order.
    pub open spec fn spec_index(self) -> Option<usize> {
        match self {
            DirectoryProperties::DATA => Some(0usize),
            DirectoryProperties::ATTRIBUTES => Some(1usize),
            DirectoryProperties::TIME_STAMPS => Some(2usize),
            DirectoryProperties::_MULTIPLE(_) => None,
        }
    }

    /// The position of a single directory property in the fixed
    /// vocabulary order; `None` for a combined value.
    pub fn index_of(&self) -> (r: Option<usize>)
        ensures
            r == self.spec_index(),
    {
        match self {
            DirectoryProperties::DATA => Some(0),
            DirectoryProperties::ATTRIBUTES => Some(1),
            DirectoryProperties::TIME_STAMPS => Some(2),
            DirectoryProperties::_MULTIPLE(_) => None,
        }
    }

    /// The single directory properties present in `t`, in vocabulary
    /// order.
    pub open spec fn singles_of_set(t: DirectoryPropertySet) -> Seq<DirectoryProperties> {
        (if t.data { seq![DirectoryProperties::DATA] } else { Seq::<DirectoryProperties>::empty() })
            + (if t.attributes { seq![DirectoryProperties::ATTRIBUTES] } else { Seq::<DirectoryProperties>::empty() })
            + (if t.time_stamps { seq![DirectoryProperties::TIME_STAMPS] } else { Seq::<DirectoryProperties>::empty() })
    }

    /// The canonical decomposition of this value into single properties.
    pub open spec fn spec_singles(self) -> Seq<DirectoryProperties> {
        match self {
            DirectoryProperties::_MULTIPLE(t) => DirectoryProperties::singles_of_set(t),
            _ => seq![self],
        }
    }

    /// The one token this value renders as.
    pub open spec fn spec_token(self) -> Seq<char> {
        "/dcopy:"@ + self.spec_set().letters()
    }

    /// Render this value as its one `/dcopy:` token.
    pub fn render(&self) -> (r: String)
        ensures
            r@ == self.spec_token(),
    {
        let mut s = String::from_str("/dcopy:");
        let letters = self.to_set().letters_string();
        s.append(letters.as_str());
        s
    }
}

impl MultipleVariant for DirectoryProperties {
    open spec fn is_decomposition(&self, s: Seq<DirectoryProperties>) -> bool {
        s == self.spec_singles()
    }

    fn single_variants(&self) -> (r: Vec<DirectoryProperties>) {
        match self {
            DirectoryProperties::_MULTIPLE(t) => {
                let ghost s1 = if t.data { seq![DirectoryProperties::DATA] } else { Seq::<DirectoryProperties>::empty() };
                let ghost s2 = if t.attributes { seq![DirectoryProperties::ATTRIBUTES] } else { Seq::<DirectoryProperties>::empty() };
                let ghost s3 = if t.time_stamps { seq![DirectoryProperties::TIME_STAMPS] } else { Seq::<DirectoryProperties>::empty() };
                let mut r: Vec<DirectoryProperties> = Vec::new();
                if t.data {
                    r.push(DirectoryProperties::DATA);
                }
                proof {
                    assert(r@ =~= s1);
                }
                if t.attributes {
                    r.push(DirectoryProperties::ATTRIBUTES);
                }
                proof {
                    assert(r@ =~= s1 + s2);
                }
                if t.time_stamps {
                    r.push(DirectoryProperties::TIME_STAMPS);
                }
                proof {
                    assert(r@ =~= s1 + s2 + s3);
                    assert(r@ == self.spec_singles());
                }
                r
            },
            _ => {
                let mut r: Vec<DirectoryProperties> = Vec::new();
                r.push(*self);
                proof {
                    assert(r@ =~= self.spec_singles());
                }
                r
            },
        }
    }
}

/// Combination of directory property values yields the same presence set
/// in either order; since the result is always the combined variant, the
/// results are equal outright.
pub proof fn lemma_directory_properties_combine_commutative(
    a: DirectoryProperties,
    b: DirectoryProperties,
)
    ensures
        DirectoryProperties::spec_combine(a, b) == DirectoryProperties::spec_combine(b, a),
{
}

/// Combination of directory property values is associative.
pub proof fn lemma_directory_properties_combine_associative(
    a: DirectoryProperties,
    b: DirectoryProperties,
    c: DirectoryProperties,
)
    ensures
        DirectoryProperties::spec_combine(DirectoryProperties::spec_combine(a, b), c)
            == DirectoryProperties::spec_combine(a, DirectoryProperties::spec_combine(b, c)),
{
}

/// `DirectoryProperties::none()` is an identity for combination: the
/// presence set is unchanged, and a combined operand comes back
/// unchanged.
pub proof fn lemma_directory_properties_combine_none_identity(v: DirectoryProperties)
    ensures
        DirectoryProperties::spec_combine(
            v,
            DirectoryProperties::_MULTIPLE(DirectoryPropertySet::empty_set()),
        ).spec_set() == v.spec_set(),
        v is _MULTIPLE ==> DirectoryProperties::spec_combine(
            v,
            DirectoryProperties::_MULTIPLE(DirectoryPropertySet::empty_set()),
        ) == v,
{
    assert(v.spec_set().spec_merge(DirectoryPropertySet::empty_set()) =~= v.spec_set());
}

/// The letter runs of a decomposition, in order.
pub open spec fn directory_letter_runs(s: Seq<DirectoryProperties>) -> Seq<Seq<char>> {
    s.map_values(|f: DirectoryProperties| f.spec_set().letters())
}

/// The letter run of each single property of a decomposition,
/// concatenated in order.
pub open spec fn directory_letters_of_singles(s: Seq<DirectoryProperties>) -> Seq<char> {
    directory_letter_runs(s).flatten()
}

proof fn lemma_directory_letters_concat(x: Seq<DirectoryProperties>, y: Seq<DirectoryProperties>)
    ensures
        directory_letters_of_singles(x + y) == directory_letters_of_singles(x)
            + directory_letters_of_singles(y),
{
    assert(directory_letter_runs(x + y) =~= directory_letter_runs(x) + directory_letter_runs(y));
    lemma_flatten_concat(directory_letter_runs(x), directory_letter_runs(y));
}

proof fn lemma_directory_letters_one_or_nil(s: Seq<DirectoryProperties>, f: DirectoryProperties)
    requires
        s == seq![f] || s == Seq::<DirectoryProperties>::empty(),
    ensures
        s == seq![f] ==> directory_letters_of_singles(s) == f.spec_set().letters(),
        s == Seq::<DirectoryProperties>::empty() ==> directory_letters_of_singles(s)
            == Seq::<char>::empty(),
{
    if s == seq![f] {
        assert(directory_letter_runs(seq![f]) =~= seq![f.spec_set().letters()]);
        directory_letter_runs(seq![f]).lemma_flatten_one_element();
    } else {
        assert(directory_letter_runs(Seq::<DirectoryProperties>::empty())
            =~= Seq::<Seq<char>>::empty());
        assert(directory_letters_of_singles(Seq::<DirectoryProperties>::empty())
            =~= Seq::<char>::empty());
    }
}

/// Sub-serialization round trip: the letter run inside the one rendered
/// token of a value equals the concatenation of the letter runs of its
/// decomposition into single properties, however the value was built.
pub proof fn lemma_directory_properties_letters_round_trip(v: DirectoryProperties)
    ensures
        directory_letters_of_singles(v.spec_singles()) == v.spec_set().letters(),
        v.spec_token() == "/dcopy:"@ + directory_letters_of_singles(v.spec_singles()),
{
    match v {
        DirectoryProperties::_MULTIPLE(t) => {
            let s1 = if t.data { seq![DirectoryProperties::DATA] } else { Seq::<DirectoryProperties>::empty() };
            let s2 = if t.attributes { seq![DirectoryProperties::ATTRIBUTES] } else { Seq::<DirectoryProperties>::empty() };
            let s3 = if t.time_stamps { seq![DirectoryProperties::TIME_STAMPS] } else { Seq::<DirectoryProperties>::empty() };
            lemma_directory_letters_one_or_nil(s1, DirectoryProperties::DATA);
            lemma_directory_letters_one_or_nil(s2, DirectoryProperties::ATTRIBUTES);
            lemma_directory_letters_one_or_nil(s3, DirectoryProperties::TIME_STAMPS);
            lemma_directory_letters_concat(s1, s2);
            lemma_directory_letters_concat(s1 + s2, s3);
            assert(directory_letters_of_singles(v.spec_singles()) =~= v.spec_set().letters());
        },
        _ => {
            lemma_directory_letters_one_or_nil(seq![v], v);
        },
    }
}

} // verus!
