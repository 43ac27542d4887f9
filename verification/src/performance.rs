//! Performance options and retry settings.
//!
//! The performance family carries, besides its boolean flags, a mutually
//! exclusive choice payload: a thread count, an inter-packet gap, or the
//! default placeholder.  Combining two values whose concrete choices
//! differ is the one partial combination in the library; the default
//! placeholder is an identity for the choice payload.

use vstd::prelude::*;
use vstd::seq_lib::lemma_flatten_concat;
use crate::MultipleVariant;
use crate::decimal::dec;
use crate::decimal::dec_str;
use crate::tokens::push_token;

verus! {

/// The mutually exclusive performance choice: a worker thread count, an
/// inter-packet gap, or the default placeholder.
#[derive(Debug, Clone, Copy, PartialEq, Eq, Structural)]
pub enum PerformanceChoice {
    /// Number of worker threads (the tool accepts at most 128).
    Threads(u8),
    /// Inter-packet gap, to free bandwidth on slow lines.
    InterPacketGap(usize),
    /// Leave the choice to the tool's own default.
    Default,
}

impl PerformanceChoice {
    /// The tokens this choice renders as: one `/MT:` or `/ipg:` token, or
    /// none for the default placeholder.
    pub open spec fn spec_tokens(self) -> Seq<Seq<char>> {
        match self {
            PerformanceChoice::Threads(t) => seq!["/MT:"@ + dec(t as nat)],
            PerformanceChoice::InterPacketGap(g) => seq!["/ipg:"@ + dec(g as nat)],
            PerformanceChoice::Default => Seq::<Seq<char>>::empty(),
        }
    }

    /// Render this choice as its token list.
    pub fn render(&self) -> (r: Vec<String>)
        ensures
            r.deep_view() == self.spec_tokens(),
    {
        let mut r: Vec<String> = Vec::new();
        match self {
            PerformanceChoice::Threads(t) => {
                let mut s = String::from_str("/MT:");
                let digits = dec_str(*t as u128);
                s.append(digits.as_str());
                push_token(&mut r, s);
            },
            PerformanceChoice::InterPacketGap(g) => {
                let mut s = String::from_str("/ipg:");
                let digits = dec_str(*g as u128);
                s.append(digits.as_str());
                push_token(&mut r, s);
            },
            PerformanceChoice::Default => {},
        }
        proof {
            assert(r.deep_view() =~= self.spec_tokens());
        }
        r
    }
}

/// Two choice payloads are compatible when they are equal or either is
/// the default placeholder.
pub open spec fn choices_compatible(a: PerformanceChoice, b: PerformanceChoice) -> bool {
    a == b || a is Default || b is Default
}

/// The merged choice payload: the default placeholder yields to the other
/// operand's choice.
pub open spec fn spec_choice_merge(a: PerformanceChoice, b: PerformanceChoice) -> PerformanceChoice {
    if a is Default {
        b
    } else {
        a
    }
}

/// Which performance flags of the fixed vocabulary are present in a
/// combined value.
#[derive(Debug, Clone, Copy, PartialEq, Eq, Structural)]
#[verifier::ext_equal]
pub struct PerformanceFlagSet {
    pub dont_offload: bool,
    pub request_network_compression: bool,
    pub copy_rather_than_follow_link: bool,
}

impl PerformanceFlagSet {
    /// The set with no performance flag present.
    pub open spec fn empty_set() -> PerformanceFlagSet {
        PerformanceFlagSet {
            dont_offload: false,
            request_network_compression: false,
            copy_rather_than_follow_link: false,
        }
    }

    /// The union of two performance flag sets.
    pub open spec fn spec_merge(self, other: PerformanceFlagSet) -> PerformanceFlagSet {
        PerformanceFlagSet {
            dont_offload: self.dont_offload || other.dont_offload,
            request_network_compression: self.request_network_compression
                || other.request_network_compression,
            copy_rather_than_follow_link: self.copy_rather_than_follow_link
                || other.copy_rather_than_follow_link,
        }
    }

    /// Union two performance flag sets.
    pub fn merge(self, other: PerformanceFlagSet) -> (r: PerformanceFlagSet)
        ensures
            r == self.spec_merge(other),
    {
        PerformanceFlagSet {
            dont_offload: self.dont_offload || other.dont_offload,
            request_network_compression: self.request_network_compression
                || other.request_network_compression,
            copy_rather_than_follow_link: self.copy_rather_than_follow_link
                || other.copy_rather_than_follow_link,
        }
    }

    /// The tokens of the present flags, in the fixed vocabulary order
    /// `/nooffload`, `/compress`, `/sl`.
    pub open spec fn tokens(self) -> Seq<Seq<char>> {
        (if self.dont_offload { seq!["/nooffload"@] } else { Seq::<Seq<char>>::empty() })
            + (if self.request_network_compression { seq!["/compress"@] } else { Seq::<Seq<char>>::empty() })
            + (if self.copy_rather_than_follow_link { seq!["/sl"@] } else { Seq::<Seq<char>>::empty() })
    }

    /// How many flags are present.
    pub open spec fn count(self) -> int {
        (if self.dont_offload { 1int } else { 0int })
            + (if self.request_network_compression { 1int } else { 0int })
            + (if self.copy_rather_than_follow_link { 1int } else { 0int })
    }
}

/// Performance options: boolean flags plus the mutually exclusive
/// performance choice.
#[derive(Debug, Clone, Copy, PartialEq, Eq, Structural)]
pub enum PerformanceOptions {
    /// Only the performance choice, no flags.
    PerformanceChoiceOnly(PerformanceChoice),
    DONT_OFFLOAD(PerformanceChoice),
    REQUEST_NETWORK_COMPRESSION(PerformanceChoice),
    COPY_RATHER_THAN_FOLLOW_LINK(PerformanceChoice),
    _MULTIPLE(PerformanceFlagSet, PerformanceChoice),
    /// No flags and the default choice.
    Default,
}

impl PerformanceOptions {
    /// The set of performance flags this value stands for.
    pub open spec fn spec_flags(self) -> PerformanceFlagSet {
        match self {
            PerformanceOptions::DONT_OFFLOAD(_) => PerformanceFlagSet {
                dont_offload: true,
                ..PerformanceFlagSet::empty_set()
            },
            PerformanceOptions::REQUEST_NETWORK_COMPRESSION(_) => PerformanceFlagSet {
                request_network_compression: true,
                ..PerformanceFlagSet::empty_set()
            },
            PerformanceOptions::COPY_RATHER_THAN_FOLLOW_LINK(_) => PerformanceFlagSet {
                copy_rather_than_follow_link: true,
                ..PerformanceFlagSet::empty_set()
            },
            PerformanceOptions::_MULTIPLE(f, _) => f,
            _ => PerformanceFlagSet::empty_set(),
        }
    }

    /// The choice payload this value carries.
    pub open spec fn spec_choice(self) -> PerformanceChoice {
        match self {
            PerformanceOptions::PerformanceChoiceOnly(c) => c,
            PerformanceOptions::DONT_OFFLOAD(c) => c,
            PerformanceOptions::REQUEST_NETWORK_COMPRESSION(c) => c,
            PerformanceOptions::COPY_RATHER_THAN_FOLLOW_LINK(c) => c,
            PerformanceOptions::_MULTIPLE(_, c) => c,
            PerformanceOptions::Default => PerformanceChoice::Default,
        }
    }

    /// The choice payload this value carries.
    pub fn performance_choice(&self) -> (r: PerformanceChoice)
        ensures
            r == self.spec_choice(),
    {
        match self {
            PerformanceOptions::PerformanceChoiceOnly(c) => *c,
            PerformanceOptions::DONT_OFFLOAD(c) => *c,
            PerformanceOptions::REQUEST_NETWORK_COMPRESSION(c) => *c,
            PerformanceOptions::COPY_RATHER_THAN_FOLLOW_LINK(c) => *c,
            PerformanceOptions::_MULTIPLE(_, c) => *c,
            PerformanceOptions::Default => PerformanceChoice::Default,
        }
    }

    /// The set of performance flags this value stands for.
    pub fn to_flags(&self) -> (r: PerformanceFlagSet)
        ensures
            r == self.spec_flags(),
    {
        let none = PerformanceFlagSet {
            dont_offload: false,
            request_network_compression: false,
            copy_rather_than_follow_link: false,
        };
        match self {
            PerformanceOptions::DONT_OFFLOAD(_) => PerformanceFlagSet {
                dont_offload: true,
                ..none
            },
            PerformanceOptions::REQUEST_NETWORK_COMPRESSION(_) => PerformanceFlagSet {
                request_network_compression: true,
                ..none
            },
            PerformanceOptions::COPY_RATHER_THAN_FOLLOW_LINK(_) => PerformanceFlagSet {
                copy_rather_than_follow_link: true,
                ..none
            },
            PerformanceOptions::_MULTIPLE(f, _) => *f,
            _ => none,
        }
    }

    /// The position of a single flag variant in the fixed vocabulary
    /// order.
    pub open spec fn spec_index(self) -> Option<usize> {
        match self {
            PerformanceOptions::DONT_OFFLOAD(_) => Some(0usize),
            PerformanceOptions::REQUEST_NETWORK_COMPRESSION(_) => Some(1usize),
            PerformanceOptions::COPY_RATHER_THAN_FOLLOW_LINK(_) => Some(2usize),
            _ => None,
        }
    }

    /// The position of a single flag variant in the fixed vocabulary
    /// order; `None` for the other shapes.
    pub fn index_of(&self) -> (r: Option<usize>)
        ensures
            r == self.spec_index(),
    {
        match self {
            PerformanceOptions::DONT_OFFLOAD(_) => Some(0),
            PerformanceOptions::REQUEST_NETWORK_COMPRESSION(_) => Some(1),
            PerformanceOptions::COPY_RATHER_THAN_FOLLOW_LINK(_) => Some(2),
            _ => None,
        }
    }

    /// Merge two performance option values.  The presence sets are
    /// unioned; the choice payloads must be compatible (equal, or either
    /// the default placeholder), else the combination is refused.
    pub fn combine(self, rhs: PerformanceOptions) -> (r: Result<PerformanceOptions, &'static str>)
        ensures
            choices_compatible(self.spec_choice(), rhs.spec_choice()) <==> r is Ok,
            r matches Ok(v) ==> v == PerformanceOptions::_MULTIPLE(
                self.spec_flags().spec_merge(rhs.spec_flags()),
                spec_choice_merge(self.spec_choice(), rhs.spec_choice()),
            ),
            r matches Err(m) ==> m@ == "Performance choices do not match."@,
    {
        let a = self.performance_choice();
        let b = rhs.performance_choice();
        let choice = if a == b {
            a
        } else if matches!(a, PerformanceChoice::Default) {
            b
        } else if matches!(b, PerformanceChoice::Default) {
            a
        } else {
            return Err("Performance choices do not match.");
        };
        Ok(PerformanceOptions::_MULTIPLE(self.to_flags().merge(rhs.to_flags()), choice))
    }

    /// The single flag variants present in `f`, each carrying `c`, in
    /// vocabulary order.
    pub open spec fn singles_of_set(f: PerformanceFlagSet, c: PerformanceChoice) -> Seq<PerformanceOptions> {
        (if f.dont_offload { seq![PerformanceOptions::DONT_OFFLOAD(c)] } else { Seq::<PerformanceOptions>::empty() })
            + (if f.request_network_compression { seq![PerformanceOptions::REQUEST_NETWORK_COMPRESSION(c)] } else { Seq::<PerformanceOptions>::empty() })
            + (if f.copy_rather_than_follow_link { seq![PerformanceOptions::COPY_RATHER_THAN_FOLLOW_LINK(c)] } else { Seq::<PerformanceOptions>::empty() })
    }

    /// The canonical decomposition of this value into single flag
    /// variants.
    pub open spec fn spec_singles(self) -> Seq<PerformanceOptions> {
        match self {
            PerformanceOptions::_MULTIPLE(f, c) => PerformanceOptions::singles_of_set(f, c),
            _ => seq![self],
        }
    }

    /// The tokens this value renders as: the choice token (if any)
    /// followed by one token per present flag, in vocabulary order.
    pub open spec fn spec_render(self) -> Seq<Seq<char>> {
        self.spec_choice().spec_tokens() + self.spec_flags().tokens()
    }

    /// Render this value as its token list.
    pub fn render(&self) -> (r: Vec<String>)
        ensures
            r.deep_view() == self.spec_render(),
    {
        let choice = self.performance_choice();
        let f = self.to_flags();
        let ghost p0 = choice.spec_tokens();
        let ghost p1 = if f.dont_offload { seq!["/nooffload"@] } else { Seq::<Seq<char>>::empty() };
        let ghost p2 = if f.request_network_compression { seq!["/compress"@] } else { Seq::<Seq<char>>::empty() };
        let ghost p3 = if f.copy_rather_than_follow_link { seq!["/sl"@] } else { Seq::<Seq<char>>::empty() };
        let mut r = choice.render();
        if f.dont_offload {
            push_token(&mut r, String::from_str("/nooffload"));
        }
        proof {
            assert(r.deep_view() =~= p0 + p1);
        }
        if f.request_network_compression {
            push_token(&mut r, String::from_str("/compress"));
        }
        proof {
            assert(r.deep_view() =~= p0 + p1 + p2);
        }
        if f.copy_rather_than_follow_link {
            push_token(&mut r, String::from_str("/sl"));
        }
        proof {
            assert(r.deep_view() =~= p0 + p1 + p2 + p3);
            assert(r.deep_view() == self.spec_render());
        }
        r
    }
}

impl MultipleVariant for PerformanceOptions {
    open spec fn is_decomposition(&self, s: Seq<PerformanceOptions>) -> bool {
        s == self.spec_singles()
    }

    fn single_variants(&self) -> (r: Vec<PerformanceOptions>) {
        match self {
            PerformanceOptions::_MULTIPLE(f, c) => {
                let ghost s1 = if f.dont_offload { seq![PerformanceOptions::DONT_OFFLOAD(*c)] } else { Seq::<PerformanceOptions>::empty() };
                let ghost s2 = if f.request_network_compression { seq![PerformanceOptions::REQUEST_NETWORK_COMPRESSION(*c)] } else { Seq::<PerformanceOptions>::empty() };
                let ghost s3 = if f.copy_rather_than_follow_link { seq![PerformanceOptions::COPY_RATHER_THAN_FOLLOW_LINK(*c)] } else { Seq::<PerformanceOptions>::empty() };
                let mut r: Vec<PerformanceOptions> = Vec::new();
                if f.dont_offload {
                    r.push(PerformanceOptions::DONT_OFFLOAD(*c));
                }
                proof {
                    assert(r@ =~= s1);
                }
                if f.request_network_compression {
                    r.push(PerformanceOptions::REQUEST_NETWORK_COMPRESSION(*c));
                }
                proof {
                    assert(r@ =~= s1 + s2);
                }
                if f.copy_rather_than_follow_link {
                    r.push(PerformanceOptions::COPY_RATHER_THAN_FOLLOW_LINK(*c));
                }
                proof {
                    assert(r@ =~= s1 + s2 + s3);
                    assert(r@ == self.spec_singles());
                }
                r
            },
            _ => {
                let mut r: Vec<PerformanceOptions> = Vec::new();
                r.push(*self);
                proof {
                    assert(r@ =~= self.spec_singles());
                }
                r
            },
        }
    }
}

/// Combination of performance option values is commutative: when the
/// choices are compatible both orders succeed with the same combined
/// value, and when they are not, both orders fail.
pub proof fn lemma_performance_combine_commutative(a: PerformanceOptions, b: PerformanceOptions)
    ensures
        choices_compatible(a.spec_choice(), b.spec_choice()) == choices_compatible(
            b.spec_choice(),
            a.spec_choice(),
        ),
        choices_compatible(a.spec_choice(), b.spec_choice()) ==> PerformanceOptions::_MULTIPLE(
            a.spec_flags().spec_merge(b.spec_flags()),
            spec_choice_merge(a.spec_choice(), b.spec_choice()),
        ) == PerformanceOptions::_MULTIPLE(
            b.spec_flags().spec_merge(a.spec_flags()),
            spec_choice_merge(b.spec_choice(), a.spec_choice()),
        ),
{
}

/// Combination of performance option values is associative: both
/// groupings succeed on exactly the same triples, and then yield the same
/// combined value.
pub proof fn lemma_performance_combine_associative(
    a: PerformanceOptions,
    b: PerformanceOptions,
    c: PerformanceOptions,
)
    ensures
        (choices_compatible(a.spec_choice(), b.spec_choice()) && choices_compatible(
            spec_choice_merge(a.spec_choice(), b.spec_choice()),
            c.spec_choice(),
        )) == (choices_compatible(b.spec_choice(), c.spec_choice()) && choices_compatible(
            a.spec_choice(),
            spec_choice_merge(b.spec_choice(), c.spec_choice()),
        )),
        (choices_compatible(a.spec_choice(), b.spec_choice()) && choices_compatible(
            spec_choice_merge(a.spec_choice(), b.spec_choice()),
            c.spec_choice(),
        )) ==> PerformanceOptions::_MULTIPLE(
            a.spec_flags().spec_merge(b.spec_flags()).spec_merge(c.spec_flags()),
            spec_choice_merge(spec_choice_merge(a.spec_choice(), b.spec_choice()), c.spec_choice()),
        ) == PerformanceOptions::_MULTIPLE(
            a.spec_flags().spec_merge(b.spec_flags().spec_merge(c.spec_flags())),
            spec_choice_merge(a.spec_choice(), spec_choice_merge(b.spec_choice(), c.spec_choice())),
        ),
{
}

/// `PerformanceOptions::Default` is an identity for combination: it is
/// compatible with every value, and combining with it preserves both the
/// presence set and the choice payload.
pub proof fn lemma_performance_combine_default_identity(v: PerformanceOptions)
    ensures
        choices_compatible(v.spec_choice(), PerformanceOptions::Default.spec_choice()),
        PerformanceOptions::_MULTIPLE(
            v.spec_flags().spec_merge(PerformanceOptions::Default.spec_flags()),
            spec_choice_merge(v.spec_choice(), PerformanceOptions::Default.spec_choice()),
        ) == PerformanceOptions::_MULTIPLE(v.spec_flags(), v.spec_choice()),
        v is _MULTIPLE ==> PerformanceOptions::_MULTIPLE(
            v.spec_flags().spec_merge(PerformanceOptions::Default.spec_flags()),
            spec_choice_merge(v.spec_choice(), PerformanceOptions::Default.spec_choice()),
        ) == v,
{
    assert(v.spec_flags().spec_merge(PerformanceFlagSet::empty_set()) =~= v.spec_flags());
}

/// The token lists of a decomposition, in order.
pub open spec fn performance_render_runs(s: Seq<PerformanceOptions>) -> Seq<Seq<Seq<char>>> {
    s.map_values(|f: PerformanceOptions| f.spec_render())
}

/// The token list of each single variant of a decomposition,
/// concatenated in order.
pub open spec fn performance_renders_of_singles(s: Seq<PerformanceOptions>) -> Seq<Seq<char>> {
    performance_render_runs(s).flatten()
}

proof fn lemma_performance_renders_concat(x: Seq<PerformanceOptions>, y: Seq<PerformanceOptions>)
    ensures
        performance_renders_of_singles(x + y) == performance_renders_of_singles(x)
            + performance_renders_of_singles(y),
{
    assert(performance_render_runs(x + y) =~= performance_render_runs(x)
        + performance_render_runs(y));
    lemma_flatten_concat(performance_render_runs(x), performance_render_runs(y));
}

proof fn lemma_performance_renders_one_or_nil(s: Seq<PerformanceOptions>, f: PerformanceOptions)
    requires
        s == seq![f] || s == Seq::<PerformanceOptions>::empty(),
    ensures
        s == seq![f] ==> performance_renders_of_singles(s) == f.spec_render(),
        s == Seq::<PerformanceOptions>::empty() ==> performance_renders_of_singles(s)
            == Seq::<Seq<char>>::empty(),
{
    if s == seq![f] {
        assert(performance_render_runs(seq![f]) =~= seq![f.spec_render()]);
        performance_render_runs(seq![f]).lemma_flatten_one_element();
    } else {
        assert(performance_render_runs(Seq::<PerformanceOptions>::empty())
            =~= Seq::<Seq<Seq<char>>>::empty());
        assert(performance_renders_of_singles(Seq::<PerformanceOptions>::empty())
            =~= Seq::<Seq<char>>::empty());
    }
}

/// Round-trip law for the performance family, which holds exactly when
/// the choice token is not duplicated or lost by decomposition: either
/// the choice is the default placeholder (no choice token), or the
/// combined value carries exactly one flag (one single variant carries
/// the one choice token).  A combined value with a concrete choice and
/// zero or several flags renders its choice token once, while its
/// decomposition repeats it per flag or drops it.
pub proof fn lemma_performance_render_round_trip(v: PerformanceOptions)
    requires
        v matches PerformanceOptions::_MULTIPLE(f, c) ==> (c is Default || f.count() == 1),
    ensures
        performance_renders_of_singles(v.spec_singles()) == v.spec_render(),
{
    match v {
        PerformanceOptions::_MULTIPLE(f, c) => {
            let s1 = if f.dont_offload { seq![PerformanceOptions::DONT_OFFLOAD(c)] } else { Seq::<PerformanceOptions>::empty() };
            let s2 = if f.request_network_compression { seq![PerformanceOptions::REQUEST_NETWORK_COMPRESSION(c)] } else { Seq::<PerformanceOptions>::empty() };
            let s3 = if f.copy_rather_than_follow_link { seq![PerformanceOptions::COPY_RATHER_THAN_FOLLOW_LINK(c)] } else { Seq::<PerformanceOptions>::empty() };
            lemma_performance_renders_one_or_nil(s1, PerformanceOptions::DONT_OFFLOAD(c));
            lemma_performance_renders_one_or_nil(s2, PerformanceOptions::REQUEST_NETWORK_COMPRESSION(c));
            lemma_performance_renders_one_or_nil(s3, PerformanceOptions::COPY_RATHER_THAN_FOLLOW_LINK(c));
            lemma_performance_renders_concat(s1, s2);
            lemma_performance_renders_concat(s1 + s2, s3);
            assert(performance_renders_of_singles(v.spec_singles()) =~= v.spec_render());
        },
        _ => {
            lemma_performance_renders_one_or_nil(seq![v], v);
        },
    }
}

/// Retry behaviour for failed copies, and whether to persist it.
#[derive(Debug, Clone, Copy, PartialEq, Eq, Structural)]
pub struct RetrySettings {
    /// Number of retries on failed copies (the tool's registry default is
    /// one million).
    pub specify_retries_failed_copies: Option<usize>,
    /// Seconds to wait between retries (the tool's registry default is
    /// thirty).
    pub specify_wait_between_retries: Option<usize>,
    /// Save these values in the registry as the new defaults.
    pub save_specifications: bool,
    /// Wait for share names to be defined.
    pub await_share_names_def: bool,
}

impl RetrySettings {
    /// The tokens these settings render as, in the fixed order `/r:`,
    /// `/w:`, `/reg`, `/tbd`.
    pub open spec fn spec_render(self) -> Seq<Seq<char>> {
        (match self.specify_retries_failed_copies {
            Some(n) => seq!["/r:"@ + dec(n as nat)],
            None => Seq::<Seq<char>>::empty(),
        })
            + (match self.specify_wait_between_retries {
                Some(n) => seq!["/w:"@ + dec(n as nat)],
                None => Seq::<Seq<char>>::empty(),
            })
            + (if self.save_specifications { seq!["/reg"@] } else { Seq::<Seq<char>>::empty() })
            + (if self.await_share_names_def { seq!["/tbd"@] } else { Seq::<Seq<char>>::empty() })
    }

    /// Render these settings as their token list.
    pub fn render(&self) -> (r: Vec<String>)
        ensures
            r.deep_view() == self.spec_render(),
    {
        let ghost p1 = match self.specify_retries_failed_copies {
            Some(n) => seq!["/r:"@ + dec(n as nat)],
            None => Seq::<Seq<char>>::empty(),
        };
        let ghost p2 = match self.specify_wait_between_retries {
            Some(n) => seq!["/w:"@ + dec(n as nat)],
            None => Seq::<Seq<char>>::empty(),
        };
        let ghost p3 = if self.save_specifications { seq!["/reg"@] } else { Seq::<Seq<char>>::empty() };
        let ghost p4 = if self.await_share_names_def { seq!["/tbd"@] } else { Seq::<Seq<char>>::empty() };
        let mut r: Vec<String> = Vec::new();
        if let Some(n) = self.specify_retries_failed_copies {
            let mut s = String::from_str("/r:");
            let digits = dec_str(n as u128);
            s.append(digits.as_str());
            push_token(&mut r, s);
        }
        proof {
            assert(r.deep_view() =~= p1);
        }
        if let Some(n) = self.specify_wait_between_retries {
            let mut s = String::from_str("/w:");
            let digits = dec_str(n as u128);
            s.append(digits.as_str());
            push_token(&mut r, s);
        }
        proof {
            assert(r.deep_view() =~= p1 + p2);
        }
        if self.save_specifications {
            push_token(&mut r, String::from_str("/reg"));
        }
        proof {
            assert(r.deep_view() =~= p1 + p2 + p3);
        }
        if self.await_share_names_def {
            push_token(&mut r, String::from_str("/tbd"));
        }
        proof {
            assert(r.deep_view() =~= p1 + p2 + p3 + p4);
            assert(r.deep_view() == self.spec_render());
        }
        r
    }
}

impl Default for RetrySettings {
    /// The settings that leave every retry option to the tool's own
    /// defaults.
    fn default() -> (r: RetrySettings)
        ensures
            r.specify_retries_failed_copies is None,
            r.specify_wait_between_retries is None,
            !r.save_specifications,
            !r.await_share_names_def,
    {
        RetrySettings {
            specify_retries_failed_copies: None,
            specify_wait_between_retries: None,
            save_specifications: false,
            await_share_names_def: false,
        }
    }
}

} // verus!
