use vstd::prelude::*;
use vstd::string::StrSliceExecFns;

use crate::message::InboundMessage;

verus! {

/// Which senders are accepted, as read from the configuration text.
pub enum NumberAcceptance {
    /// Every sender.
    All,
    /// Exactly the senders listed.
    Specific(Vec<String>),
    /// One sender alone.
    Single(String),
}

/// What a `NumberAcceptance` stands for, over plain text.
pub enum AcceptanceModel {
    All,
    Specific(Seq<Seq<char>>),
    Single(Seq<char>),
}

impl View for NumberAcceptance {
    type V = AcceptanceModel;

    open spec fn view(&self) -> AcceptanceModel {
        match self {
            NumberAcceptance::All => AcceptanceModel::All,
            NumberAcceptance::Specific(ns) => AcceptanceModel::Specific(ns.deep_view()),
            NumberAcceptance::Single(n) => AcceptanceModel::Single(n@),
        }
    }
}

/// The segments of `s` between occurrences of `sep`, taken verbatim
/// (empty segments included); a text without `sep` is one segment.
pub open spec fn split_on(s: Seq<char>, sep: char) -> Seq<Seq<char>>
    decreases s.len(),
{
    if s.len() == 0 {
        seq![Seq::<char>::empty()]
    } else {
        let init = split_on(s.drop_last(), sep);
        if s.last() == sep {
            init.push(Seq::<char>::empty())
        } else {
            init.update(init.len() - 1, init.last().push(s.last()))
        }
    }
}

/// The policy that a configuration text describes: `*` accepts every
/// sender, a text with a comma lists the accepted senders, and any other
/// text is the one accepted sender.
pub open spec fn policy_of(config: Seq<char>) -> AcceptanceModel {
    if config == seq!['*'] {
        AcceptanceModel::All
    } else if config.contains(',') {
        AcceptanceModel::Specific(split_on(config, ','))
    } else {
        AcceptanceModel::Single(config)
    }
}

/// Whether `policy` accepts the sender `candidate`: an exact, textual match.
pub open spec fn accepts(policy: AcceptanceModel, candidate: Seq<char>) -> bool {
    match policy {
        AcceptanceModel::All => true,
        AcceptanceModel::Specific(ns) => ns.contains(candidate),
        AcceptanceModel::Single(n) => candidate == n,
    }
}

/// Splitting yields at least one segment, and no segment holds the separator.
pub proof fn lemma_split_segments(s: Seq<char>, sep: char)
    ensures
        split_on(s, sep).len() >= 1,
        forall|k: int| 0 <= k < split_on(s, sep).len() ==> !(#[trigger] split_on(s, sep)[k]).contains(sep),
    decreases s.len(),
{
    if s.len() > 0 {
        let init = split_on(s.drop_last(), sep);
        lemma_split_segments(s.drop_last(), sep);
        if s.last() != sep {
            let grown = init.last().push(s.last());
            assert forall|j: int| 0 <= j < grown.len() implies grown[j] != sep by {
                if j < grown.len() - 1 {
                    assert(grown[j] == init.last()[j]);
                }
            }
            assert(!grown.contains(sep));
        } else {
            assert(!Seq::<char>::empty().contains(sep));
        }
    }
}

fn contains_char(s: &str, c: char) -> (r: bool)
    ensures
        r == s@.contains(c),
{
    let n = s.unicode_len();
    let mut i: usize = 0;
    while i < n
        invariant
            n == s@.len(),
            i <= n,
            forall|k: int| 0 <= k < i ==> s@[k] != c,
        decreases n - i,
    {
        if s.get_char(i) == c {
            return true;
        }
        i = i + 1;
    }
    false
}

/// Splits `s` at every `sep`, keeping each segment as it stands.
fn split_text(s: &str, sep: char) -> (r: Vec<String>)
    ensures
        r.deep_view() == split_on(s@, sep),
{
    let n = s.unicode_len();
    let mut pieces: Vec<String> = Vec::new();
    let mut start: usize = 0;
    let mut i: usize = 0;
    proof {
        assert(s@.subrange(0, 0) =~= Seq::<char>::empty());
        assert(pieces.deep_view().push(s@.subrange(0, 0)) =~= split_on(Seq::<char>::empty(), sep));
    }
    while i < n
        invariant
            n == s@.len(),
            start <= i <= n,
            split_on(s@.subrange(0, i as int), sep) == pieces.deep_view().push(s@.subrange(start as int, i as int)),
        decreases n - i,
    {
        let ghost before = pieces.deep_view();
        let c = s.get_char(i);
        proof {
            let t = s@.subrange(0, i + 1);
            assert(t.drop_last() =~= s@.subrange(0, i as int));
            assert(t.last() == c);
        }
        if c == sep {
            let ghost old_start = start;
            let piece = s.substring_char(start, i).to_owned();
            pieces.push(piece);
            start = i + 1;
            proof {
                assert(pieces.deep_view() =~= before.push(s@.subrange(old_start as int, i as int)));
                assert(s@.subrange(start as int, i + 1) =~= Seq::<char>::empty());
                assert(split_on(s@.subrange(0, i + 1), sep) =~= pieces.deep_view().push(s@.subrange(start as int, i + 1)));
            }
        } else {
            proof {
                assert(s@.subrange(start as int, i + 1) =~= s@.subrange(start as int, i as int).push(c));
                assert(split_on(s@.subrange(0, i + 1), sep) =~= pieces.deep_view().push(s@.subrange(start as int, i + 1)));
            }
        }
        i = i + 1;
    }
    let last = s.substring_char(start, n).to_owned();
    let ghost before = pieces.deep_view();
    pieces.push(last);
    proof {
        assert(s@.subrange(0, n as int) =~= s@);
        assert(pieces.deep_view() =~= before.push(s@.subrange(start as int, n as int)));
    }
    pieces
}

/// Reads the acceptance policy from its configuration text.
pub fn build_policy(config: &str) -> (r: NumberAcceptance)
    ensures
        r@ == policy_of(config@),
{
    let n = config.unicode_len();
    if n == 1 && config.get_char(0) == '*' {
        assert(config@ =~= seq!['*']);
        NumberAcceptance::All
    } else if contains_char(config, ',') {
        NumberAcceptance::Specific(split_text(config, ','))
    } else {
        NumberAcceptance::Single(config.to_owned())
    }
}

impl NumberAcceptance {
    /// Whether this policy accepts the sender `candidate`.
    pub fn evaluate(&self, candidate: &String) -> (r: bool)
        ensures
            r == accepts(self@, candidate@),
    {
        match self {
            NumberAcceptance::All => true,
            NumberAcceptance::Single(n) => *n == *candidate,
            NumberAcceptance::Specific(ns) => {
                let mut j: usize = 0;
                while j < ns.len()
                    invariant
                        j <= ns.len(),
                        self@ == AcceptanceModel::Specific(ns.deep_view()),
                        forall|k: int| 0 <= k < j ==> ns@[k]@ != candidate@,
                    decreases ns.len() - j,
                {
                    if ns[j] == *candidate {
                        assert(ns.deep_view().len() == ns@.len());
                        assert(ns.deep_view()[j as int] == ns@[j as int]@);
                        assert(ns.deep_view().contains(candidate@));
                        return true;
                    }
                    j = j + 1;
                }
                assert(!ns.deep_view().contains(candidate@));
                false
            },
        }
    }
}

/// Whether the sender of `msg` passes `acc`.
pub fn check_num(acc: NumberAcceptance, msg: &InboundMessage) -> (r: bool)
    ensures
        r == accepts(acc@, msg@.from),
{
    let from = msg.get_from();
    acc.evaluate(&from)
}

} // verus!
