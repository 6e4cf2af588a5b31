//! Where scenes are kept, and the choice of a file that does not exist yet.

use crate::error::{ErrorView, PersistenceError};
use vstd::prelude::*;

verus! {

/// How many candidate files a save looks at before it gives up.
pub const PROBE_LIMIT: usize = 10;

/// What testing one candidate file for existence gave.
#[derive(Clone, Copy, Debug, PartialEq, Eq, Structural)]
pub enum Probe {
    /// No file is there.
    Vacant,
    /// A file is there.
    Occupied,
    /// The test itself failed, so nothing is known.
    Untestable,
}

/// The character of a decimal digit.
pub open spec fn digit_char(d: int) -> char {
    if d == 0 {
        '0'
    } else if d == 1 {
        '1'
    } else if d == 2 {
        '2'
    } else if d == 3 {
        '3'
    } else if d == 4 {
        '4'
    } else if d == 5 {
        '5'
    } else if d == 6 {
        '6'
    } else if d == 7 {
        '7'
    } else if d == 8 {
        '8'
    } else {
        '9'
    }
}

/// A number in decimal, without sign or leading zeros.
pub open spec fn decimal_text(n: nat) -> Seq<char>
    decreases n,
{
    if n < 10 {
        seq![digit_char(n as int)]
    } else {
        decimal_text(n / 10) + seq![digit_char((n % 10) as int)]
    }
}

/// The name tried at position `i`: the base itself first, then the base
/// followed by a hyphen and `i`.
pub open spec fn candidate_text(base: Seq<char>, i: nat) -> Seq<char> {
    if i == 0 {
        base
    } else {
        base + seq!['-'] + decimal_text(i)
    }
}

/// The file that holds the scene of the given name.
pub open spec fn path_text(name: Seq<char>) -> Seq<char> {
    "assets/scenes/"@ + name + ".scn.ron"@
}

/// How many of the probes count: those of the first `PROBE_LIMIT` candidates.
pub open spec fn probed(probes: Seq<Probe>) -> int {
    if probes.len() < PROBE_LIMIT {
        probes.len() as int
    } else {
        PROBE_LIMIT as int
    }
}

/// Candidate `i` was found vacant and no earlier one was.
pub open spec fn is_first_vacant(probes: Seq<Probe>, i: int) -> bool {
    &&& 0 <= i < probed(probes)
    &&& probes[i] is Vacant
    &&& forall|j: int| 0 <= j < i ==> !(#[trigger] probes[j] is Vacant)
}

/// No candidate that counts was found vacant.
pub open spec fn none_vacant(probes: Seq<Probe>) -> bool {
    forall|j: int| 0 <= j < probed(probes) ==> !(#[trigger] probes[j] is Vacant)
}

/// No candidate that counts could be tested.
pub open spec fn none_testable(probes: Seq<Probe>) -> bool {
    forall|j: int| 0 <= j < probed(probes) ==> #[trigger] probes[j] is Untestable
}

/// The first candidate that was found vacant, if there is one.
pub open spec fn first_vacant(probes: Seq<Probe>) -> Option<int> {
    if exists|i: int| is_first_vacant(probes, i) {
        Some(choose|i: int| is_first_vacant(probes, i))
    } else {
        None
    }
}

/// What a save of `base` is given to write to: the file of the first vacant
/// candidate. Without one, the save fails: for too many collisions where
/// some candidate could be tested, for an invalid path where none could.
pub open spec fn allocation(base: Seq<char>, probes: Seq<Probe>) -> Result<Seq<char>, ErrorView> {
    match first_vacant(probes) {
        Some(i) => Ok(path_text(candidate_text(base, i as nat))),
        None => if none_testable(probes) {
            Err(ErrorView::InvalidPath)
        } else {
            Err(ErrorView::TooManyCollisions)
        },
    }
}

/// Only one candidate can be the first vacant one.
pub proof fn lemma_first_vacant(probes: Seq<Probe>, i: int)
    requires
        is_first_vacant(probes, i),
    ensures
        first_vacant(probes) == Some(i),
{
}

/// Before a vacant candidate there is a first vacant one.
proof fn lemma_least_vacant(probes: Seq<Probe>, j: int)
    requires
        0 <= j < probed(probes),
        probes[j] is Vacant,
    ensures
        exists|i: int| 0 <= i <= j && is_first_vacant(probes, i),
    decreases j,
{
    if exists|k: int| 0 <= k < j && probes[k] is Vacant {
        let k = choose|k: int| 0 <= k < j && probes[k] is Vacant;
        lemma_least_vacant(probes, k);
    } else {
        assert(is_first_vacant(probes, j));
    }
}

/// How an allocation ends: with the file of the first vacant candidate; for
/// an invalid path exactly where no candidate could be tested; for too many
/// collisions exactly where some could and none was vacant.
pub proof fn lemma_allocation_cases(base: Seq<char>, probes: Seq<Probe>)
    ensures
        match allocation(base, probes) {
            Ok(path) => exists|i: int| #[trigger]
                is_first_vacant(probes, i) && path == path_text(candidate_text(base, i as nat)),
            Err(ErrorView::InvalidPath) => none_testable(probes),
            Err(ErrorView::TooManyCollisions) => none_vacant(probes) && !none_testable(probes),
            Err(_) => false,
        },
        none_testable(probes) ==> allocation(base, probes) == Err::<Seq<char>, ErrorView>(
            ErrorView::InvalidPath,
        ),
        none_vacant(probes) && !none_testable(probes) ==> allocation(base, probes) == Err::<
            Seq<char>,
            ErrorView,
        >(ErrorView::TooManyCollisions),
{
    match first_vacant(probes) {
        Some(_) => {},
        None => {
            assert forall|j: int| 0 <= j < probed(probes) implies !(#[trigger] probes[j]
                is Vacant) by {
                if probes[j] is Vacant {
                    lemma_least_vacant(probes, j);
                }
            }
        },
    }
}

fn digit_str(d: usize) -> (s: &'static str)
    requires
        d < 10,
    ensures
        s@ == seq![digit_char(d as int)],
{
    proof {
        reveal_strlit("0");
        reveal_strlit("1");
        reveal_strlit("2");
        reveal_strlit("3");
        reveal_strlit("4");
        reveal_strlit("5");
        reveal_strlit("6");
        reveal_strlit("7");
        reveal_strlit("8");
        reveal_strlit("9");
    }
    let s = if d == 0 {
        "0"
    } else if d == 1 {
        "1"
    } else if d == 2 {
        "2"
    } else if d == 3 {
        "3"
    } else if d == 4 {
        "4"
    } else if d == 5 {
        "5"
    } else if d == 6 {
        "6"
    } else if d == 7 {
        "7"
    } else if d == 8 {
        "8"
    } else {
        "9"
    };
    s
}

fn append_decimal(text: &mut String, n: usize)
    ensures
        final(text)@ == old(text)@ + decimal_text(n as nat),
    decreases n,
{
    if n >= 10 {
        append_decimal(text, n / 10);
    }
    text.append(digit_str(n % 10));
}

/// The name to try at position `i` for a scene called `base`.
pub fn candidate_name(base: &str, i: usize) -> (name: String)
    ensures
        name@ == candidate_text(base@, i as nat),
{
    let mut name = String::from_str(base);
    if i != 0 {
        proof {
            reveal_strlit("-");
        }
        name.append("-");
        append_decimal(&mut name, i);
    }
    name
}

/// The file in which a scene of the given name is kept.
pub fn scene_path(name: &str) -> (path: String)
    ensures
        path@ == path_text(name@),
{
    let mut path = String::from_str("assets/scenes/");
    path.append(name);
    path.append(".scn.ron");
    path
}

/// The files that a save of `base` may go to, in the order in which they are
/// tried. The caller tests each for existence and hands the outcomes, in the
/// same order, to [`allocate`].
pub fn candidates(base: &str) -> (paths: Vec<String>)
    ensures
        paths.len() == PROBE_LIMIT,
        forall|i: int|
            0 <= i < PROBE_LIMIT ==> (#[trigger] paths[i])@ == path_text(
                candidate_text(base@, i as nat),
            ),
{
    let mut paths: Vec<String> = Vec::new();
    let mut i: usize = 0;
    while i < PROBE_LIMIT
        invariant
            i <= PROBE_LIMIT,
            paths.len() == i,
            forall|k: int|
                0 <= k < i ==> (#[trigger] paths[k])@ == path_text(candidate_text(base@, k as nat)),
        decreases PROBE_LIMIT - i,
    {
        let name = candidate_name(base, i);
        paths.push(scene_path(name.as_str()));
        i = i + 1;
    }
    paths
}

/// Picks the file for a save of `base`: the first candidate that was found
/// vacant. Candidates that could not be tested are passed over. Probes past
/// the first `PROBE_LIMIT` are not looked at, and a candidate without a probe
/// is never chosen.
///
/// The file chosen is one whose probe said that it does not exist, so a save
/// that follows this choice overwrites nothing that was there when the
/// probes were made.
pub fn allocate(base: &str, probes: &Vec<Probe>) -> (out: Result<String, PersistenceError>)
    ensures
        match out {
            Ok(path) => allocation(base@, probes@) == Ok::<Seq<char>, ErrorView>(path@),
            Err(e) => allocation(base@, probes@) == Err::<Seq<char>, ErrorView>(e@),
        },
{
    let n = if probes.len() < PROBE_LIMIT {
        probes.len()
    } else {
        PROBE_LIMIT
    };
    let mut testable = false;
    let mut i: usize = 0;
    while i < n
        invariant
            i <= n,
            n == probed(probes@),
            forall|j: int| 0 <= j < i ==> !(#[trigger] probes@[j] is Vacant),
            testable <==> exists|j: int| 0 <= j < i && !(#[trigger] probes@[j] is Untestable),
        decreases n - i,
    {
        match probes[i] {
            Probe::Vacant => {
                let name = candidate_name(base, i);
                let path = scene_path(name.as_str());
                proof {
                    lemma_first_vacant(probes@, i as int);
                }
                return Ok(path);
            },
            Probe::Occupied => {
                testable = true;
            },
            Probe::Untestable => {},
        }
        i = i + 1;
    }
    if testable {
        Err(PersistenceError::TooManyCollisions)
    } else {
        Err(PersistenceError::InvalidPath)
    }
}

} // verus!
