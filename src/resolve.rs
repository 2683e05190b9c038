use vstd::prelude::*;

use crate::reply::{Reply, ReplyModel, Status};
use crate::text::slice;

verus! {

/// Number of candidate sections that a bare name is probed in.
pub const PROBE_COUNT: usize = 10;

/// The candidate sections, most common first.
pub open spec fn probe_sections() -> Seq<Seq<char>> {
    seq!["1"@, "8"@, "6"@, "2"@, "3"@, "5"@, "7"@, "4"@, "9"@, "3p"@]
}

/// The candidate section at position `i` of the probing order.
pub fn probe_section(i: usize) -> (r: &'static str)
    requires
        i < PROBE_COUNT,
    ensures
        r@ == probe_sections()[i as int],
{
    match i {
        0 => "1",
        1 => "8",
        2 => "6",
        3 => "2",
        4 => "3",
        5 => "5",
        6 => "7",
        7 => "4",
        8 => "9",
        _ => "3p",
    }
}

/// A trailing token that names a section: `n`, or anything that begins with a digit.
pub open spec fn is_section_token(s: Seq<char>) -> bool {
    s == seq!['n'] || (s.len() > 0 && '0' <= s[0] && s[0] <= '9')
}

/// Position of the last `.` in `s`, or -1 when there is none.
pub open spec fn last_dot(s: Seq<char>) -> int
    decreases s.len(),
{
    if s.len() == 0 {
        -1
    } else if s.last() == '.' {
        s.len() - 1
    } else {
        last_dot(s.drop_last())
    }
}

/// The (name, section) that a name such as `ls.1` spells out, if it does.
pub open spec fn explicit_section(name: Seq<char>) -> Option<(Seq<char>, Seq<char>)> {
    let i = last_dot(name);
    if i >= 0 && is_section_token(name.subrange(i + 1, name.len() as int)) {
        Some((name.subrange(0, i), name.subrange(i + 1, name.len() as int)))
    } else {
        None
    }
}

/// The canonical URL of a page: `/{section}/{name}.{section}.html`.
pub open spec fn page_location(section: Seq<char>, name: Seq<char>) -> Seq<char> {
    "/"@ + section + "/"@ + name + "."@ + section + ".html"@
}

/// The backing document probed for a bare name in a candidate section.
pub open spec fn probe_path(section: Seq<char>, name: Seq<char>) -> Seq<char> {
    "/usr/share/man/man"@ + section + "/"@ + name + "."@ + section + ".gz"@
}

proof fn lemma_last_dot_bounds(s: Seq<char>)
    ensures
        -1 <= last_dot(s) < s.len(),
        last_dot(s) >= 0 ==> s[last_dot(s)] == '.',
    decreases s.len(),
{
    if s.len() > 0 && s.last() != '.' {
        lemma_last_dot_bounds(s.drop_last());
    }
}

/// Position of the last `.` in `s`.
fn rfind_dot(s: &str) -> (r: Option<usize>)
    ensures
        match r {
            Some(i) => last_dot(s@) == i as int,
            None => last_dot(s@) == -1,
        },
{
    let mut i = s.unicode_len();
    assert(s@.subrange(0, i as int) =~= s@);
    while i > 0
        invariant
            i <= s@.len(),
            last_dot(s@) == last_dot(s@.subrange(0, i as int)),
        decreases i,
    {
        if s.get_char(i - 1) == '.' {
            return Some(i - 1);
        }
        assert(s@.subrange(0, i as int).drop_last() =~= s@.subrange(0, i - 1));
        i = i - 1;
    }
    None
}

/// Whether `s` names a section: `n`, or a token that begins with a digit.
pub fn is_section_token_str(s: &str) -> (r: bool)
    ensures
        r == is_section_token(s@),
{
    let n = s.unicode_len();
    if n == 0 {
        return false;
    }
    let c = s.get_char(0);
    if n == 1 && c == 'n' {
        assert(s@ =~= seq!['n']);
        return true;
    }
    '0' <= c && c <= '9'
}

/// Splits `ls.1` into the name `ls` and the section `1`, where the part after
/// the last dot names a section.
pub fn split_section(name: &str) -> (r: Option<(String, String)>)
    ensures
        match r {
            Some((n, s)) => explicit_section(name@) == Some((n@, s@)),
            None => explicit_section(name@) is None,
        },
{
    proof {
        lemma_last_dot_bounds(name@);
    }
    match rfind_dot(name) {
        None => None,
        Some(i) => {
            let len = name.unicode_len();
            let section = slice(name, i + 1, len);
            if is_section_token_str(section.as_str()) {
                Some((slice(name, 0, i), section))
            } else {
                None
            }
        },
    }
}

/// Builds `/{section}/{name}.{section}.html`.
pub fn page_location_of(section: &str, name: &str) -> (r: String)
    ensures
        r@ == page_location(section@, name@),
{
    let mut r = String::from_str("/");
    r.append(section);
    r.append("/");
    r.append(name);
    r.append(".");
    r.append(section);
    r.append(".html");
    r
}

/// Builds the path of the backing document of `name` in a candidate section.
pub fn probe_path_of(section: &str, name: &str) -> (r: String)
    ensures
        r@ == probe_path(section@, name@),
{
    let mut r = String::from_str("/usr/share/man/man");
    r.append(section);
    r.append("/");
    r.append(name);
    r.append(".");
    r.append(section);
    r.append(".gz");
    r
}

/// What the resolver asks for next: whether the document at `path` exists
/// (the candidate at position `index`), or nothing more.
#[derive(Debug, PartialEq, Eq)]
pub enum FindStep {
    Probe { index: usize, path: String },
    Done(Reply),
}

/// The mathematical value of a [`FindStep`].
pub ghost enum FindModel {
    Probe { index: int, path: Seq<char> },
    Done(ReplyModel),
}

impl View for FindStep {
    type V = FindModel;

    open spec fn view(&self) -> FindModel {
        match self {
            FindStep::Probe { index, path } => FindModel::Probe { index: *index as int, path: path@ },
            FindStep::Done(r) => FindModel::Done(r@),
        }
    }
}

pub open spec fn redirect_to(location: Seq<char>) -> FindModel {
    FindModel::Done(ReplyModel::Redirect { location, modified: None })
}

/// Probe the candidate at `index`, or give up when every candidate was tried.
pub open spec fn probe_or_give_up(name: Seq<char>, index: int) -> FindModel {
    if index < PROBE_COUNT {
        FindModel::Probe { index, path: probe_path(probe_sections()[index], name) }
    } else {
        FindModel::Done(ReplyModel::Failed(Status::NotFound))
    }
}

/// The first step of resolving a bare name.
pub open spec fn find_model(name: Seq<char>) -> FindModel {
    match explicit_section(name) {
        Some((n, s)) => redirect_to(page_location(s, n)),
        None => probe_or_give_up(name, 0),
    }
}

/// The step after learning whether the candidate at `index` exists.
pub open spec fn find_next_model(name: Seq<char>, index: int, exists: bool) -> FindModel {
    if exists {
        redirect_to(page_location(probe_sections()[index], name))
    } else {
        probe_or_give_up(name, index + 1)
    }
}

fn probe_or_give_up_exec(name: &str, index: usize) -> (r: FindStep)
    requires
        index <= PROBE_COUNT,
    ensures
        r@ == probe_or_give_up(name@, index as int),
{
    if index < PROBE_COUNT {
        FindStep::Probe { index, path: probe_path_of(probe_section(index), name) }
    } else {
        FindStep::Done(Reply::Failed(Status::NotFound))
    }
}

/// Starts resolving a bare name: a name that spells out its section is
/// redirected at once, without probing; any other is probed in the first
/// candidate section.
pub fn find(name: &str) -> (r: FindStep)
    ensures
        r@ == find_model(name@),
{
    match split_section(name) {
        Some((n, s)) => FindStep::Done(
            Reply::Redirect { location: page_location_of(s.as_str(), n.as_str()), modified: None },
        ),
        None => probe_or_give_up_exec(name, 0),
    }
}

/// Continues resolving a bare name once it is known whether the candidate at
/// `index` exists: the first that exists wins, else the next is probed.
pub fn find_next(name: &str, index: usize, exists: bool) -> (r: FindStep)
    requires
        index < PROBE_COUNT,
    ensures
        r@ == find_next_model(name@, index as int, exists),
{
    if exists {
        FindStep::Done(
            Reply::Redirect {
                location: page_location_of(probe_section(index), name),
                modified: None,
            },
        )
    } else {
        probe_or_give_up_exec(name, index + 1)
    }
}

/// Drives the resolver from `step`, answering each probe for the candidate at
/// position `i` with `found[i]`: the paths probed, in order, and the last step.
pub open spec fn probe_run(name: Seq<char>, found: Seq<bool>, step: FindModel, fuel: nat) -> (
    Seq<Seq<char>>,
    FindModel,
)
    decreases fuel,
{
    match step {
        FindModel::Probe { index, path } => {
            if fuel == 0 || !(0 <= index < PROBE_COUNT) {
                (Seq::empty(), step)
            } else {
                let rest = probe_run(
                    name,
                    found,
                    find_next_model(name, index, found[index]),
                    (fuel - 1) as nat,
                );
                (seq![path] + rest.0, rest.1)
            }
        },
        FindModel::Done(_) => (Seq::empty(), step),
    }
}

/// Position of the first `true` in `found` at or after `i`, or `PROBE_COUNT`.
pub open spec fn first_found_from(found: Seq<bool>, i: int) -> int
    decreases PROBE_COUNT - i,
{
    if i >= PROBE_COUNT || i < 0 {
        PROBE_COUNT as int
    } else if found[i] {
        i
    } else {
        first_found_from(found, i + 1)
    }
}

/// The paths of the candidates from position `i`, `n` of them.
pub open spec fn candidate_paths(name: Seq<char>, i: int, n: nat) -> Seq<Seq<char>> {
    Seq::new(n, |k: int| probe_path(probe_sections()[i + k], name))
}

proof fn lemma_probe_run_from(name: Seq<char>, found: Seq<bool>, i: int, fuel: nat)
    requires
        0 <= i <= PROBE_COUNT,
        found.len() == PROBE_COUNT,
        fuel >= PROBE_COUNT - i,
    ensures
        i <= first_found_from(found, i) <= PROBE_COUNT,
        first_found_from(found, i) < PROBE_COUNT ==> found[first_found_from(found, i)],
        forall|k: int| i <= k < first_found_from(found, i) ==> !found[k],
        probe_run(name, found, probe_or_give_up(name, i), fuel) == if first_found_from(found, i)
            < PROBE_COUNT {
            (
                candidate_paths(name, i, (first_found_from(found, i) - i + 1) as nat),
                redirect_to(page_location(probe_sections()[first_found_from(found, i)], name)),
            )
        } else {
            (
                candidate_paths(name, i, (PROBE_COUNT - i) as nat),
                FindModel::Done(ReplyModel::Failed(Status::NotFound)),
            )
        },
    decreases PROBE_COUNT - i,
{
    let step = probe_or_give_up(name, i);
    if i == PROBE_COUNT {
        assert(candidate_paths(name, i, 0) =~= Seq::empty());
    } else {
        let p = probe_path(probe_sections()[i], name);
        assert(step == FindModel::Probe { index: i, path: p });
        let next = find_next_model(name, i, found[i]);
        assert(probe_run(name, found, step, fuel) == (
            seq![p] + probe_run(name, found, next, (fuel - 1) as nat).0,
            probe_run(name, found, next, (fuel - 1) as nat).1,
        ));
        if found[i] {
            assert(candidate_paths(name, i, 1) =~= seq![p]);
            assert(seq![p] + Seq::<Seq<char>>::empty() =~= seq![p]);
        } else {
            lemma_probe_run_from(name, found, i + 1, (fuel - 1) as nat);
            let j = first_found_from(found, i);
            let n = if j < PROBE_COUNT { j - i + 1 } else { PROBE_COUNT - i };
            assert(seq![p] + candidate_paths(name, i + 1, (n - 1) as nat) =~= candidate_paths(
                name,
                i,
                n as nat,
            ));
        }
    }
}

/// A bare name without a section of its own is probed in the candidate
/// sections strictly in priority order, stopping at the first whose backing
/// document exists, and is redirected there; when none exists, every candidate
/// is probed once and the answer is 404.
pub proof fn lemma_probe_in_priority_order(name: Seq<char>, found: Seq<bool>)
    requires
        explicit_section(name) is None,
        found.len() == PROBE_COUNT,
    ensures
        ({
            let j = first_found_from(found, 0);
            &&& 0 <= j <= PROBE_COUNT
            &&& j < PROBE_COUNT ==> found[j]
            &&& forall|k: int| 0 <= k < j ==> !found[k]
            &&& probe_run(name, found, find_model(name), PROBE_COUNT as nat) == if j
                < PROBE_COUNT {
                (
                    candidate_paths(name, 0, (j + 1) as nat),
                    redirect_to(page_location(probe_sections()[j], name)),
                )
            } else {
                (
                    candidate_paths(name, 0, PROBE_COUNT as nat),
                    FindModel::Done(ReplyModel::Failed(Status::NotFound)),
                )
            }
        }),
{
    lemma_probe_run_from(name, found, 0, PROBE_COUNT as nat);
}

} // verus!
