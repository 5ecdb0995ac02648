//! Choosing, among the entries that a walk of the input directory found, the
//! files to convert.

use vstd::prelude::*;
use crate::naming::{is_source_file, is_source_name, output_path_for, output_path_of};

verus! {

/// An entry found under the input directory: its path, and its file name.
pub struct FoundEntry {
    pub path: String,
    pub name: String,
}

/// A file to convert: where it is read from and where its result goes.
pub struct Candidate {
    pub input: String,
    pub output: String,
}

impl View for FoundEntry {
    type V = (Seq<char>, Seq<char>);

    open spec fn view(&self) -> (Seq<char>, Seq<char>) {
        (self.path@, self.name@)
    }
}

impl View for Candidate {
    type V = (Seq<char>, Seq<char>);

    open spec fn view(&self) -> (Seq<char>, Seq<char>) {
        (self.input@, self.output@)
    }
}

pub open spec fn entry_views(entries: Seq<FoundEntry>) -> Seq<(Seq<char>, Seq<char>)> {
    entries.map_values(|e: FoundEntry| e@)
}

pub open spec fn candidate_views(cands: Seq<Candidate>) -> Seq<(Seq<char>, Seq<char>)> {
    cands.map_values(|c: Candidate| c@)
}

/// The candidates for a list of entries (path, name): one for each entry whose
/// name has the source extension, in the order of the list.
pub open spec fn candidates_of(entries: Seq<(Seq<char>, Seq<char>)>) -> Seq<(Seq<char>, Seq<char>)>
    decreases entries.len(),
{
    if entries.len() == 0 {
        Seq::empty()
    } else {
        let rest = candidates_of(entries.drop_last());
        let e = entries.last();
        if is_source_name(e.1) {
            rest.push((e.0, output_path_of(e.1)))
        } else {
            rest
        }
    }
}

/// How many entries of the list have a source name.
pub open spec fn count_sources(entries: Seq<(Seq<char>, Seq<char>)>) -> nat
    decreases entries.len(),
{
    if entries.len() == 0 {
        0
    } else {
        count_sources(entries.drop_last()) + if is_source_name(entries.last().1) {
            1nat
        } else {
            0nat
        }
    }
}

/// The files to convert among the entries found: each entry whose name has
/// the source extension, with its output path, in the order found.
pub fn select_candidates(entries: &Vec<FoundEntry>) -> (r: Vec<Candidate>)
    ensures
        candidate_views(r@) == candidates_of(entry_views(entries@)),
{
    let mut out: Vec<Candidate> = Vec::new();
    let mut i: usize = 0;
    while i < entries.len()
        invariant
            i <= entries@.len(),
            candidate_views(out@) == candidates_of(entry_views(entries@).take(i as int)),
        decreases entries@.len() - i,
    {
        let e = &entries[i];
        let ghost before = entry_views(entries@).take(i as int);
        assert(entry_views(entries@).take(i as int + 1).drop_last() =~= before);
        assert(entry_views(entries@).take(i as int + 1).last() == e@);
        if is_source_file(e.name.as_str()) {
            let c = Candidate { input: e.path.clone(), output: output_path_for(e.name.as_str()) };
            out.push(c);
            assert(candidate_views(out@) =~= candidates_of(before).push(c@));
        }
        i = i + 1;
    }
    assert(entry_views(entries@).take(entries@.len() as int) =~= entry_views(entries@));
    out
}

/// Discovery keeps exactly the source files: as many candidates as entries
/// with the source extension, each candidate read from such an entry, and
/// each such entry read by a candidate.
pub proof fn lemma_discovery_keeps_exactly_sources(entries: Seq<(Seq<char>, Seq<char>)>)
    ensures
        candidates_of(entries).len() == count_sources(entries),
        forall|k: int|
            0 <= k < candidates_of(entries).len() ==> exists|j: int|
                0 <= j < entries.len() && is_source_name(entries[j].1) && entries[j].0
                    == #[trigger] candidates_of(entries)[k].0,
        forall|j: int|
            0 <= j < entries.len() && is_source_name(#[trigger] entries[j].1) ==> exists|k: int|
                0 <= k < candidates_of(entries).len() && candidates_of(entries)[k].0
                    == entries[j].0,
    decreases entries.len(),
{
    if entries.len() > 0 {
        let init = entries.drop_last();
        lemma_discovery_keeps_exactly_sources(init);
        let rest = candidates_of(init);
        let all = candidates_of(entries);
        assert forall|k: int| 0 <= k < all.len() implies exists|j: int|
            0 <= j < entries.len() && is_source_name(entries[j].1) && entries[j].0
                == #[trigger] all[k].0 by {
            if k < rest.len() {
                assert(all[k] == rest[k]);
                let j = choose|j: int|
                    0 <= j < init.len() && is_source_name(init[j].1) && init[j].0 == rest[k].0;
                assert(entries[j] == init[j]);
            } else {
                assert(entries[entries.len() - 1] == entries.last());
            }
        }
        assert forall|j: int|
            0 <= j < entries.len() && is_source_name(#[trigger] entries[j].1) implies exists|k: int|
                0 <= k < all.len() && all[k].0 == entries[j].0 by {
            if j < init.len() {
                assert(init[j] == entries[j]);
                let k = choose|k: int| 0 <= k < rest.len() && rest[k].0 == init[j].0;
                assert(all[k] == rest[k]);
            } else {
                assert(all[all.len() - 1].0 == entries[j].0);
            }
        }
    }
}

} // verus!
