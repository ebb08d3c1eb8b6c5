//! The process picker's name filter.

use vstd::prelude::*;

verus! {

/// One selectable process.
#[derive(Clone, Debug, PartialEq, Eq)]
pub struct ProcessEntry {
    pub process_id: u32,
    pub name: String,
}

/// Whether `pattern` occurs in `text` as a run of consecutive characters.
/// The empty pattern occurs in every text.
pub open spec fn occurs_in(pattern: Seq<char>, text: Seq<char>) -> bool {
    exists|at: int|
        0 <= at && at + pattern.len() <= text.len() && #[trigger] text.subrange(
            at,
            at + pattern.len(),
        ) == pattern
}

/// The entries whose name holds `filter`, in their order.
pub open spec fn matching(entries: Seq<ProcessEntry>, filter: Seq<char>) -> Seq<ProcessEntry> {
    entries.filter(|entry: ProcessEntry| occurs_in(filter, entry.name@))
}

/// `str::contains` with a string as the pattern: whether the pattern occurs
/// in the text as a substring. Believed of the standard library, not proved.
#[verifier::external_body]
fn name_contains(name: &str, filter: &str) -> (found: bool)
    ensures
        found == occurs_in(filter@, name@),
{
    name.contains(filter)
}

/// Keeps the entries whose name holds `filter`, in their order. An empty
/// filter keeps them all.
pub fn filter_processes(entries: &Vec<ProcessEntry>, filter: &str) -> (shown: Vec<ProcessEntry>)
    ensures
        shown@ == matching(entries@, filter@),
{
    let mut shown: Vec<ProcessEntry> = Vec::new();
    let mut i: usize = 0;
    proof {
        reveal(Seq::filter);
        assert(entries@.take(0) =~= Seq::empty());
    }
    while i < entries.len()
        invariant
            i <= entries.len(),
            shown@ == matching(entries@.take(i as int), filter@),
        decreases entries.len() - i,
    {
        let entry = &entries[i];
        proof {
            reveal(Seq::filter);
            assert(entries@.take(i + 1).drop_last() =~= entries@.take(i as int));
            assert(entries@.take(i + 1).last() == entries@[i as int]);
        }
        if name_contains(entry.name.as_str(), filter) {
            shown.push(ProcessEntry { process_id: entry.process_id, name: entry.name.clone() });
        }
        i += 1;
    }
    assert(entries@.take(i as int) =~= entries@);
    shown
}

/// The empty filter keeps every entry.
pub proof fn law_empty_filter_keeps_all(entries: Seq<ProcessEntry>)
    ensures
        matching(entries, Seq::empty()) == entries,
    decreases entries.len(),
{
    reveal(Seq::filter);
    if entries.len() > 0 {
        law_empty_filter_keeps_all(entries.drop_last());
        let name = entries.last().name@;
        let nothing = Seq::<char>::empty();
        assert(name.subrange(0, 0 + nothing.len() as int) =~= nothing);
        assert(occurs_in(nothing, name));
        assert(entries.drop_last().push(entries.last()) =~= entries);
    }
}

/// Every entry that the filter keeps holds the filter in its name, and was
/// among the entries.
pub proof fn law_filter_keeps_only_matches(entries: Seq<ProcessEntry>, filter: Seq<char>, i: int)
    requires
        0 <= i < matching(entries, filter).len(),
    ensures
        occurs_in(filter, matching(entries, filter)[i].name@),
        entries.contains(matching(entries, filter)[i]),
{
    let pred = |entry: ProcessEntry| occurs_in(filter, entry.name@);
    entries.lemma_filter_pred(pred, i);
    assert(entries.filter(pred).contains(entries.filter(pred)[i]));
    entries.lemma_filter_contains_rev(pred, entries.filter(pred)[i]);
}

} // verus!
