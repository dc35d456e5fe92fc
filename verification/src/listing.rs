//! What a directory listing shows.
//!
//! Reading a directory yields one probe per entry, in the order in which the
//! system hands the entries out. A probe may have failed altogether, or have
//! learned the entry's name but not its kind.

use vstd::prelude::*;

verus! {

/// What was learned of one directory entry.
#[derive(Debug)]
pub struct Probe {
    /// The entry's name within its directory.
    pub name: String,
    /// Whether the entry is a directory; `None` where its kind could not be
    /// found out.
    pub directory: Option<bool>,
}

impl Probe {
    /// The line that the entry gets in a listing: its name, and whether it is
    /// known to be a directory. An entry of unknown kind counts as none.
    pub open spec fn line(self) -> (Seq<char>, bool) {
        (self.name@, self.directory == Some(true))
    }
}

/// The line of a probe, if the probe brought an entry back.
pub open spec fn shown(probe: Option<Probe>) -> Option<(Seq<char>, bool)> {
    match probe {
        Some(entry) => Some(entry.line()),
        None => None,
    }
}

/// The listing made of `probes`: the lines of the entries that could be read,
/// in their order; a failed probe leaves no line.
pub open spec fn listing(probes: Seq<Option<Probe>>) -> Seq<(Seq<char>, bool)> {
    probes.filter_map(|probe: Option<Probe>| shown(probe))
}

/// Builds the listing of a directory from the probes of its entries.
pub fn list_entries(probes: &[Option<Probe>]) -> (lines: Vec<(String, bool)>)
    ensures
        lines.deep_view() == listing(probes@),
{
    let mut lines: Vec<(String, bool)> = Vec::new();
    let mut i: usize = 0;
    while i < probes.len()
        invariant
            i <= probes.len(),
            lines.deep_view() == listing(probes@.take(i as int)),
        decreases probes.len() - i,
    {
        proof {
            probes@.lemma_filter_map_take_succ(|probe: Option<Probe>| shown(probe), i as int);
        }
        match &probes[i] {
            Some(entry) => {
                let is_directory = match entry.directory {
                    Some(known) => known,
                    None => false,
                };
                lines.push((entry.name.clone(), is_directory));
            },
            None => {},
        }
        i += 1;
    }
    proof {
        assert(probes@.take(probes.len() as int) == probes@);
    }
    lines
}

/// A listing has at most one line for each probe.
pub proof fn lemma_listing_len(probes: Seq<Option<Probe>>)
    ensures
        listing(probes).len() <= probes.len(),
    decreases probes.len(),
{
    if probes.len() > 0 {
        lemma_listing_len(probes.drop_last());
    }
}

/// The listing of two runs of probes, one after the other, is the listing of
/// the first followed by the listing of the second: each probe is judged by
/// itself, and the lines keep the order of the probes.
pub proof fn lemma_listing_concat(first: Seq<Option<Probe>>, second: Seq<Option<Probe>>)
    ensures
        listing(first + second) == listing(first) + listing(second),
    decreases second.len(),
{
    if second.len() == 0 {
        assert(first + second =~= first);
    } else {
        lemma_listing_concat(first, second.drop_last());
        assert((first + second).drop_last() =~= first + second.drop_last());
    }
}

/// Where every probe brought an entry back, the listing has exactly one line
/// for each, at the probe's own place.
pub proof fn lemma_listing_complete(probes: Seq<Option<Probe>>)
    requires
        forall|i: int| 0 <= i < probes.len() ==> (#[trigger] probes[i]) is Some,
    ensures
        listing(probes).len() == probes.len(),
        forall|i: int|
            0 <= i < probes.len() ==> #[trigger] listing(probes)[i] == probes[i].unwrap().line(),
    decreases probes.len(),
{
    if probes.len() > 0 {
        lemma_listing_complete(probes.drop_last());
    }
}

/// Where no probe brought an entry back, the listing is empty.
pub proof fn lemma_listing_of_failures(probes: Seq<Option<Probe>>)
    requires
        forall|i: int| 0 <= i < probes.len() ==> (#[trigger] probes[i]) is None,
    ensures
        listing(probes) == Seq::<(Seq<char>, bool)>::empty(),
    decreases probes.len(),
{
    if probes.len() > 0 {
        lemma_listing_of_failures(probes.drop_last());
    }
}

} // verus!
