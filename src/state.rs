//! The registry of tracked parcels: tracking numbers and their descriptions.

use vstd::prelude::*;

use crate::store::Stored;

verus! {

/// A tracking number and its description, as abstract character sequences.
pub type ParcelView = (Seq<char>, Seq<char>);

/// The abstract form of a list of parcels.
pub open spec fn entries_of(v: Seq<(String, String)>) -> Seq<ParcelView> {
    v.map_values(|p: (String, String)| (p.0@, p.1@))
}

/// No two entries share a tracking number.
pub open spec fn keys_unique(s: Seq<ParcelView>) -> bool {
    forall|i: int, j: int|
        0 <= i < s.len() && 0 <= j < s.len() && #[trigger] s[i].0 == #[trigger] s[j].0 ==> i == j
}

/// The mapping that a list of entries stands for; a later entry wins over an
/// earlier one with the same tracking number.
pub open spec fn as_map(s: Seq<ParcelView>) -> Map<Seq<char>, Seq<char>>
    decreases s.len(),
{
    if s.len() == 0 {
        Map::empty()
    } else {
        as_map(s.drop_last()).insert(s.last().0, s.last().1)
    }
}

/// A tracking number is in the mapping exactly when some entry holds it, and
/// with distinct tracking numbers each entry's description is the one mapped.
pub proof fn lemma_as_map(s: Seq<ParcelView>)
    ensures
        forall|k: Seq<char>|
            #[trigger] as_map(s).contains_key(k) <==> exists|i: int|
                0 <= i < s.len() && (#[trigger] s[i]).0 == k,
        keys_unique(s) ==> forall|i: int|
            0 <= i < s.len() ==> #[trigger] as_map(s)[s[i].0] == s[i].1,
    decreases s.len(),
{
    if s.len() > 0 {
        let t = s.drop_last();
        lemma_as_map(t);
        assert forall|k: Seq<char>|
            #[trigger] as_map(s).contains_key(k) <==> exists|i: int|
                0 <= i < s.len() && (#[trigger] s[i]).0 == k by {
            if as_map(s).contains_key(k) && k != s.last().0 {
                assert(as_map(t).contains_key(k));
                let i = choose|i: int| 0 <= i < t.len() && (#[trigger] t[i]).0 == k;
                assert(s[i] == t[i]);
            }
            if exists|i: int| 0 <= i < s.len() && (#[trigger] s[i]).0 == k {
                let i = choose|i: int| 0 <= i < s.len() && (#[trigger] s[i]).0 == k;
                if i < s.len() - 1 {
                    assert(t[i] == s[i]);
                    assert(as_map(t).contains_key(k));
                } else {
                    assert(s[i] == s.last());
                }
            }
        }
        if keys_unique(s) {
            assert(keys_unique(t)) by {
                assert forall|i: int, j: int|
                    0 <= i < t.len() && 0 <= j < t.len() && #[trigger] t[i].0 == #[trigger] t[j].0
                    implies i == j by {
                    assert(t[i] == s[i] && t[j] == s[j]);
                }
            }
            assert forall|i: int| 0 <= i < s.len() implies #[trigger] as_map(s)[s[i].0] == s[i].1 by {
                let n = s.len() - 1;
                if i < n {
                    assert(t[i] == s[i]);
                    assert(s[i].0 != s[n].0);
                    assert(as_map(t)[t[i].0] == t[i].1);
                } else {
                    assert(s[i] == s.last());
                }
            }
        }
    }
}

/// An optional description, as a character sequence.
pub open spec fn opt_view(o: Option<String>) -> Option<Seq<char>> {
    match o {
        Some(s) => Some(s@),
        None => None,
    }
}

/// The registry and the answer after adding `description` under
/// `tracking_number`: the new mapping, and the description it replaced.
pub open spec fn add_outcome(
    registry: Map<Seq<char>, Seq<char>>,
    tracking_number: Seq<char>,
    description: Seq<char>,
) -> (Map<Seq<char>, Seq<char>>, Option<Seq<char>>) {
    (
        registry.insert(tracking_number, description),
        if registry.contains_key(tracking_number) {
            Some(registry[tracking_number])
        } else {
            None
        },
    )
}

/// The registry and the answer after removing `tracking_number`: the new
/// mapping, and the description that was removed.
pub open spec fn remove_outcome(registry: Map<Seq<char>, Seq<char>>, tracking_number: Seq<char>) -> (
    Map<Seq<char>, Seq<char>>,
    Option<Seq<char>>,
) {
    (
        registry.remove(tracking_number),
        if registry.contains_key(tracking_number) {
            Some(registry[tracking_number])
        } else {
            None
        },
    )
}

/// Removing a tracked parcel twice answers with its description, then with
/// nothing; removing an untracked one answers with nothing both times.
pub proof fn law_remove_twice(registry: Map<Seq<char>, Seq<char>>, tracking_number: Seq<char>)
    ensures
        ({
            let (after_first, first) = remove_outcome(registry, tracking_number);
            let (_, second) = remove_outcome(after_first, tracking_number);
            &&& first == (if registry.contains_key(tracking_number) {
                Some(registry[tracking_number])
            } else {
                None
            })
            &&& second is None
        }),
{
}

/// Adding a new tracking number answers with nothing; adding it again with
/// another description answers with the first description, and afterwards
/// the registry holds the second one.
pub proof fn law_add_overwrite(
    registry: Map<Seq<char>, Seq<char>>,
    tracking_number: Seq<char>,
    first_description: Seq<char>,
    second_description: Seq<char>,
)
    requires
        !registry.contains_key(tracking_number),
    ensures
        ({
            let (after_first, first) = add_outcome(registry, tracking_number, first_description);
            let (after_second, second) = add_outcome(
                after_first,
                tracking_number,
                second_description,
            );
            &&& first is None
            &&& second == Some(first_description)
            &&& after_second.contains_key(tracking_number)
            &&& after_second[tracking_number] == second_description
        }),
{
}

/// Appending an entry with a new tracking number inserts it in the mapping.
proof fn lemma_push_new(s: Seq<ParcelView>, p: ParcelView)
    requires
        keys_unique(s),
        forall|j: int| 0 <= j < s.len() ==> (#[trigger] s[j]).0 != p.0,
    ensures
        keys_unique(s.push(p)),
        as_map(s.push(p)) == as_map(s).insert(p.0, p.1),
{
    let t = s.push(p);
    assert(t.drop_last() =~= s);
    assert forall|i: int, j: int|
        0 <= i < t.len() && 0 <= j < t.len() && #[trigger] t[i].0 == #[trigger] t[j].0 implies i
        == j by {
        if i < s.len() && j < s.len() {
            assert(t[i] == s[i] && t[j] == s[j]);
        } else if i < s.len() {
            assert(t[i] == s[i]);
        } else if j < s.len() {
            assert(t[j] == s[j]);
        }
    }
}

/// Replacing the description of an entry updates the mapping at its
/// tracking number.
proof fn lemma_update_at(s: Seq<ParcelView>, i: int, d: Seq<char>)
    requires
        keys_unique(s),
        0 <= i < s.len(),
    ensures
        keys_unique(s.update(i, (s[i].0, d))),
        as_map(s.update(i, (s[i].0, d))) == as_map(s).insert(s[i].0, d),
{
    let t = s.update(i, (s[i].0, d));
    assert forall|a: int, b: int|
        0 <= a < t.len() && 0 <= b < t.len() && #[trigger] t[a].0 == #[trigger] t[b].0 implies a
        == b by {
        assert(t[a].0 == s[a].0 && t[b].0 == s[b].0);
    }
    lemma_as_map(s);
    lemma_as_map(t);
    let m = as_map(s).insert(s[i].0, d);
    assert forall|k: Seq<char>| #[trigger] as_map(t).contains_key(k) <==> m.contains_key(k) by {
        if as_map(t).contains_key(k) {
            let j = choose|j: int| 0 <= j < t.len() && (#[trigger] t[j]).0 == k;
            assert(s[j].0 == k);
        }
        if m.contains_key(k) && k != s[i].0 {
            let j = choose|j: int| 0 <= j < s.len() && (#[trigger] s[j]).0 == k;
            assert(t[j].0 == k);
        }
        if k == s[i].0 {
            assert(t[i].0 == k);
        }
    }
    assert forall|k: Seq<char>| #[trigger] as_map(t).contains_key(k) implies as_map(t)[k]
        == m[k] by {
        let j = choose|j: int| 0 <= j < t.len() && (#[trigger] t[j]).0 == k;
        assert(as_map(t)[t[j].0] == t[j].1);
        if j != i {
            assert(s[j] == t[j]);
            assert(as_map(s)[s[j].0] == s[j].1);
        }
    }
    assert(as_map(t) =~= m);
}

/// Removing an entry removes its tracking number from the mapping.
proof fn lemma_remove_at(s: Seq<ParcelView>, i: int)
    requires
        keys_unique(s),
        0 <= i < s.len(),
    ensures
        keys_unique(s.remove(i)),
        as_map(s.remove(i)) == as_map(s).remove(s[i].0),
{
    let t = s.remove(i);
    assert forall|a: int, b: int|
        0 <= a < t.len() && 0 <= b < t.len() && #[trigger] t[a].0 == #[trigger] t[b].0 implies a
        == b by {
        let a2 = if a < i { a } else { a + 1 };
        let b2 = if b < i { b } else { b + 1 };
        assert(t[a] == s[a2] && t[b] == s[b2]);
    }
    lemma_as_map(s);
    lemma_as_map(t);
    let m = as_map(s).remove(s[i].0);
    assert forall|k: Seq<char>| #[trigger] as_map(t).contains_key(k) <==> m.contains_key(k) by {
        if as_map(t).contains_key(k) {
            let j = choose|j: int| 0 <= j < t.len() && (#[trigger] t[j]).0 == k;
            let j2 = if j < i { j } else { j + 1 };
            assert(t[j] == s[j2]);
            assert(j2 != i);
        }
        if m.contains_key(k) {
            let j = choose|j: int| 0 <= j < s.len() && (#[trigger] s[j]).0 == k;
            assert(j != i);
            let j2 = if j < i { j } else { j - 1 };
            assert(t[j2] == s[j]);
        }
    }
    assert forall|k: Seq<char>| #[trigger] as_map(t).contains_key(k) implies as_map(t)[k]
        == m[k] by {
        let j = choose|j: int| 0 <= j < t.len() && (#[trigger] t[j]).0 == k;
        let j2 = if j < i { j } else { j + 1 };
        assert(t[j] == s[j2]);
        assert(as_map(t)[t[j].0] == t[j].1);
        assert(as_map(s)[s[j2].0] == s[j2].1);
    }
    assert(as_map(t) =~= m);
}

/// An error that can occur when loading the registry.
pub enum LoadError {
    /// The platform defines no data directory.
    NoDataDir(DataDirError),
    /// The state file exists but could not be read.
    ReadError(std::io::Error),
    /// The state file could not be parsed.
    ParseError(toml::de::Error),
}

/// An error that can occur when saving the registry.
pub enum SaveError {
    /// The platform defines no data directory.
    NoDataDir(DataDirError),
    /// The state file or its directory could not be written.
    FsError(std::io::Error),
}

/// An error that can occur when locating the data directory.
pub enum DataDirError {
    /// The platform defines no data directory.
    NoDataDir,
}

/// The registry of tracked parcels, in the order in which they were first
/// added.
pub struct State {
    parcels: Vec<(String, String)>,
}

impl View for State {
    type V = Map<Seq<char>, Seq<char>>;

    /// The registry as a mapping from tracking number to description.
    open spec fn view(&self) -> Map<Seq<char>, Seq<char>> {
        as_map(self.entries())
    }
}

impl State {
    /// The entries of the registry, in order.
    pub closed spec fn entries(&self) -> Seq<ParcelView> {
        entries_of(self.parcels@)
    }

    #[verifier::type_invariant]
    closed spec fn tracking_numbers_unique(&self) -> bool {
        keys_unique(self.entries())
    }

    /// Creates an empty registry.
    pub fn new() -> (r: Self)
        ensures
            r@ == Map::<Seq<char>, Seq<char>>::empty(),
            r.entries().len() == 0,
    {
        let r = State { parcels: Vec::new() };
        assert(r.entries() =~= Seq::<ParcelView>::empty());
        r
    }

    /// Adds a parcel to track, or gives a tracked parcel a new description.
    /// Returns the description that the tracking number had before, if any.
    pub fn add_parcel(&mut self, tracking_number: &str, description: &str) -> (r: Option<String>)
        ensures
            (final(self)@, opt_view(r)) == add_outcome(old(self)@, tracking_number@, description@),
            r is None ==> final(self).entries() == old(self).entries().push(
                (tracking_number@, description@),
            ),
            r is Some ==> exists|i: int|
                0 <= i < old(self).entries().len() && (#[trigger] old(self).entries()[i]).0
                    == tracking_number@ && final(self).entries() == old(self).entries().update(
                    i,
                    (tracking_number@, description@),
                ),
    {
        proof {
            use_type_invariant(&*self);
            lemma_as_map(self.entries());
        }
        let key = tracking_number.to_owned();
        let value = description.to_owned();
        let found = self.position(&key);
        let ghost before = self.parcels@;
        let mut parcels = Vec::new();
        std::mem::swap(&mut self.parcels, &mut parcels);
        match found {
            Some(i) => {
                let previous = parcels[i].1.clone();
                proof {
                    lemma_update_at(entries_of(before), i as int, value@);
                }
                parcels.set(i, (key, value));
                assert(entries_of(parcels@) =~= entries_of(before).update(
                    i as int,
                    (tracking_number@, description@),
                ));
                self.parcels = parcels;
                Some(previous)
            },
            None => {
                proof {
                    lemma_push_new(entries_of(before), (key@, value@));
                    assert(!(exists|j: int|
                        0 <= j < entries_of(before).len() && (#[trigger] entries_of(before)[j]).0
                            == key@));
                }
                parcels.push((key, value));
                assert(entries_of(parcels@) =~= entries_of(before).push((key@, value@)));
                self.parcels = parcels;
                None
            },
        }
    }

    /// Stops tracking a parcel. Returns its description, or `None` when the
    /// tracking number was not tracked.
    pub fn remove_parcel(&mut self, tracking_number: &str) -> (r: Option<String>)
        ensures
            (final(self)@, opt_view(r)) == remove_outcome(old(self)@, tracking_number@),
            r is None ==> final(self).entries() == old(self).entries(),
            r is Some ==> exists|i: int|
                0 <= i < old(self).entries().len() && (#[trigger] old(self).entries()[i]).0
                    == tracking_number@ && final(self).entries() == old(self).entries().remove(i),
    {
        proof {
            use_type_invariant(&*self);
            lemma_as_map(self.entries());
        }
        let key = tracking_number.to_owned();
        match self.position(&key) {
            Some(i) => {
                let ghost before = self.parcels@;
                proof {
                    lemma_remove_at(entries_of(before), i as int);
                }
                let mut parcels = Vec::new();
                std::mem::swap(&mut self.parcels, &mut parcels);
                let (_, description) = parcels.remove(i);
                assert(entries_of(parcels@) =~= entries_of(before).remove(i as int));
                self.parcels = parcels;
                Some(description)
            },
            None => {
                proof {
                    assert(!(exists|j: int|
                        0 <= j < self.entries().len() && (#[trigger] self.entries()[j]).0
                            == key@));
                    assert(as_map(self.entries()).remove(key@) =~= as_map(self.entries()));
                }
                None
            },
        }
    }

    /// The tracked parcels, in order: each a tracking number and its
    /// description.
    pub fn parcels(&self) -> (r: &Vec<(String, String)>)
        ensures
            entries_of(r@) == self.entries(),
            keys_unique(self.entries()),
            forall|k: Seq<char>|
                #[trigger] self@.contains_key(k) <==> exists|i: int|
                    0 <= i < self.entries().len() && (#[trigger] self.entries()[i]).0 == k,
            forall|i: int|
                0 <= i < self.entries().len() ==> #[trigger] self@[self.entries()[i].0]
                    == self.entries()[i].1,
    {
        proof {
            use_type_invariant(self);
            lemma_as_map(self.entries());
        }
        &self.parcels
    }

    /// Builds a registry from a list of parcels, as if each were added in
    /// turn: a later parcel wins over an earlier one with the same tracking
    /// number.
    pub fn from_parcels(parcels: Vec<(String, String)>) -> (r: Self)
        ensures
            r@ == as_map(entries_of(parcels@)),
            keys_unique(entries_of(parcels@)) ==> r.entries() == entries_of(parcels@),
    {
        let mut r = State::new();
        let mut i: usize = 0;
        while i < parcels.len()
            invariant
                i <= parcels.len(),
                r@ == as_map(entries_of(parcels@).take(i as int)),
                keys_unique(entries_of(parcels@)) ==> r.entries() == entries_of(parcels@).take(
                    i as int,
                ),
            decreases parcels.len() - i,
        {
            let ghost s = entries_of(parcels@);
            let ghost before = r.entries();
            assert(s.take(i + 1).drop_last() =~= s.take(i as int));
            let previous = r.add_parcel(parcels[i].0.as_str(), parcels[i].1.as_str());
            proof {
                if keys_unique(s) {
                    assert(s.take(i + 1) =~= s.take(i as int).push(s[i as int]));
                    if previous is Some {
                        let j = choose|j: int|
                            0 <= j < before.len() && (#[trigger] before[j]).0 == s[i as int].0;
                        assert(before[j] == s[j]);
                    }
                }
            }
            i = i + 1;
        }
        assert(entries_of(parcels@).take(parcels.len() as int) =~= entries_of(parcels@));
        r
    }

    /// Decides what loading the registry gives: a missing file is an empty
    /// registry; every other failure is an error of its own kind.
    pub fn from_stored(stored: Stored<State>) -> (r: Result<State, LoadError>)
        ensures
            match stored {
                Stored::NoLocation => r matches Err(LoadError::NoDataDir(DataDirError::NoDataDir)),
                Stored::Missing => r matches Ok(state) && state@ == Map::<
                    Seq<char>,
                    Seq<char>,
                >::empty(),
                Stored::ReadFailed(e) => r matches Err(LoadError::ReadError(e2)) && e2 == e,
                Stored::ParseFailed(e) => r matches Err(LoadError::ParseError(e2)) && e2 == e,
                Stored::Found(state) => r matches Ok(state2) && state2 == state,
            },
    {
        match stored {
            Stored::NoLocation => Err(LoadError::NoDataDir(DataDirError::NoDataDir)),
            Stored::Missing => Ok(State::new()),
            Stored::ReadFailed(e) => Err(LoadError::ReadError(e)),
            Stored::ParseFailed(e) => Err(LoadError::ParseError(e)),
            Stored::Found(state) => Ok(state),
        }
    }

    /// Finds the entry that holds a tracking number.
    fn position(&self, tracking_number: &String) -> (r: Option<usize>)
        ensures
            match r {
                Some(i) => i < self.entries().len() && self.entries()[i as int].0
                    == tracking_number@,
                None => forall|i: int|
                    0 <= i < self.entries().len() ==> (#[trigger] self.entries()[i]).0
                        != tracking_number@,
            },
    {
        let mut i: usize = 0;
        while i < self.parcels.len()
            invariant
                i <= self.parcels.len(),
                forall|j: int| 0 <= j < i ==> (#[trigger] self.entries()[j]).0 != tracking_number@,
            decreases self.parcels.len() - i,
        {
            if self.parcels[i].0 == *tracking_number {
                return Some(i);
            }
            i = i + 1;
        }
        None
    }
}

} // verus!
