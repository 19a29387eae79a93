//! The persisted record of the last tag announced for each repository.
use vstd::prelude::*;

verus! {

/// The map that a sequence of `(repository, tag)` pairs describes: each pair
/// sets its repository's tag, later pairs overriding earlier ones.
pub open spec fn map_of(pairs: Seq<(String, String)>) -> Map<Seq<char>, Seq<char>>
    decreases pairs.len(),
{
    if pairs.len() == 0 {
        Map::empty()
    } else {
        let last = pairs.last();
        map_of(pairs.drop_last()).insert(last.0@, last.1@)
    }
}

/// No repository appears twice.
pub open spec fn unique_repos(pairs: Seq<(String, String)>) -> bool {
    forall|i: int, j: int|
        0 <= i < pairs.len() && 0 <= j < pairs.len() && i != j ==> pairs[i].0@ != pairs[j].0@
}

/// Repository identifier -> last tag that was fully processed.
pub struct VersionRecord {
    entries: Vec<(String, String)>,
}

impl View for VersionRecord {
    type V = Map<Seq<char>, Seq<char>>;

    closed spec fn view(&self) -> Map<Seq<char>, Seq<char>> {
        map_of(self.entries@)
    }
}

/// The keys of `map_of(pairs)` are exactly the repositories of its pairs.
pub proof fn lemma_map_of_keys(pairs: Seq<(String, String)>, k: Seq<char>)
    ensures
        map_of(pairs).contains_key(k) <==> exists|i: int| 0 <= i < pairs.len() && pairs[i].0@ == k,
    decreases pairs.len(),
{
    if pairs.len() > 0 {
        let init = pairs.drop_last();
        lemma_map_of_keys(init, k);
        if map_of(pairs).contains_key(k) {
            if k != pairs.last().0@ {
                let i = choose|i: int| 0 <= i < init.len() && init[i].0@ == k;
                assert(pairs[i] == init[i]);
            } else {
                assert(pairs[pairs.len() - 1].0@ == k);
            }
        }
        if exists|i: int| 0 <= i < pairs.len() && pairs[i].0@ == k {
            let i = choose|i: int| 0 <= i < pairs.len() && pairs[i].0@ == k;
            if i < pairs.len() - 1 {
                assert(init[i] == pairs[i]);
            }
        }
    }
}

/// With unique repositories, each pair's tag is the map's value for it.
pub proof fn lemma_map_of_index(pairs: Seq<(String, String)>, i: int)
    requires
        unique_repos(pairs),
        0 <= i < pairs.len(),
    ensures
        map_of(pairs).contains_key(pairs[i].0@),
        map_of(pairs)[pairs[i].0@] == pairs[i].1@,
    decreases pairs.len(),
{
    if i < pairs.len() - 1 {
        let init = pairs.drop_last();
        assert(init[i] == pairs[i]);
        assert(unique_repos(init)) by {
            assert forall|a: int, b: int|
                0 <= a < init.len() && 0 <= b < init.len() && a != b implies init[a].0@ != init[b].0@ by {
                assert(init[a] == pairs[a] && init[b] == pairs[b]);
            }
        }
        lemma_map_of_index(init, i);
        assert(pairs[i].0@ != pairs[pairs.len() - 1].0@);
    }
}

/// Replacing the tag of an entry is an insert into the map.
pub proof fn lemma_map_of_update(pairs: Seq<(String, String)>, i: int, p: (String, String))
    requires
        unique_repos(pairs),
        0 <= i < pairs.len(),
        p.0@ == pairs[i].0@,
    ensures
        map_of(pairs.update(i, p)) == map_of(pairs).insert(p.0@, p.1@),
        unique_repos(pairs.update(i, p)),
    decreases pairs.len(),
{
    let upd = pairs.update(i, p);
    let init = pairs.drop_last();
    assert(upd.drop_last() =~= if i == pairs.len() - 1 { init } else { init.update(i, p) });
    if i < pairs.len() - 1 {
        assert(unique_repos(init)) by {
            assert forall|a: int, b: int|
                0 <= a < init.len() && 0 <= b < init.len() && a != b implies init[a].0@ != init[b].0@ by {
                assert(init[a] == pairs[a] && init[b] == pairs[b]);
            }
        }
        lemma_map_of_update(init, i, p);
        assert(pairs[i].0@ != pairs[pairs.len() - 1].0@);
        assert(map_of(upd) =~= map_of(pairs).insert(p.0@, p.1@));
    } else {
        assert(map_of(upd) =~= map_of(pairs).insert(p.0@, p.1@));
    }
    assert forall|a: int, b: int|
        0 <= a < upd.len() && 0 <= b < upd.len() && a != b implies upd[a].0@ != upd[b].0@ by {
        assert(upd[a].0@ == pairs[a].0@ && upd[b].0@ == pairs[b].0@);
    }
}

impl VersionRecord {
    /// No repository is recorded twice.
    pub closed spec fn wf(&self) -> bool {
        unique_repos(self.entries@)
    }

    /// A record with no repository in it.
    pub fn new() -> (r: VersionRecord)
        ensures
            r.wf(),
            r@ == Map::<Seq<char>, Seq<char>>::empty(),
    {
        VersionRecord { entries: Vec::new() }
    }

    /// The record's pairs, for persisting: one per repository, and together
    /// they describe exactly the record.
    pub fn to_pairs(&self) -> (r: Vec<(String, String)>)
        requires
            self.wf(),
        ensures
            unique_repos(r@),
            map_of(r@) == self@,
    {
        let mut r: Vec<(String, String)> = Vec::new();
        let mut i: usize = 0;
        while i < self.entries.len()
            invariant
                i <= self.entries@.len(),
                r@ == self.entries@.take(i as int),
            decreases self.entries@.len() - i,
        {
            let repo = self.entries[i].0.clone();
            let tag = self.entries[i].1.clone();
            r.push((repo, tag));
            assert(r@ =~= self.entries@.take(i + 1));
            i = i + 1;
        }
        assert(r@ =~= self.entries@);
        r
    }

    /// Rebuilds a record from persisted pairs; where a repository appears
    /// twice, the later pair wins.
    pub fn from_pairs(pairs: Vec<(String, String)>) -> (r: VersionRecord)
        ensures
            r.wf(),
            r@ == map_of(pairs@),
    {
        let mut r = VersionRecord::new();
        let mut i: usize = 0;
        while i < pairs.len()
            invariant
                i <= pairs@.len(),
                r.wf(),
                r@ == map_of(pairs@.take(i as int)),
            decreases pairs@.len() - i,
        {
            r.insert(pairs[i].0.as_str(), pairs[i].1.as_str());
            assert(pairs@.take(i + 1).drop_last() =~= pairs@.take(i as int));
            i = i + 1;
        }
        assert(pairs@.take(pairs@.len() as int) =~= pairs@);
        r
    }

    fn position(&self, repo: &String) -> (r: Option<usize>)
        requires
            self.wf(),
        ensures
            r matches Some(i) ==> i < self.entries@.len() && self.entries@[i as int].0@ == repo@,
            r is None ==> !self@.contains_key(repo@),
    {
        let mut i: usize = 0;
        while i < self.entries.len()
            invariant
                i <= self.entries@.len(),
                forall|j: int| 0 <= j < i ==> self.entries@[j].0@ != repo@,
            decreases self.entries@.len() - i,
        {
            if self.entries[i].0 == *repo {
                return Some(i);
            }
            i = i + 1;
        }
        proof {
            lemma_map_of_keys(self.entries@, repo@);
        }
        None
    }

    /// The tag last recorded for `repo`, if any.
    pub fn get(&self, repo: &str) -> (r: Option<String>)
        requires
            self.wf(),
        ensures
            r is Some <==> self@.contains_key(repo@),
            r matches Some(t) ==> t@ == self@[repo@],
    {
        let key = String::from_str(repo);
        match self.position(&key) {
            Some(i) => {
                proof {
                    lemma_map_of_index(self.entries@, i as int);
                }
                Some(self.entries[i].1.clone())
            },
            None => None,
        }
    }

    /// Whether `tag` is news for `repo`: true when nothing is recorded for it
    /// or the recorded tag differs, by exact comparison.
    pub fn has_changed(&self, repo: &str, tag: &str) -> (r: bool)
        requires
            self.wf(),
        ensures
            r == !(self@.contains_key(repo@) && self@[repo@] == tag@),
    {
        match self.get(repo) {
            Some(last) => {
                let candidate = String::from_str(tag);
                !(last == candidate)
            },
            None => true,
        }
    }

    /// Records `tag` as the last one processed for `repo`.
    pub fn insert(&mut self, repo: &str, tag: &str)
        requires
            old(self).wf(),
        ensures
            final(self).wf(),
            final(self)@ == old(self)@.insert(repo@, tag@),
    {
        let key = String::from_str(repo);
        let value = String::from_str(tag);
        match self.position(&key) {
            Some(i) => {
                proof {
                    lemma_map_of_update(self.entries@, i as int, (key, value));
                }
                self.entries.set(i, (key, value));
            },
            None => {
                proof {
                    lemma_map_of_keys(self.entries@, key@);
                }
                let ghost before = self.entries@;
                self.entries.push((key, value));
                proof {
                    assert(self.entries@.drop_last() =~= before);
                    assert forall|a: int, b: int|
                        0 <= a < self.entries@.len() && 0 <= b < self.entries@.len() && a != b
                        implies self.entries@[a].0@ != self.entries@[b].0@ by {
                        if a < before.len() && b < before.len() {
                            assert(self.entries@[a] == before[a] && self.entries@[b] == before[b]);
                        } else if a < before.len() {
                            assert(self.entries@[a] == before[a]);
                        } else {
                            assert(self.entries@[b] == before[b]);
                        }
                    }
                }
            },
        }
    }
}

} // verus!
