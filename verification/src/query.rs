//! The decoded name/value pairs of a request's query string.
use vstd::prelude::*;

verus! {

/// The map that a sequence of name/value pairs denotes when it is read from
/// first to last and a later pair replaces an earlier one with the same name.
pub open spec fn pairs_to_map(pairs: Seq<(Seq<char>, Seq<char>)>) -> Map<Seq<char>, Seq<char>>
    decreases pairs.len(),
{
    if pairs.len() == 0 {
        Map::empty()
    } else {
        pairs_to_map(pairs.drop_last()).insert(pairs.last().0, pairs.last().1)
    }
}

/// A name is bound in the map exactly when some pair carries it.
pub proof fn lemma_pairs_to_map_dom(pairs: Seq<(Seq<char>, Seq<char>)>, key: Seq<char>)
    ensures
        pairs_to_map(pairs).dom().contains(key) <==> exists|i: int|
            0 <= i < pairs.len() && (#[trigger] pairs[i]).0 == key,
    decreases pairs.len(),
{
    if pairs.len() > 0 {
        let init = pairs.drop_last();
        lemma_pairs_to_map_dom(init, key);
        if pairs_to_map(pairs).dom().contains(key) && pairs.last().0 != key {
            let i = choose|i: int| 0 <= i < init.len() && (#[trigger] init[i]).0 == key;
            assert(pairs[i] == init[i]);
        }
        if exists|i: int| 0 <= i < pairs.len() && (#[trigger] pairs[i]).0 == key {
            let i = choose|i: int| 0 <= i < pairs.len() && (#[trigger] pairs[i]).0 == key;
            if i < pairs.len() - 1 {
                assert(init[i] == pairs[i]);
            }
        }
    }
}

/// The value of a name is that of the last pair that carries it.
pub proof fn lemma_pairs_to_map_last(pairs: Seq<(Seq<char>, Seq<char>)>, i: int)
    requires
        0 <= i < pairs.len(),
        forall|j: int| i < j < pairs.len() ==> (#[trigger] pairs[j]).0 != pairs[i].0,
    ensures
        pairs_to_map(pairs).dom().contains(pairs[i].0),
        pairs_to_map(pairs)[pairs[i].0] == pairs[i].1,
    decreases pairs.len(),
{
    if i < pairs.len() - 1 {
        let init = pairs.drop_last();
        assert(pairs[pairs.len() - 1].0 != pairs[i].0);
        assert forall|j: int| i < j < init.len() implies (#[trigger] init[j]).0 != init[i].0 by {
            assert(init[j] == pairs[j]);
        }
        lemma_pairs_to_map_last(init, i);
    }
}

/// Decoded query parameters. Where a name occurs more than once, the value
/// that was added last is the one that counts. The pairs are kept in a `Vec`
/// in the order they were added: of a `HashMap` keyed by `String`, Verus
/// proves nothing of what a lookup returns.
#[derive(Debug)]
pub struct QueryMap {
    entries: Vec<(String, String)>,
}

impl View for QueryMap {
    type V = Map<Seq<char>, Seq<char>>;

    closed spec fn view(&self) -> Map<Seq<char>, Seq<char>> {
        pairs_to_map(self.entries.deep_view())
    }
}

impl QueryMap {
    /// An empty map.
    pub fn new() -> (q: QueryMap)
        ensures
            q@ == Map::<Seq<char>, Seq<char>>::empty(),
    {
        let q = QueryMap { entries: Vec::new() };
        assert(q.entries.deep_view().len() == 0);
        q
    }

    /// Binds `key` to `value`, replacing any earlier value of `key`.
    pub fn insert(&mut self, key: String, value: String)
        ensures
            final(self)@ == old(self)@.insert(key@, value@),
    {
        let ghost before = self.entries.deep_view();
        self.entries.push((key, value));
        assert(self.entries.deep_view().drop_last() =~= before);
    }

    /// Collects name/value pairs in order; a later pair replaces an earlier one
    /// with the same name.
    pub fn from_pairs(pairs: Vec<(String, String)>) -> (q: QueryMap)
        ensures
            q@ == pairs_to_map(pairs.deep_view()),
    {
        QueryMap { entries: pairs }
    }

    /// The value bound to `key`, if any.
    pub fn get(&self, key: &str) -> (r: Option<&String>)
        ensures
            match r {
                Some(v) => self@.dom().contains(key@) && self@[key@] == v@,
                None => !self@.dom().contains(key@),
            },
    {
        let wanted = key.to_owned();
        let ghost pairs = self.entries.deep_view();
        let mut i: usize = self.entries.len();
        while i > 0
            invariant
                i <= self.entries.len(),
                pairs == self.entries.deep_view(),
                wanted@ == key@,
                forall|j: int| i <= j < pairs.len() ==> (#[trigger] pairs[j]).0 != key@,
            decreases i,
        {
            i = i - 1;
            if self.entries[i].0 == wanted {
                proof {
                    assert(pairs[i as int] == self.entries[i as int].deep_view());
                    lemma_pairs_to_map_last(pairs, i as int);
                }
                return Some(&self.entries[i].1);
            }
            assert(pairs[i as int] == self.entries[i as int].deep_view());
        }
        proof {
            lemma_pairs_to_map_dom(pairs, key@);
        }
        None
    }
}

} // verus!
