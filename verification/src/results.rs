use vstd::prelude::*;
use crate::error::{Error, ErrorKind, error_of};
use crate::external::{parse_results_json, parse_results_text, results_json, results_json_text};

verus! {

/// The map that a sequence of key/value pairs describes, later pairs winning.
pub open spec fn map_of(pairs: Seq<(String, String)>) -> Map<Seq<char>, Seq<char>>
    decreases pairs.len(),
{
    if pairs.len() == 0 {
        Map::empty()
    } else {
        map_of(pairs.drop_last()).insert(pairs.last().0@, pairs.last().1@)
    }
}

/// No two pairs share a key.
pub open spec fn keys_unique(pairs: Seq<(String, String)>) -> bool {
    forall|i: int, j: int| 0 <= i < j < pairs.len() ==> pairs[i].0@ != pairs[j].0@
}

proof fn lemma_map_of_dom(pairs: Seq<(String, String)>, k: Seq<char>)
    ensures
        map_of(pairs).dom().contains(k) <==> exists|i: int|
            0 <= i < pairs.len() && pairs[i].0@ == k,
    decreases pairs.len(),
{
    if pairs.len() > 0 {
        let init = pairs.drop_last();
        lemma_map_of_dom(init, k);
        if map_of(init).dom().contains(k) {
            let i = choose|i: int| 0 <= i < init.len() && init[i].0@ == k;
            assert(pairs[i] == init[i]);
        }
        if exists|i: int| 0 <= i < pairs.len() && pairs[i].0@ == k {
            let i = choose|i: int| 0 <= i < pairs.len() && pairs[i].0@ == k;
            if i < pairs.len() - 1 {
                assert(init[i] == pairs[i]);
            }
        }
    }
}

proof fn lemma_map_of_value(pairs: Seq<(String, String)>, i: int)
    requires
        keys_unique(pairs),
        0 <= i < pairs.len(),
    ensures
        map_of(pairs).dom().contains(pairs[i].0@),
        map_of(pairs)[pairs[i].0@] == pairs[i].1@,
    decreases pairs.len(),
{
    if i < pairs.len() - 1 {
        let init = pairs.drop_last();
        assert(init[i] == pairs[i]);
        lemma_map_of_value(init, i);
    }
}

proof fn lemma_map_of_update(pairs: Seq<(String, String)>, i: int, value: String)
    requires
        keys_unique(pairs),
        0 <= i < pairs.len(),
    ensures
        map_of(pairs.update(i, (pairs[i].0, value))) =~= map_of(pairs).insert(
            pairs[i].0@,
            value@,
        ),
    decreases pairs.len(),
{
    let updated = pairs.update(i, (pairs[i].0, value));
    let init = pairs.drop_last();
    if i == pairs.len() - 1 {
        assert(updated.drop_last() =~= init);
        lemma_map_of_dom(init, pairs[i].0@);
    } else {
        assert(updated.drop_last() =~= init.update(i, (init[i].0, value)));
        lemma_map_of_update(init, i, value);
    }
}

/// The values that a job's actions produced, by result key.
#[derive(Debug)]
pub struct ResultMap {
    pairs: Vec<(String, String)>,
}

impl ResultMap {
    #[verifier::type_invariant]
    spec fn keys_are_unique(&self) -> bool {
        keys_unique(self.pairs@)
    }
}

impl View for ResultMap {
    type V = Map<Seq<char>, Seq<char>>;

    closed spec fn view(&self) -> Map<Seq<char>, Seq<char>> {
        map_of(self.pairs@)
    }
}

impl ResultMap {
    /// An empty map.
    pub fn new() -> (m: ResultMap)
        ensures
            m@ == Map::<Seq<char>, Seq<char>>::empty(),
    {
        ResultMap { pairs: Vec::new() }
    }

    /// The number of keys.
    pub fn len(&self) -> (n: usize)
        ensures
            n == self@.len(),
    {
        proof {
            use_type_invariant(self);
            lemma_map_len(self.pairs@);
        }
        self.pairs.len()
    }

    /// The position of `key` among the pairs, if it is there.
    fn position(&self, key: &String) -> (pos: Option<usize>)
        ensures
            match pos {
                Some(i) => i < self.pairs@.len() && self.pairs@[i as int].0@ == key@,
                None => !self@.dom().contains(key@),
            },
    {
        let mut i: usize = 0;
        while i < self.pairs.len()
            invariant
                i <= self.pairs@.len(),
                forall|j: int| 0 <= j < i ==> self.pairs@[j].0@ != key@,
            decreases self.pairs@.len() - i,
        {
            if self.pairs[i].0 == *key {
                return Some(i);
            }
            i = i + 1;
        }
        proof {
            lemma_map_of_dom(self.pairs@, key@);
        }
        None
    }

    /// The value stored under `key`, if any.
    pub fn get(&self, key: &String) -> (value: Option<&String>)
        ensures
            value is Some <==> self@.dom().contains(key@),
            value matches Some(v) ==> v@ == self@[key@],
    {
        proof {
            use_type_invariant(self);
        }
        match self.position(key) {
            Some(i) => {
                proof {
                    lemma_map_of_value(self.pairs@, i as int);
                }
                Some(&self.pairs[i].1)
            },
            None => None,
        }
    }

    /// Stores `value` under `key`, replacing what was there.
    pub fn insert(&mut self, key: String, value: String)
        ensures
            final(self)@ == old(self)@.insert(key@, value@),
    {
        proof {
            use_type_invariant(&*self);
        }
        match self.position(&key) {
            Some(i) => {
                let ghost before = self.pairs@;
                let k = self.pairs[i].0.clone();
                let mut pairs: Vec<(String, String)> = Vec::new();
                std::mem::swap(&mut pairs, &mut self.pairs);
                pairs.set(i, (k, value));
                proof {
                    assert(pairs@ =~= before.update(i as int, (before[i as int].0, value)));
                    lemma_map_of_update(before, i as int, value);
                    assert(keys_unique(pairs@)) by {
                        assert forall|a: int, b: int| 0 <= a < b < pairs@.len() implies pairs@[a].0@
                            != pairs@[b].0@ by {
                            assert(pairs@[a].0@ == before[a].0@);
                            assert(pairs@[b].0@ == before[b].0@);
                        }
                    }
                }
                self.pairs = pairs;
            },
            None => {
                let ghost before = self.pairs@;
                let mut pairs: Vec<(String, String)> = Vec::new();
                std::mem::swap(&mut pairs, &mut self.pairs);
                pairs.push((key, value));
                proof {
                    assert(pairs@.drop_last() =~= before);
                    lemma_map_of_dom(before, key@);
                    assert(keys_unique(pairs@)) by {
                        assert forall|a: int, b: int| 0 <= a < b < pairs@.len() implies pairs@[a].0@
                            != pairs@[b].0@ by {
                            if b == pairs@.len() - 1 {
                                assert(before[a] == pairs@[a]);
                            } else {
                                assert(before[a] == pairs@[a]);
                                assert(before[b] == pairs@[b]);
                            }
                        }
                    }
                }
                self.pairs = pairs;
            },
        }
    }

    /// The map built by inserting the given pairs in order.
    pub fn from_pairs(pairs: Vec<(String, String)>) -> (m: ResultMap)
        ensures
            m@ == map_of(pairs@),
    {
        let mut m = ResultMap::new();
        let mut i: usize = 0;
        while i < pairs.len()
            invariant
                i <= pairs@.len(),
                m@ == map_of(pairs@.take(i as int)),
            decreases pairs@.len() - i,
        {
            assert(pairs@.take(i + 1).drop_last() =~= pairs@.take(i as int));
            m.insert(pairs[i].0.clone(), pairs[i].1.clone());
            i = i + 1;
        }
        assert(pairs@.take(pairs@.len() as int) =~= pairs@);
        m
    }

    /// The pairs of the map, each key once.
    pub fn to_pairs(&self) -> (pairs: Vec<(String, String)>)
        ensures
            map_of(pairs@) == self@,
            keys_unique(pairs@),
    {
        proof {
            use_type_invariant(self);
        }
        let mut out: Vec<(String, String)> = Vec::new();
        let mut i: usize = 0;
        while i < self.pairs.len()
            invariant
                i <= self.pairs@.len(),
                out@.len() == i,
                forall|j: int|
                    0 <= j < i ==> out@[j].0@ == self.pairs@[j].0@ && out@[j].1@
                        == self.pairs@[j].1@,
            decreases self.pairs@.len() - i,
        {
            out.push((self.pairs[i].0.clone(), self.pairs[i].1.clone()));
            i = i + 1;
        }
        proof {
            lemma_map_of_same_text(out@, self.pairs@);
        }
        out
    }
}

impl ResultMap {
    /// The map as a JSON object of strings; reading that text back gives the same map.
    pub fn to_json(&self) -> (text: String)
        ensures
            text@ == results_json(self@),
            parse_results_json(text@) matches Ok(m) && m == self@,
    {
        let pairs = self.to_pairs();
        match results_json_text(&pairs) {
            Some(text) => text,
            None => String::new(),
        }
    }

    /// The map that a JSON object of strings holds; text that is no such object is refused
    /// with the reader's message as an unknown error.
    pub fn from_json(text: &str) -> (r: Result<ResultMap, Error>)
        ensures
            match parse_results_json(text@) {
                Ok(m) => r matches Ok(results) && results@ == m,
                Err(message) => r matches Err(e) && e@ == error_of(ErrorKind::Unknown, message),
            },
    {
        match parse_results_text(text) {
            Ok(pairs) => Ok(ResultMap::from_pairs(pairs)),
            Err(message) => Err(Error::Unknown(message)),
        }
    }
}

proof fn lemma_map_of_same_text(a: Seq<(String, String)>, b: Seq<(String, String)>)
    requires
        a.len() == b.len(),
        forall|j: int| 0 <= j < a.len() ==> a[j].0@ == b[j].0@ && a[j].1@ == b[j].1@,
    ensures
        map_of(a) == map_of(b),
    decreases a.len(),
{
    if a.len() > 0 {
        lemma_map_of_same_text(a.drop_last(), b.drop_last());
    }
}

proof fn lemma_map_len(pairs: Seq<(String, String)>)
    requires
        keys_unique(pairs),
    ensures
        map_of(pairs).len() == pairs.len(),
        map_of(pairs).dom().finite(),
    decreases pairs.len(),
{
    if pairs.len() > 0 {
        let init = pairs.drop_last();
        lemma_map_len(init);
        lemma_map_of_dom(init, pairs.last().0@);
        if map_of(init).dom().contains(pairs.last().0@) {
            let i = choose|i: int| 0 <= i < init.len() && init[i].0@ == pairs.last().0@;
            assert(pairs[i] == init[i]);
        }
    }
}

} // verus!
