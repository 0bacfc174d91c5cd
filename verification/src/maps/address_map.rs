//! The mapping that one map file describes: from a key address to the
//! addresses listed for it.

use crate::text::{eq_ignore_ascii_case, lowercase, str_eq_ignore_ascii_case, texts, to_lowercase};
use vstd::hash_map::StringHashMap;
use vstd::prelude::*;

verus! {

/// What a mapping holds, as a mathematical map from a key to its values in
/// the order in which they were listed.
pub type Mapping = Map<Seq<char>, Seq<Seq<char>>>;

/// Whether `candidate` is listed for `key` in `m`: the key is looked up in
/// lower case, and the candidate matches a listed value whatever the case of
/// its ASCII letters. An absent key lists nothing.
pub open spec fn lookup_spec(m: Mapping, key: Seq<char>, candidate: Seq<char>) -> bool {
    let k = lowercase(key);
    m.contains_key(k) && exists|i: int|
        0 <= i < m[k].len() && eq_ignore_ascii_case(#[trigger] m[k][i], candidate)
}

/// A mapping from key addresses to lists of counterpart addresses. Keys are
/// unique; the values of a key keep their order.
pub struct AddressMap {
    entries: StringHashMap<Vec<String>>,
}

impl View for AddressMap {
    type V = Mapping;

    closed spec fn view(&self) -> Mapping {
        Map::new(
            |k: Seq<char>| self.entries@.contains_key(k),
            |k: Seq<char>| texts(self.entries@[k]@),
        )
    }
}

impl AddressMap {
    /// The empty mapping.
    pub fn new() -> (m: AddressMap)
        ensures
            m@ == Mapping::empty(),
    {
        let m = AddressMap { entries: StringHashMap::new() };
        assert(m@ =~= Mapping::empty());
        m
    }

    /// The number of keys.
    pub fn len(&self) -> (n: usize)
        ensures
            n == self@.len(),
    {
        proof {
            self.lemma_same_domain();
        }
        self.entries.len()
    }

    /// Whether the mapping has no key.
    pub fn is_empty(&self) -> (b: bool)
        ensures
            b == (self@ == Mapping::empty()),
    {
        proof {
            self.lemma_same_domain();
            if self.entries@.is_empty() {
                assert(self@ =~= Mapping::empty());
            }
        }
        self.entries.is_empty()
    }

    /// Whether `key`, taken as it is written, is a key of the mapping.
    pub fn contains_key(&self, key: &str) -> (b: bool)
        ensures
            b == self@.contains_key(key@),
    {
        self.entries.contains_key(key)
    }

    /// The values listed for `key`, taken as it is written.
    pub fn get(&self, key: &str) -> (values: Option<&Vec<String>>)
        ensures
            values.is_some() == self@.contains_key(key@),
            values matches Some(v) ==> texts(v@) == self@[key@],
    {
        self.entries.get(key)
    }

    /// Binds `key` to `values`; an earlier binding of the key is replaced.
    pub fn insert(&mut self, key: String, values: Vec<String>)
        ensures
            final(self)@ == old(self)@.insert(key@, texts(values@)),
    {
        self.entries.insert(key, values);
        assert(self@ =~= old(self)@.insert(key@, texts(values@)));
    }

    /// Whether `candidate` is listed for `key`. The key is lower-cased
    /// before it is looked up; the candidate is compared with each listed
    /// value without regard to the case of ASCII letters.
    pub fn lookup(&self, key: &str, candidate: &str) -> (found: bool)
        ensures
            found == lookup_spec(self@, key@, candidate@),
    {
        let folded = to_lowercase(key);
        match self.entries.get(folded.as_str()) {
            None => false,
            Some(values) => {
                assert(self@[folded@] == texts(values@));
                let mut i: usize = 0;
                while i < values.len()
                    invariant
                        i <= values.len(),
                        folded@ == lowercase(key@),
                        self@.contains_key(folded@),
                        self@[folded@] == texts(values@),
                        forall|j: int|
                            0 <= j < i ==> !eq_ignore_ascii_case(
                                #[trigger] texts(values@)[j],
                                candidate@,
                            ),
                    decreases values.len() - i,
                {
                    if str_eq_ignore_ascii_case(values[i].as_str(), candidate) {
                        assert(eq_ignore_ascii_case(self@[folded@][i as int], candidate@));
                        return true;
                    }
                    i += 1;
                }
                false
            },
        }
    }

    proof fn lemma_same_domain(&self)
        ensures
            self@.dom() == self.entries@.dom(),
    {
        assert(self@.dom() =~= self.entries@.dom());
    }
}

} // verus!
