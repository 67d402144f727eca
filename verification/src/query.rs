//! Query parameters of a request: a small map from names to values.
//!
//! A name occurs at most once; inserting a name that is already present
//! replaces its value in place, a new name goes to the end.  The order of
//! the pairs is the order in which the names were first inserted, and it is
//! the order in which they appear in the request URL.

use vstd::prelude::*;

verus! {

/// The texts of a sequence of name/value pairs.
pub open spec fn pair_texts(pairs: Seq<(String, String)>) -> Seq<(Seq<char>, Seq<char>)> {
    pairs.map_values(|p: (String, String)| (p.0@, p.1@))
}

/// No name occurs twice.
pub open spec fn keys_unique(s: Seq<(Seq<char>, Seq<char>)>) -> bool {
    forall|i: int, j: int|
        0 <= i < s.len() && 0 <= j < s.len() && i != j ==> #[trigger] s[i].0 != #[trigger] s[j].0
}

/// `k` is the name of some pair.
pub open spec fn has_key(s: Seq<(Seq<char>, Seq<char>)>, k: Seq<char>) -> bool {
    exists|i: int| 0 <= i < s.len() && #[trigger] s[i].0 == k
}

/// The position of the pair named `k` (meaningful when `has_key(s, k)`).
pub open spec fn key_index(s: Seq<(Seq<char>, Seq<char>)>, k: Seq<char>) -> int {
    choose|i: int| 0 <= i < s.len() && #[trigger] s[i].0 == k
}

/// The value stored under the name `k`, if any.
pub open spec fn lookup(s: Seq<(Seq<char>, Seq<char>)>, k: Seq<char>) -> Option<Seq<char>> {
    if has_key(s, k) {
        Some(s[key_index(s, k)].1)
    } else {
        None
    }
}

/// The pairs after a map insertion of `k` with value `v`: the value of an
/// existing pair named `k` is replaced in place, otherwise the pair is appended.
pub open spec fn insert_pair(s: Seq<(Seq<char>, Seq<char>)>, k: Seq<char>, v: Seq<char>) -> Seq<
    (Seq<char>, Seq<char>),
> {
    if has_key(s, k) {
        s.update(key_index(s, k), (k, v))
    } else {
        s.push((k, v))
    }
}

/// A parameter reads back as the value last set for it; setting one
/// parameter leaves every other parameter as it was; names stay unique;
/// setting a name that is present keeps the number of parameters, setting a
/// new one adds one.
pub proof fn law_insert_then_lookup(
    s: Seq<(Seq<char>, Seq<char>)>,
    k: Seq<char>,
    v: Seq<char>,
    other: Seq<char>,
)
    requires
        keys_unique(s),
    ensures
        lookup(insert_pair(s, k, v), k) == Some(v),
        other != k ==> lookup(insert_pair(s, k, v), other) == lookup(s, other),
        keys_unique(insert_pair(s, k, v)),
        insert_pair(s, k, v).len() == (if has_key(s, k) {
            s.len()
        } else {
            s.len() + 1
        }),
{
    let t = insert_pair(s, k, v);
    if has_key(s, k) {
        let i = key_index(s, k);
        assert(t[i].0 == k);
        assert(has_key(t, k));
        let j = key_index(t, k);
        assert(j == i);
        if other != k {
            if has_key(s, other) {
                let a = key_index(s, other);
                assert(t[a].0 == other);
                assert(has_key(t, other));
                assert(key_index(t, other) == a);
            } else {
                assert(!has_key(t, other)) by {
                    if has_key(t, other) {
                        let b = key_index(t, other);
                        assert(s[b].0 == other);
                    }
                }
            }
        }
    } else {
        let n = s.len() as int;
        assert(t[n].0 == k);
        assert(has_key(t, k));
        assert(key_index(t, k) == n);
        if other != k {
            if has_key(s, other) {
                let a = key_index(s, other);
                assert(t[a].0 == other);
                assert(has_key(t, other));
                assert(key_index(t, other) == a);
            } else {
                assert(!has_key(t, other)) by {
                    if has_key(t, other) {
                        let b = key_index(t, other);
                        assert(s[b].0 == other);
                    }
                }
            }
        }
    }
}

/// Query parameters of a request.
#[derive(Debug)]
pub struct QueryParams {
    pairs: Vec<(String, String)>,
}

impl View for QueryParams {
    type V = Seq<(Seq<char>, Seq<char>)>;

    closed spec fn view(&self) -> Seq<(Seq<char>, Seq<char>)> {
        pair_texts(self.pairs@)
    }
}

impl QueryParams {
    #[verifier::type_invariant]
    spec fn names_unique(self) -> bool {
        keys_unique(pair_texts(self.pairs@))
    }

    /// An empty set of parameters.
    pub fn new() -> (r: Self)
        ensures
            r@ == Seq::<(Seq<char>, Seq<char>)>::empty(),
    {
        let r = QueryParams { pairs: Vec::new() };
        assert(r@ =~= Seq::<(Seq<char>, Seq<char>)>::empty());
        r
    }

    /// Sets the parameter `key` to `value`, returning the value it had before.
    pub fn insert(&mut self, key: String, value: String) -> (previous: Option<String>)
        ensures
            final(self)@ == insert_pair(old(self)@, key@, value@),
            keys_unique(final(self)@),
            previous is None <==> !has_key(old(self)@, key@),
            previous matches Some(p) ==> lookup(old(self)@, key@) == Some(p@),
    {
        proof {
            use_type_invariant(&*self);
        }
        let ghost s = self@;
        let mut pairs: Vec<(String, String)> = Vec::new();
        std::mem::swap(&mut pairs, &mut self.pairs);
        let n = pairs.len();
        let mut i: usize = 0;
        while i < n
            invariant
                i <= n,
                n == pairs@.len(),
                s == pair_texts(pairs@),
                s == old(self)@,
                keys_unique(s),
                forall|j: int| 0 <= j < i ==> #[trigger] s[j].0 != key@,
            decreases n - i,
        {
            if pairs[i].0 == key {
                proof {
                    assert(s[i as int].0 == key@);
                    assert(has_key(s, key@));
                    let k = key_index(s, key@);
                    assert(k == i as int);
                }
                let mut pair = (key, value);
                pairs.set_and_swap(i, &mut pair);
                proof {
                    assert(pair_texts(pairs@) =~= insert_pair(s, key@, value@));
                }
                self.pairs = pairs;
                return Some(pair.1);
            }
            i = i + 1;
        }
        proof {
            assert(!has_key(s, key@));
        }
        pairs.push((key, value));
        proof {
            assert(pair_texts(pairs@) =~= insert_pair(s, key@, value@));
        }
        self.pairs = pairs;
        None
    }

    /// The value of the parameter `key`, if it is set.
    pub fn get(&self, key: &str) -> (r: Option<&String>)
        ensures
            r is None <==> lookup(self@, key@) is None,
            r matches Some(v) ==> lookup(self@, key@) == Some(v@),
    {
        proof {
            use_type_invariant(self);
        }
        let wanted = String::from_str(key);
        let n = self.pairs.len();
        let mut i: usize = 0;
        while i < n
            invariant
                i <= n,
                n == self.pairs@.len(),
                wanted@ == key@,
                keys_unique(self@),
                forall|j: int| 0 <= j < i ==> #[trigger] self@[j].0 != key@,
            decreases n - i,
        {
            if self.pairs[i].0 == wanted {
                proof {
                    assert(self@[i as int].0 == key@);
                    assert(has_key(self@, key@));
                }
                return Some(&self.pairs[i].1);
            }
            i = i + 1;
        }
        None
    }

    /// Number of parameters.
    pub fn len(&self) -> (r: usize)
        ensures
            r == self@.len(),
    {
        self.pairs.len()
    }

    /// True when no parameter is set.
    pub fn is_empty(&self) -> (r: bool)
        ensures
            r <==> self@.len() == 0,
    {
        self.pairs.len() == 0
    }

    /// The parameters as name/value pairs, in order.
    pub fn pairs(&self) -> (r: &Vec<(String, String)>)
        ensures
            pair_texts(r@) == self@,
            keys_unique(self@),
    {
        proof {
            use_type_invariant(self);
        }
        &self.pairs
    }

    /// The parameters as name/value pairs, in order.
    pub fn into_pairs(self) -> (r: Vec<(String, String)>)
        ensures
            pair_texts(r@) == self@,
            keys_unique(self@),
    {
        proof {
            use_type_invariant(&self);
        }
        self.pairs
    }
}

} // verus!
