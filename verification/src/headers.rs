//! The request metadata map the authenticator reads: string-keyed header
//! entries with last-insert-wins lookup, the discipline of the hash map the
//! callers fill. Keys are matched exactly; callers pass header names in
//! their canonical lowercase form.

use vstd::prelude::*;

verus! {

/// The value of the first entry whose key matches, if any. `HeaderMap`
/// prepends on insert, so the first match is the most recent insert.
pub open spec fn lookup(entries: Seq<(String, String)>, key: Seq<char>) -> Option<Seq<char>>
    decreases entries.len(),
{
    if entries.len() == 0 {
        None
    } else if entries[0].0@ == key {
        Some(entries[0].1@)
    } else {
        lookup(entries.drop_first(), key)
    }
}

/// If no key in the first `i` entries matches, lookup is decided by the rest.
proof fn lemma_lookup_skip(entries: Seq<(String, String)>, key: Seq<char>, i: int)
    requires
        0 <= i <= entries.len(),
        forall|m: int| 0 <= m < i ==> (#[trigger] entries[m].0)@ != key,
    ensures
        lookup(entries, key) == lookup(entries.skip(i), key),
    decreases i,
{
    if i > 0 {
        assert((entries[0].0)@ != key);
        assert forall|m: int| 0 <= m < i - 1 implies (#[trigger] entries.drop_first()[m].0)@
            != key by {
            assert(entries.drop_first()[m] == entries[m + 1]);
        }
        lemma_lookup_skip(entries.drop_first(), key, i - 1);
        assert(entries.drop_first().skip(i - 1) =~= entries.skip(i));
    } else {
        assert(entries.skip(0) =~= entries);
    }
}

/// A request's metadata, as a sequence of header name/value entries.
pub struct HeaderMap {
    entries: Vec<(String, String)>,
}

impl View for HeaderMap {
    type V = Seq<(String, String)>;

    closed spec fn view(&self) -> Seq<(String, String)> {
        self.entries@
    }
}

impl HeaderMap {
    /// An empty map.
    pub fn new() -> (r: HeaderMap)
        ensures
            r@ == Seq::<(String, String)>::empty(),
    {
        HeaderMap { entries: Vec::new() }
    }

    /// Inserts a header. A later insert of the same name shadows an
    /// earlier one, as reinserting a key into a hash map would.
    pub fn insert(&mut self, name: String, value: String)
        ensures
            final(self)@ == seq![(name, value)] + old(self)@,
            lookup(final(self)@, name@) == Some(value@),
            forall|key: Seq<char>| key != name@ ==> #[trigger] lookup(final(self)@, key) == lookup(
                old(self)@,
                key,
            ),
    {
        self.entries.insert(0, (name, value));
        proof {
            assert(self.entries@ =~= seq![(name, value)] + old(self)@);
            assert forall|key: Seq<char>| key != name@ implies #[trigger] lookup(self@, key)
                == lookup(old(self)@, key) by {
                assert(self@.drop_first() =~= old(self)@);
            }
        }
    }

    /// The value stored under `name`, if any.
    pub fn get(&self, name: &str) -> (r: Option<&String>)
        ensures
            match r {
                Some(v) => lookup(self@, name@) == Some(v@),
                None => lookup(self@, name@) is None,
            },
    {
        let owned: String = name.to_owned();
        let n = self.entries.len();
        let mut i: usize = 0;
        while i < n
            invariant
                i <= n,
                n == self@.len(),
                owned@ == name@,
                forall|m: int| 0 <= m < i ==> (#[trigger] self@[m].0)@ != name@,
            decreases n - i,
        {
            if self.entries[i].0 == owned {
                proof {
                    lemma_lookup_skip(self@, name@, i as int);
                    assert(self@.skip(i as int)[0] == self@[i as int]);
                    assert(lookup(self@.skip(i as int), name@) == Some(self@[i as int].1@));
                }
                return Some(&self.entries[i].1);
            }
            i += 1;
        }
        proof {
            lemma_lookup_skip(self@, name@, n as int);
            assert(self@.skip(n as int) =~= Seq::<(String, String)>::empty());
        }
        None
    }
}

} // verus!
