//! The keys that one generate call produces, each under its canonical name.
use vstd::prelude::*;

verus! {

/// What a generate call hands to its caller: raw key bytes under distinct
/// canonical names (`blake3.key`, `ed25519.sk`, ...), in a fixed order.
pub struct GeneratedKeys {
    entries: Vec<(String, Vec<u8>)>,
}

/// No name occurs twice.
pub open spec fn names_distinct(keys: Seq<(Seq<char>, Seq<u8>)>) -> bool {
    forall|i: int, j: int|
        0 <= i < keys.len() && 0 <= j < keys.len() && i != j ==> #[trigger] keys[i].0
            != #[trigger] keys[j].0
}

/// The bytes stored under `name`, if any.
pub open spec fn key_lookup(keys: Seq<(Seq<char>, Seq<u8>)>, name: Seq<char>) -> Option<Seq<u8>> {
    if exists|i: int| 0 <= i < keys.len() && #[trigger] keys[i].0 == name {
        Some(keys[choose|i: int| 0 <= i < keys.len() && #[trigger] keys[i].0 == name].1)
    } else {
        None
    }
}

impl View for GeneratedKeys {
    type V = Seq<(Seq<char>, Seq<u8>)>;

    closed spec fn view(&self) -> Seq<(Seq<char>, Seq<u8>)> {
        self.entries@.map_values(|e: (String, Vec<u8>)| (e.0@, e.1@))
    }
}

impl GeneratedKeys {
    /// Well-formed: no name occurs twice.
    pub open spec fn wf(&self) -> bool {
        names_distinct(self@)
    }

    /// A set of keys with the given names and bytes, in this order.
    pub(crate) fn from_entries(entries: Vec<(String, Vec<u8>)>) -> (r: Self)
        ensures
            r@ == entries@.map_values(|e: (String, Vec<u8>)| (e.0@, e.1@)),
    {
        GeneratedKeys { entries }
    }

    /// The number of keys.
    pub fn len(&self) -> (r: usize)
        ensures
            r == self@.len(),
    {
        self.entries.len()
    }

    /// Whether no key is held.
    pub fn is_empty(&self) -> (r: bool)
        ensures
            r == (self@.len() == 0),
    {
        self.entries.len() == 0
    }

    /// The index of the key named `name`, if there is one.
    fn position(&self, name: &str) -> (r: Option<usize>)
        ensures
            match r {
                Some(i) => i < self@.len() && self@[i as int].0 == name@,
                None => forall|i: int| 0 <= i < self@.len() ==> #[trigger] self@[i].0 != name@,
            },
    {
        let wanted: String = name.to_owned();
        let mut i: usize = 0;
        while i < self.entries.len()
            invariant
                i <= self.entries@.len(),
                wanted@ == name@,
                forall|j: int| 0 <= j < i ==> #[trigger] self@[j].0 != name@,
            decreases self.entries@.len() - i,
        {
            if self.entries[i].0 == wanted {
                return Some(i);
            }
            i = i + 1;
        }
        None
    }

    /// The bytes of the key named `name`.
    pub fn get(&self, name: &str) -> (r: Option<&Vec<u8>>)
        requires
            self.wf(),
        ensures
            match r {
                Some(v) => key_lookup(self@, name@) == Some(v@),
                None => key_lookup(self@, name@) is None,
            },
    {
        match self.position(name) {
            Some(i) => {
                proof {
                    let k = choose|j: int| 0 <= j < self@.len() && #[trigger] self@[j].0 == name@;
                    assert(self@[i as int].0 == name@);
                    assert(k == i);
                }
                Some(&self.entries[i].1)
            },
            None => None,
        }
    }

    /// Whether a key is named `name`.
    pub fn contains_key(&self, name: &str) -> (r: bool)
        ensures
            r == key_lookup(self@, name@) is Some,
    {
        match self.position(name) {
            Some(i) => {
                assert(self@[i as int].0 == name@);
                true
            },
            None => false,
        }
    }

    /// The names and bytes, in order, for the caller to persist.
    pub fn into_entries(self) -> (r: Vec<(String, Vec<u8>)>)
        ensures
            r@.map_values(|e: (String, Vec<u8>)| (e.0@, e.1@)) == self@,
    {
        self.entries
    }
}

/// The bytes as an array of `N`, when there are exactly `N` of them.
pub fn byte_array<const N: usize>(bytes: &[u8]) -> (r: Option<[u8; N]>)
    ensures
        match r {
            Some(a) => bytes@.len() == N && a@ == bytes@,
            None => bytes@.len() != N,
        },
{
    if bytes.len() != N {
        return None;
    }
    let mut a: [u8; N] = [0u8; N];
    let mut i: usize = 0;
    while i < N
        invariant
            bytes@.len() == N,
            a@.len() == N,
            i <= N,
            forall|j: int| 0 <= j < i ==> a@[j] == bytes@[j],
        decreases N - i,
    {
        a[i] = bytes[i];
        i = i + 1;
    }
    assert(a@ =~= bytes@);
    Some(a)
}

} // verus!
