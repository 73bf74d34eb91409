//! The named binary tags that block entities are saved in: a compound maps string keys to tags.
//! Floating-point payloads are held as their IEEE-754 bit patterns.
use vstd::prelude::*;
use vstd::string::*;

verus! {

/// One tag value.
pub enum NbtTag {
    Int(i32),
    Long(i64),
    /// The bits of an `f32`.
    Float(u32),
    /// The bits of an `f64`.
    Double(u64),
    String(String),
    List(Vec<NbtTag>),
    IntArray(Vec<i32>),
    Compound(NbtCompound),
}

/// A compound tag: entries in insertion order; a key names the first entry that carries it.
pub struct NbtCompound {
    pub entries: Vec<(String, NbtTag)>,
}

impl NbtTag {
    /// The `f64` bits that a `Double` tag holds.
    pub fn extract_double(&self) -> (r: Option<u64>)
        ensures
            r == match *self {
                NbtTag::Double(v) => Some(v),
                _ => None::<u64>,
            },
    {
        match self {
            NbtTag::Double(v) => Some(*v),
            _ => None,
        }
    }
}

/// The four ints that a UUID is saved as, most significant first.
pub open spec fn uuid_to_ints(uuid: u128) -> Seq<i32> {
    seq![
        (uuid >> 96u128) as u32 as i32,
        (uuid >> 64u128) as u32 as i32,
        (uuid >> 32u128) as u32 as i32,
        uuid as u32 as i32,
    ]
}

/// The UUID that four saved ints stand for.
pub open spec fn ints_to_uuid(a: i32, b: i32, c: i32, d: i32) -> u128 {
    ((a as u32 as u128) << 96u128) | ((b as u32 as u128) << 64u128) | ((c as u32 as u128) << 32u128)
        | (d as u32 as u128)
}

/// Saving a UUID as four ints and reading them back gives the UUID.
pub proof fn lemma_uuid_ints_round_trip(uuid: u128)
    ensures
        ints_to_uuid(
            uuid_to_ints(uuid)[0],
            uuid_to_ints(uuid)[1],
            uuid_to_ints(uuid)[2],
            uuid_to_ints(uuid)[3],
        ) == uuid,
{
    assert(((((uuid >> 96u128) as u32 as i32) as u32 as u128) << 96u128) | ((((uuid >> 64u128) as u32
        as i32) as u32 as u128) << 64u128) | ((((uuid >> 32u128) as u32 as i32) as u32 as u128)
        << 32u128) | ((uuid as u32 as i32) as u32 as u128) == uuid) by (bit_vector);
}

impl NbtCompound {
    /// `i` is the first entry whose key is `key`.
    pub open spec fn first_with_key(self, key: Seq<char>, i: int) -> bool {
        &&& 0 <= i < self.entries@.len()
        &&& self.entries@[i].0@ == key
        &&& forall|j: int| 0 <= j < i ==> self.entries@[j].0@ != key
    }

    /// The tag that `key` names, if any.
    pub open spec fn spec_get(self, key: Seq<char>) -> Option<NbtTag> {
        if exists|i: int| self.first_with_key(key, i) {
            Some(self.entries@[choose|i: int| self.first_with_key(key, i)].1)
        } else {
            None
        }
    }

    /// The compound with `key` bound to `tag`, other keys unchanged.
    pub open spec fn spec_put(self, key: Seq<char>, tag: NbtTag, result: NbtCompound) -> bool {
        forall|k: Seq<char>|
            #[trigger] result.spec_get(k) == if k == key {
                Some(tag)
            } else {
                self.spec_get(k)
            }
    }

    pub proof fn lemma_first_with_key_unique(self, key: Seq<char>, i: int, j: int)
        requires
            self.first_with_key(key, i),
            self.first_with_key(key, j),
        ensures
            i == j,
    {
    }

    pub proof fn lemma_get_at(self, key: Seq<char>, i: int)
        requires
            self.first_with_key(key, i),
        ensures
            self.spec_get(key) == Some(self.entries@[i].1),
    {
        let c = choose|i: int| self.first_with_key(key, i);
        self.lemma_first_with_key_unique(key, i, c);
    }

    pub proof fn lemma_get_none(self, key: Seq<char>)
        requires
            forall|j: int| 0 <= j < self.entries@.len() ==> self.entries@[j].0@ != key,
        ensures
            self.spec_get(key) == None::<NbtTag>,
    {
    }

    /// An empty compound.
    pub fn new() -> (r: NbtCompound)
        ensures
            r.entries@.len() == 0,
            forall|k: Seq<char>| #[trigger] r.spec_get(k) == None::<NbtTag>,
    {
        NbtCompound { entries: Vec::new() }
    }

    /// The index of the first entry with key `key`, if any.
    fn find(&self, key: &str) -> (r: Option<usize>)
        ensures
            match r {
                Some(i) => self.first_with_key(key@, i as int),
                None => forall|j: int| 0 <= j < self.entries@.len() ==> self.entries@[j].0@ != key@,
            },
    {
        let key_string = String::from_str(key);
        let mut i: usize = 0;
        while i < self.entries.len()
            invariant
                i <= self.entries@.len(),
                key_string@ == key@,
                forall|j: int| 0 <= j < i ==> self.entries@[j].0@ != key@,
            decreases self.entries@.len() - i,
        {
            if self.entries[i].0 == key_string {
                return Some(i);
            }
            i = i + 1;
        }
        None
    }

    /// The tag that `key` names, if any.
    pub fn get(&self, key: &str) -> (r: Option<&NbtTag>)
        ensures
            match r {
                Some(t) => self.spec_get(key@) == Some(*t),
                None => self.spec_get(key@) == None::<NbtTag>,
            },
    {
        match self.find(key) {
            Some(i) => {
                proof {
                    self.lemma_get_at(key@, i as int);
                }
                Some(&self.entries[i].1)
            },
            None => {
                proof {
                    self.lemma_get_none(key@);
                }
                None
            },
        }
    }

    /// Binds `key` to `tag`: the first entry with that key is replaced, or a new one is added.
    pub fn put(&mut self, key: &str, tag: NbtTag)
        ensures
            old(self).spec_put(key@, tag, *final(self)),
            if exists|i: int| old(self).first_with_key(key@, i) {
                let i = choose|i: int| old(self).first_with_key(key@, i);
                &&& final(self).entries@.len() == old(self).entries@.len()
                &&& final(self).entries@[i].0@ == key@
                &&& final(self).entries@[i].1 == tag
                &&& forall|j: int|
                    0 <= j < old(self).entries@.len() && j != i ==> final(self).entries@[j]
                        == old(self).entries@[j]
            } else {
                &&& final(self).entries@.len() == old(self).entries@.len() + 1
                &&& final(self).entries@.last().0@ == key@
                &&& final(self).entries@.last().1 == tag
                &&& forall|j: int|
                    0 <= j < old(self).entries@.len() ==> final(self).entries@[j] == old(
                        self,
                    ).entries@[j]
            },
    {
        let ghost pre = *self;
        match self.find(key) {
            Some(i) => {
                let k = String::from_str(key);
                self.entries.set(i, (k, tag));
                proof {
                    assert forall|q: Seq<char>| #[trigger]
                        self.spec_get(q) == if q == key@ {
                            Some(tag)
                        } else {
                            pre.spec_get(q)
                        } by {
                        if q == key@ {
                            assert(self.first_with_key(q, i as int));
                            self.lemma_get_at(q, i as int);
                        } else if exists|j: int| pre.first_with_key(q, j) {
                            let j = choose|j: int| pre.first_with_key(q, j);
                            assert(self.first_with_key(q, j));
                            pre.lemma_get_at(q, j);
                            self.lemma_get_at(q, j);
                        } else {
                            assert forall|j: int| 0 <= j < self.entries@.len() implies self.entries@[
                                j
                            ].0@ != q by {
                                if self.entries@[j].0@ == q {
                                    lemma_first_index(pre.entries@, q, j);
                                    let m = choose|m: int|
                                        0 <= m <= j && pre.entries@[m].0@ == q && forall|l: int|
                                            0 <= l < m ==> pre.entries@[l].0@ != q;
                                    assert(pre.first_with_key(q, m));
                                }
                            }
                            self.lemma_get_none(q);
                        }
                    }
                }
            },
            None => {
                let k = String::from_str(key);
                self.entries.push((k, tag));
                proof {
                    assert forall|q: Seq<char>| #[trigger]
                        self.spec_get(q) == if q == key@ {
                            Some(tag)
                        } else {
                            pre.spec_get(q)
                        } by {
                        let n = pre.entries@.len() as int;
                        if q == key@ {
                            assert(self.first_with_key(q, n));
                            self.lemma_get_at(q, n);
                        } else if exists|j: int| pre.first_with_key(q, j) {
                            let j = choose|j: int| pre.first_with_key(q, j);
                            assert(self.first_with_key(q, j));
                            pre.lemma_get_at(q, j);
                            self.lemma_get_at(q, j);
                        } else {
                            assert forall|j: int| 0 <= j < self.entries@.len() implies self.entries@[
                                j
                            ].0@ != q by {
                                if j < n && self.entries@[j].0@ == q {
                                    lemma_first_index(pre.entries@, q, j);
                                    let m = choose|m: int|
                                        0 <= m <= j && pre.entries@[m].0@ == q && forall|l: int|
                                            0 <= l < m ==> pre.entries@[l].0@ != q;
                                    assert(pre.first_with_key(q, m));
                                }
                            }
                            self.lemma_get_none(q);
                        }
                    }
                }
            },
        }
    }

    pub fn put_int(&mut self, key: &str, value: i32)
        ensures
            old(self).spec_put(key@, NbtTag::Int(value), *final(self)),
    {
        self.put(key, NbtTag::Int(value));
    }

    pub fn get_int(&self, key: &str) -> (r: Option<i32>)
        ensures
            r == match self.spec_get(key@) {
                Some(NbtTag::Int(v)) => Some(v),
                _ => None::<i32>,
            },
    {
        match self.get(key) {
            Some(NbtTag::Int(v)) => Some(*v),
            _ => None,
        }
    }

    pub fn put_long(&mut self, key: &str, value: i64)
        ensures
            old(self).spec_put(key@, NbtTag::Long(value), *final(self)),
    {
        self.put(key, NbtTag::Long(value));
    }

    pub fn get_long(&self, key: &str) -> (r: Option<i64>)
        ensures
            r == match self.spec_get(key@) {
                Some(NbtTag::Long(v)) => Some(v),
                _ => None::<i64>,
            },
    {
        match self.get(key) {
            Some(NbtTag::Long(v)) => Some(*v),
            _ => None,
        }
    }

    pub fn put_float(&mut self, key: &str, value: u32)
        ensures
            old(self).spec_put(key@, NbtTag::Float(value), *final(self)),
    {
        self.put(key, NbtTag::Float(value));
    }

    pub fn get_float(&self, key: &str) -> (r: Option<u32>)
        ensures
            r == match self.spec_get(key@) {
                Some(NbtTag::Float(v)) => Some(v),
                _ => None::<u32>,
            },
    {
        match self.get(key) {
            Some(NbtTag::Float(v)) => Some(*v),
            _ => None,
        }
    }

    pub fn put_string(&mut self, key: &str, value: String)
        ensures
            old(self).spec_put(key@, NbtTag::String(value), *final(self)),
    {
        self.put(key, NbtTag::String(value));
    }

    pub fn get_string(&self, key: &str) -> (r: Option<&String>)
        ensures
            match self.spec_get(key@) {
                Some(NbtTag::String(v)) => r == Some(&v),
                _ => r is None,
            },
    {
        match self.get(key) {
            Some(NbtTag::String(v)) => Some(v),
            _ => None,
        }
    }

    pub fn put_list(&mut self, key: &str, value: Vec<NbtTag>)
        ensures
            old(self).spec_put(key@, NbtTag::List(value), *final(self)),
    {
        self.put(key, NbtTag::List(value));
    }

    pub fn get_list(&self, key: &str) -> (r: Option<&Vec<NbtTag>>)
        ensures
            match self.spec_get(key@) {
                Some(NbtTag::List(v)) => r == Some(&v),
                _ => r is None,
            },
    {
        match self.get(key) {
            Some(NbtTag::List(v)) => Some(v),
            _ => None,
        }
    }

    pub fn put_compound(&mut self, key: &str, value: NbtCompound)
        ensures
            old(self).spec_put(key@, NbtTag::Compound(value), *final(self)),
    {
        self.put(key, NbtTag::Compound(value));
    }

    pub fn get_compound(&self, key: &str) -> (r: Option<&NbtCompound>)
        ensures
            match self.spec_get(key@) {
                Some(NbtTag::Compound(v)) => r == Some(&v),
                _ => r is None,
            },
    {
        match self.get(key) {
            Some(NbtTag::Compound(v)) => Some(v),
            _ => None,
        }
    }

    /// Saves a UUID as an array of four ints, most significant first.
    pub fn put_uuid(&mut self, key: &str, uuid: u128)
        ensures
            exists|ints: Vec<i32>|
                ints@ == uuid_to_ints(uuid) && old(self).spec_put(
                    key@,
                    NbtTag::IntArray(ints),
                    *final(self),
                ),
    {
        let mut ints: Vec<i32> = Vec::new();
        ints.push((uuid >> 96u128) as u32 as i32);
        ints.push((uuid >> 64u128) as u32 as i32);
        ints.push((uuid >> 32u128) as u32 as i32);
        ints.push(uuid as u32 as i32);
        let ghost saved = ints;
        assert(ints@ =~= uuid_to_ints(uuid));
        self.put(key, NbtTag::IntArray(ints));
        assert(ints@ == uuid_to_ints(uuid) && old(self).spec_put(key@, NbtTag::IntArray(saved), *self));
    }

    /// The UUID saved under `key` as an array of four ints, if there is one.
    pub open spec fn spec_get_uuid(self, key: Seq<char>) -> Option<u128> {
        match self.spec_get(key) {
            Some(NbtTag::IntArray(v)) => if v@.len() == 4 {
                Some(ints_to_uuid(v@[0], v@[1], v@[2], v@[3]))
            } else {
                None
            },
            _ => None,
        }
    }

    /// Reads a UUID saved as an array of four ints.
    pub fn get_uuid(&self, key: &str) -> (r: Option<u128>)
        ensures
            r == self.spec_get_uuid(key@),
    {
        match self.get(key) {
            Some(NbtTag::IntArray(v)) => {
                if v.len() == 4 {
                    Some(
                        ((v[0] as u32 as u128) << 96u128) | ((v[1] as u32 as u128) << 64u128) | ((
                        v[2] as u32 as u128) << 32u128) | (v[3] as u32 as u128),
                    )
                } else {
                    None
                }
            },
            _ => None,
        }
    }
}

/// If some entry has key `q`, a first such entry exists.
pub proof fn lemma_first_index(entries: Seq<(String, NbtTag)>, q: Seq<char>, j: int)
    requires
        0 <= j < entries.len(),
        entries[j].0@ == q,
    ensures
        exists|m: int|
            0 <= m <= j && entries[m].0@ == q && forall|l: int| 0 <= l < m ==> entries[l].0@ != q,
    decreases j,
{
    if exists|l: int| 0 <= l < j && entries[l].0@ == q {
        let l = choose|l: int| 0 <= l < j && entries[l].0@ == q;
        lemma_first_index(entries, q, l);
    } else {
        assert(forall|l: int| 0 <= l < j ==> entries[l].0@ != q);
    }
}

} // verus!
