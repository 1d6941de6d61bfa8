//! The header fields of an HTTP/3 request or response, as the WebTransport
//! handshake reads and writes them: a map from field name to field value.
use vstd::prelude::*;
use vstd::string::StringExecFns;

verus! {

/// Header fields, each name present at most once.
#[derive(Debug)]
pub struct Headers {
    fields: Vec<(String, String)>,
}

/// Error decoding a QPACK field section.
#[derive(Debug, PartialEq, Eq)]
pub struct DecodeError;

/// The map that a list of distinct-named fields stands for.
pub open spec fn fields_map(f: Seq<(String, String)>) -> Map<Seq<char>, Seq<char>>
    decreases f.len(),
{
    if f.len() == 0 {
        Map::empty()
    } else {
        fields_map(f.drop_last()).insert(f.last().0@, f.last().1@)
    }
}

pub open spec fn distinct_names(f: Seq<(String, String)>) -> bool {
    forall|i: int, j: int| 0 <= i < j < f.len() ==> f[i].0@ != f[j].0@
}

proof fn lemma_fields_map(f: Seq<(String, String)>)
    requires
        distinct_names(f),
    ensures
        forall|i: int|
            0 <= i < f.len() ==> #[trigger] fields_map(f).contains_key(f[i].0@) && fields_map(
                f,
            )[f[i].0@] == f[i].1@,
        forall|k: Seq<char>|
            #[trigger] fields_map(f).contains_key(k) ==> exists|i: int|
                0 <= i < f.len() && f[i].0@ == k,
    decreases f.len(),
{
    if f.len() > 0 {
        let g = f.drop_last();
        assert(distinct_names(g));
        lemma_fields_map(g);
        assert forall|i: int| 0 <= i < f.len() implies #[trigger] fields_map(f).contains_key(
            f[i].0@,
        ) && fields_map(f)[f[i].0@] == f[i].1@ by {
            if i < f.len() - 1 {
                assert(g[i] == f[i]);
                assert(f[i].0@ != f[f.len() - 1].0@);
                assert(fields_map(g).contains_key(g[i].0@));
            }
        }
        assert forall|k: Seq<char>| #[trigger] fields_map(f).contains_key(k) implies exists|i: int|
            0 <= i < f.len() && f[i].0@ == k by {
            if k != f.last().0@ {
                assert(fields_map(g).contains_key(k));
                let i = choose|i: int| 0 <= i < g.len() && g[i].0@ == k;
                assert(f[i] == g[i]);
            } else {
                assert(f[f.len() - 1].0@ == k);
            }
        }
    }
}

proof fn lemma_fields_map_update(f: Seq<(String, String)>, i: int, name: String, value: String)
    requires
        distinct_names(f),
        0 <= i < f.len(),
        f[i].0@ == name@,
    ensures
        distinct_names(f.update(i, (name, value))),
        fields_map(f.update(i, (name, value))) == fields_map(f).insert(name@, value@),
{
    let g = f.update(i, (name, value));
    assert(distinct_names(g)) by {
        assert forall|a: int, b: int| 0 <= a < b < g.len() implies g[a].0@ != g[b].0@ by {
            assert(f[a].0@ != f[b].0@);
        }
    }
    lemma_fields_map(f);
    lemma_fields_map(g);
    assert(fields_map(g) =~= fields_map(f).insert(name@, value@)) by {
        assert forall|k: Seq<char>| #[trigger] fields_map(g).contains_key(k) <==> fields_map(
            f,
        ).insert(name@, value@).contains_key(k) by {
            if fields_map(f).contains_key(k) {
                let j = choose|j: int| 0 <= j < f.len() && f[j].0@ == k;
                assert(g[j].0@ == k);
            }
            if fields_map(g).contains_key(k) {
                let j = choose|j: int| 0 <= j < g.len() && g[j].0@ == k;
                assert(fields_map(f).contains_key(f[j].0@));
            }
        }
        assert forall|k: Seq<char>| #[trigger] fields_map(g).contains_key(k) implies fields_map(
            g,
        )[k] == fields_map(f).insert(name@, value@)[k] by {
            let j = choose|j: int| 0 <= j < g.len() && g[j].0@ == k;
            if j != i {
                assert(fields_map(f).contains_key(f[j].0@));
            }
        }
    }
}

impl View for Headers {
    type V = Map<Seq<char>, Seq<char>>;

    closed spec fn view(&self) -> Map<Seq<char>, Seq<char>> {
        fields_map(self.fields@)
    }
}

impl Default for Headers {
    fn default() -> (r: Headers)
        ensures
            r@ == Map::<Seq<char>, Seq<char>>::empty(),
    {
        Headers::new()
    }
}

impl Headers {
    #[verifier::type_invariant]
    closed spec fn wf(self) -> bool {
        distinct_names(self.fields@)
    }

    /// No header fields.
    pub fn new() -> (r: Headers)
        ensures
            r@ == Map::<Seq<char>, Seq<char>>::empty(),
    {
        Headers { fields: Vec::new() }
    }

    /// The value of the field `name`, if present.
    pub fn get(&self, name: &str) -> (r: Option<&String>)
        ensures
            match r {
                Some(v) => self@.contains_key(name@) && self@[name@] == v@,
                None => !self@.contains_key(name@),
            },
    {
        proof {
            use_type_invariant(self);
            lemma_fields_map(self.fields@);
        }
        let key = String::from_str(name);
        let mut i: usize = 0;
        while i < self.fields.len()
            invariant
                i <= self.fields@.len(),
                key@ == name@,
                forall|j: int| 0 <= j < i ==> self.fields@[j].0@ != key@,
            decreases self.fields@.len() - i,
        {
            if self.fields[i].0 == key {
                proof {
                    use_type_invariant(self);
                    lemma_fields_map(self.fields@);
                    assert(fields_map(self.fields@).contains_key(self.fields@[i as int].0@));
                }
                return Some(&self.fields[i].1);
            }
            i = i + 1;
        }
        None
    }

    /// Sets the field `name` to `value`, replacing any value it had.
    pub fn set(&mut self, name: &str, value: &str)
        ensures
            final(self)@ == old(self)@.insert(name@, value@),
    {
        proof {
            use_type_invariant(&*self);
            lemma_fields_map(self.fields@);
        }
        let key = String::from_str(name);
        let val = String::from_str(value);
        let mut i: usize = 0;
        while i < self.fields.len()
            invariant
                i <= self.fields@.len(),
                key@ == name@,
                val@ == value@,
                self.fields@ == old(self).fields@,
                distinct_names(self.fields@),
                forall|j: int| 0 <= j < i ==> self.fields@[j].0@ != key@,
            decreases self.fields@.len() - i,
        {
            if self.fields[i].0 == key {
                proof {
                    lemma_fields_map_update(self.fields@, i as int, key, val);
                }
                let mut fields: Vec<(String, String)> = Vec::new();
                std::mem::swap(&mut fields, &mut self.fields);
                fields.set(i, (key, val));
                self.fields = fields;
                return;
            }
            i = i + 1;
        }
        let ghost f = self.fields@;
        let mut fields: Vec<(String, String)> = Vec::new();
        std::mem::swap(&mut fields, &mut self.fields);
        fields.push((key, val));
        proof {
            assert(fields@.drop_last() == f);
            assert(distinct_names(fields@)) by {
                assert forall|a: int, b: int| 0 <= a < b < fields@.len() implies fields@[a].0@
                    != fields@[b].0@ by {
                    if b == fields@.len() - 1 {
                        assert(f[a].0@ != key@);
                    } else {
                        assert(f[a].0@ != f[b].0@);
                    }
                }
            }
        }
        self.fields = fields;
    }

    /// The fields as a list, each name once (what a field-section encoder
    /// walks).
    pub fn fields(&self) -> (r: &Vec<(String, String)>)
        ensures
            fields_map(r@) == self@,
            distinct_names(r@),
    {
        proof {
            use_type_invariant(self);
        }
        &self.fields
    }

    /// Whether the field `name` is present with exactly the value `expected`.
    pub fn has_value(&self, name: &str, expected: &str) -> (r: bool)
        ensures
            r == (self@.contains_key(name@) && self@[name@] == expected@),
    {
        match self.get(name) {
            Some(v) => *v == String::from_str(expected),
            None => false,
        }
    }
}

} // verus!
