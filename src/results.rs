use vstd::prelude::*;

verus! {

/// The value found under `name` in an ordered list of `(key, value)` pairs, looking
/// from position `i` on; the first pair with that key wins.
pub open spec fn lookup_from(
    entries: Seq<(Seq<char>, Seq<char>)>,
    name: Seq<char>,
    i: int,
) -> Option<Seq<char>>
    decreases entries.len() - i,
{
    if i < 0 || i >= entries.len() {
        None
    } else if entries[i].0 == name {
        Some(entries[i].1)
    } else {
        lookup_from(entries, name, i + 1)
    }
}

/// The value of the first pair keyed `name`.
pub open spec fn lookup(entries: Seq<(Seq<char>, Seq<char>)>, name: Seq<char>) -> Option<Seq<char>> {
    lookup_from(entries, name, 0)
}

/// `lookup_from` finds a key exactly when it occurs at or after `i`.
pub proof fn lemma_lookup_from_some(entries: Seq<(Seq<char>, Seq<char>)>, name: Seq<char>, i: int)
    requires
        0 <= i,
    ensures
        lookup_from(entries, name, i) is Some <==> exists|k: int|
            i <= k < entries.len() && #[trigger] entries[k].0 == name,
    decreases entries.len() - i,
{
    if i < entries.len() {
        lemma_lookup_from_some(entries, name, i + 1);
        if entries[i].0 != name {
            assert forall|k: int| i <= k < entries.len() && #[trigger] entries[k].0 == name implies i
                + 1 <= k by {}
        }
    }
}

/// The outputs of the completed steps of a chain run, in the order they completed.
#[derive(Debug)]
pub struct ChainResult {
    entries: Vec<(String, String)>,
}

impl View for ChainResult {
    type V = Seq<(Seq<char>, Seq<char>)>;

    closed spec fn view(&self) -> Seq<(Seq<char>, Seq<char>)> {
        self.entries@.map_values(|e: (String, String)| (e.0@, e.1@))
    }
}

impl ChainResult {
    /// No step has completed yet.
    pub fn new() -> (r: Self)
        ensures
            r@ == Seq::<(Seq<char>, Seq<char>)>::empty(),
    {
        ChainResult { entries: Vec::new() }
    }

    /// Number of completed steps.
    pub fn len(&self) -> (r: usize)
        ensures
            r == self@.len(),
    {
        self.entries.len()
    }

    /// Records the output of one more step.
    pub fn push(&mut self, id: String, text: String)
        ensures
            final(self)@ == old(self)@.push((id@, text@)),
    {
        self.entries.push((id, text));
        assert(final(self)@ =~= old(self)@.push((id@, text@)));
    }

    /// The step id and output at position `i`.
    pub fn entry(&self, i: usize) -> (r: (&String, &String))
        requires
            i < self@.len(),
        ensures
            (r.0@, r.1@) == self@[i as int],
    {
        let e = &self.entries[i];
        (&e.0, &e.1)
    }

    /// Position of the first entry whose step id is `id`.
    pub fn position(&self, id: &str) -> (r: Option<usize>)
        ensures
            match r {
                Some(k) => k < self@.len() && self@[k as int].0 == id@ && lookup(self@, id@)
                    == Some(self@[k as int].1),
                None => lookup(self@, id@) is None,
            },
    {
        let key = id.to_owned();
        let n = self.entries.len();
        let mut i: usize = 0;
        while i < n
            invariant
                n == self@.len(),
                i <= n,
                key@ == id@,
                lookup(self@, id@) == lookup_from(self@, id@, i as int),
            decreases n - i,
        {
            if self.entries[i].0 == key {
                return Some(i);
            }
            i = i + 1;
        }
        None
    }

    /// The output recorded for step `id`, if that step has completed.
    pub fn get(&self, id: &str) -> (r: Option<&String>)
        ensures
            match r {
                Some(s) => lookup(self@, id@) == Some(s@),
                None => lookup(self@, id@) is None,
            },
    {
        match self.position(id) {
            Some(k) => Some(self.entry(k).1),
            None => None,
        }
    }
}

} // verus!
