use vstd::prelude::*;
use crate::error::RllmError;

verus! {

/// No two entries of `ids` are equal.
pub open spec fn distinct(ids: Seq<Seq<char>>) -> bool {
    forall|i: int, j: int| 0 <= i < j < ids.len() ==> #[trigger] ids[i] != #[trigger] ids[j]
}

/// Whether `ids` holds two equal entries.
pub fn has_duplicate(ids: &Vec<String>) -> (r: bool)
    ensures
        r == !distinct(ids@.map_values(|s: String| s@)),
{
    let ghost v = ids@.map_values(|s: String| s@);
    let n = ids.len();
    let mut i: usize = 0;
    while i < n
        invariant
            n == ids@.len(),
            v == ids@.map_values(|s: String| s@),
            i <= n,
            forall|a: int, b: int| 0 <= a < b < n && a < i ==> v[a] != v[b],
        decreases n - i,
    {
        let mut j: usize = i + 1;
        while j < n
            invariant
                n == ids@.len(),
                v == ids@.map_values(|s: String| s@),
                i < n,
                i + 1 <= j <= n,
                forall|a: int, b: int| 0 <= a < b < n && a < i ==> v[a] != v[b],
                forall|b: int| i < b < j ==> v[i as int] != v[b],
            decreases n - j,
        {
            if ids[i] == ids[j] {
                assert(v[i as int] == v[j as int]);
                return true;
            }
            j = j + 1;
        }
        i = i + 1;
    }
    false
}

/// Accumulates `(id, provider)` pairs before a registry is frozen.
pub struct LLMRegistryBuilder<P> {
    entries: Vec<(String, P)>,
}

/// An immutable lookup table from distinct string ids to providers.
pub struct LLMRegistry<P> {
    entries: Vec<(String, P)>,
}

impl<P> LLMRegistryBuilder<P> {
    /// The ids registered so far, in order of registration.
    pub closed spec fn ids(&self) -> Seq<Seq<char>> {
        self.entries@.map_values(|e: (String, P)| e.0@)
    }

    /// The providers registered so far, in order of registration.
    pub closed spec fn providers(&self) -> Seq<P> {
        self.entries@.map_values(|e: (String, P)| e.1)
    }

    /// A builder with nothing registered.
    pub fn new() -> (r: Self)
        ensures
            r.ids() == Seq::<Seq<char>>::empty(),
            r.providers() == Seq::<P>::empty(),
    {
        let r = LLMRegistryBuilder { entries: Vec::new() };
        assert(r.ids() =~= Seq::<Seq<char>>::empty());
        assert(r.providers() =~= Seq::<P>::empty());
        r
    }

    /// Adds `provider` under `id`. A repeated id is only reported by `build`.
    pub fn register(self, id: String, provider: P) -> (r: Self)
        ensures
            r.ids() == self.ids().push(id@),
            r.providers() == self.providers().push(provider),
    {
        let ghost id_view = id@;
        let mut entries = self.entries;
        entries.push((id, provider));
        let r = LLMRegistryBuilder { entries };
        assert(r.ids() =~= self.ids().push(id_view));
        assert(r.providers() =~= self.providers().push(provider));
        r
    }

    /// Freezes the registrations. Two registrations under one id are a
    /// configuration error, and then no registry is produced.
    pub fn build(self) -> (r: Result<LLMRegistry<P>, RllmError>)
        ensures
            r is Ok <==> distinct(self.ids()),
            match r {
                Ok(reg) => reg.ids() == self.ids() && reg.providers() == self.providers(),
                Err(e) => e is ConfigurationError,
            },
    {
        let mut ids: Vec<String> = Vec::new();
        let n = self.entries.len();
        let mut i: usize = 0;
        while i < n
            invariant
                n == self.entries@.len(),
                i <= n,
                ids@.len() == i,
                forall|k: int| 0 <= k < i ==> #[trigger] ids@[k]@ == self.entries@[k].0@,
            decreases n - i,
        {
            ids.push(self.entries[i].0.clone());
            i = i + 1;
        }
        assert(ids@.map_values(|s: String| s@) =~= self.ids());
        if has_duplicate(&ids) {
            Err(RllmError::ConfigurationError("duplicate provider id".to_owned()))
        } else {
            Ok(LLMRegistry { entries: self.entries })
        }
    }
}

impl<P> LLMRegistry<P> {
    /// The registered ids, in order of registration.
    pub closed spec fn ids(&self) -> Seq<Seq<char>> {
        self.entries@.map_values(|e: (String, P)| e.0@)
    }

    /// The registered providers, in order of registration.
    pub closed spec fn providers(&self) -> Seq<P> {
        self.entries@.map_values(|e: (String, P)| e.1)
    }

    /// Number of registered providers.
    pub fn len(&self) -> (r: usize)
        ensures
            r == self.ids().len(),
            r == self.providers().len(),
    {
        self.entries.len()
    }

    /// Position of `id` among the registered ids.
    pub fn position(&self, id: &str) -> (r: Option<usize>)
        ensures
            match r {
                Some(k) => k < self.ids().len() && self.ids()[k as int] == id@ && forall|m: int|
                    0 <= m < k ==> self.ids()[m] != id@,
                None => !self.ids().contains(id@),
            },
    {
        let key = id.to_owned();
        let n = self.entries.len();
        let mut i: usize = 0;
        while i < n
            invariant
                n == self.ids().len(),
                i <= n,
                key@ == id@,
                forall|m: int| 0 <= m < i ==> self.ids()[m] != id@,
            decreases n - i,
        {
            if self.entries[i].0 == key {
                return Some(i);
            }
            i = i + 1;
        }
        None
    }

    /// The provider registered at position `k`.
    pub fn provider_at(&self, k: usize) -> (r: &P)
        requires
            k < self.providers().len(),
        ensures
            *r == self.providers()[k as int],
    {
        &self.entries[k].1
    }

    /// The provider registered under `id`; an unknown id is a configuration error.
    pub fn get(&self, id: &str) -> (r: Result<&P, RllmError>)
        ensures
            r is Ok <==> self.ids().contains(id@),
            match r {
                Ok(p) => exists|k: int|
                    0 <= k < self.ids().len() && self.ids()[k] == id@ && *p == self.providers()[k],
                Err(e) => e is ConfigurationError,
            },
    {
        match self.position(id) {
            Some(k) => Ok(self.provider_at(k)),
            None => Err(RllmError::ConfigurationError("unknown provider id".to_owned())),
        }
    }
}

} // verus!
