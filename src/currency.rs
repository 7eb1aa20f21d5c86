use vstd::prelude::*;

verus! {

/// A currency identifier: compared by value, and copied exactly.
pub trait CurrencyId: Sized {
    /// Whether two identifiers name the same currency.
    spec fn same_currency(&self, other: &Self) -> bool;

    /// Whether `self` and `other` name the same currency.
    fn same(&self, other: &Self) -> (r: bool)
        ensures
            r == self.same_currency(other),
    ;

    /// An identical identifier.
    fn copy_id(&self) -> (r: Self)
        ensures
            r == *self,
    ;
}

impl CurrencyId for String {
    open spec fn same_currency(&self, other: &Self) -> bool {
        self@ == other@
    }

    fn same(&self, other: &Self) -> (r: bool) {
        *self == *other
    }

    fn copy_id(&self) -> (r: Self) {
        self.clone()
    }
}

impl<'a> CurrencyId for &'a str {
    open spec fn same_currency(&self, other: &Self) -> bool {
        (*self)@ == (*other)@
    }

    fn same(&self, other: &Self) -> (r: bool) {
        let a: String = (*self).to_owned();
        let b: String = (*other).to_owned();
        a == b
    }

    fn copy_id(&self) -> (r: Self) {
        *self
    }
}

impl CurrencyId for u64 {
    open spec fn same_currency(&self, other: &Self) -> bool {
        *self == *other
    }

    fn same(&self, other: &Self) -> (r: bool) {
        *self == *other
    }

    fn copy_id(&self) -> (r: Self) {
        *self
    }
}

/// A trading pair: prices are quoted as `base/quote`.
#[derive(Clone, Debug, PartialEq, Eq)]
pub struct CurrencyPair<C> {
    pub base: C,
    pub quote: C,
}

/// `c` is one of the two legs of `p`.
pub open spec fn pair_contains<C: CurrencyId>(p: CurrencyPair<C>, c: C) -> bool {
    p.base.same_currency(&c) || p.quote.same_currency(&c)
}

/// `l` and `r` have a leg in common.
pub open spec fn pairs_share<C: CurrencyId>(l: CurrencyPair<C>, r: CurrencyPair<C>) -> bool {
    pair_contains(l, r.base) || pair_contains(l, r.quote)
}

impl<C: CurrencyId> CurrencyPair<C> {
    /// Whether `currency` is the base or the quote of this pair.
    pub fn contains(&self, currency: &C) -> (r: bool)
        ensures
            r == pair_contains(*self, *currency),
    {
        self.base.same(currency) || self.quote.same(currency)
    }

    /// Whether the two pairs have at least one currency in common.
    pub fn has_shared(&self, other: &CurrencyPair<C>) -> (r: bool)
        ensures
            r == pairs_share(*self, *other),
    {
        self.contains(&other.base) || self.contains(&other.quote)
    }

    /// An identical pair.
    pub fn copy(&self) -> (r: CurrencyPair<C>)
        ensures
            r == *self,
    {
        CurrencyPair { base: self.base.copy_id(), quote: self.quote.copy_id() }
    }
}

/// How a currency is shown: its full name and its number of decimals.
#[derive(Clone, Debug)]
pub struct CurrencyConfig {
    pub name: String,
    pub decimals: u32,
}

/// Failures of currency lookups.
#[derive(Clone, Copy, Debug, PartialEq, Eq, Structural)]
pub enum CurrencyError {
    /// No currency with that symbol is configured.
    InvalidCurrency,
}

/// The configured currencies, by symbol. In a well-formed store
/// ([`CurrencyStore::wf`]) a symbol occurs at most once; a lookup takes the
/// first entry with the symbol.
#[derive(Clone, Debug)]
pub struct CurrencyStore {
    pub entries: Vec<(String, CurrencyConfig)>,
}

/// The position of the first entry of `entries` with symbol `id`, if any.
pub open spec fn first_entry(entries: Seq<(String, CurrencyConfig)>, id: Seq<char>) -> Option<int> {
    if exists|i: int| 0 <= i < entries.len() && #[trigger] entries[i].0@ == id {
        Some(
            choose|i: int|
                0 <= i < entries.len() && #[trigger] entries[i].0@ == id && forall|j: int|
                    0 <= j < i ==> #[trigger] entries[j].0@ != id,
        )
    } else {
        None
    }
}

/// The least index at which some entry has the symbol exists.
proof fn lemma_first_entry(entries: Seq<(String, CurrencyConfig)>, id: Seq<char>, k: int)
    requires
        0 <= k < entries.len(),
        entries[k].0@ == id,
        forall|j: int| 0 <= j < k ==> #[trigger] entries[j].0@ != id,
    ensures
        first_entry(entries, id) == Some(k),
{
    let i = choose|i: int|
        0 <= i < entries.len() && #[trigger] entries[i].0@ == id && forall|j: int|
            0 <= j < i ==> #[trigger] entries[j].0@ != id;
    assert(i == k) by {
        if i < k {
            assert(entries[i].0@ != id);
        } else if k < i {
            assert(entries[k].0@ != id);
        }
    }
}

impl CurrencyStore {
    /// Each symbol occurs at most once.
    pub open spec fn wf(&self) -> bool {
        forall|i: int, j: int|
            0 <= i < j < self.entries@.len() ==> #[trigger] self.entries@[i].0@
                != #[trigger] self.entries@[j].0@
    }

    /// In a well-formed store the first entry with a symbol is its only one.
    proof fn lemma_only_entry(&self, id: Seq<char>, i: int)
        requires
            self.wf(),
            0 <= i < self.entries@.len(),
            self.entries@[i].0@ == id,
        ensures
            first_entry(self.entries@, id) == Some(i),
    {
        assert forall|j: int| 0 <= j < i implies #[trigger] self.entries@[j].0@ != id by {
            assert(self.entries@[j].0@ != self.entries@[i].0@);
        }
        lemma_first_entry(self.entries@, id, i);
    }

    /// The position of the entry for `id`.
    fn position(&self, id: &String) -> (r: Option<usize>)
        ensures
            r matches Some(i) ==> i < self.entries@.len() && first_entry(self.entries@, id@) == Some(
                i as int,
            ),
            r is None ==> first_entry(self.entries@, id@) is None,
    {
        let mut i: usize = 0;
        while i < self.entries.len()
            invariant
                i <= self.entries@.len(),
                forall|j: int| 0 <= j < i ==> #[trigger] self.entries@[j].0@ != id@,
            decreases self.entries@.len() - i,
        {
            if self.entries[i].0 == *id {
                proof {
                    lemma_first_entry(self.entries@, id@, i as int);
                }
                return Some(i);
            }
            i += 1;
        }
        None
    }

    /// The full name of the currency `id`.
    pub fn name(&self, id: &String) -> (r: Result<String, CurrencyError>)
        ensures
            match first_entry(self.entries@, id@) {
                Some(i) => 0 <= i < self.entries@.len() && (r matches Ok(n) && n@
                    == self.entries@[i].1.name@),
                None => r == Err::<String, CurrencyError>(CurrencyError::InvalidCurrency),
            },
            self.wf() ==> forall|i: int|
                0 <= i < self.entries@.len() && #[trigger] self.entries@[i].0@ == id@ ==> (r matches Ok(
                    n,
                ) && n@ == self.entries@[i].1.name@),
    {
        proof {
            if self.wf() {
                assert forall|i: int|
                    0 <= i < self.entries@.len() && #[trigger] self.entries@[i].0@
                        == id@ implies first_entry(self.entries@, id@) == Some(i) by {
                    self.lemma_only_entry(id@, i);
                }
            }
        }
        match self.position(id) {
            Some(i) => Ok(self.entries[i].1.name.clone()),
            None => Err(CurrencyError::InvalidCurrency),
        }
    }

    /// The symbol of the currency `id`, which is `id` itself.
    pub fn symbol(&self, id: &String) -> (r: Result<String, CurrencyError>)
        ensures
            r matches Ok(s) && s@ == id@,
    {
        Ok(id.clone())
    }

    /// The number of decimals of the currency `id`.
    pub fn decimals(&self, id: &String) -> (r: Result<u32, CurrencyError>)
        ensures
            match first_entry(self.entries@, id@) {
                Some(i) => 0 <= i < self.entries@.len() && r == Ok::<u32, CurrencyError>(
                    self.entries@[i].1.decimals,
                ),
                None => r == Err::<u32, CurrencyError>(CurrencyError::InvalidCurrency),
            },
            self.wf() ==> forall|i: int|
                0 <= i < self.entries@.len() && #[trigger] self.entries@[i].0@ == id@ ==> r == Ok::<
                    u32,
                    CurrencyError,
                >(self.entries@[i].1.decimals),
    {
        proof {
            if self.wf() {
                assert forall|i: int|
                    0 <= i < self.entries@.len() && #[trigger] self.entries@[i].0@
                        == id@ implies first_entry(self.entries@, id@) == Some(i) by {
                    self.lemma_only_entry(id@, i);
                }
            }
        }
        match self.position(id) {
            Some(i) => Ok(self.entries[i].1.decimals),
            None => Err(CurrencyError::InvalidCurrency),
        }
    }
}

} // verus!
