use crate::currency::{pair_contains, pairs_share, CurrencyId, CurrencyPair, CurrencyStore};
use vstd::prelude::*;

verus! {

/// The price sources that a feed path can be read from.
#[derive(Clone, Copy, Debug, PartialEq, Eq, Structural, PartialOrd, Ord, Hash)]
pub enum FeedName {
    Kraken,
    Gateio,
    Coingecko,
}

/// Why a feed path does not connect the two legs of its pair.
#[derive(Clone, Debug, PartialEq, Eq)]
pub enum ConfigError<C> {
    /// The first hop holds neither leg of the pair (or the path is empty).
    NoStart,
    /// The last hop does not hold the leg that the path must end at.
    NoEnd,
    /// Two consecutive hops share no currency.
    NoPath(CurrencyPair<C>, CurrencyPair<C>),
}

/// A failed feed path, with the feed and the pair it was declared for.
#[derive(Clone, Debug, PartialEq, Eq)]
pub struct PriceConfigError<C> {
    pub feed: FeedName,
    pub pair: CurrencyPair<C>,
    pub error: ConfigError<C>,
}

/// The oracle's configuration: the known currencies and the exchange rates
/// to publish.
#[derive(Clone, Debug)]
pub struct OracleConfig {
    pub currencies: CurrencyStore,
    pub prices: Vec<PriceConfig<String>>,
}

/// The exchange rate of `pair` and the feeds that may compute it, in the
/// order in which they are checked. In a well-formed configuration
/// ([`PriceConfig::wf`]) each feed name occurs once and the names come in
/// the order of [`FeedName`].
#[derive(Clone, Debug)]
pub struct PriceConfig<C> {
    pub pair: CurrencyPair<C>,
    pub feeds: Vec<(FeedName, Vec<CurrencyPair<C>>)>,
}

/// The position of a feed name in the order of [`FeedName`].
pub open spec fn feed_rank(f: FeedName) -> int {
    match f {
        FeedName::Kraken => 0,
        FeedName::Gateio => 1,
        FeedName::Coingecko => 2,
    }
}

/// Feed names strictly increase along `feeds`, so each occurs once.
pub open spec fn feeds_ordered<C>(feeds: Seq<(FeedName, Vec<CurrencyPair<C>>)>) -> bool {
    forall|i: int, j: int|
        0 <= i < j < feeds.len() ==> feed_rank(#[trigger] feeds[i].0) < feed_rank(#[trigger] feeds[j].0)
}

/// The first hop of `path` holds a leg of `pair`.
pub open spec fn path_starts<C: CurrencyId>(pair: CurrencyPair<C>, path: Seq<CurrencyPair<C>>) -> bool {
    path.len() > 0 && (pair_contains(path[0], pair.base) || pair_contains(path[0], pair.quote))
}

/// The leg that a path must end at: the one its first hop does not start from.
pub open spec fn path_target<C: CurrencyId>(pair: CurrencyPair<C>, path: Seq<CurrencyPair<C>>) -> C {
    if pair_contains(path[0], pair.base) {
        pair.quote
    } else {
        pair.base
    }
}

/// The last hop of a started `path` holds the leg it must end at.
pub open spec fn path_ends<C: CurrencyId>(pair: CurrencyPair<C>, path: Seq<CurrencyPair<C>>) -> bool {
    pair_contains(path.last(), path_target(pair, path))
}

/// Hop `i` and hop `i + 1` of `path` share a currency.
pub open spec fn hop_linked<C: CurrencyId>(path: Seq<CurrencyPair<C>>, i: int) -> bool {
    pairs_share(path[i], path[i + 1])
}

/// The first `n` hops of `path` are each linked to the next one.
pub open spec fn linked_upto<C: CurrencyId>(path: Seq<CurrencyPair<C>>, n: int) -> bool {
    forall|j: int| 0 <= j < n ==> #[trigger] hop_linked(path, j)
}

/// `path` leads from one leg of `pair` to the other through linked hops.
pub open spec fn path_valid<C: CurrencyId>(pair: CurrencyPair<C>, path: Seq<CurrencyPair<C>>) -> bool {
    path_starts(pair, path) && path_ends(pair, path) && linked_upto(path, path.len() - 1)
}

/// `i` is the first hop of `path` that is not linked to the next one.
pub open spec fn first_gap<C: CurrencyId>(path: Seq<CurrencyPair<C>>, i: int) -> bool {
    0 <= i < path.len() - 1 && linked_upto(path, i) && !hop_linked(path, i)
}

/// `err` is what checking `path` against `pair` reports, start, then end,
/// then hops from the first on.
pub open spec fn path_reports<C: CurrencyId>(
    pair: CurrencyPair<C>,
    path: Seq<CurrencyPair<C>>,
    err: ConfigError<C>,
) -> bool {
    match err {
        ConfigError::NoStart => !path_starts(pair, path),
        ConfigError::NoEnd => path_starts(pair, path) && !path_ends(pair, path),
        ConfigError::NoPath(l, r) => {
            &&& path_starts(pair, path)
            &&& path_ends(pair, path)
            &&& exists|i: int| #[trigger] first_gap(path, i) && l == path[i] && r == path[i + 1]
        },
    }
}

/// Every feed before position `k` has a valid path.
pub open spec fn feeds_valid_upto<C: CurrencyId>(
    pair: CurrencyPair<C>,
    feeds: Seq<(FeedName, Vec<CurrencyPair<C>>)>,
    k: int,
) -> bool {
    forall|j: int| 0 <= j < k ==> path_valid(pair, #[trigger] feeds[j].1@)
}

/// `k` is the position of the first feed whose path is not valid.
pub open spec fn first_fault<C: CurrencyId>(
    pair: CurrencyPair<C>,
    feeds: Seq<(FeedName, Vec<CurrencyPair<C>>)>,
    k: int,
) -> bool {
    0 <= k < feeds.len() && feeds_valid_upto(pair, feeds, k) && !path_valid(pair, feeds[k].1@)
}

/// `e` reports the first feed of `feeds` whose path is not valid, with the
/// declared pair and the fault found in that path.
pub open spec fn reports_first_fault<C: CurrencyId>(
    pair: CurrencyPair<C>,
    feeds: Seq<(FeedName, Vec<CurrencyPair<C>>)>,
    e: PriceConfigError<C>,
) -> bool {
    exists|k: int|
        #[trigger] first_fault(pair, feeds, k) && feeds[k].0 == e.feed && e.pair == pair
            && path_reports(pair, feeds[k].1@, e.error)
}

impl<C: CurrencyId> PriceConfig<C> {
    /// Each feed name occurs once, in the order of [`FeedName`].
    pub open spec fn wf(&self) -> bool {
        feeds_ordered(self.feeds@)
    }

    /// Checks that every feed's path connects the two legs of `pair`; the
    /// first feed that fails is reported.
    pub fn validate(&self) -> (r: Result<(), PriceConfigError<C>>)
        ensures
            r is Ok <==> feeds_valid_upto(self.pair, self.feeds@, self.feeds@.len() as int),
            r matches Err(e) ==> reports_first_fault(self.pair, self.feeds@, e),
            r matches Err(e) ==> self.wf() ==> forall|j: int|
                0 <= j < self.feeds@.len() && feed_rank(#[trigger] self.feeds@[j].0) < feed_rank(
                    e.feed,
                ) ==> path_valid(self.pair, self.feeds@[j].1@),
    {
        let n = self.feeds.len();
        let mut k: usize = 0;
        while k < n
            invariant
                n == self.feeds@.len(),
                0 <= k <= n,
                feeds_valid_upto(self.pair, self.feeds@, k as int),
            decreases n - k,
        {
            let name = &self.feeds[k].0;
            let path = &self.feeds[k].1;
            match check_path(&self.pair, path) {
                Ok(()) => {},
                Err(error) => {
                    let e = PriceConfigError { feed: *name, pair: self.pair.copy(), error };
                    proof {
                        lemma_reported_path_invalid(self.pair, path@, error);
                        assert(first_fault(self.pair, self.feeds@, k as int));
                        if self.wf() {
                            assert forall|j: int|
                                0 <= j < self.feeds@.len() && feed_rank(
                                    #[trigger] self.feeds@[j].0,
                                ) < feed_rank(e.feed) implies path_valid(
                                self.pair,
                                self.feeds@[j].1@,
                            ) by {
                                if j >= k {
                                    if j > k {
                                        assert(feed_rank(self.feeds@[k as int].0) < feed_rank(
                                            self.feeds@[j].0,
                                        ));
                                    }
                                }
                            }
                        }
                    }
                    return Err(e);
                },
            }
            k += 1;
        }
        Ok(())
    }
}

/// Checks one feed path against `pair`: start, end, then each hop.
fn check_path<C: CurrencyId>(pair: &CurrencyPair<C>, path: &Vec<CurrencyPair<C>>) -> (r: Result<
    (),
    ConfigError<C>,
>)
    ensures
        r is Ok <==> path_valid(*pair, path@),
        r matches Err(e) ==> path_reports(*pair, path@, e),
{
    if path.len() == 0 {
        return Err(ConfigError::NoStart);
    }
    let first = &path[0];
    let end = if first.contains(&pair.base) {
        &pair.quote
    } else if first.contains(&pair.quote) {
        &pair.base
    } else {
        return Err(ConfigError::NoStart);
    };
    let last = &path[path.len() - 1];
    if !last.contains(end) {
        return Err(ConfigError::NoEnd);
    }
    let mut i: usize = 0;
    while i < path.len() - 1
        invariant
            path_starts(*pair, path@),
            path_ends(*pair, path@),
            i < path@.len(),
            linked_upto(path@, i as int),
        decreases path@.len() - i,
    {
        let left = &path[i];
        let right = &path[i + 1];
        if !left.has_shared(right) {
            let err = ConfigError::NoPath(left.copy(), right.copy());
            assert(first_gap(path@, i as int));
            return Err(err);
        }
        assert(hop_linked(path@, i as int));
        i += 1;
    }
    Ok(())
}

/// A reported fault rules out a valid path.
proof fn lemma_reported_path_invalid<C: CurrencyId>(
    pair: CurrencyPair<C>,
    path: Seq<CurrencyPair<C>>,
    err: ConfigError<C>,
)
    requires
        path_reports(pair, path, err),
    ensures
        !path_valid(pair, path),
{
    if let ConfigError::NoPath(l, r) = err {
        let i = choose|i: int| #[trigger] first_gap(path, i) && l == path[i] && r == path[i + 1];
        assert(!hop_linked(path, i));
    }
}

/// Validation is a pure function of the configuration: two validations of
/// the same configuration give the same result.
pub proof fn lemma_validate_deterministic<C: CurrencyId>(
    cfg: PriceConfig<C>,
    r1: Result<(), PriceConfigError<C>>,
    r2: Result<(), PriceConfigError<C>>,
)
    requires
        call_ensures(PriceConfig::<C>::validate, (&cfg,), r1),
        call_ensures(PriceConfig::<C>::validate, (&cfg,), r2),
    ensures
        r1 == r2,
{
    if let Err(e1) = r1 {
        if let Err(e2) = r2 {
            let feeds = cfg.feeds@;
            let pair = cfg.pair;
            let k1 = choose|k: int|
                #[trigger] first_fault(pair, feeds, k) && feeds[k].0 == e1.feed && e1.pair == pair
                    && path_reports(pair, feeds[k].1@, e1.error);
            let k2 = choose|k: int|
                #[trigger] first_fault(pair, feeds, k) && feeds[k].0 == e2.feed && e2.pair == pair
                    && path_reports(pair, feeds[k].1@, e2.error);
            if k1 < k2 {
                assert(path_valid(pair, feeds[k1].1@));
            } else if k2 < k1 {
                assert(path_valid(pair, feeds[k2].1@));
            }
            let path = feeds[k1].1@;
            if let ConfigError::NoPath(l1, m1) = e1.error {
                if let ConfigError::NoPath(l2, m2) = e2.error {
                    let i1 = choose|i: int| #[trigger] first_gap(path, i) && l1 == path[i] && m1 == path[i + 1];
                    let i2 = choose|i: int| #[trigger] first_gap(path, i) && l2 == path[i] && m2 == path[i + 1];
                    if i1 < i2 {
                        assert(hop_linked(path, i1));
                    } else if i2 < i1 {
                        assert(hop_linked(path, i2));
                    }
                }
            }
            assert(e1.error == e2.error);
            assert(e1 == e2);
        }
    } else {
        assert(r2 is Ok);
        let u1: () = r1->Ok_0;
        let u2: () = r2->Ok_0;
        assert(u1 == u2);
        assert(r1 == Ok::<(), PriceConfigError<C>>(u1));
        assert(r2 == Ok::<(), PriceConfigError<C>>(u2));
    }
}

} // verus!
