use vstd::prelude::*;
use super::key_extractor::{ExtractKey, Facet, FacetValue, FnExtractor, Rejection, RequestContext, UserExtractor};
use super::{BucketConfiguration, Buckets, Key};

verus! {

/// Why a request was not let through.
#[derive(Debug, Clone, Copy, PartialEq, Eq)]
pub enum Denial {
    /// No key could be derived from the request.
    Rejected(Rejection),
    /// The key's bucket is exhausted.
    RateLimited,
}

/// Collects the pieces of a rate-limit layer: how requests are keyed and how
/// they are limited.
#[derive(Debug, Clone)]
pub struct RateLimitLayerBuilder<Extractor = ()> {
    pub extractor: Extractor,
    pub config: BucketConfiguration,
}

impl Default for RateLimitLayerBuilder<()> {
    fn default() -> (r: Self)
        ensures
            r.config.capacity == 0,
            r.config.refill_rate == 0,
    {
        RateLimitLayerBuilder { extractor: (), config: BucketConfiguration { capacity: 0, refill_rate: 0 } }
    }
}

impl RateLimitLayerBuilder<()> {
    /// Keys requests by `extractor` applied to the values of `facets`.
    pub fn with_fn<Extractor: Fn(&Vec<FacetValue>) -> Key>(
        self,
        facets: Vec<Facet>,
        extractor: Extractor,
    ) -> (r: RateLimitLayerBuilder<FnExtractor<Extractor>>)
        requires
            forall|v: &Vec<FacetValue>| #[trigger] extractor.requires((v,)),
        ensures
            r.extractor.facets() == facets@,
            r.extractor.extractor() == extractor,
            r.config == self.config,
    {
        RateLimitLayerBuilder { extractor: FnExtractor::new(facets, extractor), config: self.config }
    }

    /// Keys requests by `key` and the authenticated user.
    pub fn with_user(self, key: &'static str) -> (r: RateLimitLayerBuilder<UserExtractor>)
        ensures
            r.extractor.0 == key,
            r.config == self.config,
    {
        RateLimitLayerBuilder { extractor: UserExtractor(key), config: self.config }
    }

    /// Keys requests by an extractor of the caller's own.
    pub fn with_custom<Extractor>(self, extractor: Extractor) -> (r: RateLimitLayerBuilder<Extractor>)
        ensures
            r.extractor == extractor,
            r.config == self.config,
    {
        RateLimitLayerBuilder { extractor, config: self.config }
    }
}

impl<Extractor> RateLimitLayerBuilder<Extractor> {
    pub fn with_capacity(self, capacity: u64) -> (r: Self)
        ensures
            r.extractor == self.extractor,
            r.config == (BucketConfiguration { capacity, refill_rate: self.config.refill_rate }),
    {
        let mut this = self;
        this.config.capacity = capacity;
        this
    }

    pub fn with_refill_rate(self, refill_rate: u64) -> (r: Self)
        ensures
            r.extractor == self.extractor,
            r.config == (BucketConfiguration { capacity: self.config.capacity, refill_rate }),
    {
        let mut this = self;
        this.config.refill_rate = refill_rate;
        this
    }

    pub fn build(self) -> (r: RateLimitLayer<Extractor>)
        ensures
            r.extractor == self.extractor,
            r.config == self.config,
    {
        RateLimitLayer { extractor: self.extractor, config: self.config }
    }
}

/// Admission control in front of a group of routes.
#[derive(Debug, Clone)]
pub struct RateLimitLayer<Extractor = ()> {
    pub extractor: Extractor,
    pub config: BucketConfiguration,
}

impl RateLimitLayer<()> {
    pub fn builder() -> (r: RateLimitLayerBuilder)
        ensures
            r.config == (BucketConfiguration { capacity: 0, refill_rate: 0 }),
    {
        RateLimitLayerBuilder::default()
    }
}

impl<Extractor: ExtractKey> RateLimitLayer<Extractor> {
    /// Decides at `now` whether the request with context `ctx` may pass: its key
    /// is derived first, and a request whose key cannot be derived is rejected
    /// with that reason and spends no token; otherwise one token of the key's
    /// bucket is spent, or the request is rate limited when none is left.
    pub fn check(&self, ctx: &RequestContext, buckets: &mut Buckets, now: u128) -> (r: Result<Key, Denial>)
        requires
            old(buckets).wf(),
        ensures
            final(buckets).wf(),
            match r {
                Ok(key) => self.extractor.extracts(*ctx, Ok(key))
                    && old(buckets).current(key, self.config, now as nat).admits(now as nat)
                    && final(buckets).states() == old(buckets).states().insert(
                        key,
                        old(buckets).current(key, self.config, now as nat).acquired(now as nat),
                    ),
                Err(Denial::Rejected(e)) => self.extractor.extracts(*ctx, Err(e))
                    && final(buckets).states() == old(buckets).states(),
                Err(Denial::RateLimited) => exists|key: Key|
                    self.extractor.extracts(*ctx, Ok(key))
                    && !old(buckets).current(key, self.config, now as nat).admits(now as nat)
                    && #[trigger] final(buckets).states() == old(buckets).states().insert(
                        key,
                        old(buckets).current(key, self.config, now as nat).acquired(now as nat),
                    ),
            },
    {
        let key = match self.extractor.extract(ctx) {
            Ok(key) => key,
            Err(e) => {
                return Err(Denial::Rejected(e));
            },
        };
        if buckets.acquire_at(key, self.config, now) {
            Ok(key)
        } else {
            Err(Denial::RateLimited)
        }
    }
}

} // verus!
