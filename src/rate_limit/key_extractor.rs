use vstd::prelude::*;
use super::{Component, Key, SocketAddress};

verus! {

/// What an inbound request carries that a key can be derived from.
#[derive(Debug, Clone, Copy, PartialEq, Eq)]
pub struct RequestContext {
    /// The authenticated user, once authentication has run.
    pub principal: Option<u128>,
    /// The peer the connection came from, where the server records it.
    pub peer: Option<SocketAddress>,
}

/// A part of the request that an extractor reads.
#[derive(Debug, Clone, Copy, PartialEq, Eq)]
pub enum Facet {
    Principal,
    PeerAddress,
}

/// The value of a facet.
#[derive(Debug, Clone, Copy, PartialEq, Eq)]
pub enum FacetValue {
    Principal(u128),
    PeerAddress(SocketAddress),
}

/// Why a key could not be derived.
#[derive(Debug, Clone, Copy, PartialEq, Eq)]
pub enum Rejection {
    /// The request carries no authenticated user.
    MissingPrincipal,
    /// The request carries no peer address.
    MissingConnectInfo,
}

/// The value of `facet` in `ctx`, or why it is missing.
pub open spec fn facet_of(ctx: RequestContext, facet: Facet) -> Result<FacetValue, Rejection> {
    match facet {
        Facet::Principal => match ctx.principal {
            Some(id) => Ok(FacetValue::Principal(id)),
            None => Err(Rejection::MissingPrincipal),
        },
        Facet::PeerAddress => match ctx.peer {
            Some(addr) => Ok(FacetValue::PeerAddress(addr)),
            None => Err(Rejection::MissingConnectInfo),
        },
    }
}

/// The rejection of the first facet in `facets` that `ctx` lacks, if any.
pub open spec fn first_rejection(ctx: RequestContext, facets: Seq<Facet>) -> Option<Rejection>
    decreases facets.len(),
{
    if facets.len() == 0 {
        None
    } else {
        match facet_of(ctx, facets[0]) {
            Err(e) => Some(e),
            Ok(_) => first_rejection(ctx, facets.drop_first()),
        }
    }
}

/// The values of `facets` in `ctx`, where none is missing.
pub open spec fn facet_values(ctx: RequestContext, facets: Seq<Facet>) -> Seq<FacetValue> {
    facets.map_values(|f: Facet| facet_of(ctx, f)->Ok_0)
}

/// Reads one facet of the request.
pub fn extract_facet(ctx: &RequestContext, facet: Facet) -> (r: Result<FacetValue, Rejection>)
    ensures
        r == facet_of(*ctx, facet),
{
    match facet {
        Facet::Principal => match ctx.principal {
            Some(id) => Ok(FacetValue::Principal(id)),
            None => Err(Rejection::MissingPrincipal),
        },
        Facet::PeerAddress => match ctx.peer {
            Some(addr) => Ok(FacetValue::PeerAddress(addr)),
            None => Err(Rejection::MissingConnectInfo),
        },
    }
}

/// Derives a rate-limit key from a request.
pub trait ExtractKey {
    /// Whether `r` is an outcome that this extractor may give for `ctx`.
    spec fn extracts(&self, ctx: RequestContext, r: Result<Key, Rejection>) -> bool;

    fn extract(&self, ctx: &RequestContext) -> (r: Result<Key, Rejection>)
        ensures
            self.extracts(*ctx, r),
    ;
}

/// Keys a request by a fixed namespace and its authenticated user.
#[derive(Debug, Clone, Copy)]
pub struct UserExtractor(pub &'static str);

impl UserExtractor {
    /// The key of `ctx` in this namespace, or the rejection when no user is present.
    pub open spec fn key_of(&self, ctx: RequestContext) -> Result<Key, Rejection> {
        match ctx.principal {
            Some(id) => Ok(Key(self.0, Component::Uuid(id))),
            None => Err(Rejection::MissingPrincipal),
        }
    }
}

impl ExtractKey for UserExtractor {
    open spec fn extracts(&self, ctx: RequestContext, r: Result<Key, Rejection>) -> bool {
        r == self.key_of(ctx)
    }

    fn extract(&self, ctx: &RequestContext) -> (r: Result<Key, Rejection>) {
        match extract_facet(ctx, Facet::Principal) {
            Ok(FacetValue::Principal(id)) => Ok(Key(self.0, Component::Uuid(id))),
            Ok(FacetValue::PeerAddress(_)) => Err(Rejection::MissingPrincipal),
            Err(e) => Err(e),
        }
    }
}

/// Keys a request by a function of some of its facets, read in order; the first
/// facet that is missing rejects the request and the rest are not read.
#[derive(Debug)]
pub struct FnExtractor<Extractor: Fn(&Vec<FacetValue>) -> Key> {
    facets: Vec<Facet>,
    extractor: Extractor,
}

impl<Extractor: Fn(&Vec<FacetValue>) -> Key> FnExtractor<Extractor> {
    #[verifier::type_invariant]
    spec fn callable(self) -> bool {
        forall|v: &Vec<FacetValue>| #[trigger] self.extractor.requires((v,))
    }

    pub closed spec fn facets(&self) -> Seq<Facet> {
        self.facets@
    }

    pub closed spec fn extractor(&self) -> Extractor {
        self.extractor
    }

    /// An extractor that reads `facets` and hands their values to `extractor`.
    pub fn new(facets: Vec<Facet>, extractor: Extractor) -> (r: Self)
        requires
            forall|v: &Vec<FacetValue>| #[trigger] extractor.requires((v,)),
        ensures
            r.facets() == facets@,
            r.extractor() == extractor,
    {
        FnExtractor { facets, extractor }
    }
}

impl<Extractor: Fn(&Vec<FacetValue>) -> Key> ExtractKey for FnExtractor<Extractor> {
    open spec fn extracts(&self, ctx: RequestContext, r: Result<Key, Rejection>) -> bool {
        match first_rejection(ctx, self.facets()) {
            Some(e) => r == Err::<Key, Rejection>(e),
            None => exists|values: &Vec<FacetValue>, k: Key|
                values@ == facet_values(ctx, self.facets()) && r == Ok::<Key, Rejection>(k)
                    && #[trigger] self.extractor().ensures((values,), k),
        }
    }

    fn extract(&self, ctx: &RequestContext) -> (r: Result<Key, Rejection>) {
        proof {
            use_type_invariant(self);
        }
        let mut values: Vec<FacetValue> = Vec::new();
        let mut i: usize = 0;
        assert(self.facets@.skip(0) =~= self.facets@);
        assert(self.facets@.take(0) =~= Seq::<Facet>::empty());
        while i < self.facets.len()
            invariant
                i <= self.facets@.len(),
                values@ == facet_values(*ctx, self.facets@.take(i as int)),
                first_rejection(*ctx, self.facets@) == first_rejection(
                    *ctx,
                    self.facets@.skip(i as int),
                ),
            decreases self.facets@.len() - i,
        {
            let ghost rest = self.facets@.skip(i as int);
            assert(rest[0] == self.facets@[i as int]);
            assert(rest.drop_first() =~= self.facets@.skip(i + 1));
            match extract_facet(ctx, self.facets[i]) {
                Err(e) => {
                    return Err(e);
                },
                Ok(v) => {
                    values.push(v);
                },
            }
            i = i + 1;
            assert(values@ =~= facet_values(*ctx, self.facets@.take(i as int)));
        }
        assert(self.facets@.take(i as int) =~= self.facets@);
        assert(self.facets@.skip(i as int).len() == 0);
        let key = (self.extractor)(&values);
        assert(self.extractor().ensures((&values,), key));
        Ok(key)
    }
}

} // verus!
