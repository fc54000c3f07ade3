use std::cell::Cell;

use taqui::rate_limit::{Denial, ExtractKey, Facet, FacetValue, FnExtractor, RateLimitLayer, Rejection, RequestContext, UserExtractor};
use taqui::{BucketConfiguration, Buckets, Component, Key, SocketAddress};

const PEER: SocketAddress = SocketAddress::V6 { segments: 1, port: 443, flowinfo: 0, scope_id: 0 };

fn address_key(values: &Vec<FacetValue>) -> Key {
    match values[0] {
        FacetValue::PeerAddress(addr) => Key("auth", Component::SocketAddr(addr)),
        FacetValue::Principal(id) => Key("auth", Component::Uuid(id)),
    }
}

#[test]
fn user_extractor_keys_by_user() {
    let ctx = RequestContext { principal: Some(77), peer: Some(PEER) };
    assert_eq!(UserExtractor("messages").extract(&ctx), Ok(Key("messages", Component::Uuid(77))));
}

#[test]
fn user_extractor_rejects_anonymous_requests() {
    let ctx = RequestContext { principal: None, peer: Some(PEER) };
    assert_eq!(UserExtractor("messages").extract(&ctx), Err(Rejection::MissingPrincipal));
}

#[test]
fn fn_extractor_keys_by_address() {
    let extractor = FnExtractor::new(vec![Facet::PeerAddress], address_key);
    let ctx = RequestContext { principal: None, peer: Some(PEER) };
    assert_eq!(extractor.extract(&ctx), Ok(Key("auth", Component::SocketAddr(PEER))));
}

#[test]
fn fn_extractor_rejects_with_first_missing_facet() {
    let calls = Cell::new(0);
    let extractor = FnExtractor::new(vec![Facet::PeerAddress, Facet::Principal], |_: &Vec<FacetValue>| {
        calls.set(calls.get() + 1);
        Key("x", Component::Uuid(0))
    });
    let neither = RequestContext { principal: None, peer: None };
    assert_eq!(extractor.extract(&neither), Err(Rejection::MissingConnectInfo));
    let no_user = RequestContext { principal: None, peer: Some(PEER) };
    assert_eq!(extractor.extract(&no_user), Err(Rejection::MissingPrincipal));
    assert_eq!(calls.get(), 0);
    let both = RequestContext { principal: Some(5), peer: Some(PEER) };
    assert_eq!(extractor.extract(&both), Ok(Key("x", Component::Uuid(0))));
    assert_eq!(calls.get(), 1);
}

#[test]
fn fn_extractor_hands_over_values_in_order() {
    let extractor = FnExtractor::new(vec![Facet::Principal, Facet::PeerAddress], |v: &Vec<FacetValue>| {
        assert_eq!(v.len(), 2);
        assert_eq!(v[1], FacetValue::PeerAddress(PEER));
        match v[0] {
            FacetValue::Principal(id) => Key("pair", Component::Uuid(id)),
            FacetValue::PeerAddress(_) => Key("wrong", Component::Uuid(0)),
        }
    });
    let ctx = RequestContext { principal: Some(12), peer: Some(PEER) };
    assert_eq!(extractor.extract(&ctx), Ok(Key("pair", Component::Uuid(12))));
}

#[test]
fn builder_collects_the_configuration() {
    let layer = RateLimitLayer::builder().with_user("groups").with_capacity(10).with_refill_rate(1).build();
    assert_eq!(layer.extractor.0, "groups");
    assert_eq!(layer.config, BucketConfiguration { capacity: 10, refill_rate: 1 });
    let custom = RateLimitLayer::builder().with_refill_rate(3).with_custom(UserExtractor("c")).with_capacity(4);
    assert_eq!(custom.config, BucketConfiguration { capacity: 4, refill_rate: 3 });
    assert_eq!(custom.extractor.0, "c");
}

#[test]
fn layer_limits_per_key_and_rejects_without_spending() {
    let layer = RateLimitLayer::builder()
        .with_fn(vec![Facet::PeerAddress], address_key)
        .with_capacity(2)
        .with_refill_rate(1)
        .build();
    let mut buckets = Buckets::new();
    let ctx = RequestContext { principal: None, peer: Some(PEER) };
    let anonymous = RequestContext { principal: None, peer: None };
    let key = Key("auth", Component::SocketAddr(PEER));
    assert_eq!(layer.check(&anonymous, &mut buckets, 0), Err(Denial::Rejected(Rejection::MissingConnectInfo)));
    assert_eq!(layer.check(&ctx, &mut buckets, 0), Ok(key));
    assert_eq!(layer.check(&ctx, &mut buckets, 0), Ok(key));
    assert_eq!(layer.check(&ctx, &mut buckets, 0), Err(Denial::RateLimited));
    assert_eq!(layer.check(&anonymous, &mut buckets, 0), Err(Denial::Rejected(Rejection::MissingConnectInfo)));
    assert_eq!(layer.check(&ctx, &mut buckets, 1_000_000_000), Ok(key));
}
