//! A token that is kept until shortly before it expires.

use vstd::prelude::*;

use super::errors::AzureOpenAIError;
use crate::duration::Duration;

verus! {

/// A token provider together with the token that it gave last. The clock is a span since some
/// fixed moment.
pub struct CachingTokenProvider<P> {
    inner: P,
    ttl: Duration,
    refresh_skew: Duration,
    cached: Option<(String, Duration)>,
}

/// What a [`CachingTokenProvider`] holds, with times in nanoseconds.
pub struct CacheModel<P> {
    pub provider: P,
    /// How long a token lives.
    pub ttl: nat,
    /// How long before the end of its life a token is replaced.
    pub refresh_skew: nat,
    /// The token and when it was fetched.
    pub cached: Option<(Seq<char>, nat)>,
}

impl<P> View for CachingTokenProvider<P> {
    type V = CacheModel<P>;

    closed spec fn view(&self) -> CacheModel<P> {
        CacheModel {
            provider: self.inner,
            ttl: self.ttl@,
            refresh_skew: self.refresh_skew@,
            cached: match self.cached {
                Some((token, fetched_at)) => Some((token@, fetched_at@)),
                None => None,
            },
        }
    }
}

/// How long a token is served: its life less the skew, or not at all where the skew is as long.
pub open spec fn live_window(ttl: nat, refresh_skew: nat) -> nat {
    if refresh_skew <= ttl {
        (ttl - refresh_skew) as nat
    } else {
        0
    }
}

/// The token to serve at a time.
pub open spec fn served<P>(cache: CacheModel<P>, now: nat) -> Option<Seq<char>> {
    match cache.cached {
        Some((token, fetched_at)) => if now < fetched_at + live_window(
            cache.ttl,
            cache.refresh_skew,
        ) {
            Some(token)
        } else {
            None
        },
        None => None,
    }
}

impl<P> CachingTokenProvider<P> {
    /// Keeps the tokens of a provider for `ttl` less `refresh_skew`.
    pub fn new(inner: P, ttl: Duration, refresh_skew: Duration) -> (r: Self)
        ensures
            r@ == (CacheModel {
                provider: inner,
                ttl: ttl@,
                refresh_skew: refresh_skew@,
                cached: None,
            }),
    {
        CachingTokenProvider { inner, ttl, refresh_skew, cached: None }
    }

    /// The provider.
    pub fn inner(&self) -> (r: &P)
        ensures
            *r == self@.provider,
    {
        &self.inner
    }

    /// The end of the time for which a token fetched at some moment is served, in nanoseconds.
    fn fresh_until(&self, fetched_at: Duration) -> (r: u128)
        ensures
            r == fetched_at@ + live_window(self@.ttl, self@.refresh_skew),
    {
        let ttl: u128 = self.ttl.as_nanos();
        let skew: u128 = self.refresh_skew.as_nanos();
        let window: u128 = if skew <= ttl {
            ttl - skew
        } else {
            0
        };
        fetched_at.as_nanos() + window
    }

    /// The token to serve now, if the one that is kept is still fresh.
    pub fn cached_token(&self, now: Duration) -> (r: Option<String>)
        ensures
            served(self@, now@) == (match r {
                Some(token) => Some(token@),
                None => None,
            }),
    {
        match &self.cached {
            Some((token, fetched_at)) => {
                if now.as_nanos() < self.fresh_until(*fetched_at) {
                    Some(token.clone())
                } else {
                    None
                }
            },
            None => None,
        }
    }

    /// Takes what the provider gave: a token is kept, a failure is passed on and changes nothing.
    pub fn fetched(&mut self, result: Result<String, AzureOpenAIError>, now: Duration) -> (r: Result<
        String,
        AzureOpenAIError,
    >)
        ensures
            match result {
                Ok(token) => (r matches Ok(given) && given@ == token@) && final(self)@ == (
                CacheModel { cached: Some((token@, now@)), ..old(self)@ }),
                Err(e) => r == Err::<String, AzureOpenAIError>(e) && final(self)@ == old(self)@,
            },
    {
        match result {
            Ok(token) => {
                self.cached = Some((token.clone(), now));
                Ok(token)
            },
            Err(e) => Err(e),
        }
    }
}

/// A token is served from the moment it was fetched until its window ends, and not after.
pub proof fn token_is_served_while_fresh<P>(
    cache: CacheModel<P>,
    token: Seq<char>,
    fetched_at: nat,
    now: nat,
)
    requires
        cache.cached == Some((token, fetched_at)),
        fetched_at <= now,
    ensures
        now < fetched_at + live_window(cache.ttl, cache.refresh_skew) ==> served(cache, now)
            == Some(token),
        now >= fetched_at + live_window(cache.ttl, cache.refresh_skew) ==> served(cache, now) is None,
        served(cache, now) is Some ==> now - fetched_at < cache.ttl,
{
}

/// With a skew as long as the life of a token, every call asks the provider.
pub proof fn long_skew_serves_nothing<P>(cache: CacheModel<P>, now: nat)
    requires
        cache.refresh_skew >= cache.ttl,
        cache.cached matches Some((_, fetched_at)) ==> fetched_at <= now,
    ensures
        served(cache, now) is None,
{
}

} // verus!
