use vstd::prelude::*;

verus! {

/// Settings of the limit on requests served at once.
#[derive(Clone, Copy, Debug)]
pub struct Config {
    max_concurrent_requests: i32,
}

impl Config {
    /// The most requests served at once.
    pub closed spec fn max_spec(&self) -> i32 {
        self.max_concurrent_requests
    }

    /// A limit of `max_concurrent_requests`.
    pub fn new(max_concurrent_requests: i32) -> (r: Config)
        ensures
            r.max_spec() == max_concurrent_requests,
    {
        Config { max_concurrent_requests }
    }

    /// The most requests served at once.
    pub fn max_concurrent_requests(&self) -> (r: i32)
        ensures
            r == self.max_spec(),
    {
        self.max_concurrent_requests
    }

    /// A limiter that applies these settings, with nothing in flight.
    pub fn transform(&self) -> (r: RateLimiter)
        ensures
            r.config_spec() == *self,
            r.in_flight() == 0,
    {
        RateLimiter { config: *self, concurrent_requests: 0 }
    }
}

impl Default for Config {
    /// A limit of ten.
    fn default() -> (r: Config)
        ensures
            r.max_spec() == 10,
    {
        Config { max_concurrent_requests: 10 }
    }
}

/// Counts the requests being served and turns new ones away past the limit.
#[derive(Clone, Copy, Debug)]
pub struct RateLimiter {
    config: Config,
    concurrent_requests: i32,
}

impl RateLimiter {
    /// The settings applied.
    pub closed spec fn config_spec(&self) -> Config {
        self.config
    }

    /// Requests accepted and not yet finished.
    pub closed spec fn in_flight(&self) -> i32 {
        self.concurrent_requests
    }

    /// Accepts a request unless more than the limit are already in flight (or the
    /// count is at its largest value); an accepted request counts as in flight.
    pub fn try_acquire(&mut self) -> (r: bool)
        ensures
            final(self).config_spec() == old(self).config_spec(),
            r == (old(self).in_flight() <= old(self).config_spec().max_spec() && old(self).in_flight()
                < i32::MAX),
            r ==> final(self).in_flight() == old(self).in_flight() + 1,
            !r ==> final(self).in_flight() == old(self).in_flight(),
    {
        if self.concurrent_requests > self.config.max_concurrent_requests
            || self.concurrent_requests == i32::MAX {
            false
        } else {
            self.concurrent_requests = self.concurrent_requests + 1;
            true
        }
    }

    /// Marks an accepted request as finished; the count never goes below zero.
    pub fn release(&mut self)
        ensures
            final(self).config_spec() == old(self).config_spec(),
            old(self).in_flight() > 0 ==> final(self).in_flight() == old(self).in_flight() - 1,
            old(self).in_flight() <= 0 ==> final(self).in_flight() == old(self).in_flight(),
    {
        if self.concurrent_requests > 0 {
            self.concurrent_requests = self.concurrent_requests - 1;
        }
    }

    /// Requests accepted and not yet finished.
    pub fn concurrent_requests(&self) -> (r: i32)
        ensures
            r == self.in_flight(),
    {
        self.concurrent_requests
    }
}

} // verus!
