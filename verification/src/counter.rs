//! Counters: numbers that the backend keeps under a name.

use core::marker::PhantomData;
use vstd::prelude::*;
use crate::call::{Call, CallView};
use crate::name::Name;
use crate::profiler::Profiler;

verus! {

/// What is added to a counter to take `value` away from it. The counter is
/// a 64-bit number that wraps, so taking away the least `i64`, which has no
/// negation in 64 bits, is adding it.
pub open spec fn negated(value: i64) -> i64 {
    if value == i64::MIN {
        i64::MIN
    } else {
        (-value) as i64
    }
}

/// A counter of the backend. Every update goes to the backend at once.
#[derive(Debug)]
pub struct Counter<'a> {
    token: u64,
    name: Name,
    profiler: PhantomData<&'a Profiler>,
}

impl<'a> Counter<'a> {
    /// The backend's token of the counter.
    pub closed spec fn spec_token(&self) -> u64 {
        self.token
    }

    /// The backend's token of the counter.
    #[verifier::when_used_as_spec(spec_token)]
    pub fn token(&self) -> (token: u64)
        ensures
            token == self.spec_token(),
    {
        self.token
    }

    /// The counter's name.
    pub closed spec fn spec_name(&self) -> &Name {
        &self.name
    }

    /// The counter's name.
    #[verifier::when_used_as_spec(spec_name)]
    pub fn name(&self) -> (name: &Name)
        ensures
            name == self.spec_name(),
    {
        &self.name
    }

    /// The counter of that name and of the token that the backend answered.
    pub(crate) fn new(name: Name, token: u64) -> (counter: Counter<'a>)
        ensures
            counter.token() == token,
            counter.name()@ == name@,
    {
        Counter { token, name, profiler: PhantomData }
    }

    /// The call that adds `value` to the counter.
    pub fn add(&mut self, value: i64) -> (call: Call)
        ensures
            call@ == (CallView::CounterAdd { token: old(self).token(), delta: value }),
            final(self).token() == old(self).token(),
            final(self).name() == old(self).name(),
    {
        Call::CounterAdd { token: self.token, delta: value }
    }

    /// The call that takes `value` away from the counter: it adds the
    /// negation of `value`.
    pub fn subtract(&mut self, value: i64) -> (call: Call)
        ensures
            call@ == (CallView::CounterAdd { token: old(self).token(), delta: negated(value) }),
            final(self).token() == old(self).token(),
            final(self).name() == old(self).name(),
    {
        let delta: i64 = if value == i64::MIN {
            i64::MIN
        } else {
            -value
        };
        Call::CounterAdd { token: self.token, delta }
    }

    /// The call that sets the counter to `value`.
    pub fn set(&mut self, value: i64) -> (call: Call)
        ensures
            call@ == (CallView::CounterSet { token: old(self).token(), value }),
            final(self).token() == old(self).token(),
            final(self).name() == old(self).name(),
    {
        Call::CounterSet { token: self.token, value }
    }

    /// The call that sets how the counter is shown: by its name, in the
    /// default format, with no limit and no flags.
    pub fn config(&mut self) -> (call: Call)
        ensures
            call@ == (CallView::CounterConfig {
                name: old(self).name()@,
                format: 0,
                limit: 0,
                flags: 0,
            }),
            final(self).token() == old(self).token(),
            final(self).name() == old(self).name(),
    {
        Call::CounterConfig { name: self.name.clone(), format: 0, limit: 0, flags: 0 }
    }
}

/// A counter whose value is kept here, beside the backend's token for it.
/// It starts at zero.
#[derive(Debug)]
pub struct LocalCounter<'a> {
    token: u64,
    value: i64,
    profiler: PhantomData<&'a Profiler>,
}

impl<'a> LocalCounter<'a> {
    /// The counter of the token that the backend answered, at zero.
    pub(crate) fn new(token: u64) -> (counter: LocalCounter<'a>)
        ensures
            counter.token() == token,
            counter.value() == 0,
    {
        LocalCounter { token, value: 0, profiler: PhantomData }
    }

    /// The backend's token of the counter.
    pub closed spec fn spec_token(&self) -> u64 {
        self.token
    }

    /// The backend's token of the counter.
    #[verifier::when_used_as_spec(spec_token)]
    pub fn token(&self) -> (token: u64)
        ensures
            token == self.spec_token(),
    {
        self.token
    }

    /// The value that is kept here.
    pub closed spec fn spec_value(&self) -> i64 {
        self.value
    }

    /// The value that is kept here.
    #[verifier::when_used_as_spec(spec_value)]
    pub fn value(&self) -> (value: i64)
        ensures
            value == self.spec_value(),
    {
        self.value
    }
}

} // verus!
