//! Service factory abstraction and config-adapting combinators.
//!
//! A factory creates one service from a config, or fails with its init
//! error; services and factories are supplied by the embedder and the core
//! touches them only through this contract. The combinators adapt the
//! config a factory sees: `map_config` derives the inner config from the
//! outer one through a caller-supplied function, `unit_config` feeds a
//! factory that wants no config.

use vstd::prelude::*;

use core::marker::PhantomData;

verus! {

/// A per-connection service as the core sees it: it accepts a request only
/// while ready. Implemented by embedders; the core promises nothing of it.
pub trait Service<Req>: Sized {
    type Response;

    type Error;

    /// The service accepts a request now.
    spec fn ready(&self) -> bool;

    fn call(&mut self, req: Req) -> Result<Self::Response, Self::Error>
        requires
            old(self).ready(),
    ;
}

/// A service factory: from a config it creates one service, or fails with
/// its init error. Implemented by embedders; the core promises nothing of
/// what an embedder's factory produces, while each combinator's own
/// `created` states how it passes the inner factory's result through.
pub trait Factory: Sized {
    type Config;

    type Request;

    type Response;

    type Error;

    type InitError;

    type Service;

    /// Creation may be attempted with this config.
    spec fn can_create(&self, cfg: &Self::Config) -> bool;

    /// What `new_service` returns for this config, stated by each
    /// implementation.
    spec fn created(&self, cfg: &Self::Config, r: Result<Self::Service, Self::InitError>) -> bool;

    fn new_service(&self, cfg: &Self::Config) -> (r: Result<Self::Service, Self::InitError>)
        requires
            self.can_create(cfg),
        ensures
            self.created(cfg, r),
    ;
}

/// Config handed down to a wrapped factory: borrowed from the outer config
/// or built on the spot.
pub enum MappedConfig<'a, T> {
    Ref(&'a T),
    Owned(T),
}

/// Adapt an outer config to the config of the wrapped factory through `f`.
pub struct MapConfig<A, F, C> {
    pub a: A,
    pub f: F,
    pub e: PhantomData<C>,
}

impl<A, F, C> MapConfig<A, F, C> {
    /// Wrap factory `a` so that it is created from configs derived by `f`.
    pub fn new(a: A, f: F) -> (r: Self)
        ensures
            r.a == a,
            r.f == f,
    {
        MapConfig { a, f, e: PhantomData }
    }
}

/// Adapt an outer config to the config of `new_service` through `f`.
pub fn map_config<T, F, C>(new_service: T, f: F) -> (r: MapConfig<T, F, C>)
    ensures
        r.a == new_service,
        r.f == f,
{
    MapConfig::new(new_service, f)
}

impl<A, F, C> Factory for MapConfig<A, F, C> where
    A: Factory,
    F: Fn(&C) -> MappedConfig<A::Config>,
 {
    type Config = C;

    type Request = A::Request;

    type Response = A::Response;

    type Error = A::Error;

    type InitError = A::InitError;

    type Service = A::Service;

    /// `f` must accept the config, and whatever config it derives must be
    /// one the wrapped factory accepts.
    open spec fn can_create(&self, cfg: &C) -> bool {
        &&& call_requires(self.f, (cfg,))
        &&& forall|mc: MappedConfig<A::Config>|
            #[trigger] call_ensures(self.f, (cfg,), mc) ==> match mc {
                MappedConfig::Ref(c) => self.a.can_create(c),
                MappedConfig::Owned(c) => self.a.can_create(&c),
            }
    }

    /// The result is the wrapped factory's own result for a config that `f`
    /// derived from the outer one, passed through unchanged.
    open spec fn created(&self, cfg: &C, r: Result<A::Service, A::InitError>) -> bool {
        exists|mc: MappedConfig<A::Config>|
            #[trigger] call_ensures(self.f, (cfg,), mc) && match mc {
                MappedConfig::Ref(c) => self.a.created(c, r),
                MappedConfig::Owned(c) => self.a.created(&c, r),
            }
    }

    fn new_service(&self, cfg: &C) -> (r: Result<A::Service, A::InitError>) {
        match (self.f)(cfg) {
            MappedConfig::Ref(c) => {
                let r = self.a.new_service(c);
                proof {
                    assert(call_ensures(self.f, (cfg,), MappedConfig::Ref(c)));
                }
                r
            },
            MappedConfig::Owned(c) => {
                let r = self.a.new_service(&c);
                proof {
                    assert(call_ensures(self.f, (cfg,), MappedConfig::Owned(c)));
                }
                r
            },
        }
    }
}

/// Feed a factory that wants no config, whatever the outer config is.
pub struct UnitConfig<A, C> {
    pub a: A,
    pub e: PhantomData<C>,
}

impl<A, C> UnitConfig<A, C> {
    pub fn new(a: A) -> (r: Self)
        ensures
            r.a == a,
    {
        UnitConfig { a, e: PhantomData }
    }
}

/// Replace the config `new_service` sees with unit.
pub fn unit_config<T, C>(new_service: T) -> (r: UnitConfig<T, C>)
    where T: Factory<Config = ()>,
    ensures
        r.a == new_service,
{
    UnitConfig::new(new_service)
}

impl<A, C> Factory for UnitConfig<A, C> where A: Factory<Config = ()> {
    type Config = C;

    type Request = A::Request;

    type Response = A::Response;

    type Error = A::Error;

    type InitError = A::InitError;

    type Service = A::Service;

    open spec fn can_create(&self, cfg: &C) -> bool {
        self.a.can_create(&())
    }

    /// The result is the wrapped factory's own result for the unit config,
    /// whatever the outer config was, passed through unchanged.
    open spec fn created(&self, cfg: &C, r: Result<A::Service, A::InitError>) -> bool {
        self.a.created(&(), r)
    }

    fn new_service(&self, cfg: &C) -> (r: Result<A::Service, A::InitError>) {
        self.a.new_service(&())
    }
}

} // verus!
