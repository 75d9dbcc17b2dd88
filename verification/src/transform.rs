//! Middleware transforms over service factories.
//!
//! A transform wraps the service a factory produced during construction;
//! applying one to a factory yields a factory of the wrapped services.
//! `TransformMapInitErr` changes the error a transform's construction may
//! fail with.

use vstd::prelude::*;

use core::marker::PhantomData;

use crate::service::{Factory, Service};

verus! {

/// A service-wrapping middleware constructor, implemented by embedders: it
/// turns the inner service into the wrapping one, or fails with its init
/// error.
pub trait Transform<S, Req>: Sized {
    type Response;

    type Error;

    /// The wrapping service this transform builds.
    type Transform: Service<Req, Response = Self::Response, Error = Self::Error>;

    type InitError;

    /// The transform may be built around this service.
    spec fn can_transform(&self, service: &S) -> bool;

    /// What `new_transform` returns for this service, stated by each
    /// implementation.
    spec fn built(&self, service: S, r: Result<Self::Transform, Self::InitError>) -> bool;

    fn new_transform(&self, service: S) -> (r: Result<Self::Transform, Self::InitError>)
        requires
            self.can_transform(&service),
        ensures
            self.built(service, r),
    ;
}

/// A factory of transformed services: the inner factory creates the
/// service, the transform wraps it.
pub struct ApplyTransform<T, S, Req> {
    pub transform: T,
    pub factory: S,
    pub r: PhantomData<Req>,
}

impl<T, S, Req> ApplyTransform<T, S, Req> where
    S: Factory<Request = Req>,
    T: Transform<S::Service, Req, InitError = S::InitError>,
 {
    /// Pair a transform with the factory whose services it wraps.
    pub fn new(t: T, service: S) -> (a: Self)
        ensures
            a.transform == t,
            a.factory == service,
    {
        ApplyTransform { transform: t, factory: service, r: PhantomData }
    }
}

/// Apply transform `t` to every service `factory` creates.
pub fn apply<T, S, Req>(t: T, factory: S) -> (a: ApplyTransform<T, S, Req>)
    where
        S: Factory<Request = Req>,
        T: Transform<S::Service, Req, InitError = S::InitError>,
    ensures
        a.transform == t,
        a.factory == factory,
{
    ApplyTransform::new(t, factory)
}

impl<T, S, Req> Factory for ApplyTransform<T, S, Req> where
    S: Factory<Request = Req>,
    T: Transform<S::Service, Req, InitError = S::InitError>,
 {
    type Config = S::Config;

    type Request = Req;

    type Response = T::Response;

    type Error = T::Error;

    type InitError = T::InitError;

    type Service = T::Transform;

    /// The inner factory must accept the config, and the transform must
    /// accept whatever service it produces.
    open spec fn can_create(&self, cfg: &S::Config) -> bool {
        &&& self.factory.can_create(cfg)
        &&& forall|s: S::Service| #[trigger] self.transform.can_transform(&s)
    }

    /// A success is the transform built around a service the inner factory
    /// created; an error is the inner factory's own, surfaced unchanged and
    /// without building anything, or the transform's construction error on
    /// such a service.
    open spec fn created(&self, cfg: &S::Config, r: Result<T::Transform, T::InitError>) -> bool {
        match r {
            Ok(t) => exists|s: S::Service|
                #[trigger] self.factory.created(cfg, Ok(s)) && self.transform.built(s, Ok(t)),
            Err(e) => self.factory.created(cfg, Err(e)) || (exists|s: S::Service|
                #[trigger] self.factory.created(cfg, Ok(s)) && self.transform.built(s, Err(e))),
        }
    }

    fn new_service(&self, cfg: &S::Config) -> (r: Result<T::Transform, T::InitError>) {
        match self.factory.new_service(cfg) {
            Ok(srv) => {
                let ghost created_service = srv;
                let r = self.transform.new_transform(srv);
                proof {
                    assert(self.factory.created(cfg, Ok(created_service)));
                }
                r
            },
            Err(e) => Err(e),
        }
    }
}

/// Transform wrapper changing the error a transform's construction fails
/// with, by a caller-supplied mapping.
pub struct TransformMapInitErr<T, S, Req, F, E> {
    pub transform: T,
    pub mapper: F,
    pub p: PhantomData<(S, Req, E)>,
}

impl<T, S, F, E, Req> TransformMapInitErr<T, S, Req, F, E> {
    /// Wrap transform `t` so that a failed construction reports `f` of the
    /// original error.
    pub fn new(t: T, f: F) -> (r: Self)
        ensures
            r.transform == t,
            r.mapper == f,
    {
        TransformMapInitErr { transform: t, mapper: f, p: PhantomData }
    }
}

impl<T, S, Req, F, E> Transform<S, Req> for TransformMapInitErr<T, S, Req, F, E> where
    T: Transform<S, Req>,
    F: Fn(T::InitError) -> E,
 {
    type Response = T::Response;

    type Error = T::Error;

    type Transform = T::Transform;

    type InitError = E;

    /// The wrapped transform must accept the service, and the mapping must
    /// accept every error the construction may report.
    open spec fn can_transform(&self, service: &S) -> bool {
        &&& self.transform.can_transform(service)
        &&& forall|e: T::InitError| #[trigger] call_requires(self.mapper, (e,))
    }

    /// A success is the wrapped transform's own, passed through unchanged;
    /// an error is the mapping's image of the wrapped transform's error, and
    /// nothing else is altered.
    open spec fn built(&self, service: S, r: Result<T::Transform, E>) -> bool {
        match r {
            Ok(t) => self.transform.built(service, Ok(t)),
            Err(e2) => exists|e: T::InitError|
                #[trigger] self.transform.built(service, Err(e)) && call_ensures(
                    self.mapper,
                    (e,),
                    e2,
                ),
        }
    }

    fn new_transform(&self, service: S) -> (r: Result<T::Transform, E>) {
        let ghost wrapped = service;
        match self.transform.new_transform(service) {
            Ok(t) => Ok(t),
            Err(e) => {
                let ghost inner_err = e;
                let mapped = (self.mapper)(e);
                proof {
                    assert(self.transform.built(wrapped, Err(inner_err)));
                }
                Err(mapped)
            },
        }
    }
}

} // verus!
