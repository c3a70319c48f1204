use vstd::prelude::*;
use vstd::std_specs::cmp::PartialEqSpec;

use tosca::response::ResponseKind;

use crate::collections::{SerialSet, StorageSet};
use tosca::hazards::Hazard;

use crate::hazards::Hazards;
use crate::identity::Identified;
use crate::parameters::{ParameterKind, Parameters, ParametersData};
use crate::vocabulary::text_eq;

pub use tosca::route::RestKind;

verus! {

/// Route data: what a finalized route says about itself.
#[derive(Debug, Clone)]
pub struct RouteData<const H: usize, const P: usize> {
    name: &'static str,
    description: Option<&'static str>,
    hazards: Hazards<H>,
    parameters: ParametersData<P>,
}

impl<const H: usize, const P: usize> PartialEq for RouteData<H, P> {
    fn eq(&self, other: &Self) -> (r: bool) {
        text_eq(self.name, other.name)
    }
}

impl<const H: usize, const P: usize> vstd::std_specs::cmp::PartialEqSpecImpl for RouteData<H, P> {
    open spec fn obeys_eq_spec() -> bool {
        true
    }

    open spec fn eq_spec(&self, other: &Self) -> bool {
        self.spec_name()@ == other.spec_name()@
    }
}

impl<const H: usize, const P: usize> RouteData<H, P> {
    pub closed spec fn spec_name(&self) -> &'static str {
        self.name
    }

    pub closed spec fn spec_description(&self) -> Option<&'static str> {
        self.description
    }

    pub closed spec fn spec_hazards(&self) -> Seq<Hazard> {
        self.hazards@
    }

    pub closed spec fn spec_parameters(&self) -> Seq<(&'static str, ParameterKind)> {
        self.parameters@
    }

    fn new(route: Route<H, P>) -> (r: Self)
        requires
            route.wf(),
        ensures
            r.spec_name() == route.spec_name(),
            r.spec_description() == route.spec_description(),
            r.spec_hazards() == route.spec_hazards(),
            r.spec_parameters() == route.spec_parameters(),
    {
        RouteData {
            name: route.name,
            description: route.description,
            hazards: route.hazards,
            parameters: route.parameters.serialize_data(),
        }
    }

    /// Returns the route name.
    pub fn name(&self) -> (r: &'static str)
        ensures
            r == self.spec_name(),
    {
        self.name
    }

    /// Returns the route description.
    pub fn description(&self) -> (r: Option<&'static str>)
        ensures
            r == self.spec_description(),
    {
        self.description
    }

    /// Returns the route hazards.
    pub fn hazards(&self) -> (r: &Hazards<H>)
        ensures
            r@ == self.spec_hazards(),
    {
        &self.hazards
    }

    /// Returns the route input parameters.
    pub fn parameters(&self) -> (r: &ParametersData<P>)
        ensures
            r@ == self.spec_parameters(),
    {
        &self.parameters
    }
}

/// A server route configuration: the finalized, transmitted form of a route.
///
/// Two configurations are equal, and hash alike, exactly when their names
/// and `REST` kinds are: hazards and parameters take no part in identity.
#[derive(Debug)]
pub struct RouteConfig<const H: usize, const P: usize> {
    data: RouteData<H, P>,
    rest_kind: RestKind,
    response_kind: ResponseKind,
}

impl<const H: usize, const P: usize> PartialEq for RouteConfig<H, P> {
    fn eq(&self, other: &Self) -> (r: bool) {
        self.data == other.data && self.rest_kind == other.rest_kind
    }
}

impl<const H: usize, const P: usize> vstd::std_specs::cmp::PartialEqSpecImpl for RouteConfig<H, P> {
    open spec fn obeys_eq_spec() -> bool {
        true
    }

    open spec fn eq_spec(&self, other: &Self) -> bool {
        self.id() == other.id()
    }
}

impl<const H: usize, const P: usize> Eq for RouteConfig<H, P> {
}

impl<const H: usize, const P: usize> core::hash::Hash for RouteConfig<H, P> {
    /// Hashes the name and the `REST` kind only, as equality compares them.
    #[verifier::external_body]
    fn hash<Ha: core::hash::Hasher>(&self, state: &mut Ha) {
        self.data.name.hash(state);
        self.rest_kind.hash(state);
    }
}

impl<const H: usize, const P: usize> Identified for RouteConfig<H, P> {
    type Id = (Seq<char>, RestKind);

    open spec fn id(&self) -> (Seq<char>, RestKind) {
        (self.data().spec_name()@, self.spec_kind())
    }

    fn same(&self, other: &Self) -> (r: bool) {
        text_eq(self.data.name, other.data.name) && self.rest_kind == other.rest_kind
    }
}

impl<const H: usize, const P: usize> RouteConfig<H, P> {
    pub closed spec fn data(&self) -> RouteData<H, P> {
        self.data
    }

    pub closed spec fn spec_kind(&self) -> RestKind {
        self.rest_kind
    }

    pub closed spec fn spec_response_kind(&self) -> ResponseKind {
        self.response_kind
    }

    fn new(route: Route<H, P>) -> (r: Self)
        requires
            route.wf(),
        ensures
            r.data().spec_name() == route.spec_name(),
            r.data().spec_description() == route.spec_description(),
            r.data().spec_hazards() == route.spec_hazards(),
            r.data().spec_parameters() == route.spec_parameters(),
            r.spec_kind() == route.spec_kind(),
            r.spec_response_kind() == ResponseKind::Ok,
    {
        RouteConfig {
            rest_kind: route.rest_kind,
            response_kind: ResponseKind::Ok,
            data: RouteData::new(route),
        }
    }

    /// Returns the route data.
    pub fn route_data(&self) -> (r: &RouteData<H, P>)
        ensures
            *r == self.data(),
    {
        &self.data
    }

    /// Returns the `REST` kind.
    pub fn rest_kind(&self) -> (r: RestKind)
        ensures
            r == self.spec_kind(),
    {
        self.rest_kind
    }

    /// Returns the response kind.
    pub fn response_kind(&self) -> (r: ResponseKind)
        ensures
            r == self.spec_response_kind(),
    {
        self.response_kind
    }
}

/// Two finalized routes with the same name and `REST` kind are the same
/// route, whatever hazards, parameters or description each carries: they
/// compare equal and a collection keeps only one of them.
pub proof fn lemma_route_identity<const H: usize, const P: usize>(
    a: RouteConfig<H, P>,
    b: RouteConfig<H, P>,
)
    requires
        a.data().spec_name()@ == b.data().spec_name()@,
        a.spec_kind() == b.spec_kind(),
    ensures
        a.eq_spec(&b),
        a.id() == b.id(),
        a.data().eq_spec(&b.data()),
{
}

/// A collection of [`RouteConfig`]s.
pub type RouteConfigs<const H: usize, const P: usize, const N: usize> = SerialSet<RouteConfig<H, P>, N>;

/// A server route.
///
/// It represents a specific `REST` API which, when invoked, runs a task on
/// a remote device. Two routes are equal exactly when their names and
/// `REST` kinds are.
#[derive(Debug)]
pub struct Route<const H: usize, const P: usize> {
    name: &'static str,
    rest_kind: RestKind,
    description: Option<&'static str>,
    parameters: Parameters<P>,
    hazards: Hazards<H>,
}

impl<const H: usize, const P: usize> PartialEq for Route<H, P> {
    fn eq(&self, other: &Self) -> (r: bool) {
        text_eq(self.name, other.name) && self.rest_kind == other.rest_kind
    }
}

impl<const H: usize, const P: usize> vstd::std_specs::cmp::PartialEqSpecImpl for Route<H, P> {
    open spec fn obeys_eq_spec() -> bool {
        true
    }

    open spec fn eq_spec(&self, other: &Self) -> bool {
        self.spec_name()@ == other.spec_name()@ && self.spec_kind() == other.spec_kind()
    }
}

impl<const H: usize, const P: usize> Eq for Route<H, P> {
}

impl<const H: usize, const P: usize> core::hash::Hash for Route<H, P> {
    /// Hashes the name, the `REST` kind and the description.
    #[verifier::external_body]
    fn hash<Ha: core::hash::Hasher>(&self, state: &mut Ha) {
        self.name.hash(state);
        self.rest_kind.hash(state);
        self.description.hash(state);
    }
}

impl<const H: usize, const P: usize> Identified for Route<H, P> {
    type Id = (Seq<char>, RestKind);

    open spec fn id(&self) -> (Seq<char>, RestKind) {
        (self.spec_name()@, self.spec_kind())
    }

    fn same(&self, other: &Self) -> (r: bool) {
        text_eq(self.name, other.name) && self.rest_kind == other.rest_kind
    }
}

impl Route<2, 2> {
    /// Creates a new [`Route`] through a REST `GET` API.
    pub fn get(route: &'static str) -> (r: Self)
        ensures
            r.is_fresh(route, RestKind::Get),
    {
        Self::init(RestKind::Get, route)
    }

    /// Creates a new [`Route`] through a REST `PUT` API.
    pub fn put(route: &'static str) -> (r: Self)
        ensures
            r.is_fresh(route, RestKind::Put),
    {
        Self::init(RestKind::Put, route)
    }

    /// Creates a new [`Route`] through a REST `POST` API.
    pub fn post(route: &'static str) -> (r: Self)
        ensures
            r.is_fresh(route, RestKind::Post),
    {
        Self::init(RestKind::Post, route)
    }

    /// Creates a new [`Route`] through a REST `DELETE` API.
    pub fn delete(route: &'static str) -> (r: Self)
        ensures
            r.is_fresh(route, RestKind::Delete),
    {
        Self::init(RestKind::Delete, route)
    }

    fn init(rest_kind: RestKind, route: &'static str) -> (r: Self)
        ensures
            r.is_fresh(route, rest_kind),
    {
        Route {
            name: route,
            rest_kind,
            description: None,
            parameters: Parameters::new(),
            hazards: Hazards::new(),
        }
    }
}

impl<const H: usize, const P: usize> Route<H, P> {
    pub closed spec fn spec_name(&self) -> &'static str {
        self.name
    }

    pub closed spec fn spec_kind(&self) -> RestKind {
        self.rest_kind
    }

    pub closed spec fn spec_description(&self) -> Option<&'static str> {
        self.description
    }

    pub closed spec fn spec_hazards(&self) -> Seq<Hazard> {
        self.hazards@
    }

    pub closed spec fn spec_parameters(&self) -> Seq<(&'static str, ParameterKind)> {
        self.parameters@
    }

    /// The shape every value of this type has.
    pub closed spec fn wf(&self) -> bool {
        self.hazards.wf() && self.parameters.wf()
    }

    /// A route just made for `name` and `kind`: no description, no hazards,
    /// no parameters.
    pub open spec fn is_fresh(&self, name: &'static str, kind: RestKind) -> bool {
        &&& self.wf()
        &&& self.spec_name() == name
        &&& self.spec_kind() == kind
        &&& self.spec_description() is None
        &&& self.spec_hazards() == Seq::<Hazard>::empty()
        &&& self.spec_parameters() == Seq::<(&'static str, ParameterKind)>::empty()
    }

    /// Sets the route description.
    pub fn description(self, description: &'static str) -> (r: Self)
        requires
            self.wf(),
        ensures
            r.wf(),
            r.spec_name() == self.spec_name(),
            r.spec_kind() == self.spec_kind(),
            r.spec_description() == Some(description),
            r.spec_hazards() == self.spec_hazards(),
            r.spec_parameters() == self.spec_parameters(),
    {
        let mut route = self;
        route.description = Some(description);
        route
    }

    /// Changes the route name.
    pub fn change_route(self, route: &'static str) -> (r: Self)
        requires
            self.wf(),
        ensures
            r.wf(),
            r.spec_name() == route,
            r.spec_kind() == self.spec_kind(),
            r.spec_description() == self.spec_description(),
            r.spec_hazards() == self.spec_hazards(),
            r.spec_parameters() == self.spec_parameters(),
    {
        let mut this = self;
        this.name = route;
        this
    }

    /// Replaces the route [`Hazards`], and with them the hazards capacity.
    pub fn with_hazards<const H2: usize>(self, hazards: Hazards<H2>) -> (r: Route<H2, P>)
        requires
            self.wf(),
            hazards.wf(),
        ensures
            r.wf(),
            r.spec_name() == self.spec_name(),
            r.spec_kind() == self.spec_kind(),
            r.spec_description() == self.spec_description(),
            r.spec_hazards() == hazards@,
            r.spec_parameters() == self.spec_parameters(),
    {
        Route {
            name: self.name,
            rest_kind: self.rest_kind,
            description: self.description,
            parameters: self.parameters,
            hazards,
        }
    }

    /// Replaces the route [`Parameters`], and with them the parameters
    /// capacity.
    pub fn with_parameters<const P2: usize>(self, parameters: Parameters<P2>) -> (r: Route<H, P2>)
        requires
            self.wf(),
            parameters.wf(),
        ensures
            r.wf(),
            r.spec_name() == self.spec_name(),
            r.spec_kind() == self.spec_kind(),
            r.spec_description() == self.spec_description(),
            r.spec_hazards() == self.spec_hazards(),
            r.spec_parameters() == parameters@,
    {
        Route {
            name: self.name,
            rest_kind: self.rest_kind,
            description: self.description,
            parameters,
            hazards: self.hazards,
        }
    }

    /// Returns the route name.
    pub fn route(&self) -> (r: &'static str)
        ensures
            r == self.spec_name(),
    {
        self.name
    }

    /// Returns the [`RestKind`].
    pub fn kind(&self) -> (r: RestKind)
        ensures
            r == self.spec_kind(),
    {
        self.rest_kind
    }

    /// Returns the [`Hazards`].
    pub fn hazards(&self) -> (r: &Hazards<H>)
        ensures
            r@ == self.spec_hazards(),
    {
        &self.hazards
    }

    /// Returns the [`Parameters`].
    pub fn parameters(&self) -> (r: &Parameters<P>)
        ensures
            r@ == self.spec_parameters(),
    {
        &self.parameters
    }

    /// Finalizes the route into its [`RouteConfig`], consuming it: every
    /// field is kept and the response kind is `Ok`.
    pub fn serialize_data(self) -> (r: RouteConfig<H, P>)
        requires
            self.wf(),
        ensures
            r.data().spec_name() == self.spec_name(),
            r.data().spec_description() == self.spec_description(),
            r.data().spec_hazards() == self.spec_hazards(),
            r.data().spec_parameters() == self.spec_parameters(),
            r.spec_kind() == self.spec_kind(),
            r.spec_response_kind() == ResponseKind::Ok,
    {
        RouteConfig::new(self)
    }
}

/// A collection of [`Route`]s.
pub type Routes<const H: usize, const P: usize, const N: usize> = StorageSet<Route<H, P>, N>;

} // verus!
