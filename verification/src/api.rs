//! The HTTP surface: the routes the server offers, and the status a request
//! is answered with.
//!
//! A body that is no admission review is answered with 422 before anything
//! else is looked at; a review for an identifier that resolves to nothing is
//! answered with 404; every other review is evaluated and answered with 200,
//! also where the evaluation failed: the failure is then inside the response.

use crate::admission::text_of;
use crate::admission::AdmissionResponse;
use crate::environment::EvaluationEnvironment;
use crate::environment::Plan;
use crate::environment::PlanView;
use crate::policy::EntryPoint;
use crate::policy::ReviewRequest;
use vstd::prelude::*;

verus! {

/// The method of a route.
#[derive(Clone, Copy, Debug, PartialEq, Eq, Structural)]
pub enum Method {
    Get,
    Post,
}

/// What serves a route.
#[derive(Clone, Copy, Debug, PartialEq, Eq, Structural)]
pub enum Handler {
    Audit,
    Validate,
    ValidateRaw,
    PprofCpu,
    PprofHeap,
    Readiness,
}

/// One route of a router.
#[derive(Clone, Copy, Debug, PartialEq, Eq)]
pub struct Route {
    pub method: Method,
    pub path: &'static str,
    pub handler: Handler,
}

/// How a request was answered.
#[derive(Clone, Debug, PartialEq, Eq)]
pub enum Reply {
    /// The identifier resolves to nothing.
    NotFound,
    /// The body is no admission review.
    Unprocessable,
    /// The review was evaluated.
    Review(AdmissionResponse),
}

/// What the body of a request holds, as far as the server reads it.
#[derive(Clone, Debug, PartialEq, Eq)]
pub struct ReviewFields {
    /// Whether the body is an object with a `request`.
    pub has_request: bool,
    /// Whether that `request` is an object itself.
    pub request_is_object: bool,
    /// The `uid` of the request, where it has one that is a string.
    pub uid: Option<String>,
    /// The `namespace` of the request, where it has one that is a string.
    pub namespace: Option<String>,
}

/// What to do with a request.
#[derive(Debug, PartialEq, Eq)]
pub enum Admission {
    /// Answer at once: the identifier resolves to nothing.
    NotFound,
    /// Answer at once: the body is no admission review.
    Unprocessable,
    /// Carry out the plan and answer with the response it leads to.
    Evaluate(Plan),
}

pub const AUDIT_PATH: &'static str = "/audit/{policy_id}";

pub const VALIDATE_PATH: &'static str = "/validate/{policy_id}";

pub const VALIDATE_RAW_PATH: &'static str = "/validate_raw/{policy_id}";

pub const PPROF_CPU_PATH: &'static str = "/debug/pprof/cpu";

pub const PPROF_HEAP_PATH: &'static str = "/debug/pprof/heap";

pub const READINESS_PATH: &'static str = "/readiness";

pub const STATUS_OK: u16 = 200;

pub const STATUS_NOT_FOUND: u16 = 404;

pub const STATUS_UNPROCESSABLE_ENTITY: u16 = 422;

/// The mathematical content of [`Admission`].
pub enum AdmissionView {
    NotFound,
    Unprocessable,
    Evaluate(PlanView),
}

impl View for Admission {
    type V = AdmissionView;

    open spec fn view(&self) -> AdmissionView {
        match self {
            Admission::NotFound => AdmissionView::NotFound,
            Admission::Unprocessable => AdmissionView::Unprocessable,
            Admission::Evaluate(plan) => AdmissionView::Evaluate(plan@),
        }
    }
}

impl Handler {
    /// The entry point a handler invokes, for the handlers that evaluate.
    pub open spec fn spec_entry_point(self) -> Option<EntryPoint> {
        match self {
            Handler::Audit => Some(EntryPoint::Audit),
            Handler::Validate => Some(EntryPoint::Validate),
            Handler::ValidateRaw => Some(EntryPoint::ValidateRaw),
            _ => None,
        }
    }

    /// The entry point a handler invokes, for the handlers that evaluate.
    pub fn entry_point(self) -> (entry_point: Option<EntryPoint>)
        ensures
            entry_point == self.spec_entry_point(),
    {
        match self {
            Handler::Audit => Some(EntryPoint::Audit),
            Handler::Validate => Some(EntryPoint::Validate),
            Handler::ValidateRaw => Some(EntryPoint::ValidateRaw),
            _ => None,
        }
    }
}

/// The three evaluation routes.
pub open spec fn evaluation_routes() -> Seq<Route> {
    seq![
        Route { method: Method::Post, path: AUDIT_PATH, handler: Handler::Audit },
        Route { method: Method::Post, path: VALIDATE_PATH, handler: Handler::Validate },
        Route { method: Method::Post, path: VALIDATE_RAW_PATH, handler: Handler::ValidateRaw },
    ]
}

/// The two profiling routes.
pub open spec fn profiling_routes() -> Seq<Route> {
    seq![
        Route { method: Method::Get, path: PPROF_CPU_PATH, handler: Handler::PprofCpu },
        Route { method: Method::Get, path: PPROF_HEAP_PATH, handler: Handler::PprofHeap },
    ]
}

/// The routes of the main listener: the evaluation routes, followed by the
/// profiling routes where profiling is enabled.
pub open spec fn main_routes(enable_pprof: bool) -> Seq<Route> {
    if enable_pprof {
        evaluation_routes() + profiling_routes()
    } else {
        evaluation_routes()
    }
}

/// The routes of the main listener.
pub fn api_routes(enable_pprof: bool) -> (routes: Vec<Route>)
    ensures
        routes@ == main_routes(enable_pprof),
{
    let mut routes: Vec<Route> = Vec::new();
    routes.push(Route { method: Method::Post, path: AUDIT_PATH, handler: Handler::Audit });
    routes.push(Route { method: Method::Post, path: VALIDATE_PATH, handler: Handler::Validate });
    routes.push(
        Route { method: Method::Post, path: VALIDATE_RAW_PATH, handler: Handler::ValidateRaw },
    );
    if enable_pprof {
        routes.push(Route { method: Method::Get, path: PPROF_CPU_PATH, handler: Handler::PprofCpu });
        routes.push(
            Route { method: Method::Get, path: PPROF_HEAP_PATH, handler: Handler::PprofHeap },
        );
    }
    assert(routes@ =~= main_routes(enable_pprof));
    routes
}

/// The routes of the readiness listener: the readiness probe and nothing else.
pub fn readiness_routes() -> (routes: Vec<Route>)
    ensures
        routes@ == seq![
            Route { method: Method::Get, path: READINESS_PATH, handler: Handler::Readiness },
        ],
{
    let mut routes: Vec<Route> = Vec::new();
    routes.push(Route { method: Method::Get, path: READINESS_PATH, handler: Handler::Readiness });
    assert(routes@ =~= seq![
        Route { method: Method::Get, path: READINESS_PATH, handler: Handler::Readiness },
    ]);
    routes
}

impl Reply {
    /// The HTTP status of a reply.
    pub open spec fn spec_status(self) -> u16 {
        match self {
            Reply::NotFound => STATUS_NOT_FOUND,
            Reply::Unprocessable => STATUS_UNPROCESSABLE_ENTITY,
            Reply::Review(_) => STATUS_OK,
        }
    }

    /// The HTTP status of a reply.
    pub fn status(&self) -> (status: u16)
        ensures
            status == self.spec_status(),
    {
        match self {
            Reply::NotFound => STATUS_NOT_FOUND,
            Reply::Unprocessable => STATUS_UNPROCESSABLE_ENTITY,
            Reply::Review(_) => STATUS_OK,
        }
    }
}

/// The review a body holds, if it holds one, as the identifier and the
/// namespace of the request. An admission review has a `request` that is an
/// object with a `uid`. A raw review has a `request` of any shape; where that
/// has no `uid`, the review has the empty one.
pub open spec fn review_in(entry_point: EntryPoint, fields: ReviewFields) -> Option<
    (Seq<char>, Option<Seq<char>>),
> {
    if !fields.has_request {
        None
    } else if entry_point == EntryPoint::ValidateRaw {
        Some(
            (
                match fields.uid {
                    Some(uid) => uid@,
                    None => Seq::empty(),
                },
                text_of(fields.namespace),
            ),
        )
    } else if fields.request_is_object && fields.uid is Some {
        Some((fields.uid->Some_0@, text_of(fields.namespace)))
    } else {
        None
    }
}

/// Reads the review out of what the body of a request holds.
pub fn read_review(entry_point: EntryPoint, fields: ReviewFields) -> (review: Option<ReviewRequest>)
    ensures
        review_in(entry_point, fields) == match review {
            Some(found) => Some((found.uid@, text_of(found.namespace))),
            None => None,
        },
{
    if !fields.has_request {
        return None;
    }
    let ReviewFields { has_request: _, request_is_object, uid, namespace } = fields;
    match entry_point {
        EntryPoint::ValidateRaw => Some(
            ReviewRequest {
                uid: match uid {
                    Some(uid) => uid,
                    None => String::new(),
                },
                namespace,
            },
        ),
        _ => {
            if !request_is_object {
                return None;
            }
            match uid {
                Some(uid) => Some(ReviewRequest { uid, namespace }),
                None => None,
            }
        },
    }
}

/// What becomes of a request to `id`: `review` is what the body held, absent
/// where the body is no admission review.
pub open spec fn admitted(
    environment: EvaluationEnvironment,
    entry_point: EntryPoint,
    id: Seq<char>,
    review: Option<ReviewRequest>,
) -> AdmissionView {
    match review {
        None => AdmissionView::Unprocessable,
        Some(request) => match environment.planned(id, entry_point, request) {
            PlanView::NotFound => AdmissionView::NotFound,
            plan => AdmissionView::Evaluate(plan),
        },
    }
}

/// The HTTP status a request is answered with.
pub open spec fn status_of(admission: AdmissionView) -> u16 {
    match admission {
        AdmissionView::NotFound => STATUS_NOT_FOUND,
        AdmissionView::Unprocessable => STATUS_UNPROCESSABLE_ENTITY,
        AdmissionView::Evaluate(_) => STATUS_OK,
    }
}

/// Decides what becomes of a request.
pub fn receive(
    environment: &EvaluationEnvironment,
    entry_point: EntryPoint,
    id: &String,
    review: Option<&ReviewRequest>,
) -> (admission: Admission)
    ensures
        admission@ == admitted(
            *environment,
            entry_point,
            id@,
            match review {
                Some(request) => Some(*request),
                None => None,
            },
        ),
{
    match review {
        None => Admission::Unprocessable,
        Some(request) => match environment.plan(id, entry_point, request) {
            Plan::NotFound => Admission::NotFound,
            plan => Admission::Evaluate(plan),
        },
    }
}

impl Admission {
    /// The reply to a request that is not evaluated.
    pub fn refusal(&self) -> (reply: Option<Reply>)
        ensures
            match reply {
                Some(reply) => !(self is Evaluate) && !(reply is Review) && reply.spec_status()
                    == status_of(self@),
                None => self is Evaluate,
            },
    {
        match self {
            Admission::NotFound => Some(Reply::NotFound),
            Admission::Unprocessable => Some(Reply::Unprocessable),
            Admission::Evaluate(_) => None,
        }
    }
}

/// A review for an identifier that resolves to nothing is answered with
/// status 404, whatever the review holds and whichever route it came by.
pub proof fn law_unknown_policy_is_404(
    environment: EvaluationEnvironment,
    entry_point: EntryPoint,
    id: Seq<char>,
    request: ReviewRequest,
)
    requires
        !environment.knows(id),
    ensures
        admitted(environment, entry_point, id, Some(request)) is NotFound,
        status_of(admitted(environment, entry_point, id, Some(request))) == 404,
{
    environment.ids().index_of_first_ensures(id);
}

/// A review for an identifier that resolves to an entry is evaluated and
/// answered with status 200.
pub proof fn law_known_policy_is_200(
    environment: EvaluationEnvironment,
    entry_point: EntryPoint,
    id: Seq<char>,
    request: ReviewRequest,
)
    requires
        environment.knows(id),
    ensures
        admitted(environment, entry_point, id, Some(request)) is Evaluate,
        status_of(admitted(environment, entry_point, id, Some(request))) == 200,
{
    environment.ids().index_of_first_ensures(id);
}

/// A body that is no admission review is answered with status 422, whether
/// or not the identifier resolves.
pub proof fn law_malformed_body_is_422(
    environment: EvaluationEnvironment,
    entry_point: EntryPoint,
    id: Seq<char>,
)
    ensures
        status_of(admitted(environment, entry_point, id, None)) == 422,
{
}

} // verus!
