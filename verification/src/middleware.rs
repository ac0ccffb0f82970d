//! Services, and the wrapper that reports their failures.
//!
//! A service answers requests. A wrapper is a service built around another
//! one: it gets the request first and the answer last. Wrappers nest to any
//! depth around the handler in the middle.

use crate::http::{HttpError, HttpResponse};
use vstd::prelude::*;
use vstd::string::*;

verus! {

/// Whether a service can take a request now.
#[derive(Clone, Debug, PartialEq, Eq)]
pub enum Readiness {
    /// Not yet: ask again later.
    Pending,
    /// A request may be sent.
    Ready,
    /// The service has failed and takes no more requests.
    Failed(HttpError),
}

/// Something that answers requests, one at a time.
pub trait Service: Sized {
    /// What the service is asked with.
    type Request;

    /// The requests that the service may be given in this state.
    spec fn accepts(&self, request: Self::Request) -> bool;

    /// The answers that the service may give to `request` in this state,
    /// each with the state that it is left in.
    spec fn answers(
        &self,
        request: Self::Request,
        after: Self,
        answer: Result<HttpResponse, HttpError>,
    ) -> bool;

    /// What the service may say of its readiness in this state, each with
    /// the state that it is left in.
    spec fn reports(&self, after: Self, readiness: Readiness) -> bool;

    /// Asks whether a request may be sent.
    fn poll_ready(&mut self) -> (readiness: Readiness)
        ensures
            old(self).reports(*final(self), readiness),
    ;

    /// Answers one request.
    fn call(&mut self, request: Self::Request) -> (answer: Result<HttpResponse, HttpError>)
        requires
            old(self).accepts(request),
        ensures
            old(self).answers(request, *final(self), answer),
    ;
}

/// The line that reports a failure with this cause.
pub open spec fn diagnostic_line(cause: Seq<char>) -> Seq<char> {
    "Error: "@ + cause
}

/// The lines that one answer adds to the diagnostic stream: one for a
/// failure, none for a response.
pub open spec fn diagnostics_of(answer: Result<HttpResponse, HttpError>) -> Seq<Seq<char>> {
    match answer {
        Ok(_) => Seq::empty(),
        Err(error) => seq![diagnostic_line(error.cause@)],
    }
}

/// The texts of a run of lines.
pub open spec fn lines_view(lines: Seq<String>) -> Seq<Seq<char>> {
    lines.map_values(|line: String| line@)
}

/// The line that reports a failure with this cause.
pub fn error_line(cause: &str) -> (line: String)
    ensures
        line@ == diagnostic_line(cause@),
{
    let mut line = "Error: ".to_owned();
    line.append(cause);
    line
}

/// Makes the wrapper that reports failures.
#[derive(Clone, Copy, Debug)]
pub struct LoggingMiddleware;

/// A service that hands every request to the one inside it and hands the
/// answer back as it is. Of a failure it keeps one line for the diagnostic
/// stream.
#[derive(Debug)]
pub struct LoggingMiddlewareService<S> {
    service: S,
    diagnostics: Vec<String>,
}

impl LoggingMiddleware {
    /// Wraps `service`. Nothing has been reported yet.
    pub fn new_transform<S>(&self, service: S) -> (made: Result<LoggingMiddlewareService<S>, ()>)
        ensures
            made matches Ok(wrapped) && wrapped.inner() == service
                && wrapped.pending_diagnostics() == Seq::<Seq<char>>::empty(),
    {
        let wrapped = LoggingMiddlewareService { service, diagnostics: Vec::new() };
        assert(wrapped.pending_diagnostics() =~= Seq::<Seq<char>>::empty());
        Ok(wrapped)
    }
}

impl<S> LoggingMiddlewareService<S> {
    /// The service inside.
    pub closed spec fn inner(&self) -> S {
        self.service
    }

    /// The lines that wait to be written to the diagnostic stream, oldest
    /// first.
    pub closed spec fn pending_diagnostics(&self) -> Seq<Seq<char>> {
        lines_view(self.diagnostics@)
    }

    /// The service inside.
    pub fn get_ref(&self) -> (service: &S)
        ensures
            *service == self.inner(),
    {
        &self.service
    }

    /// Hands out the lines that wait to be written, oldest first, and
    /// keeps none.
    pub fn take_diagnostics(&mut self) -> (lines: Vec<String>)
        ensures
            lines_view(lines@) == old(self).pending_diagnostics(),
            lines@.len() == old(self).pending_diagnostics().len(),
            final(self).pending_diagnostics() == Seq::<Seq<char>>::empty(),
            final(self).inner() == old(self).inner(),
    {
        let mut lines: Vec<String> = Vec::new();
        std::mem::swap(&mut lines, &mut self.diagnostics);
        assert(self.pending_diagnostics() =~= Seq::<Seq<char>>::empty());
        lines
    }
}

impl<S: Service> Service for LoggingMiddlewareService<S> {
    type Request = S::Request;

    open spec fn accepts(&self, request: Self::Request) -> bool {
        self.inner().accepts(request)
    }

    open spec fn answers(
        &self,
        request: Self::Request,
        after: Self,
        answer: Result<HttpResponse, HttpError>,
    ) -> bool {
        &&& self.inner().answers(request, after.inner(), answer)
        &&& after.pending_diagnostics() == self.pending_diagnostics() + diagnostics_of(answer)
    }

    open spec fn reports(&self, after: Self, readiness: Readiness) -> bool {
        &&& self.inner().reports(after.inner(), readiness)
        &&& after.pending_diagnostics() == self.pending_diagnostics()
    }

    /// Asks the service inside, and says what it said.
    fn poll_ready(&mut self) -> (readiness: Readiness)
        ensures
            old(self).inner().reports(final(self).inner(), readiness),
            final(self).pending_diagnostics() == old(self).pending_diagnostics(),
    {
        self.service.poll_ready()
    }

    /// Hands the request to the service inside and its answer back. A
    /// failure is reported on the diagnostic stream on the way.
    fn call(&mut self, request: Self::Request) -> (answer: Result<HttpResponse, HttpError>)
        ensures
            old(self).inner().answers(request, final(self).inner(), answer),
            final(self).pending_diagnostics() == old(self).pending_diagnostics() + diagnostics_of(
                answer,
            ),
    {
        let answer = self.service.call(request);
        if let Err(error) = &answer {
            self.diagnostics.push(error_line(error.cause.as_str()));
        }
        assert(self.pending_diagnostics() =~= old(self).pending_diagnostics() + diagnostics_of(
            answer,
        ));
        answer
    }
}

/// A handler made from a function: the service in the middle of a chain. It
/// is always ready, and it answers as the function does.
pub struct FnService<Req, F> {
    handler: F,
    request: core::marker::PhantomData<Req>,
}

/// Makes a service from the function that answers its requests.
pub fn fn_service<Req, F>(handler: F) -> (service: FnService<Req, F>) where
    F: Fn(Req) -> Result<HttpResponse, HttpError>,

    ensures
        service.handler() == handler,
{
    FnService { handler, request: core::marker::PhantomData }
}

impl<Req, F> FnService<Req, F> {
    /// The function that answers the requests.
    pub closed spec fn handler(&self) -> F {
        self.handler
    }
}

/// A service made from a function takes what the function takes, answers
/// what the function answers, and is always ready.
pub proof fn lemma_fn_service<Req, F>(service: FnService<Req, F>) where
    F: Fn(Req) -> Result<HttpResponse, HttpError>,

    ensures
        forall|request: Req| #[trigger]
            service.accepts(request) == call_requires(service.handler(), (request,)),
        forall|request: Req, after: FnService<Req, F>, answer: Result<HttpResponse, HttpError>| #[trigger]
            service.answers(request, after, answer) == (call_ensures(
                service.handler(),
                (request,),
                answer,
            ) && after.handler() == service.handler()),
        forall|after: FnService<Req, F>, readiness: Readiness| #[trigger]
            service.reports(after, readiness) == (readiness is Ready && after.handler()
                == service.handler()),
{
}

impl<Req, F> Service for FnService<Req, F> where F: Fn(Req) -> Result<HttpResponse, HttpError> {
    type Request = Req;

    open spec fn accepts(&self, request: Req) -> bool {
        call_requires(self.handler(), (request,))
    }

    open spec fn answers(
        &self,
        request: Req,
        after: Self,
        answer: Result<HttpResponse, HttpError>,
    ) -> bool {
        &&& call_ensures(self.handler(), (request,), answer)
        &&& after.handler() == self.handler()
    }

    open spec fn reports(&self, after: Self, readiness: Readiness) -> bool {
        &&& readiness is Ready
        &&& after.handler() == self.handler()
    }

    /// A function can always be called.
    fn poll_ready(&mut self) -> (readiness: Readiness)
        ensures
            readiness is Ready,
            final(self).handler() == old(self).handler(),
    {
        Readiness::Ready
    }

    /// Calls the function.
    fn call(&mut self, request: Req) -> (answer: Result<HttpResponse, HttpError>)
        ensures
            call_ensures(old(self).handler(), (request,), answer),
            final(self).handler() == old(self).handler(),
    {
        (self.handler)(request)
    }
}

/// Whatever the wrapper answers, the service inside it gave: the wrapper
/// changes neither the response nor the failure, and only a failure adds a
/// line to the diagnostic stream.
pub proof fn law_wrapper_forwards_answers<S: Service>(
    wrapped: LoggingMiddlewareService<S>,
    request: S::Request,
    after: LoggingMiddlewareService<S>,
    answer: Result<HttpResponse, HttpError>,
)
    requires
        wrapped.answers(request, after, answer),
    ensures
        wrapped.inner().answers(request, after.inner(), answer),
        answer is Ok ==> after.pending_diagnostics() == wrapped.pending_diagnostics(),
        answer matches Err(error) ==> after.pending_diagnostics()
            == wrapped.pending_diagnostics().push(diagnostic_line(error.cause@)),
{
    match answer {
        Ok(_) => {
            assert(wrapped.pending_diagnostics() + diagnostics_of(answer)
                =~= wrapped.pending_diagnostics());
        },
        Err(error) => {
            assert(wrapped.pending_diagnostics() + diagnostics_of(answer)
                =~= wrapped.pending_diagnostics().push(diagnostic_line(error.cause@)));
        },
    }
}

/// The wrapper takes the requests that the service inside it takes, and no
/// others.
pub proof fn law_wrapper_accepts_the_same<S: Service>(
    wrapped: LoggingMiddlewareService<S>,
    request: S::Request,
)
    ensures
        wrapped.accepts(request) == wrapped.inner().accepts(request),
{
}

/// The wrapper is ready when the service inside it is: what it says of its
/// readiness is what the service inside said, and the diagnostic stream
/// stays as it was.
pub proof fn law_wrapper_forwards_readiness<S: Service>(
    wrapped: LoggingMiddlewareService<S>,
    after: LoggingMiddlewareService<S>,
    readiness: Readiness,
)
    requires
        wrapped.reports(after, readiness),
    ensures
        wrapped.inner().reports(after.inner(), readiness),
        after.pending_diagnostics() == wrapped.pending_diagnostics(),
{
}

} // verus!
