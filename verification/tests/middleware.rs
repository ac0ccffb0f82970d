use notes_service::connection::{healthcheck, Connection};
use notes_service::http::{Body, HttpError, HttpResponse};
use notes_service::listing::db_error_handler;
use notes_service::middleware::{
    error_line, fn_service, LoggingMiddleware, Readiness, Service,
};

type Answer = Result<HttpResponse, HttpError>;

/// Answers the path `/ok` with a page and fails on everything else.
fn handler(path: String) -> Answer {
    if path == "/ok" {
        Ok(HttpResponse { status: 200, body: Body::Notes(Vec::new()) })
    } else {
        Err(db_error_handler(format!("no such path: {}", path)))
    }
}

#[test]
fn wrapper_hands_a_response_back_as_it_is() {
    let mut bare = fn_service(handler);
    let mut wrapped = LoggingMiddleware.new_transform(fn_service(handler)).unwrap();
    let expected = bare.call("/ok".to_string());
    let answer = wrapped.call("/ok".to_string());
    assert_eq!(answer, expected);
    assert_eq!(answer, Ok(HttpResponse { status: 200, body: Body::Notes(Vec::new()) }));
    assert_eq!(wrapped.take_diagnostics(), Vec::<String>::new());
}

#[test]
fn wrapper_hands_a_failure_back_as_it_is() {
    let mut bare = fn_service(handler);
    let mut wrapped = LoggingMiddleware.new_transform(fn_service(handler)).unwrap();
    let expected = bare.call("/missing".to_string());
    let answer = wrapped.call("/missing".to_string());
    assert_eq!(answer, expected);
    let error = answer.unwrap_err();
    assert_eq!(error.response.status, 500);
    assert_eq!(
        error.response.body,
        Body::Failure { error: "no such path: /missing".to_string() }
    );
}

#[test]
fn wrapper_reports_a_failure_once() {
    let mut wrapped = LoggingMiddleware.new_transform(fn_service(handler)).unwrap();
    assert!(wrapped.call("/missing".to_string()).is_err());
    assert_eq!(wrapped.take_diagnostics(), vec!["Error: Internal Server Error".to_string()]);
    assert_eq!(wrapped.take_diagnostics(), Vec::<String>::new());
}

#[test]
fn wrapper_reports_failures_oldest_first() {
    let inner = fn_service(|cause: String| -> Answer {
        Err(HttpError { cause, response: HttpResponse { status: 500, body: Body::Empty } })
    });
    let mut wrapped = LoggingMiddleware.new_transform(inner).unwrap();
    assert!(wrapped.call("first".to_string()).is_err());
    assert!(wrapped.call("second".to_string()).is_err());
    assert_eq!(
        wrapped.take_diagnostics(),
        vec!["Error: first".to_string(), "Error: second".to_string()]
    );
}

#[test]
fn wrapper_reports_nothing_of_an_error_reply_that_is_no_failure() {
    let connection = Connection::closed();
    let inner = fn_service(|_request: ()| -> Answer { Ok(healthcheck(&connection)) });
    let mut wrapped = LoggingMiddleware.new_transform(inner).unwrap();
    let answer = wrapped.call(());
    assert_eq!(answer, Ok(HttpResponse { status: 500, body: Body::Empty }));
    assert_eq!(wrapped.take_diagnostics(), Vec::<String>::new());
}

#[test]
fn wrappers_nest() {
    let once = LoggingMiddleware.new_transform(fn_service(handler)).unwrap();
    let twice = LoggingMiddleware.new_transform(once).unwrap();
    let mut thrice = LoggingMiddleware.new_transform(twice).unwrap();
    let mut bare = fn_service(handler);
    assert_eq!(thrice.call("/ok".to_string()), bare.call("/ok".to_string()));
    assert_eq!(thrice.call("/missing".to_string()), bare.call("/missing".to_string()));
    assert_eq!(thrice.take_diagnostics(), vec!["Error: Internal Server Error".to_string()]);
}

#[test]
fn wrapper_is_ready_when_the_service_inside_is() {
    let mut bare = fn_service(handler);
    assert_eq!(bare.poll_ready(), Readiness::Ready);
    let once = LoggingMiddleware.new_transform(fn_service(handler)).unwrap();
    let mut twice = LoggingMiddleware.new_transform(once).unwrap();
    assert_eq!(twice.poll_ready(), Readiness::Ready);
    assert_eq!(twice.take_diagnostics(), Vec::<String>::new());
}

#[test]
fn wrapper_keeps_the_service_it_was_given() {
    let wrapped = LoggingMiddleware.new_transform(41u8).unwrap();
    assert_eq!(*wrapped.get_ref(), 41u8);
}

#[test]
fn error_line_names_the_cause() {
    assert_eq!(error_line("Internal Server Error"), "Error: Internal Server Error");
    assert_eq!(error_line(""), "Error: ");
    assert_eq!(error_line("\"quoted\""), "Error: \"quoted\"");
}

/// A service that says of its readiness what it was told to say, one answer
/// for each time it is asked.
struct Scripted {
    readiness: Vec<Readiness>,
}

impl Service for Scripted {
    type Request = ();

    fn accepts(&self, _request: ()) -> bool {
        true
    }

    fn answers(&self, _request: (), _after: Self, answer: Answer) -> bool {
        answer.is_ok()
    }

    fn reports(&self, _after: Self, readiness: Readiness) -> bool {
        self.readiness.first() == Some(&readiness)
    }

    fn poll_ready(&mut self) -> Readiness {
        self.readiness.remove(0)
    }

    fn call(&mut self, _request: ()) -> Answer {
        Ok(HttpResponse { status: 200, body: Body::Empty })
    }
}

#[test]
fn wrapper_says_of_readiness_what_the_service_inside_says() {
    let failure = HttpError {
        cause: "overloaded".to_string(),
        response: HttpResponse { status: 500, body: Body::Empty },
    };
    let script = vec![Readiness::Pending, Readiness::Ready, Readiness::Failed(failure.clone())];
    let once = LoggingMiddleware.new_transform(Scripted { readiness: script }).unwrap();
    let mut twice = LoggingMiddleware.new_transform(once).unwrap();
    assert_eq!(twice.poll_ready(), Readiness::Pending);
    assert_eq!(twice.poll_ready(), Readiness::Ready);
    assert_eq!(twice.poll_ready(), Readiness::Failed(failure));
    assert_eq!(twice.take_diagnostics(), Vec::<String>::new());
}
