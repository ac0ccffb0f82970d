//! The shared connection to the database, as far as the handlers can tell,
//! and the healthcheck that reports it.

use crate::http::{
    Body, BodyView, HttpResponse, HttpResponseView, STATUS_INTERNAL_SERVER_ERROR, STATUS_OK,
};
use vstd::prelude::*;
use vstd::string::*;

verus! {

/// How the task that drives a connection came to its end.
#[derive(Clone, Debug, PartialEq, Eq)]
pub enum DriverExit {
    /// The connection was shut down in good order.
    Finished,
    /// The connection broke; the text says how.
    Failed(String),
}

/// Where the database is, and who asks for it.
#[derive(Clone, Debug, PartialEq, Eq)]
pub struct DbConfig {
    pub host: String,
    pub port: u16,
    pub dbname: String,
    pub user: String,
    pub password: String,
}

/// A configuration as mathematical values.
pub struct DbConfigView {
    pub host: Seq<char>,
    pub port: int,
    pub dbname: Seq<char>,
    pub user: Seq<char>,
    pub password: Seq<char>,
}

impl View for DbConfig {
    type V = DbConfigView;

    open spec fn view(&self) -> DbConfigView {
        DbConfigView {
            host: self.host@,
            port: self.port as int,
            dbname: self.dbname@,
            user: self.user@,
            password: self.password@,
        }
    }
}

/// The database of the service: the `notes` database on this machine.
pub open spec fn notes_database() -> DbConfigView {
    DbConfigView {
        host: "localhost"@,
        port: 5432,
        dbname: "notes"@,
        user: "admin"@,
        password: "admin"@,
    }
}

/// The configuration that the shared connection is opened with.
pub fn db_config() -> (config: DbConfig)
    ensures
        config@ == notes_database(),
{
    DbConfig {
        host: "localhost".to_owned(),
        port: 5432,
        dbname: "notes".to_owned(),
        user: "admin".to_owned(),
        password: "admin".to_owned(),
    }
}

/// Why no connection could be opened.
#[derive(Clone, Debug, PartialEq, Eq)]
pub struct ConnectError {
    pub message: String,
}

/// The handle of the one connection that all handlers share. It is open
/// from the moment the connection is made until its driver comes to an end,
/// and it never opens again.
#[derive(Debug, PartialEq, Eq)]
pub struct Connection {
    open: bool,
}

/// What the end of the driver adds to the diagnostic stream: a line where
/// the connection broke, nothing where it was shut down.
pub open spec fn driver_exit_report(exit: DriverExit) -> Option<Seq<char>> {
    match exit {
        DriverExit::Finished => None,
        DriverExit::Failed(message) => Some("Connection error: "@ + message@),
    }
}

/// The text of a line that may be missing.
pub open spec fn line_view(line: Option<String>) -> Option<Seq<char>> {
    match line {
        Some(text) => Some(text@),
        None => None,
    }
}

/// The reply of the healthcheck: 200 while the connection is open, 500 once
/// it is not, and never a body.
pub open spec fn health_reply(open: bool) -> HttpResponseView {
    HttpResponseView {
        status: if open {
            200
        } else {
            500
        },
        body: BodyView::Empty,
    }
}

/// The line that the end of the shared connection's driver is reported with,
/// if it is reported at all.
pub fn driver_exit_line(exit: &DriverExit) -> (line: Option<String>)
    ensures
        line_view(line) == driver_exit_report(*exit),
{
    match exit {
        DriverExit::Finished => None,
        DriverExit::Failed(message) => {
            let mut line = "Connection error: ".to_owned();
            line.append(message.as_str());
            Some(line)
        },
    }
}

impl Connection {
    /// Whether the transport below the handle is still open.
    pub closed spec fn is_open(&self) -> bool {
        self.open
    }

    /// The handle of a connection that was just made.
    pub fn established() -> (connection: Connection)
        ensures
            connection.is_open(),
    {
        Connection { open: true }
    }

    /// The handle of a connection whose driver has come to an end.
    pub fn closed() -> (connection: Connection)
        ensures
            !connection.is_open(),
    {
        Connection { open: false }
    }

    /// The handle as the transport reports it: closed or not.
    pub fn from_closed(closed: bool) -> (connection: Connection)
        ensures
            connection.is_open() == !closed,
    {
        Connection { open: !closed }
    }

    /// Whether the transport below the handle is still open. This says
    /// nothing of whether the last statement succeeded.
    pub fn is_alive(&self) -> (alive: bool)
        ensures
            alive == self.is_open(),
    {
        self.open
    }

    /// Takes note that the driver has come to an end. The handle is closed
    /// from then on, however the driver ended; the line, if there is one,
    /// belongs on the diagnostic stream.
    pub fn driver_exited(&mut self, exit: &DriverExit) -> (line: Option<String>)
        ensures
            !final(self).is_open(),
            line_view(line) == driver_exit_report(*exit),
    {
        self.open = false;
        driver_exit_line(exit)
    }
}

/// Opens the shared connection to the database of the service. `connect`
/// makes the connection and starts its driver; it hands back the message of
/// the error where it cannot.
pub fn connect_db<F>(connect: F) -> (made: Result<Connection, ConnectError>) where
    F: FnOnce(DbConfig) -> Result<(), String>,

    requires
        forall|config: DbConfig| config@ == notes_database() ==> call_requires(connect, (config,)),
    ensures
        exists|config: DbConfig, outcome: Result<(), String>|
            config@ == notes_database() && call_ensures(connect, (config,), outcome) && match made {
                Ok(connection) => outcome is Ok && connection.is_open(),
                Err(error) => outcome == Err::<(), String>(error.message),
            },
{
    let config = db_config();
    let ghost asked = config;
    let outcome = connect(config);
    let ghost answered = outcome;
    let made = match outcome {
        Ok(_) => Ok(Connection::established()),
        Err(message) => Err(ConnectError { message }),
    };
    assert(asked@ == notes_database() && call_ensures(connect, (asked,), answered) && match made {
        Ok(connection) => answered is Ok && connection.is_open(),
        Err(error) => answered == Err::<(), String>(error.message),
    });
    made
}

/// Answers the healthcheck from the state of the shared connection.
pub fn healthcheck(connection: &Connection) -> (response: HttpResponse)
    ensures
        response@ == health_reply(connection.is_open()),
        response.status == 200 <==> connection.is_open(),
{
    if connection.is_alive() {
        HttpResponse { status: STATUS_OK, body: Body::Empty }
    } else {
        HttpResponse { status: STATUS_INTERNAL_SERVER_ERROR, body: Body::Empty }
    }
}

} // verus!
