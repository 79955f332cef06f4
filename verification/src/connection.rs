//! The dealer: credential owner and protocol handler for one persistent
//! connection. It renders each typed request to its exact wire text and
//! models the round trip — one write, then one read — as a small state
//! machine that the embedding code drives against the real socket.

use vstd::prelude::*;
use crate::json::{json_of, parse_json};
use crate::types::{
    AuthParams, BalanceParams, BookParams, Params, Request, spec_auth_params_text,
    spec_balance_params_text, spec_book_params_text, spec_request_text,
};

verus! {

/// How a request or its reply can fail; every failure is reported, none
/// terminates the process.
#[derive(Debug)]
pub enum DealerError {
    /// The endpoint URL is malformed or the connection could not be
    /// established.
    ConnectionError(String),
    /// The channel failed while writing the request or reading the reply.
    TransportError(String),
    /// The reply arrived as something other than a text frame.
    ProtocolError,
    /// The reply text is not valid JSON.
    DecodeError,
}

/// What one blocking read of the channel produced.
pub enum FrameEvent {
    /// A text frame with its contents.
    Text(String),
    /// A binary or control frame surfaced to this layer.
    NonText,
    /// The transport failed; the message describes the failure.
    Failed(String),
}

/// How a reply frame is decided: the text of a text frame is parsed as
/// JSON and handed through unmodified; a non-text frame is a protocol
/// error; a transport failure is reported as such.
pub open spec fn spec_interpret_frame(ev: FrameEvent) -> Result<serde_json::Value, DealerError> {
    match ev {
        FrameEvent::Text(s) => match json_of(s@) {
            Some(v) => Ok(v),
            None => Err(DealerError::DecodeError),
        },
        FrameEvent::NonText => Err(DealerError::ProtocolError),
        FrameEvent::Failed(m) => Err(DealerError::TransportError(m)),
    }
}

/// Where a round trip stands: the request text still has to be written,
/// the one reply still has to be read, or the outcome is decided.
pub enum Phase {
    NeedWrite(String),
    NeedRead,
    Done(Result<serde_json::Value, DealerError>),
}

/// One request/response round trip. The machine demands exactly one write
/// of the request text; only a successful write leads to the one read;
/// the first failure, or the decided reply, ends the trip.
pub struct RoundTrip {
    pub state: Phase,
    pub writes: Ghost<nat>,
    pub reads: Ghost<nat>,
}

impl RoundTrip {
    /// The write and read counts fit the phase: nothing is written or
    /// read before the trip starts, the read waits for the one write,
    /// and a finished trip has written and read at most once each.
    pub open spec fn wf(self) -> bool {
        match self.state {
            Phase::NeedWrite(_) => self.writes@ == 0 && self.reads@ == 0,
            Phase::NeedRead => self.writes@ == 1 && self.reads@ == 0,
            Phase::Done(_) => self.writes@ <= 1 && self.reads@ <= 1 && (self.reads@ == 1
                ==> self.writes@ == 1),
        }
    }

    /// Starts a round trip that will write `body`.
    pub fn begin(body: String) -> (rt: RoundTrip)
        ensures
            rt.wf(),
            rt.state == Phase::NeedWrite(body),
            rt.writes@ == 0,
            rt.reads@ == 0,
    {
        RoundTrip { state: Phase::NeedWrite(body), writes: Ghost(0nat), reads: Ghost(0nat) }
    }

    /// Accounts for the one write of the request text. A failed write
    /// ends the trip with a transport error and the reply is never read;
    /// a successful write leads to the one read.
    pub fn on_write_result(&mut self, r: Result<(), String>)
        requires
            old(self).state is NeedWrite,
            old(self).wf(),
        ensures
            final(self).wf(),
            final(self).writes@ == old(self).writes@ + 1,
            final(self).reads@ == old(self).reads@,
            r is Ok ==> final(self).state is NeedRead,
            r matches Err(m) ==> final(self).state == Phase::Done(
                Err(DealerError::TransportError(m)),
            ),
    {
        match r {
            Ok(()) => {
                self.state = Phase::NeedRead;
            },
            Err(m) => {
                self.state = Phase::Done(Err(DealerError::TransportError(m)));
            },
        }
        self.writes = Ghost(self.writes@ + 1);
    }

    /// Accounts for the one read and decides the outcome from the frame,
    /// exactly as `spec_interpret_frame` says.
    pub fn on_frame(&mut self, ev: FrameEvent)
        requires
            old(self).state is NeedRead,
            old(self).wf(),
        ensures
            final(self).wf(),
            final(self).writes@ == old(self).writes@,
            final(self).reads@ == old(self).reads@ + 1,
            final(self).state == Phase::Done(spec_interpret_frame(ev)),
    {
        match ev {
            FrameEvent::Text(s) => {
                match parse_json(s.as_str()) {
                    Ok(v) => {
                        self.state = Phase::Done(Ok(v));
                    },
                    Err(_) => {
                        self.state = Phase::Done(Err(DealerError::DecodeError));
                    },
                }
            },
            FrameEvent::NonText => {
                self.state = Phase::Done(Err(DealerError::ProtocolError));
            },
            FrameEvent::Failed(m) => {
                self.state = Phase::Done(Err(DealerError::TransportError(m)));
            },
        }
        self.reads = Ghost(self.reads@ + 1);
    }
}

/// A round trip writes at most once and reads at most once, and it reads
/// only after the one successful write: the machine demands the write
/// first, then the read, then stops.
pub proof fn lemma_round_trip_discipline(rt: RoundTrip)
    requires
        rt.wf(),
    ensures
        rt.writes@ <= 1,
        rt.reads@ <= 1,
        rt.reads@ == 1 ==> rt.writes@ == 1,
        rt.state is NeedWrite ==> rt.writes@ == 0 && rt.reads@ == 0,
        rt.state is NeedRead ==> rt.writes@ == 1 && rt.reads@ == 0,
{
}

/// The reply alone decides the outcome of a round trip: equal frames give
/// equal results, so repeating a request against a channel that answers
/// the same text yields the same value each time.
pub proof fn lemma_reply_determines_result(e1: FrameEvent, e2: FrameEvent)
    requires
        e1 == e2,
    ensures
        spec_interpret_frame(e1) == spec_interpret_frame(e2),
{
}

/// Whether `url::Url::parse` accepts the given text as a well-formed URL;
/// acceptance depends on the characters alone.
pub uninterp spec fn url_accepts(s: Seq<char>) -> bool;

/// Relies on url::Url::parse: it parses the given text as a URL, its
/// outcome depends on the text alone, and its error describes the
/// failure.
#[verifier::external_body]
fn parse_url_check(s: &str) -> (r: Result<(), String>)
    ensures
        r is Ok <==> url_accepts(s@),
{
    match url::Url::parse(s) {
        Ok(_) => Ok(()),
        Err(e) => Err(e.to_string()),
    }
}

/// The credential pair, bound to the dealer for its lifetime and borrowed
/// read-only when an authentication request is built.
pub struct Creds {
    pub drb_public: String,
    pub drb_private: String,
}

/// The wire text of the authentication request built from the given
/// credential pair.
pub open spec fn spec_auth_text(client_id: Seq<char>, client_secret: Seq<char>) -> Seq<char> {
    spec_request_text(
        "2.0"@,
        9929,
        "public/auth"@,
        spec_auth_params_text("client_credentials"@, client_id, client_secret),
    )
}

/// The wire text of the balance request; one fixed constant.
pub open spec fn spec_balance_text() -> Seq<char> {
    spec_request_text("2.0"@, 4947, "private/get_subaccounts"@, spec_balance_params_text(true))
}

/// The wire text of the options book-summary request; one fixed constant.
pub open spec fn spec_book_text() -> Seq<char> {
    spec_request_text(
        "2.0"@,
        9344,
        "public/get_book_summary_by_currency"@,
        spec_book_params_text("ETH"@, "option"@),
    )
}

/// The protocol handler: holds the endpoint and the credential pair and
/// starts one round trip per operation. The socket that carries the trips
/// is owned by the embedding code, which writes and reads as each trip's
/// phase demands.
pub struct Dealer {
    pub endpoint: String,
    pub creds: Creds,
}

impl Dealer {
    /// Builds a dealer for the given endpoint and credential pair. A
    /// malformed endpoint URL is a reported connection error, never a
    /// crash.
    pub fn new(drb_wss: &str, drb_public: &str, drb_private: &str) -> (r: Result<
        Dealer,
        DealerError,
    >)
        ensures
            r is Ok <==> url_accepts(drb_wss@),
            r matches Ok(d) ==> d.endpoint@ == drb_wss@ && d.creds.drb_public@ == drb_public@
                && d.creds.drb_private@ == drb_private@,
            r matches Err(e) ==> e is ConnectionError,
    {
        match parse_url_check(drb_wss) {
            Ok(()) => Ok(
                Dealer {
                    endpoint: drb_wss.to_owned(),
                    creds: Creds {
                        drb_public: drb_public.to_owned(),
                        drb_private: drb_private.to_owned(),
                    },
                },
            ),
            Err(m) => Err(DealerError::ConnectionError(m)),
        }
    }

    /// Starts the round trip for one request: the trip will write exactly
    /// the request's wire text.
    pub fn raw_request<P: Params>(&self, body: &Request<P>) -> (rt: RoundTrip)
        ensures
            rt.wf(),
            rt.writes@ == 0,
            rt.reads@ == 0,
            rt.state matches Phase::NeedWrite(b) && b@ == body.text(),
    {
        RoundTrip::begin(body.serialize())
    }

    /// Starts the authentication round trip: grant type
    /// `client_credentials`, the stored credential pair, method
    /// `public/auth`, id 9929.
    pub fn authenicate(&self) -> (rt: RoundTrip)
        ensures
            rt.wf(),
            rt.writes@ == 0,
            rt.reads@ == 0,
            rt.state matches Phase::NeedWrite(b) && b@ == spec_auth_text(
                self.creds.drb_public@,
                self.creds.drb_private@,
            ),
    {
        let auth_params = AuthParams {
            grant_type: "client_credentials".to_owned(),
            client_id: self.creds.drb_public.clone(),
            client_secret: self.creds.drb_private.clone(),
        };
        let auth = Request {
            jsonrpc: "2.0".to_owned(),
            id: 9929,
            method: "public/auth".to_owned(),
            params: auth_params,
        };
        self.raw_request(&auth)
    }

    /// Starts the balance round trip: `with_portfolio = true`, method
    /// `private/get_subaccounts`, id 4947. Its text is one fixed
    /// constant, whatever the stored credentials.
    pub fn get_balance(&self) -> (rt: RoundTrip)
        ensures
            rt.wf(),
            rt.writes@ == 0,
            rt.reads@ == 0,
            rt.state matches Phase::NeedWrite(b) && b@ == spec_balance_text(),
    {
        let balance_params = BalanceParams { with_portfolio: true };
        let balance = Request {
            jsonrpc: "2.0".to_owned(),
            id: 4947,
            method: "private/get_subaccounts".to_owned(),
            params: balance_params,
        };
        self.raw_request(&balance)
    }

    /// Starts the options book-summary round trip: currency `ETH`, kind
    /// `option`, method `public/get_book_summary_by_currency`, id 9344.
    /// Its text is one fixed constant.
    pub fn get_options_book(&self) -> (rt: RoundTrip)
        ensures
            rt.wf(),
            rt.writes@ == 0,
            rt.reads@ == 0,
            rt.state matches Phase::NeedWrite(b) && b@ == spec_book_text(),
    {
        let book_params = BookParams { currency: "ETH".to_owned(), kind: "option".to_owned() };
        let book = Request {
            jsonrpc: "2.0".to_owned(),
            id: 9344,
            method: "public/get_book_summary_by_currency".to_owned(),
            params: book_params,
        };
        self.raw_request(&book)
    }
}

} // verus!
