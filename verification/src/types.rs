//! The request envelope and the fixed parameter payloads of the wire
//! protocol, each with its exact JSON text.

use vstd::prelude::*;
use vstd::string::StringExecFns;
use crate::json::{append_dec, dec_seq, escape_into, escape_seq};

verus! {

/// A parameter payload that renders itself as a JSON object.
pub trait Params {
    /// The JSON text of this payload.
    spec fn params_text(&self) -> Seq<char>;

    /// Renders the payload; the result is exactly `params_text`.
    fn render(&self) -> (r: String)
        ensures
            r@ == self.params_text(),
    ;
}

/// One request envelope: a protocol version tag, a numeric identifier, a
/// method name, and the method's parameter payload. An instance is built,
/// rendered, written once, and discarded.
pub struct Request<P> {
    pub jsonrpc: String,
    pub id: u16,
    pub method: String,
    pub params: P,
}

/// The wire text of a request envelope with the given parts.
pub open spec fn spec_request_text(
    jsonrpc: Seq<char>,
    id: u16,
    method: Seq<char>,
    params: Seq<char>,
) -> Seq<char> {
    "{\"jsonrpc\":\""@ + escape_seq(jsonrpc) + "\",\"id\":"@ + dec_seq(id as nat)
        + ",\"method\":\""@ + escape_seq(method) + "\",\"params\":"@ + params + "}"@
}

impl<P: Params> Request<P> {
    /// The wire text of this request.
    pub open spec fn text(&self) -> Seq<char> {
        spec_request_text(self.jsonrpc@, self.id, self.method@, self.params.params_text())
    }

    /// Renders the request to its exact wire text.
    pub fn serialize(&self) -> (r: String)
        ensures
            r@ == self.text(),
    {
        let mut out = String::new();
        out.append("{\"jsonrpc\":\"");
        escape_into(&mut out, self.jsonrpc.as_str());
        out.append("\",\"id\":");
        append_dec(&mut out, self.id);
        out.append(",\"method\":\"");
        escape_into(&mut out, self.method.as_str());
        out.append("\",\"params\":");
        let p = self.params.render();
        out.append(p.as_str());
        out.append("}");
        proof {
            assert(out@ =~= self.text());
        }
        out
    }
}

/// Parameters of the authentication request: a grant type and the
/// credential pair.
pub struct AuthParams {
    pub grant_type: String,
    pub client_id: String,
    pub client_secret: String,
}

/// The JSON text of an authentication payload with the given fields.
pub open spec fn spec_auth_params_text(
    grant_type: Seq<char>,
    client_id: Seq<char>,
    client_secret: Seq<char>,
) -> Seq<char> {
    "{\"grant_type\":\""@ + escape_seq(grant_type) + "\",\"client_id\":\""@ + escape_seq(client_id)
        + "\",\"client_secret\":\""@ + escape_seq(client_secret) + "\"}"@
}

impl Params for AuthParams {
    open spec fn params_text(&self) -> Seq<char> {
        spec_auth_params_text(self.grant_type@, self.client_id@, self.client_secret@)
    }

    fn render(&self) -> (r: String) {
        let mut out = String::new();
        out.append("{\"grant_type\":\"");
        escape_into(&mut out, self.grant_type.as_str());
        out.append("\",\"client_id\":\"");
        escape_into(&mut out, self.client_id.as_str());
        out.append("\",\"client_secret\":\"");
        escape_into(&mut out, self.client_secret.as_str());
        out.append("\"}");
        proof {
            assert(out@ =~= self.params_text());
        }
        out
    }
}

/// Parameters of the balance request: whether the portfolio is included.
pub struct BalanceParams {
    pub with_portfolio: bool,
}

/// The JSON text of a balance payload with the given flag.
pub open spec fn spec_balance_params_text(with_portfolio: bool) -> Seq<char> {
    "{\"with_portfolio\":"@ + (if with_portfolio {
        "true"@
    } else {
        "false"@
    }) + "}"@
}

impl Params for BalanceParams {
    open spec fn params_text(&self) -> Seq<char> {
        spec_balance_params_text(self.with_portfolio)
    }

    fn render(&self) -> (r: String) {
        let mut out = String::new();
        out.append("{\"with_portfolio\":");
        if self.with_portfolio {
            out.append("true");
        } else {
            out.append("false");
        }
        out.append("}");
        proof {
            assert(out@ =~= self.params_text());
        }
        out
    }
}

/// Parameters of the order-book summary request: a currency code and an
/// instrument kind.
pub struct BookParams {
    pub currency: String,
    pub kind: String,
}

/// The JSON text of a book-summary payload with the given fields.
pub open spec fn spec_book_params_text(currency: Seq<char>, kind: Seq<char>) -> Seq<char> {
    "{\"currency\":\""@ + escape_seq(currency) + "\",\"kind\":\""@ + escape_seq(kind) + "\"}"@
}

impl Params for BookParams {
    open spec fn params_text(&self) -> Seq<char> {
        spec_book_params_text(self.currency@, self.kind@)
    }

    fn render(&self) -> (r: String) {
        let mut out = String::new();
        out.append("{\"currency\":\"");
        escape_into(&mut out, self.currency.as_str());
        out.append("\",\"kind\":\"");
        escape_into(&mut out, self.kind.as_str());
        out.append("\"}");
        proof {
            assert(out@ =~= self.params_text());
        }
        out
    }
}

} // verus!
