//! A typed client for a vehicle-catalog HTTP API.
//!
//! The crate has three parts: a typed data model for makes, models,
//! years, styles and their sub-entities, decoded from JSON with explicit
//! field-presence rules (`models`, `codec`, `json`); a deterministic
//! in-memory fake transport for exercising the client without a network
//! (`mock`, `transport`); and the client itself, which composes request
//! URLs, sends one GET per query over whatever connector it was given,
//! and decodes the response body.

pub mod transport;
pub mod mock;
pub mod json;
pub mod digits;
pub mod models;
pub mod codec;

use vstd::prelude::*;
use vstd::string::StringExecFns;

use crate::codec::{
    decode_equipment_response, decode_makes_response, decode_models_response,
    decode_styles_response, equipment_env_can, equipment_env_matches, makes_env_can,
    makes_env_matches, models_env_can, models_env_matches, styles_env_can, styles_env_matches,
};
use crate::digits::{dec_rep, u64_to_dec};
use crate::json::{parsed_json, DecodeError, JsonV};
use crate::models::{Equipment, Make, Model, State, Style};
use crate::transport::{Connector, Transport, TransportError};

verus! {

/// Why one call failed: the transport broke, or the server's answer
/// could not be understood. Never both masked into one; never retried.
#[derive(Debug)]
pub enum ApiError {
    Transport(TransportError),
    Decode(DecodeError),
}

/// The scheme of every catalog request.
pub const API_SCHEME: &'static str = "https";

/// The host of every catalog request.
pub const API_HOST: &'static str = "api.edmunds.com";

/// The lowercase query-parameter name of a market-status filter.
pub open spec fn state_name(s: State) -> Seq<char> {
    match s {
        State::New => "new"@,
        State::Used => "used"@,
        State::Future => "future"@,
    }
}

/// The lowercase form of a market-status filter, as the query string
/// carries it.
pub fn state_param(s: State) -> (r: &'static str)
    ensures
        r@ == state_name(s),
{
    match s {
        State::New => "new",
        State::Used => "used",
        State::Future => "future",
    }
}

/// The path-and-query of one request: endpoint, the fixed format and
/// key parameters, then the query-specific parameters.
pub open spec fn spec_target(endpoint: Seq<char>, api_key: Seq<char>, params: Seq<char>) -> Seq<
    char,
> {
    endpoint + "?fmt=json&api_key="@ + api_key + "&"@ + params
}

/// Build the path-and-query of one request.
pub fn build_target(endpoint: &str, api_key: &str, params: &str) -> (r: String)
    ensures
        r@ == spec_target(endpoint@, api_key@, params@),
{
    let mut s = String::new();
    s.append(endpoint);
    s.append("?fmt=json&api_key=");
    s.append(api_key);
    s.append("&");
    s.append(params);
    s
}

/// The bytes of one GET request: the target, the host, and a
/// connection-close hint.
pub open spec fn spec_request(target: Seq<char>, host: Seq<char>) -> Seq<char> {
    "GET "@ + target + " HTTP/1.1\r\nHost: "@ + host + "\r\nConnection: close\r\n\r\n"@
}

/// Build the text of one GET request with a connection-close hint.
pub fn build_request(target: &str, host: &str) -> (r: String)
    ensures
        r@ == spec_request(target@, host@),
{
    let mut s = String::new();
    s.append("GET ");
    s.append(target);
    s.append(" HTTP/1.1\r\nHost: ");
    s.append(host);
    s.append("\r\nConnection: close\r\n\r\n");
    s
}

/// The models endpoint of one make.
pub open spec fn spec_models_endpoint(make: Seq<char>) -> Seq<char> {
    "/api/vehicle/v2/"@ + make + "/models"@
}

/// Build the models endpoint of one make.
pub fn models_endpoint(make: &str) -> (r: String)
    ensures
        r@ == spec_models_endpoint(make@),
{
    let mut s = String::new();
    s.append("/api/vehicle/v2/");
    s.append(make);
    s.append("/models");
    s
}

/// The styles endpoint of one make, model and year.
pub open spec fn spec_styles_endpoint(make: Seq<char>, model: Seq<char>, year: u16) -> Seq<char> {
    "/api/vehicle/v2/"@ + make + "/"@ + model + "/"@ + dec_rep(year as nat) + "/styles"@
}

/// Build the styles endpoint of one make, model and year.
pub fn styles_endpoint(make: &str, model: &str, year: u16) -> (r: String)
    ensures
        r@ == spec_styles_endpoint(make@, model@, year),
{
    let year_str = u64_to_dec(year as u64);
    let mut s = String::new();
    s.append("/api/vehicle/v2/");
    s.append(make);
    s.append("/");
    s.append(model);
    s.append("/");
    s.append(year_str.as_str());
    s.append("/styles");
    s
}

/// The equipment endpoint of one style.
pub open spec fn spec_equipment_endpoint(style_id: u32) -> Seq<char> {
    "/api/vehicle/v2/styles/"@ + dec_rep(style_id as nat) + "/equipment"@
}

/// Build the equipment endpoint of one style.
pub fn equipment_endpoint(style_id: u32) -> (r: String)
    ensures
        r@ == spec_equipment_endpoint(style_id),
{
    let id_str = u64_to_dec(style_id as u64);
    let mut s = String::new();
    s.append("/api/vehicle/v2/styles/");
    s.append(id_str.as_str());
    s.append("/equipment");
    s
}

/// Where the body of an HTTP response starts, scanning for the first
/// blank line from position `i`.
pub open spec fn spec_body_start(b: Seq<u8>, i: int) -> Option<int>
    decreases b.len() - i,
    when 0 <= i
{
    if i + 4 > b.len() {
        None
    } else if b[i] == 13 && b[i + 1] == 10 && b[i + 2] == 13 && b[i + 3] == 10 {
        Some(i + 4)
    } else {
        spec_body_start(b, i + 1)
    }
}

/// Split the body out of an HTTP response: everything after the first
/// blank line. A response without one is a protocol failure.
#[verifier::loop_isolation(false)]
pub fn response_body(resp: &[u8]) -> (r: Result<Vec<u8>, TransportError>)
    ensures
        match spec_body_start(resp@, 0) {
            Some(st) => r matches Ok(b) && b@ == resp@.skip(st),
            None => r == Err::<Vec<u8>, TransportError>(TransportError::Protocol),
        },
{
    let n = resp.len();
    let mut i: usize = 0;
    while n - i >= 4
        invariant
            i <= n,
            spec_body_start(resp@, 0) == spec_body_start(resp@, i as int),
        decreases n - i,
    {
        if resp[i] == 13 && resp[i + 1] == 10 && resp[i + 2] == 13 && resp[i + 3] == 10 {
            let start = i + 4;
            let mut body: Vec<u8> = Vec::new();
            let mut k = start;
            while k < n
                invariant
                    start <= k <= n,
                    body@ == resp@.subrange(start as int, k as int),
                decreases n - k,
            {
                body.push(resp[k]);
                proof {
                    assert(body@ =~= resp@.subrange(start as int, k + 1));
                }
                k = k + 1;
            }
            proof {
                assert(body@ =~= resp@.skip(start as int));
            }
            return Ok(body);
        }
        i = i + 1;
    }
    Err(TransportError::Protocol)
}

/// The API client: one request and one decoded response per query,
/// over whatever connector it was configured with — a real one in
/// production, a fake one in tests. Errors pass through unchanged.
/// The base URL is injectable (see `with_connector_at`); by default it
/// is the catalog's fixed https host.
pub struct Edmunds<C: Connector> {
    api_key: String,
    scheme: String,
    host: String,
    connector: C,
}

impl<C: Connector> Edmunds<C> {
    /// The configured API key.
    pub closed spec fn api_key_view(&self) -> Seq<char> {
        self.api_key@
    }

    /// The scheme every request connects with.
    pub closed spec fn scheme_view(&self) -> Seq<char> {
        self.scheme@
    }

    /// The host every request connects to.
    pub closed spec fn host_view(&self) -> Seq<char> {
        self.host@
    }

    /// A client over the given connector, against the catalog's fixed
    /// base URL. Tests pass a fake connector; a real program passes
    /// one that opens sockets.
    pub fn with_connector(api_key: &str, connector: C) -> (r: Edmunds<C>)
        ensures
            r.api_key_view() == api_key@,
            r.scheme_view() == API_SCHEME@,
            r.host_view() == API_HOST@,
    {
        Edmunds {
            api_key: api_key.to_owned(),
            scheme: API_SCHEME.to_owned(),
            host: API_HOST.to_owned(),
            connector,
        }
    }

    /// A client against an explicit scheme and host: the injectable
    /// base-URL form, for tests and for deployments whose connector
    /// speaks another scheme (for instance plain http behind a proxy).
    pub fn with_connector_at(api_key: &str, scheme: &str, host: &str, connector: C) -> (r: Edmunds<
        C,
    >)
        ensures
            r.api_key_view() == api_key@,
            r.scheme_view() == scheme@,
            r.host_view() == host@,
    {
        Edmunds {
            api_key: api_key.to_owned(),
            scheme: scheme.to_owned(),
            host: host.to_owned(),
            connector,
        }
    }

    /// Send one GET for `endpoint` with `parameters` and hand back the
    /// raw response body. The request text itself is pinned by the
    /// builders (`build_target`, `build_request`); what the connector
    /// and its stream then do is beyond any contract, so this promises
    /// only what holds whatever came back: a success is the body cut
    /// from a well-formed response, and a failure is always a
    /// transport failure — never a decode failure.
    pub fn call_send(&self, endpoint: &str, parameters: &str) -> (r: Result<Vec<u8>, ApiError>)
        ensures
            r matches Err(e) ==> e is Transport,
            r matches Ok(b) ==> exists|resp: Seq<u8>|
                #![trigger spec_body_start(resp, 0)]
                (spec_body_start(resp, 0) matches Some(st) && b@ == resp.skip(st)),
    {
        let target = build_target(endpoint, self.api_key.as_str(), parameters);
        let req = build_request(target.as_str(), self.host.as_str());
        let port: u16 = if crate::models::str_eq(self.scheme.as_str(), "https") {
            443
        } else {
            80
        };
        let mut stream = match self.connector.connect(
            self.scheme.as_str(),
            self.host.as_str(),
            port,
        ) {
            Ok(s) => s,
            Err(e) => {
                return Err(ApiError::Transport(e));
            },
        };
        match stream.write(req.as_str().as_bytes()) {
            Ok(_) => (),
            Err(e) => {
                return Err(ApiError::Transport(e));
            },
        }
        let mut resp: Vec<u8> = Vec::new();
        let mut rounds: usize = 0;
        // A response over ~4 GiB is treated as a protocol failure so
        // that reading is guaranteed to stop.
        while rounds < 1048576
            decreases 1048576 - rounds,
        {
            match stream.read(4096) {
                Ok(chunk) => {
                    if chunk.len() == 0 {
                        break;
                    }
                    let mut c = chunk;
                    resp.append(&mut c);
                },
                Err(e) => {
                    return Err(ApiError::Transport(e));
                },
            }
            rounds = rounds + 1;
        }
        stream.close();
        match response_body(resp.as_slice()) {
            Ok(b) => {
                proof {
                    assert(spec_body_start(resp@, 0) matches Some(st) && b@ == resp@.skip(st));
                }
                Ok(b)
            },
            Err(e) => Err(ApiError::Transport(e)),
        }
    }

    /// All makes under the given market-status filter. Whatever bytes
    /// the transport produced, a success is the decode of a well-formed
    /// make-list envelope.
    pub fn all_makes(&self, state: State) -> (r: Result<Vec<Make>, ApiError>)
        ensures
            r matches Ok(makes) ==> exists|j: JsonV|
                #[trigger] makes_env_can(j) && makes_env_matches(makes@, j),
            r matches Err(e) ==> (e matches ApiError::Decode(d) ==> exists|body: Seq<u8>|
                #![trigger parsed_json(body)]
                (match parsed_json(body) {
                    None => d == DecodeError::Syntax,
                    Some(j) => d == DecodeError::Schema && !makes_env_can(j),
                })),
    {
        let mut params = String::new();
        params.append("state=");
        params.append(state_param(state));
        let body = match self.call_send("/api/vehicle/v2/makes", params.as_str()) {
            Ok(b) => b,
            Err(e) => {
                return Err(e);
            },
        };
        match decode_makes_response(body.as_slice()) {
            Ok(makes) => {
                proof {
                    let j = parsed_json(body@)->0;
                    assert(makes_env_can(j) && makes_env_matches(makes@, j));
                }
                Ok(makes)
            },
            Err(e) => {
                proof {
                    assert(match parsed_json(body@) {
                        None => e == DecodeError::Syntax,
                        Some(j) => e == DecodeError::Schema && !makes_env_can(j),
                    });
                }
                Err(ApiError::Decode(e))
            },
        }
    }

    /// The models of one make, new-state filtered as the catalog's
    /// models endpoint expects.
    pub fn models_by_make(&self, make_nicename: &str) -> (r: Result<Vec<Model>, ApiError>)
        ensures
            r matches Ok(ms) ==> exists|j: JsonV|
                #[trigger] models_env_can(j) && models_env_matches(ms@, j),
            r matches Err(e) ==> (e matches ApiError::Decode(d) ==> exists|body: Seq<u8>|
                #![trigger parsed_json(body)]
                (match parsed_json(body) {
                    None => d == DecodeError::Syntax,
                    Some(j) => d == DecodeError::Schema && !models_env_can(j),
                })),
    {
        let endpoint = models_endpoint(make_nicename);
        let body = match self.call_send(endpoint.as_str(), "state=new") {
            Ok(b) => b,
            Err(e) => {
                return Err(e);
            },
        };
        match decode_models_response(body.as_slice()) {
            Ok(ms) => {
                proof {
                    let j = parsed_json(body@)->0;
                    assert(models_env_can(j) && models_env_matches(ms@, j));
                }
                Ok(ms)
            },
            Err(e) => {
                proof {
                    assert(match parsed_json(body@) {
                        None => e == DecodeError::Syntax,
                        Some(j) => e == DecodeError::Schema && !models_env_can(j),
                    });
                }
                Err(ApiError::Decode(e))
            },
        }
    }

    /// The styles of one make, model and year, in the full view.
    pub fn styles_by_make_model_year(
        &self,
        make_nicename: &str,
        model_nicename: &str,
        year: u16,
    ) -> (r: Result<Vec<Style>, ApiError>)
        ensures
            r matches Ok(ss) ==> exists|j: JsonV|
                #[trigger] styles_env_can(j) && styles_env_matches(ss@, j),
            r matches Err(e) ==> (e matches ApiError::Decode(d) ==> exists|body: Seq<u8>|
                #![trigger parsed_json(body)]
                (match parsed_json(body) {
                    None => d == DecodeError::Syntax,
                    Some(j) => d == DecodeError::Schema && !styles_env_can(j),
                })),
    {
        let endpoint = styles_endpoint(make_nicename, model_nicename, year);
        let body = match self.call_send(endpoint.as_str(), "state=new&view=full") {
            Ok(b) => b,
            Err(e) => {
                return Err(e);
            },
        };
        match decode_styles_response(body.as_slice()) {
            Ok(ss) => {
                proof {
                    let j = parsed_json(body@)->0;
                    assert(styles_env_can(j) && styles_env_matches(ss@, j));
                }
                Ok(ss)
            },
            Err(e) => {
                proof {
                    assert(match parsed_json(body@) {
                        None => e == DecodeError::Syntax,
                        Some(j) => e == DecodeError::Schema && !styles_env_can(j),
                    });
                }
                Err(ApiError::Decode(e))
            },
        }
    }

    /// The equipment of one style.
    pub fn equipment_by_styleid(&self, style_id: u32) -> (r: Result<Vec<Equipment>, ApiError>)
        ensures
            r matches Ok(es) ==> exists|j: JsonV|
                #[trigger] equipment_env_can(j) && equipment_env_matches(es@, j),
            r matches Err(e) ==> (e matches ApiError::Decode(d) ==> exists|body: Seq<u8>|
                #![trigger parsed_json(body)]
                (match parsed_json(body) {
                    None => d == DecodeError::Syntax,
                    Some(j) => d == DecodeError::Schema && !equipment_env_can(j),
                })),
    {
        let endpoint = equipment_endpoint(style_id);
        let body = match self.call_send(endpoint.as_str(), "") {
            Ok(b) => b,
            Err(e) => {
                return Err(e);
            },
        };
        match decode_equipment_response(body.as_slice()) {
            Ok(es) => {
                proof {
                    let j = parsed_json(body@)->0;
                    assert(equipment_env_can(j) && equipment_env_matches(es@, j));
                }
                Ok(es)
            },
            Err(e) => {
                proof {
                    assert(match parsed_json(body@) {
                        None => e == DecodeError::Syntax,
                        Some(j) => e == DecodeError::Schema && !equipment_env_can(j),
                    });
                }
                Err(ApiError::Decode(e))
            },
        }
    }
}

} // verus!
