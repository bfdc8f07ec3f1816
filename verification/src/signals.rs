//! Reading the signals that a Datastar client sends with a request.
//!
//! A `GET` request carries its signals as JSON text in the query parameter
//! `datastar`; every other request carries them as a JSON document in its
//! body. What is wrong with a request is reported as a client error.

use crate::consts::DATASTAR_KEY;
use vstd::prelude::*;
use vstd::string::StringExecFns;

verus! {

/// The status of a response to a request whose signals cannot be read.
pub const BAD_REQUEST: u16 = 400;

/// The status of a response to a failure that is not the client's.
pub const INTERNAL_SERVER_ERROR: u16 = 500;

/// `serde_json::Value`, a JSON document in memory. The library carries such
/// a value through and claims nothing of what it holds.
#[verifier::external_type_specification]
#[verifier::external_body]
pub struct ExJsonValue(serde_json::Value);

/// The pairs of names and values that `serde_urlencoded` reads from a query
/// string, in the order in which they stand there, or the text of its error.
pub uninterp spec fn query_pairs(query: Seq<char>) -> Result<
    Seq<(Seq<char>, Seq<char>)>,
    Seq<char>,
>;

/// What `serde_json` objects to in a text that is to be one JSON document:
/// `None` where the text is one, else the text of the error.
pub uninterp spec fn json_text_fault(text: Seq<char>) -> Option<Seq<char>>;

/// What `serde_json` objects to in bytes that are to be one JSON document:
/// `None` where the bytes are one, else the text of the error.
pub uninterp spec fn json_bytes_fault(bytes: Seq<u8>) -> Option<Seq<char>>;

/// The JSON value that `serde_json` reads from a text that is one JSON
/// document.
pub uninterp spec fn json_text_value(text: Seq<char>) -> serde_json::Value;

/// The JSON value that `serde_json` reads from bytes that are one JSON
/// document.
pub uninterp spec fn json_bytes_value(bytes: Seq<u8>) -> serde_json::Value;

/// The views of the names and values of `pairs`, in order.
pub open spec fn pair_views(pairs: Seq<(String, String)>) -> Seq<(Seq<char>, Seq<char>)> {
    Seq::new(pairs.len(), |i: int| (pairs[i].0@, pairs[i].1@))
}

/// `serde_urlencoded::from_str`, asked for the pairs of a query string. The
/// result is a function of the query alone; an error is handed on as its text.
#[verifier::external_body]
fn parse_query(query: &str) -> (parsed: Result<Vec<(String, String)>, String>)
    ensures
        match parsed {
            Ok(pairs) => query_pairs(query@) == Ok::<Seq<(Seq<char>, Seq<char>)>, Seq<char>>(
                pair_views(pairs@),
            ),
            Err(fault) => query_pairs(query@) == Err::<Seq<(Seq<char>, Seq<char>)>, Seq<char>>(
                fault@,
            ),
        },
{
    match serde_urlencoded::from_str::<Vec<(String, String)>>(query) {
        Ok(pairs) => Ok(pairs),
        Err(e) => Err(e.to_string()),
    }
}

/// `serde_json::from_str`, asked for any JSON value. Whether it succeeds,
/// which value it reads and with which error it fails is a function of the
/// text alone; the error is handed on as its text.
#[verifier::external_body]
fn parse_json_text(text: &str) -> (parsed: Result<serde_json::Value, String>)
    ensures
        match parsed {
            Ok(value) => json_text_fault(text@) is None && value == json_text_value(text@),
            Err(fault) => json_text_fault(text@) == Some(fault@),
        },
{
    match serde_json::from_str::<serde_json::Value>(text) {
        Ok(value) => Ok(value),
        Err(e) => Err(e.to_string()),
    }
}

/// `serde_json::from_slice`, asked for any JSON value. Whether it succeeds,
/// which value it reads and with which error it fails is a function of the
/// bytes alone; the error is handed on as its text.
#[verifier::external_body]
fn parse_json_bytes(bytes: &[u8]) -> (parsed: Result<serde_json::Value, String>)
    ensures
        match parsed {
            Ok(value) => json_bytes_fault(bytes@) is None && value == json_bytes_value(bytes@),
            Err(fault) => json_bytes_fault(bytes@) == Some(fault@),
        },
{
    match serde_json::from_slice::<serde_json::Value>(bytes) {
        Ok(value) => Ok(value),
        Err(e) => Err(e.to_string()),
    }
}

/// What an error holds: a message for the client and the status of the
/// response.
pub struct ErrorView {
    pub message: Seq<char>,
    pub status: u16,
}

/// Why the signals of a request could not be read.
#[derive(Debug)]
pub struct ReadSignalsError {
    message: String,
    status: u16,
}

impl View for ReadSignalsError {
    type V = ErrorView;

    closed spec fn view(&self) -> ErrorView {
        ErrorView { message: self.message@, status: self.status }
    }
}

impl ReadSignalsError {
    /// The message for the client.
    pub fn message(&self) -> (message: &str)
        ensures
            message@ == self@.message,
    {
        self.message.as_str()
    }

    /// The status of the response.
    pub fn status(&self) -> (status: u16)
        ensures
            status == self@.status,
    {
        self.status
    }

    /// The client error whose message is `reason` followed by `detail`.
    fn bad_request(reason: &str, detail: &str) -> (e: Self)
        ensures
            e@ == client_error(reason@ + detail@),
    {
        let mut message = reason.to_owned();
        message.append(detail);
        ReadSignalsError { message, status: BAD_REQUEST }
    }
}

/// The client error with the given message.
pub open spec fn client_error(message: Seq<char>) -> ErrorView {
    ErrorView { message, status: BAD_REQUEST }
}

/// The signals of a request, as a value of the type that the handler asks for.
#[derive(Debug)]
pub struct ReadSignals<T>(pub T);

/// Where the signals of a request stand, and the text or bytes that hold them.
#[derive(Debug)]
pub enum SignalsSource {
    /// The JSON text that the query parameter holds.
    FromQuery(String),
    /// The bytes of the request body.
    FromBody(Vec<u8>),
}

/// What a source of signals holds.
pub enum SourceView {
    FromQuery(Seq<char>),
    FromBody(Seq<u8>),
}

impl View for SignalsSource {
    type V = SourceView;

    open spec fn view(&self) -> SourceView {
        match self {
            SignalsSource::FromQuery(text) => SourceView::FromQuery(text@),
            SignalsSource::FromBody(bytes) => SourceView::FromBody(bytes@),
        }
    }
}

/// The values of those of `pairs` whose name is `name`, in order.
pub open spec fn values_of(pairs: Seq<(Seq<char>, Seq<char>)>, name: Seq<char>) -> Seq<Seq<char>>
    decreases pairs.len(),
{
    if pairs.len() == 0 {
        Seq::empty()
    } else if pairs.last().0 == name {
        values_of(pairs.drop_last(), name).push(pairs.last().1)
    } else {
        values_of(pairs.drop_last(), name)
    }
}

/// The value of the one parameter `datastar` among `pairs`. It is an error
/// for the parameter to be missing, and an error for it to occur twice.
pub open spec fn signals_param_of(pairs: Seq<(Seq<char>, Seq<char>)>) -> Result<
    Seq<char>,
    ErrorView,
> {
    let found = values_of(pairs, DATASTAR_KEY@);
    if found.len() == 0 {
        Err(client_error("Failed to parse query: "@ + "missing field `datastar`"@))
    } else if found.len() == 1 {
        Ok(found[0])
    } else {
        Err(client_error("Failed to parse query: "@ + "duplicate field `datastar`"@))
    }
}

/// Where the signals of a request stand. For the method `GET` they are the
/// value of the query parameter `datastar`; for every other method they are
/// the body, whatever the query holds.
pub open spec fn signals_source_of(method: Seq<char>, query: Seq<char>, body: Seq<u8>) -> Result<
    SourceView,
    ErrorView,
> {
    if method == "GET"@ {
        match query_pairs(query) {
            Ok(pairs) => match signals_param_of(pairs) {
                Ok(text) => Ok(SourceView::FromQuery(text)),
                Err(e) => Err(e),
            },
            Err(fault) => Err(client_error("Failed to parse query: "@ + fault)),
        }
    } else {
        Ok(SourceView::FromBody(body))
    }
}

/// The client error for signals that are no JSON document of the type asked
/// for, where `fault` says what is wrong with them.
pub open spec fn json_error(source: SourceView, fault: Seq<char>) -> ErrorView {
    match source {
        SourceView::FromQuery(_) => client_error("Failed to parse JSON: "@ + fault),
        SourceView::FromBody(_) => client_error("Failed to parse JSON body: "@ + fault),
    }
}

/// What `serde_json` objects to in the signals that `source` holds.
pub open spec fn json_fault(source: SourceView) -> Option<Seq<char>> {
    match source {
        SourceView::FromQuery(text) => json_text_fault(text),
        SourceView::FromBody(bytes) => json_bytes_fault(bytes),
    }
}

/// The JSON value that `serde_json` reads from the signals that `source`
/// holds.
pub open spec fn json_value(source: SourceView) -> serde_json::Value {
    match source {
        SourceView::FromQuery(text) => json_text_value(text),
        SourceView::FromBody(bytes) => json_bytes_value(bytes),
    }
}

/// Whether the signals of a request can be read, and if not, the error that
/// says why.
pub open spec fn extraction_error(method: Seq<char>, query: Seq<char>, body: Seq<u8>) -> Option<
    ErrorView,
> {
    match signals_source_of(method, query, body) {
        Err(e) => Some(e),
        Ok(source) => match json_fault(source) {
            Some(fault) => Some(json_error(source, fault)),
            None => None,
        },
    }
}

/// Picks the value of the parameter `datastar` from the pairs of a query.
pub fn signals_param(pairs: &Vec<(String, String)>) -> (found: Result<String, ReadSignalsError>)
    ensures
        match found {
            Ok(text) => signals_param_of(pair_views(pairs@)) == Ok::<Seq<char>, ErrorView>(text@),
            Err(e) => signals_param_of(pair_views(pairs@)) == Err::<Seq<char>, ErrorView>(e@),
        },
{
    let name = DATASTAR_KEY.to_owned();
    let ghost all = pair_views(pairs@);
    let mut first: Option<String> = None;
    let mut twice = false;
    let n = pairs.len();
    let mut i: usize = 0;
    assert(all.take(0) =~= Seq::<(Seq<char>, Seq<char>)>::empty());
    while i < n
        invariant
            i <= n,
            n == pairs.len(),
            name@ == DATASTAR_KEY@,
            all == pair_views(pairs@),
            match first {
                None => values_of(all.take(i as int), DATASTAR_KEY@).len() == 0 && !twice,
                Some(text) => {
                    let found = values_of(all.take(i as int), DATASTAR_KEY@);
                    &&& found.len() >= 1
                    &&& found[0] == text@
                    &&& twice == (found.len() >= 2)
                },
            },
        decreases n - i,
    {
        proof {
            assert(all.take(i + 1).drop_last() =~= all.take(i as int));
            assert(all.take(i + 1).last() == (pairs[i as int].0@, pairs[i as int].1@));
        }
        if pairs[i].0 == name {
            match first {
                None => {
                    first = Some(pairs[i].1.clone());
                },
                Some(_) => {
                    twice = true;
                },
            }
        }
        i += 1;
    }
    assert(all.take(n as int) =~= all);
    match first {
        None => Err(ReadSignalsError::bad_request("Failed to parse query: ", "missing field `datastar`")),
        Some(text) => {
            if twice {
                Err(
                    ReadSignalsError::bad_request(
                        "Failed to parse query: ",
                        "duplicate field `datastar`",
                    ),
                )
            } else {
                Ok(text)
            }
        },
    }
}

/// Decides from the method where the signals of a request stand, and takes
/// them from there as they are.
pub fn signals_source(method: &str, query: &str, body: Vec<u8>) -> (found: Result<
    SignalsSource,
    ReadSignalsError,
>)
    ensures
        match found {
            Ok(source) => signals_source_of(method@, query@, body@) == Ok::<SourceView, ErrorView>(
                source@,
            ),
            Err(e) => signals_source_of(method@, query@, body@) == Err::<SourceView, ErrorView>(e@),
        },
{
    if method.to_owned() == "GET".to_owned() {
        match parse_query(query) {
            Ok(pairs) => match signals_param(&pairs) {
                Ok(text) => Ok(SignalsSource::FromQuery(text)),
                Err(e) => Err(e),
            },
            Err(fault) => Err(
                ReadSignalsError::bad_request("Failed to parse query: ", fault.as_str()),
            ),
        }
    } else {
        Ok(SignalsSource::FromBody(body))
    }
}

/// Wraps signals that were parsed from `source` into the type asked for, or
/// turns what the parser objected to into a client error.
pub fn typed_signals<T>(source: &SignalsSource, parsed: Result<T, String>) -> (out: Result<
    ReadSignals<T>,
    ReadSignalsError,
>)
    ensures
        match parsed {
            Ok(signals) => out == Ok::<ReadSignals<T>, ReadSignalsError>(ReadSignals(signals)),
            Err(fault) => out matches Err(e) && e@ == json_error(source@, fault@),
        },
{
    match parsed {
        Ok(signals) => Ok(ReadSignals(signals)),
        Err(fault) => match source {
            SignalsSource::FromQuery(_) => Err(
                ReadSignalsError::bad_request("Failed to parse JSON: ", fault.as_str()),
            ),
            SignalsSource::FromBody(_) => Err(
                ReadSignalsError::bad_request("Failed to parse JSON body: ", fault.as_str()),
            ),
        },
    }
}

/// Reads the signals that `source` holds as a JSON value.
fn read_json(source: &SignalsSource) -> (out: Result<
    ReadSignals<serde_json::Value>,
    ReadSignalsError,
>)
    ensures
        match out {
            Ok(read) => json_fault(source@) is None && read.0 == json_value(source@),
            Err(e) => json_fault(source@) matches Some(fault) && e@ == json_error(source@, fault),
        },
{
    let parsed = match source {
        SignalsSource::FromQuery(text) => parse_json_text(text.as_str()),
        SignalsSource::FromBody(bytes) => parse_json_bytes(bytes.as_slice()),
    };
    typed_signals(source, parsed)
}

/// Reads the signals of a request as a JSON value.
///
/// The signals are read if and only if they stand where the method says and
/// are one JSON document, and what is returned is the value of that
/// document; every failure is a client error that says what is wrong.
pub fn extract_signals(method: &str, query: &str, body: Vec<u8>) -> (out: Result<
    ReadSignals<serde_json::Value>,
    ReadSignalsError,
>)
    ensures
        match out {
            Ok(read) => {
                &&& extraction_error(method@, query@, body@) is None
                &&& signals_source_of(method@, query@, body@) matches Ok(source) && read.0
                    == json_value(source)
            },
            Err(e) => extraction_error(method@, query@, body@) == Some(e@),
        },
        out matches Err(e) ==> e@.status == BAD_REQUEST,
{
    match signals_source(method, query, body) {
        Err(e) => Err(e),
        Ok(source) => read_json(&source),
    }
}

/// Whether a request was sent by a Datastar client: whether it has the header
/// `datastar-request`, whose value is handed in here where the header is there.
pub fn is_datastar_request(header: &Option<String>) -> (engaged: bool)
    ensures
        engaged == header.is_some(),
{
    header.is_some()
}

/// Decides whether a request is to be read at all, and if so, where its
/// signals stand.
///
/// Without the header `datastar-request` the request is not one of a
/// Datastar client: the result is `Ok(None)`, whatever the request holds, and
/// nothing is parsed. With the header, the source is found as
/// [`signals_source`] finds it.
pub fn engaged_source(header: &Option<String>, method: &str, query: &str, body: Vec<u8>) -> (out:
    Result<Option<SignalsSource>, ReadSignalsError>)
    ensures
        header is None ==> out == Ok::<Option<SignalsSource>, ReadSignalsError>(None),
        header is Some ==> match out {
            Ok(found) => found matches Some(source) && signals_source_of(method@, query@, body@)
                == Ok::<SourceView, ErrorView>(source@),
            Err(e) => signals_source_of(method@, query@, body@) == Err::<SourceView, ErrorView>(
                e@,
            ),
        },
        out matches Err(e) ==> e@.status == BAD_REQUEST,
{
    if !is_datastar_request(header) {
        return Ok(None);
    }
    match signals_source(method, query, body) {
        Ok(source) => Ok(Some(source)),
        Err(e) => Err(e),
    }
}

/// Reads the signals of a request if a Datastar client sent it.
///
/// Without the header `datastar-request` there is nothing to read, whatever
/// the request holds: the result is `Ok(None)`. With it, the signals are
/// read as [`extract_signals`] reads them: what comes back is the value of
/// the JSON document that the request holds, or the error that says why
/// there is none.
pub fn read_signals_optional(
    header: &Option<String>,
    method: &str,
    query: &str,
    body: Vec<u8>,
) -> (out: Result<Option<ReadSignals<serde_json::Value>>, ReadSignalsError>)
    ensures
        header is None ==> out == Ok::<Option<ReadSignals<serde_json::Value>>, ReadSignalsError>(
            None,
        ),
        header is Some ==> match out {
            Ok(found) => {
                &&& extraction_error(method@, query@, body@) is None
                &&& found matches Some(read) && signals_source_of(method@, query@, body@) matches Ok(
                    source,
                ) && read.0 == json_value(source)
            },
            Err(e) => extraction_error(method@, query@, body@) == Some(e@),
        },
        out matches Err(e) ==> e@.status == BAD_REQUEST,
{
    match engaged_source(header, method, query, body) {
        Err(e) => Err(e),
        Ok(None) => Ok(None),
        Ok(Some(source)) => match read_json(&source) {
            Ok(signals) => Ok(Some(signals)),
            Err(e) => Err(e),
        },
    }
}

/// The reply to a request that was rejected: the message and status of the
/// error where the signals could not be read, and a server error for every
/// other rejection.
pub fn handle_rejection(err: Option<&ReadSignalsError>) -> (reply: (String, u16))
    ensures
        match err {
            Some(e) => reply.0@ == e@.message && reply.1 == e@.status,
            None => reply.0@ == "Internal Server Error"@ && reply.1 == INTERNAL_SERVER_ERROR,
        },
{
    match err {
        Some(e) => (e.message.clone(), e.status),
        None => ("Internal Server Error".to_owned(), INTERNAL_SERVER_ERROR),
    }
}

} // verus!
