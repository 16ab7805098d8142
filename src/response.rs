//! Responses of the server, and the parser of one frame's text.
use vstd::prelude::*;
use vstd::slice::slice_subrange;
use vstd::string::*;
use vstd::utf8::*;

use crate::decode::FromJson;
use crate::results::{
    CharacterResults, ProducerResults, ReleaseResults, UListResults, UserResults, VnListResults,
    VoteListResults, VN,
};
use crate::json::{
    json_of, lookup, opt_uint_member, optional, parse_json, required, str_member,
    str_of, uint_of, Json, JsonError,
};

verus! {

broadcast use group_utf8_lib;

/// An error that the server reports: a request it refused.
#[derive(Clone, Debug, PartialEq)]
pub struct VndbError {
    /// The error's code, stable and meant for programs.
    pub id: String,
    /// A message for people; it may change for one same `id`.
    pub msg: String,
}

/// The id and message of the error object `j`, if it is one.
pub open spec fn vndb_error_of(j: Json) -> Option<(Seq<char>, Seq<char>)> {
    match (
        required(lookup(j, "id"@), |v: Json| str_of(v)),
        required(lookup(j, "msg"@), |v: Json| str_of(v)),
    ) {
        (Some(id), Some(msg)) => if j is Object { Some((id, msg)) } else { None },
        _ => None,
    }
}

impl VndbError {
    /// Reads an error object (`vndb_error_of`).
    pub fn from_json(j: &Json) -> (r: Option<VndbError>)
        ensures
            r is Some <==> vndb_error_of(*j) is Some,
            r matches Some(e) ==> vndb_error_of(*j) == Some((e.id@, e.msg@)),
    {
        if !j.is_object() {
            return None;
        }
        let id = str_member(j, "id");
        let msg = str_member(j, "msg");
        match (id, msg) {
            (Some(id), Some(msg)) => Some(VndbError { id, msg }),
            _ => None,
        }
    }

    /// Parses an error payload: JSON text of an error object.
    pub fn from_str(text: &str) -> (r: Result<VndbError, JsonError>)
        ensures
            r is Ok <==> (json_of(text.spec_bytes()) matches Some(j) && vndb_error_of(j) is Some),
            r matches Ok(e) ==> vndb_error_of(json_of(text.spec_bytes())->0) == Some((e.id@, e.msg@)),
            r matches Err(JsonError::Syntax(_)) <==> json_of(text.spec_bytes()) is None,
    {
        match parse_json(text.as_bytes()) {
            Ok(j) => match VndbError::from_json(&j) {
                Some(e) => Ok(e),
                None => Err(JsonError::Mismatch),
            },
            Err(e) => Err(JsonError::Syntax(e)),
        }
    }

    /// A line for people: `Error(id='<id>')=<msg>`.
    pub fn describe(&self) -> (r: String)
        ensures
            r@ == "Error(id='"@ + self.id@ + "')="@ + self.msg@,
    {
        let mut s = String::from_str("Error(id='");
        s.append(self.id.as_str());
        s.append("')=");
        s.append(self.msg.as_str());
        s
    }
}

/// Counts of the entities in the database.
///
/// The set of counts the server sends has changed over time, so each one is
/// optional.
#[derive(Clone, Copy, Debug, PartialEq)]
pub struct DBstats {
    /// Users; sent by older servers.
    pub users: Option<u64>,
    /// Forum threads; sent by older servers.
    pub threads: Option<u64>,
    /// Tags.
    pub tags: Option<u64>,
    /// Releases.
    pub releases: Option<u64>,
    /// Producers.
    pub producers: Option<u64>,
    /// Characters.
    pub chars: Option<u64>,
    /// Forum posts; sent by older servers.
    pub posts: Option<u64>,
    /// Visual novels.
    pub vn: Option<u64>,
    /// Traits.
    pub traits: Option<u64>,
}

/// The optional count `key` of the object `j`.
pub open spec fn count_of(j: Json, key: Seq<char>) -> Option<Option<u64>> {
    optional(lookup(j, key), |v: Json| uint_of(v, u64::MAX))
}

/// The statistics that the object `j` holds, if it is one whose counts are
/// each absent, `null` or an unsigned integer.
pub open spec fn dbstats_of(j: Json) -> Option<DBstats> {
    if j is Object && count_of(j, "users"@) is Some && count_of(j, "threads"@) is Some
        && count_of(j, "tags"@) is Some && count_of(j, "releases"@) is Some
        && count_of(j, "producers"@) is Some && count_of(j, "chars"@) is Some
        && count_of(j, "posts"@) is Some && count_of(j, "vn"@) is Some
        && count_of(j, "traits"@) is Some {
        Some(
            DBstats {
                users: count_of(j, "users"@)->0,
                threads: count_of(j, "threads"@)->0,
                tags: count_of(j, "tags"@)->0,
                releases: count_of(j, "releases"@)->0,
                producers: count_of(j, "producers"@)->0,
                chars: count_of(j, "chars"@)->0,
                posts: count_of(j, "posts"@)->0,
                vn: count_of(j, "vn"@)->0,
                traits: count_of(j, "traits"@)->0,
            },
        )
    } else {
        None
    }
}

impl DBstats {
    /// Reads a statistics object (`dbstats_of`).
    pub fn from_json(j: &Json) -> (r: Option<DBstats>)
        ensures
            r == dbstats_of(*j),
    {
        if !j.is_object() {
            return None;
        }
        let users = opt_uint_member(j, "users", u64::MAX);
        let threads = opt_uint_member(j, "threads", u64::MAX);
        let tags = opt_uint_member(j, "tags", u64::MAX);
        let releases = opt_uint_member(j, "releases", u64::MAX);
        let producers = opt_uint_member(j, "producers", u64::MAX);
        let chars = opt_uint_member(j, "chars", u64::MAX);
        let posts = opt_uint_member(j, "posts", u64::MAX);
        let vn = opt_uint_member(j, "vn", u64::MAX);
        let traits = opt_uint_member(j, "traits", u64::MAX);
        match (users, threads, tags, releases, producers, chars, posts, vn, traits) {
            (
                Some(users),
                Some(threads),
                Some(tags),
                Some(releases),
                Some(producers),
                Some(chars),
                Some(posts),
                Some(vn),
                Some(traits),
            ) => Some(DBstats { users, threads, tags, releases, producers, chars, posts, vn, traits }),
            _ => None,
        }
    }
}

/// The payload of a `results` response, held as loosely typed JSON.
///
/// The frame does not say which type of entity it holds: that follows from
/// the request it answers. The typed readings (`vn`, `release`, ...) each
/// read the same document and leave it as it is.
#[derive(Debug)]
pub struct Results {
    inner: Json,
}

impl View for Results {
    type V = Json;

    closed spec fn view(&self) -> Json {
        self.inner
    }
}

impl Results {
    /// Results holding the document `j`.
    pub fn new(j: Json) -> (r: Results)
        ensures
            r@ == j,
    {
        Results { inner: j }
    }

    /// Parses a results payload: JSON text.
    pub fn from_str(text: &str) -> (r: Result<Results, JsonError>)
        ensures
            r is Ok <==> json_of(text.spec_bytes()) is Some,
            r matches Ok(res) ==> json_of(text.spec_bytes()) == Some(res@),
            r is Err ==> r matches Err(JsonError::Syntax(_)),
    {
        match parse_json(text.as_bytes()) {
            Ok(j) => Ok(Results { inner: j }),
            Err(e) => Err(JsonError::Syntax(e)),
        }
    }

    /// The document.
    pub fn json(&self) -> (r: &Json)
        ensures
            *r == self@,
    {
        &self.inner
    }

    /// Reads the document as a page of `T`: `Mismatch` where it has
    /// another shape.
    pub fn to<T: FromJson>(&self) -> (r: Result<T, JsonError>)
        ensures
            r is Ok <==> T::decodable(self@),
            r matches Ok(v) ==> T::decodes(self@, v),
            r is Err ==> r matches Err(JsonError::Mismatch),
    {
        match T::from_json(&self.inner) {
            Some(v) => Ok(v),
            None => Err(JsonError::Mismatch),
        }
    }

    /// Reads the document as a page of visual novels (`get vn`).
    pub fn vn(&self) -> (r: Result<VN, JsonError>)
        ensures
            r is Ok <==> VN::decodable(self@),
            r matches Ok(v) ==> VN::decodes(self@, v),
            r is Err ==> r matches Err(JsonError::Mismatch),
    {
        self.to()
    }

    /// Reads the document as a page of releases (`get release`).
    pub fn release(&self) -> (r: Result<ReleaseResults, JsonError>)
        ensures
            r is Ok <==> ReleaseResults::decodable(self@),
            r matches Ok(v) ==> ReleaseResults::decodes(self@, v),
            r is Err ==> r matches Err(JsonError::Mismatch),
    {
        self.to()
    }

    /// Reads the document as a page of producers (`get producer`).
    pub fn producer(&self) -> (r: Result<ProducerResults, JsonError>)
        ensures
            r is Ok <==> ProducerResults::decodable(self@),
            r matches Ok(v) ==> ProducerResults::decodes(self@, v),
            r is Err ==> r matches Err(JsonError::Mismatch),
    {
        self.to()
    }

    /// Reads the document as a page of characters (`get character`).
    pub fn character(&self) -> (r: Result<CharacterResults, JsonError>)
        ensures
            r is Ok <==> CharacterResults::decodable(self@),
            r matches Ok(v) ==> CharacterResults::decodes(self@, v),
            r is Err ==> r matches Err(JsonError::Mismatch),
    {
        self.to()
    }

    /// Reads the document as a page of users (`get user`).
    pub fn user(&self) -> (r: Result<UserResults, JsonError>)
        ensures
            r is Ok <==> UserResults::decodable(self@),
            r matches Ok(v) ==> UserResults::decodes(self@, v),
            r is Err ==> r matches Err(JsonError::Mismatch),
    {
        self.to()
    }

    /// Reads the document as a page of votes (`get votelist`).
    pub fn vote_list(&self) -> (r: Result<VoteListResults, JsonError>)
        ensures
            r is Ok <==> VoteListResults::decodable(self@),
            r matches Ok(v) ==> VoteListResults::decodes(self@, v),
            r is Err ==> r matches Err(JsonError::Mismatch),
    {
        self.to()
    }

    /// Reads the document as a page of list entries (`get vnlist`).
    pub fn vn_list(&self) -> (r: Result<VnListResults, JsonError>)
        ensures
            r is Ok <==> VnListResults::decodable(self@),
            r matches Ok(v) ==> VnListResults::decodes(self@, v),
            r is Err ==> r matches Err(JsonError::Mismatch),
    {
        self.to()
    }

    /// Reads the document as a page of list entries (`get ulist`).
    pub fn u_list(&self) -> (r: Result<UListResults, JsonError>)
        ensures
            r is Ok <==> UListResults::decodable(self@),
            r matches Ok(v) ==> UListResults::decodes(self@, v),
            r is Err ==> r matches Err(JsonError::Mismatch),
    {
        self.to()
    }

    /// The member `key` of the document.
    pub fn get(&self, key: &str) -> (r: Option<&Json>)
        ensures
            r is Some <==> lookup(self@, key@) is Some,
            r matches Some(v) ==> lookup(self@, key@) == Some(*v),
    {
        self.inner.get(key)
    }
}

/// Reading results is repeatable: two readings of the same results as one
/// type give alike values, for a reading depends on the document alone and
/// takes the results by shared reference, leaving the document as it is.
pub proof fn lemma_projection_repeatable<T: FromJson>(res: Results, a: T, b: T)
    requires
        T::decodes(res@, a),
        T::decodes(res@, b),
    ensures
        T::alike(a, b),
{
    T::lemma_decodes_unique(res@, a, b);
}

/// A response of the server.
#[derive(Debug)]
pub enum Response {
    /// The request was done; nothing to send.
    Okay,
    /// The entities a `get` asked for.
    Results(Results),
    /// The statistics `dbstats` asked for.
    DBstats(DBstats),
    /// The server refused the request.
    Error(VndbError),
}

/// Why the text of a frame is no response.
#[derive(Debug)]
pub enum ResponseParseError {
    /// The frame is empty.
    EmptyResponse,
    /// The frame's bytes are not UTF-8 text.
    NotUtf8,
    /// `results` without payload.
    EmptyResults,
    /// `dbstats` without payload.
    EmptyDbStats,
    /// `error` without payload.
    EmptyError,
    /// The payload of `results` is not JSON.
    InvalidResults(JsonError),
    /// The payload of `dbstats` is not JSON, or no statistics object.
    InvalidDbStats(JsonError),
    /// The payload of `error` is not JSON, or no error object.
    InvalidError(JsonError),
    /// The command word is none of `ok`, `results`, `dbstats`, `error`.
    UnknownCommand,
}

/// The line for people that says what `e` is; for a payload that is not
/// JSON, the parser's own message follows it (`describe`).
pub open spec fn error_text(e: ResponseParseError) -> Seq<char> {
    match e {
        ResponseParseError::EmptyResponse => "VNDB sent empty response."@,
        ResponseParseError::NotUtf8 => "VNDB sent a message that is not UTF-8."@,
        ResponseParseError::EmptyResults => "VNDB sent Results with no payload."@,
        ResponseParseError::EmptyDbStats => "VNDB sent DBstats with no payload."@,
        ResponseParseError::EmptyError => "VNDB sent Error with no payload."@,
        ResponseParseError::InvalidResults(JsonError::Syntax(_)) => "VNDB sent invalid JSON in Results"@,
        ResponseParseError::InvalidResults(JsonError::Mismatch) => "VNDB sent Results of another shape."@,
        ResponseParseError::InvalidDbStats(JsonError::Syntax(_)) => "VNDB sent invalid JSON in DBstats"@,
        ResponseParseError::InvalidDbStats(JsonError::Mismatch) => "VNDB sent DBstats of another shape."@,
        ResponseParseError::InvalidError(JsonError::Syntax(_)) => "VNDB sent invalid JSON in Error"@,
        ResponseParseError::InvalidError(JsonError::Mismatch) => "VNDB sent Error of another shape."@,
        ResponseParseError::UnknownCommand => "VNDB sent unknown command"@,
    }
}

/// Whether `e` carries a message of the JSON parser.
pub open spec fn has_parser_message(e: ResponseParseError) -> bool {
    match e {
        ResponseParseError::InvalidResults(JsonError::Syntax(_)) => true,
        ResponseParseError::InvalidDbStats(JsonError::Syntax(_)) => true,
        ResponseParseError::InvalidError(JsonError::Syntax(_)) => true,
        _ => false,
    }
}

/// Relies on `Display` of `serde_json::Error`: the parser's message, for
/// people; nothing is stated of its text.
#[verifier::external_body]
fn parser_message(e: &serde_json::Error) -> String {
    e.to_string()
}

impl ResponseParseError {
    /// A line for people that says what went wrong: `error_text`, and where
    /// the payload was not JSON, `: ` and the parser's message.
    pub fn describe(&self) -> (r: String)
        ensures
            !has_parser_message(*self) ==> r@ == error_text(*self),
            has_parser_message(*self) ==> r@.len() >= error_text(*self).len() + 2
                && r@.subrange(0, error_text(*self).len() as int + 2) == error_text(*self) + ": "@,
    {
        let mut s = String::from_str(
            match self {
                ResponseParseError::EmptyResponse => "VNDB sent empty response.",
                ResponseParseError::NotUtf8 => "VNDB sent a message that is not UTF-8.",
                ResponseParseError::EmptyResults => "VNDB sent Results with no payload.",
                ResponseParseError::EmptyDbStats => "VNDB sent DBstats with no payload.",
                ResponseParseError::EmptyError => "VNDB sent Error with no payload.",
                ResponseParseError::InvalidResults(JsonError::Syntax(_)) => "VNDB sent invalid JSON in Results",
                ResponseParseError::InvalidResults(JsonError::Mismatch) => "VNDB sent Results of another shape.",
                ResponseParseError::InvalidDbStats(JsonError::Syntax(_)) => "VNDB sent invalid JSON in DBstats",
                ResponseParseError::InvalidDbStats(JsonError::Mismatch) => "VNDB sent DBstats of another shape.",
                ResponseParseError::InvalidError(JsonError::Syntax(_)) => "VNDB sent invalid JSON in Error",
                ResponseParseError::InvalidError(JsonError::Mismatch) => "VNDB sent Error of another shape.",
                ResponseParseError::UnknownCommand => "VNDB sent unknown command",
            },
        );
        let ghost head = s@;
        match self {
            ResponseParseError::InvalidResults(JsonError::Syntax(e))
            | ResponseParseError::InvalidDbStats(JsonError::Syntax(e))
            | ResponseParseError::InvalidError(JsonError::Syntax(e)) => {
                proof {
                    reveal_strlit(": ");
                }
                s.append(": ");
                let ghost mid = s@;
                let m = parser_message(e);
                s.append(m.as_str());
                assert(mid == head + ": "@);
                assert(s@.subrange(0, mid.len() as int) =~= mid);
            },
            _ => {},
        }
        s
    }
}

// ---------------------------------------------------------------------------
// The text of a frame

/// The byte of a space.
pub open spec fn space() -> u8 {
    0x20
}

/// The index of the first space in `b`, at or after `from`.
pub open spec fn first_space_from(b: Seq<u8>, from: int) -> Option<int>
    decreases b.len() - from,
{
    if from < 0 || from >= b.len() {
        None
    } else if b[from] == space() {
        Some(from)
    } else {
        first_space_from(b, from + 1)
    }
}

/// The command word of a frame: its bytes before the first space.
pub open spec fn command_of(b: Seq<u8>) -> Seq<u8> {
    match first_space_from(b, 0) {
        Some(i) => b.subrange(0, i),
        None => b,
    }
}

/// The payload of a frame: its bytes after the first space, if it has one.
pub open spec fn payload_of(b: Seq<u8>) -> Option<Seq<u8>> {
    match first_space_from(b, 0) {
        Some(i) => Some(b.subrange(i + 1, b.len() as int)),
        None => None,
    }
}

/// The bytes of the word `w`.
pub open spec fn word(w: Seq<char>) -> Seq<u8> {
    encode_utf8(w)
}

/// Whether `r` is what the frame text `b` (terminator removed) parses to:
/// the command word decides the kind, and the payload after the first space
/// is read as JSON where the kind has one.
pub open spec fn parses_to(b: Seq<u8>, r: Result<Response, ResponseParseError>) -> bool {
    if !valid_utf8(b) {
        r matches Err(ResponseParseError::NotUtf8)
    } else if b.len() == 0 {
        r matches Err(ResponseParseError::EmptyResponse)
    } else if command_of(b) == word("ok"@) {
        r matches Ok(Response::Okay)
    } else if command_of(b) == word("results"@) {
        match payload_of(b) {
            None => r matches Err(ResponseParseError::EmptyResults),
            Some(p) => match json_of(p) {
                None => r matches Err(ResponseParseError::InvalidResults(JsonError::Syntax(_))),
                Some(j) => r matches Ok(Response::Results(res)) && res@ == j,
            },
        }
    } else if command_of(b) == word("dbstats"@) {
        match payload_of(b) {
            None => r matches Err(ResponseParseError::EmptyDbStats),
            Some(p) => match json_of(p) {
                None => r matches Err(ResponseParseError::InvalidDbStats(JsonError::Syntax(_))),
                Some(j) => match dbstats_of(j) {
                    None => r matches Err(ResponseParseError::InvalidDbStats(JsonError::Mismatch)),
                    Some(d) => r == Ok::<Response, ResponseParseError>(Response::DBstats(d)),
                },
            },
        }
    } else if command_of(b) == word("error"@) {
        match payload_of(b) {
            None => r matches Err(ResponseParseError::EmptyError),
            Some(p) => match json_of(p) {
                None => r matches Err(ResponseParseError::InvalidError(JsonError::Syntax(_))),
                Some(j) => match vndb_error_of(j) {
                    None => r matches Err(ResponseParseError::InvalidError(JsonError::Mismatch)),
                    Some((id, msg)) => r matches Ok(Response::Error(e)) && e.id@ == id && e.msg@
                        == msg,
                },
            },
        }
    } else {
        r matches Err(ResponseParseError::UnknownCommand)
    }
}

/// Whether `b[from..to]` holds the bytes of `w`.
fn bytes_equal(b: &[u8], from: usize, to: usize, w: &[u8]) -> (r: bool)
    requires
        from <= to <= b@.len(),
    ensures
        r == (b@.subrange(from as int, to as int) == w@),
{
    if to - from != w.len() {
        assert(b@.subrange(from as int, to as int).len() != w@.len());
        return false;
    }
    let mut i: usize = 0;
    while i < w.len()
        invariant
            from <= to <= b@.len(),
            to - from == w@.len(),
            i <= w@.len(),
            forall|k: int| 0 <= k < i ==> b@[from + k] == w@[k],
        decreases w@.len() - i,
    {
        if b[from + i] != w[i] {
            assert(b@.subrange(from as int, to as int)[i as int] != w@[i as int]);
            return false;
        }
        i = i + 1;
    }
    assert(b@.subrange(from as int, to as int) =~= w@);
    true
}

/// The index of the first space in `b`.
fn find_space(b: &[u8]) -> (r: Option<usize>)
    ensures
        r matches Some(i) ==> i < b@.len() && first_space_from(b@, 0) == Some(i as int),
        r is None ==> first_space_from(b@, 0) is None,
{
    let mut i: usize = 0;
    while i < b.len()
        invariant
            i <= b@.len(),
            first_space_from(b@, 0) == first_space_from(b@, i as int),
        decreases b@.len() - i,
    {
        if b[i] == 0x20 {
            return Some(i);
        }
        i = i + 1;
    }
    None
}

/// Parses the text of one frame, its terminator removed (`parses_to`).
pub fn parse_frame(b: &[u8]) -> (r: Result<Response, ResponseParseError>)
    ensures
        parses_to(b@, r),
{
    if !is_utf8(b) {
        return Err(ResponseParseError::NotUtf8);
    }
    if b.len() == 0 {
        return Err(ResponseParseError::EmptyResponse);
    }
    let space = find_space(b);
    let end = match space {
        Some(i) => i,
        None => b.len(),
    };
    assert(command_of(b@) == b@.subrange(0, end as int)) by {
        if space is None {
            assert(b@.subrange(0, b@.len() as int) =~= b@);
        }
    }
    if bytes_equal(b, 0, end, "ok".as_bytes()) {
        return Ok(Response::Okay);
    }
    let is_results = bytes_equal(b, 0, end, "results".as_bytes());
    let is_dbstats = bytes_equal(b, 0, end, "dbstats".as_bytes());
    let is_error = bytes_equal(b, 0, end, "error".as_bytes());
    if !is_results && !is_dbstats && !is_error {
        return Err(ResponseParseError::UnknownCommand);
    }
    let start = match space {
        Some(i) => i + 1,
        None => {
            return if is_results {
                Err(ResponseParseError::EmptyResults)
            } else if is_dbstats {
                Err(ResponseParseError::EmptyDbStats)
            } else {
                Err(ResponseParseError::EmptyError)
            };
        },
    };
    let payload = slice_subrange(b, start, b.len());
    let parsed = parse_json(payload);
    if is_results {
        match parsed {
            Ok(j) => Ok(Response::Results(Results { inner: j })),
            Err(e) => Err(ResponseParseError::InvalidResults(JsonError::Syntax(e))),
        }
    } else if is_dbstats {
        match parsed {
            Ok(j) => match DBstats::from_json(&j) {
                Some(d) => Ok(Response::DBstats(d)),
                None => Err(ResponseParseError::InvalidDbStats(JsonError::Mismatch)),
            },
            Err(e) => Err(ResponseParseError::InvalidDbStats(JsonError::Syntax(e))),
        }
    } else {
        match parsed {
            Ok(j) => match VndbError::from_json(&j) {
                Some(e) => Ok(Response::Error(e)),
                None => Err(ResponseParseError::InvalidError(JsonError::Mismatch)),
            },
            Err(e) => Err(ResponseParseError::InvalidError(JsonError::Syntax(e))),
        }
    }
}

/// Relies on `core::str::from_utf8`: it succeeds exactly on valid UTF-8.
#[verifier::external_body]
fn is_utf8(b: &[u8]) -> (r: bool)
    ensures
        r == valid_utf8(b@),
{
    core::str::from_utf8(b).is_ok()
}

impl Response {
    /// Parses the text of one frame, without its terminator (`parses_to`).
    pub fn from_str(msg: &str) -> (r: Result<Response, ResponseParseError>)
        ensures
            parses_to(msg.spec_bytes(), r),
    {
        parse_frame(msg.as_bytes())
    }
}

} // verus!
