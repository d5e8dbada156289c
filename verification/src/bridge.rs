//! The line protocol between the host and the workflow sidecar.
use crate::error::{INVALID_PARAMS, INVALID_REQUEST};
use crate::json::{
    as_number, copy, empty_object, get, json_of_bytes, member_is, member_text, null, parse_bytes,
    tree, Json,
};
use crate::path::{is_absolute, path_is_absolute};
use crate::registry::Registry;
use crate::text::{decimal, decimal_is_injective, number, plus, plus3, same};
use vstd::prelude::*;
use vstd::string::*;
use vstd::utf8::{encode_utf8, is_char_boundary};

verus! {

/// The longest line of the protocol, in bytes.
pub const MAX_LINE_BYTES: usize = 8388608;

/// How many requests may wait for their answers.
pub const MAX_PENDING: usize = 1024;

/// How much of the sidecar's error output is kept, in bytes.
pub const STDERR_BYTES: usize = 65536;

/// An error of the protocol. Where the outcome is unresolved, the other side may have acted.
#[derive(Debug)]
pub struct BridgeError {
    pub code: String,
    pub message: String,
    pub outcome_unresolved: bool,
}

/// The code of a worker that was not started, by that of the server.
pub open spec fn worker_start_code(server_code: Option<i64>) -> Seq<char> {
    if server_code == Some(INVALID_REQUEST) || server_code == Some(INVALID_PARAMS) {
        "INVALID_WORKER_CONFIGURATION"@
    } else {
        "HOST_ERROR"@
    }
}

impl BridgeError {
    pub open spec fn is(self, code: Seq<char>, message: Seq<char>, unresolved: bool) -> bool {
        self.code@ == code && self.message@ == message && self.outcome_unresolved == unresolved
    }

    pub fn internal(message: &str, unresolved: bool) -> (res: BridgeError)
        ensures
            res.is("INTERNAL"@, message@, unresolved),
    {
        BridgeError {
            code: "INTERNAL".to_owned(),
            message: message.to_owned(),
            outcome_unresolved: unresolved,
        }
    }

    pub fn host(message: &str) -> (res: BridgeError)
        ensures
            res.is("HOST_ERROR"@, message@, false),
    {
        BridgeError {
            code: "HOST_ERROR".to_owned(),
            message: message.to_owned(),
            outcome_unresolved: false,
        }
    }

    pub fn host_code(code: &str, message: &str) -> (res: BridgeError)
        ensures
            res.is(code@, message@, false),
    {
        BridgeError {
            code: code.to_owned(),
            message: message.to_owned(),
            outcome_unresolved: false,
        }
    }

    /// The error of a worker that was not started. A server that rejected the request, going by its
    /// code, names the configuration.
    pub fn worker_start(server_code: Option<i64>, message: &str) -> (res: BridgeError)
        ensures
            res.is(worker_start_code(server_code), message@, false),
    {
        match server_code {
            Some(code) => if code == INVALID_REQUEST || code == INVALID_PARAMS {
                BridgeError::host_code("INVALID_WORKER_CONFIGURATION", message)
            } else {
                BridgeError::host(message)
            },
            None => BridgeError::host(message),
        }
    }

    /// The error in one line.
    pub fn text(&self) -> (res: String)
        ensures
            res@ == self.code@ + ": "@ + self.message@,
    {
        plus3(self.code.as_str(), ": ", self.message.as_str())
    }
}

/// Whether a process can be launched with these directories.
pub open spec fn can_be_launched(
    plugin_root: Seq<char>,
    cwd: Seq<char>,
    state_dir: Seq<char>,
) -> bool {
    is_absolute(plugin_root) && is_absolute(cwd) && is_absolute(state_dir)
}

/// Rejects a launch whose directories are not absolute.
pub fn check_launch(plugin_root: &str, cwd: &str, state_dir: &str) -> (res: Result<(), BridgeError>)
    ensures
        res is Ok <==> can_be_launched(plugin_root@, cwd@, state_dir@),
        res matches Err(error) ==> error.is("INTERNAL"@, "bridge paths must be absolute"@, false),
{
    if path_is_absolute(plugin_root) && path_is_absolute(cwd) && path_is_absolute(state_dir) {
        Ok(())
    } else {
        Err(BridgeError::internal("bridge paths must be absolute", false))
    }
}

/// What came in so far: the lines that are complete, and the line that is not.
pub struct Framing {
    pub lines: Seq<Seq<u8>>,
    pub rest: Seq<u8>,
    /// A line was longer than allowed; nothing after it counts.
    pub overflow: bool,
}

/// The framing after one more byte.
pub open spec fn framed_byte(framing: Framing, byte: u8) -> Framing {
    if framing.overflow {
        framing
    } else if byte == 10 {
        Framing { lines: framing.lines.push(framing.rest), rest: Seq::empty(), overflow: false }
    } else if framing.rest.len() >= MAX_LINE_BYTES {
        Framing { overflow: true, ..framing }
    } else {
        Framing { rest: framing.rest.push(byte), ..framing }
    }
}

/// The framing after more bytes.
pub open spec fn framed(framing: Framing, bytes: Seq<u8>) -> Framing
    decreases bytes.len(),
{
    if bytes.len() == 0 {
        framing
    } else {
        framed_byte(framed(framing, bytes.drop_last()), bytes.last())
    }
}

/// The framing before anything came in.
pub open spec fn unframed() -> Framing {
    Framing { lines: Seq::empty(), rest: Seq::empty(), overflow: false }
}

/// It does not matter how the bytes are cut into chunks.
pub proof fn framing_ignores_chunks(framing: Framing, first: Seq<u8>, second: Seq<u8>)
    ensures
        framed(framed(framing, first), second) == framed(framing, first + second),
    decreases second.len(),
{
    if second.len() == 0 {
        assert(first + second =~= first);
    } else {
        assert((first + second).drop_last() =~= first + second.drop_last());
        framing_ignores_chunks(framing, first, second.drop_last());
    }
}

/// No line is longer than allowed, whatever comes in.
pub proof fn lines_are_bounded(bytes: Seq<u8>, i: int)
    ensures
        framed(unframed(), bytes).rest.len() <= MAX_LINE_BYTES,
        0 <= i < framed(unframed(), bytes).lines.len() ==> framed(
            unframed(),
            bytes,
        ).lines[i].len() <= MAX_LINE_BYTES,
    decreases bytes.len(),
{
    if bytes.len() > 0 {
        lines_are_bounded(bytes.drop_last(), i);
    }
}

/// Cuts incoming bytes into lines.
#[derive(Debug)]
pub struct LineReader {
    pub rest: Vec<u8>,
    pub overflow: bool,
}

/// The lines as sequences of bytes.
pub open spec fn line_views(lines: Seq<Vec<u8>>) -> Seq<Seq<u8>> {
    lines.map_values(|line: Vec<u8>| line@)
}

impl LineReader {
    pub fn new() -> (res: LineReader)
        ensures
            res.rest@ == Seq::<u8>::empty(),
            !res.overflow,
    {
        LineReader { rest: Vec::new(), overflow: false }
    }

    /// Takes a chunk in and hands out the lines that it completes. After an overflow the connection
    /// must be closed.
    pub fn feed(&mut self, chunk: &[u8]) -> (res: Vec<Vec<u8>>)
        ensures
            ({
                let before = Framing {
                    lines: Seq::empty(),
                    rest: old(self).rest@,
                    overflow: old(self).overflow,
                };
                let after = framed(before, chunk@);
                &&& line_views(res@) == after.lines
                &&& final(self).rest@ == after.rest
                &&& final(self).overflow == after.overflow
            }),
    {
        let ghost before = Framing {
            lines: Seq::empty(),
            rest: self.rest@,
            overflow: self.overflow,
        };
        let mut lines: Vec<Vec<u8>> = Vec::new();
        let mut i: usize = 0;
        assert(line_views(lines@) =~= framed(before, chunk@.take(0)).lines);
        while i < chunk.len()
            invariant
                i <= chunk@.len(),
                line_views(lines@) == framed(before, chunk@.take(i as int)).lines,
                self.rest@ == framed(before, chunk@.take(i as int)).rest,
                self.overflow == framed(before, chunk@.take(i as int)).overflow,
            decreases chunk@.len() - i,
        {
            let ghost done = lines@;
            assert(chunk@.take(i + 1).drop_last() =~= chunk@.take(i as int));
            let byte: u8 = chunk[i];
            if !self.overflow {
                if byte == 10 {
                    let mut line: Vec<u8> = Vec::new();
                    line.append(&mut self.rest);
                    let ghost bytes = line@;
                    lines.push(line);
                    assert(line_views(lines@) =~= line_views(done).push(bytes));
                } else if self.rest.len() >= MAX_LINE_BYTES {
                    self.overflow = true;
                } else {
                    self.rest.push(byte);
                }
            }
            i = i + 1;
        }
        assert(chunk@.take(chunk@.len() as int) =~= chunk@);
        lines
    }
}

/// A message of the sidecar.
#[derive(Debug)]
pub enum BridgeMessage {
    RunChanged { run_id: String, revision: u64 },
    Request { id: String, method: String, params: serde_json::Value },
    Reply { id: String, result: Result<serde_json::Value, BridgeError> },
    Ignored,
}

/// The member of a member, where there is one.
pub open spec fn nested_text(value: Json, outer: Seq<char>, inner: Seq<char>) -> Option<Seq<char>> {
    match value.member(outer) {
        Some(member) => member.member_text(inner),
        None => None,
    }
}

/// Whether a message is what a value of the protocol says. An event counts before a request, and a
/// request before a reply.
pub open spec fn is_message(message: BridgeMessage, value: Json) -> bool {
    let event = value.member_text("event"@);
    let id = value.member_text("id"@);
    let method = value.member_text("method"@);
    let run_id = value.member_text("runId"@);
    if event is Some {
        match message {
            BridgeMessage::RunChanged { run_id: run, revision } => event == Some("runChanged"@)
                && run_id == Some(run@) && (value.member("revision"@) matches Some(number)
                && number.is_number(revision)),
            BridgeMessage::Ignored => !(event == Some("runChanged"@) && run_id is Some && (
            value.member("revision"@) matches Some(number) && exists|n: u64| #[trigger]
                number.is_number(n))),
            _ => false,
        }
    } else if id is None {
        message is Ignored
    } else if method is Some {
        message matches BridgeMessage::Request { id: request, method: name, params } && id == Some(
            request@,
        ) && method == Some(name@) && tree(params) == match value.member("params"@) {
            Some(params) => params,
            None => Json::Object(Map::empty()),
        }
    } else {
        message matches BridgeMessage::Reply { id: reply, result } && id == Some(reply@)
            && is_result(result, value)
    }
}

/// Whether a result is what a reply says.
pub open spec fn is_result(result: Result<serde_json::Value, BridgeError>, value: Json) -> bool {
    if value.member_is("ok"@, true) {
        result matches Ok(body) && tree(body) == match value.member("result"@) {
            Some(body) => body,
            None => Json::Null,
        }
    } else {
        result matches Err(error) && error.is(
            match nested_text(value, "error"@, "code"@) {
                Some(code) => code,
                None => "INTERNAL"@,
            },
            match nested_text(value, "error"@, "message"@) {
                Some(message) => message,
                None => "invalid bridge error"@,
            },
            false,
        )
    }
}

fn nested(value: &serde_json::Value, outer: &str, inner: &str, default: &str) -> (res: String)
    ensures
        res@ == match nested_text(tree(*value), outer@, inner@) {
            Some(text) => text,
            None => default@,
        },
{
    let found = match get(value, outer) {
        Some(member) => member_text(member, inner),
        None => None,
    };
    match found {
        Some(text) => text,
        None => default.to_owned(),
    }
}

/// Reads a value of the protocol.
pub fn read_message(value: &serde_json::Value) -> (res: BridgeMessage)
    ensures
        is_message(res, tree(*value)),
{
    match member_text(value, "event") {
        Some(event) => {
            if same(event.as_str(), "runChanged") {
                let revision = match get(value, "revision") {
                    Some(member) => as_number(member),
                    None => None,
                };
                match (member_text(value, "runId"), revision) {
                    (Some(run_id), Some(revision)) => {
                        return BridgeMessage::RunChanged { run_id, revision };
                    },
                    _ => {},
                }
            }
            return BridgeMessage::Ignored;
        },
        None => {},
    }
    let id = match member_text(value, "id") {
        Some(id) => id,
        None => {
            return BridgeMessage::Ignored;
        },
    };
    match member_text(value, "method") {
        Some(method) => {
            let params = match get(value, "params") {
                Some(params) => copy(params),
                None => empty_object(),
            };
            return BridgeMessage::Request { id, method, params };
        },
        None => {},
    }
    let result = if member_is(value, "ok", true) {
        match get(value, "result") {
            Some(body) => Ok(copy(body)),
            None => Ok(null()),
        }
    } else {
        Err(
            BridgeError {
                code: nested(value, "error", "code", "INTERNAL"),
                message: nested(value, "error", "message", "invalid bridge error"),
                outcome_unresolved: false,
            },
        )
    };
    BridgeMessage::Reply { id, result }
}

/// Reads a line of the protocol; one that is not JSON is ignored.
pub fn read_line(line: &[u8]) -> (res: BridgeMessage)
    ensures
        match json_of_bytes(line@) {
            Ok(value) => is_message(res, value),
            Err(_) => res is Ignored,
        },
{
    match parse_bytes(line) {
        Ok(value) => read_message(&value),
        Err(_) => BridgeMessage::Ignored,
    }
}

/// The identity of a request: unique for as long as the sequence does not wrap.
pub open spec fn request_name(sequence: nat) -> Seq<char> {
    "rust:"@ + decimal(sequence)
}

/// Whether this tells that a line could not be written.
pub open spec fn is_write_error(error: BridgeError, message: Seq<char>) -> bool {
    error.is(
        "INTERNAL"@,
        "bridge write failed: "@ + message + "; remote outcome unresolved"@,
        true,
    )
}

/// Whether this tells that the way to the peer is closed.
pub open spec fn is_closed_error(error: BridgeError) -> bool {
    error.is("INTERNAL"@, "bridge stdin closed; remote outcome unresolved"@, true)
}

/// The error of a line that could not be written, be it a request, an answer or an event.
pub fn write_error(message: &str) -> (res: BridgeError)
    ensures
        is_write_error(res, message@),
{
    BridgeError::internal(
        plus3("bridge write failed: ", message, "; remote outcome unresolved").as_str(),
        true,
    )
}

/// The error of a line that found the way to the peer closed.
pub fn closed_error() -> (res: BridgeError)
    ensures
        is_closed_error(res),
{
    BridgeError::internal("bridge stdin closed; remote outcome unresolved", true)
}

/// Whether a request was entered, or refused.
pub open spec fn is_begun(
    before: PendingRequests,
    res: Result<String, BridgeError>,
    after: PendingRequests,
) -> bool {
    if before.is_closed() {
        &&& res matches Err(error)
        &&& error.is("INTERNAL"@, "bridge is closed"@, false)
        &&& after.map() == before.map()
        &&& after.sequence() == before.sequence()
    } else if before.size() >= MAX_PENDING {
        &&& res matches Err(error)
        &&& error.is("INTERNAL"@, "bridge pending request limit exceeded"@, false)
        &&& after.map() == before.map()
        &&& after.sequence() == before.sequence() + 1
    } else {
        &&& res matches Ok(id)
        &&& id@ == request_name((before.sequence() + 1) as nat)
        &&& after.sequence() == before.sequence() + 1
        &&& after.map() == before.map().insert(id@, (before.sequence() + 1) as u64)
    }
}

/// Whether a request was taken out, where it still waited.
pub open spec fn is_settled(
    before: PendingRequests,
    id: Seq<char>,
    waited: bool,
    after: PendingRequests,
) -> bool {
    waited == before.map().dom().contains(id) && after.map() == before.map().remove(id)
}

/// The requests that wait for their answers.
pub struct PendingRequests {
    table: Registry<u64>,
    sequence: u64,
    closed: bool,
}

impl PendingRequests {
    /// The requests that wait, each with its position in the sequence.
    pub closed spec fn map(self) -> Map<Seq<char>, u64> {
        self.table.map()
    }

    pub closed spec fn size(self) -> nat {
        self.table.size()
    }

    pub closed spec fn sequence(self) -> u64 {
        self.sequence
    }

    pub closed spec fn is_closed(self) -> bool {
        self.closed
    }

    /// Not too many requests wait, and none once the connection is closed.
    pub closed spec fn well_formed(self) -> bool {
        &&& self.table.well_formed()
        &&& self.table.size() <= MAX_PENDING
        &&& self.closed ==> self.table.map() == Map::<Seq<char>, u64>::empty()
    }

    pub fn new() -> (res: PendingRequests)
        ensures
            res.well_formed(),
            res.map() == Map::<Seq<char>, u64>::empty(),
            res.size() == 0,
            res.sequence() == 0,
            !res.is_closed(),
    {
        PendingRequests { table: Registry::new(), sequence: 0, closed: false }
    }

    /// Never more than the limit wait, and after the connection is closed nothing does.
    pub proof fn limits_hold(self)
        requires
            self.well_formed(),
        ensures
            self.size() <= MAX_PENDING,
            self.is_closed() ==> self.map() == Map::<Seq<char>, u64>::empty(),
    {
    }

    /// Enters a request and gives it its identity.
    pub fn begin(&mut self) -> (res: Result<String, BridgeError>)
        requires
            old(self).well_formed(),
            old(self).sequence() < u64::MAX,
        ensures
            final(self).well_formed(),
            final(self).is_closed() == old(self).is_closed(),
            is_begun(*old(self), res, *final(self)),
    {
        if self.closed {
            return Err(BridgeError::internal("bridge is closed", false));
        }
        self.sequence = self.sequence + 1;
        if self.table.len() >= MAX_PENDING {
            return Err(BridgeError::internal("bridge pending request limit exceeded", false));
        }
        let id = plus("rust:", number(self.sequence).as_str());
        self.table.insert(id.clone(), self.sequence);
        Ok(id)
    }

    /// Takes a request out, because it was answered, failed or timed out. The result tells whether
    /// it still waited: an answer counts once.
    pub fn settle(&mut self, id: &str) -> (res: bool)
        requires
            old(self).well_formed(),
        ensures
            final(self).well_formed(),
            final(self).sequence() == old(self).sequence(),
            final(self).is_closed() == old(self).is_closed(),
            is_settled(*old(self), id@, res, *final(self)),
    {
        let found = self.table.remove(id);
        assert(self.closed ==> self.table.map() =~= Map::<Seq<char>, u64>::empty());
        found.is_some()
    }

    /// Lets a request's line be sent, or refuses it because it is too long; a refused request does
    /// not wait.
    pub fn check_request(&mut self, id: &str, line: &[u8]) -> (res: Result<(), BridgeError>)
        requires
            old(self).well_formed(),
        ensures
            final(self).well_formed(),
            final(self).sequence() == old(self).sequence(),
            final(self).is_closed() == old(self).is_closed(),
            if line@.len() <= MAX_LINE_BYTES {
                res is Ok && final(self).map() == old(self).map()
            } else {
                &&& res matches Err(error)
                &&& error.is("INTERNAL"@, "outgoing bridge line exceeds 8 MiB"@, false)
                &&& final(self).map() == old(self).map().remove(id@)
            },
    {
        match check_outgoing(line) {
            Ok(_) => Ok(()),
            Err(error) => {
                let _ = self.settle(id);
                Err(error)
            },
        }
    }

    /// Takes a request out whose line could not be written. Part of it may have been, so what the
    /// other side did is not known.
    pub fn write_failed(&mut self, id: &str, message: &str) -> (res: BridgeError)
        requires
            old(self).well_formed(),
        ensures
            final(self).well_formed(),
            final(self).sequence() == old(self).sequence(),
            final(self).is_closed() == old(self).is_closed(),
            final(self).map() == old(self).map().remove(id@),
            is_write_error(res, message@),
    {
        let _ = self.settle(id);
        write_error(message)
    }

    /// Takes a request out that found the way to the peer closed, which may have happened after the
    /// request was entered; what the other side did is not known.
    pub fn writer_closed(&mut self, id: &str) -> (res: BridgeError)
        requires
            old(self).well_formed(),
        ensures
            final(self).well_formed(),
            final(self).sequence() == old(self).sequence(),
            final(self).is_closed() == old(self).is_closed(),
            final(self).map() == old(self).map().remove(id@),
            is_closed_error(res),
    {
        let _ = self.settle(id);
        closed_error()
    }

    /// Ends the waiting for an answer: the result of the request, which waits no longer.
    pub fn finish(&mut self, id: &str, waited: Waited) -> (res: Result<
        serde_json::Value,
        BridgeError,
    >)
        requires
            old(self).well_formed(),
        ensures
            final(self).well_formed(),
            final(self).sequence() == old(self).sequence(),
            final(self).is_closed() == old(self).is_closed(),
            final(self).map() == old(self).map().remove(id@),
            is_waited_result(waited, res),
    {
        let _ = self.settle(id);
        request_result(waited)
    }

    /// Closes the connection and hands out the requests that still wait, each once; nothing where it
    /// was closed before.
    pub fn disconnect(&mut self) -> (res: Vec<String>)
        requires
            old(self).well_formed(),
        ensures
            final(self).well_formed(),
            final(self).is_closed(),
            final(self).sequence() == old(self).sequence(),
            final(self).map() == Map::<Seq<char>, u64>::empty(),
            forall|i: int|
                0 <= i < res@.len() ==> old(self).map().dom().contains(#[trigger] res@[i]@),
            forall|id: Seq<char>| #[trigger]
                old(self).map().dom().contains(id) ==> exists|i: int|
                    0 <= i < res@.len() && #[trigger] res@[i]@ == id,
            forall|i: int, j: int|
                0 <= i < res@.len() && 0 <= j < res@.len() && #[trigger] res@[i]@
                    == #[trigger] res@[j]@ ==> i == j,
    {
        let waiting = self.table.keys();
        self.table = Registry::new();
        self.closed = true;
        waiting
    }
}

/// How waiting for an answer ended.
#[derive(Debug)]
pub enum Waited {
    Replied(Result<serde_json::Value, BridgeError>),
    Disconnected,
    TimedOut,
}

/// Whether this is the result of a request whose waiting ended so. Without a reply, what the other
/// side did is not known.
pub open spec fn is_waited_result(
    waited: Waited,
    res: Result<serde_json::Value, BridgeError>,
) -> bool {
    match waited {
        Waited::Replied(result) => res == result,
        Waited::Disconnected => res matches Err(error) && error.is(
            "INTERNAL"@,
            "bridge disconnected; remote outcome unresolved"@,
            true,
        ),
        Waited::TimedOut => res matches Err(error) && error.is(
            "INTERNAL"@,
            "bridge request timed out; remote outcome unresolved"@,
            true,
        ),
    }
}

/// The result of a request.
pub fn request_result(waited: Waited) -> (res: Result<serde_json::Value, BridgeError>)
    ensures
        is_waited_result(waited, res),
{
    match waited {
        Waited::Replied(result) => result,
        Waited::Disconnected => Err(
            BridgeError::internal("bridge disconnected; remote outcome unresolved", true),
        ),
        Waited::TimedOut => Err(
            BridgeError::internal("bridge request timed out; remote outcome unresolved", true),
        ),
    }
}

/// Whether a line is short enough to be sent.
pub open spec fn can_be_sent(line: Seq<u8>) -> bool {
    line.len() <= MAX_LINE_BYTES
}

/// Rejects a line that is too long to be sent.
pub fn check_outgoing(line: &[u8]) -> (res: Result<(), BridgeError>)
    ensures
        res is Ok <==> can_be_sent(line@),
        res matches Err(error) ==> error.is(
            "INTERNAL"@,
            "outgoing bridge line exceeds 8 MiB"@,
            false,
        ),
{
    if line.len() > MAX_LINE_BYTES {
        Err(BridgeError::internal("outgoing bridge line exceeds 8 MiB", false))
    } else {
        Ok(())
    }
}

/// The last part of a text, by its bytes.
pub open spec fn last_bytes(text: Seq<char>, limit: nat) -> Seq<u8> {
    let bytes = encode_utf8(text);
    if bytes.len() <= limit {
        bytes
    } else {
        bytes.subrange(bytes.len() - limit, bytes.len() as int)
    }
}

/// Whether the last part of a text starts with a whole character.
pub open spec fn cuts_between_chars(text: Seq<char>, limit: nat) -> bool {
    let bytes = encode_utf8(text);
    bytes.len() <= limit || is_char_boundary(bytes, bytes.len() - limit)
}

/// Appends to the kept error output of the sidecar and drops what is too old.
pub fn read_stderr(text: &str, chunk: &str) -> (res: String)
    requires
        cuts_between_chars(text@ + chunk@, STDERR_BYTES as nat),
    ensures
        encode_utf8(res@) == last_bytes(text@ + chunk@, STDERR_BYTES as nat),
        encode_utf8(text@ + chunk@).len() <= STDERR_BYTES ==> res@ == text@ + chunk@,
{
    let all = plus(text, chunk);
    let n: usize = all.as_str().as_bytes().len();
    if n <= STDERR_BYTES {
        return all;
    }
    let (_, kept) = all.as_str().split_at(n - STDERR_BYTES);
    kept.to_owned()
}

/// A step of handing the parents of a frontend over to the background.
#[derive(Clone, Copy, Debug, PartialEq, Eq, Structural)]
pub enum DetachStep {
    /// Detaches the parent at this position.
    Detach(usize),
    /// Attaches the parent at this position again.
    Reattach(usize),
    Done,
    Failed,
}

/// What follows a step. When one parent cannot be detached, it and all before it are attached again,
/// in the opposite order.
pub open spec fn detach_next(count: usize, step: DetachStep, succeeded: bool) -> DetachStep {
    match step {
        DetachStep::Detach(i) => if !succeeded {
            DetachStep::Reattach(i)
        } else if i + 1 < count {
            DetachStep::Detach((i + 1) as usize)
        } else {
            DetachStep::Done
        },
        DetachStep::Reattach(i) => if i == 0 {
            DetachStep::Failed
        } else {
            DetachStep::Reattach((i - 1) as usize)
        },
        end => end,
    }
}

pub fn after_detach_step(count: usize, step: DetachStep, succeeded: bool) -> (res: DetachStep)
    ensures
        res == detach_next(count, step, succeeded),
{
    match step {
        DetachStep::Detach(i) => {
            if !succeeded {
                DetachStep::Reattach(i)
            } else if i < count && count - i > 1 {
                DetachStep::Detach(i + 1)
            } else {
                DetachStep::Done
            }
        },
        DetachStep::Reattach(i) => {
            if i == 0 {
                DetachStep::Failed
            } else {
                DetachStep::Reattach(i - 1)
            }
        },
        end => end,
    }
}

/// Whether every parent is supervised in the background.
pub open spec fn can_be_handed_over(supervised: Seq<bool>) -> bool {
    !supervised.contains(false)
}

/// The first step of a handover.
pub open spec fn first_detach(supervised: Seq<bool>) -> DetachStep {
    if supervised.len() == 0 {
        DetachStep::Done
    } else {
        DetachStep::Detach(0)
    }
}

/// Starts a handover. It is refused unless every parent is supervised in the background.
pub fn begin_detach(supervised: &Vec<bool>) -> (res: Result<DetachStep, BridgeError>)
    ensures
        res is Ok <==> can_be_handed_over(supervised@),
        res matches Ok(step) ==> step == first_detach(supervised@),
        res matches Err(error) ==> error.is(
            "HOST_ERROR"@,
            "Background workflows require the native workflow host; this frontend still owns execution."@,
            false,
        ),
{
    let mut i: usize = 0;
    while i < supervised.len()
        invariant
            i <= supervised@.len(),
            forall|j: int| 0 <= j < i ==> #[trigger] supervised@[j],
        decreases supervised@.len() - i,
    {
        if !supervised[i] {
            assert(!supervised@[i as int]);
            return Err(
                BridgeError::host(
                    "Background workflows require the native workflow host; this frontend still owns execution.",
                ),
            );
        }
        i = i + 1;
    }
    if supervised.len() == 0 {
        Ok(DetachStep::Done)
    } else {
        Ok(DetachStep::Detach(0))
    }
}

/// The parents that are detached before and after a step of a handover of `count` parents: a step
/// that detaches or attaches stands between the ones before it and the rest.
pub open spec fn detached_parents(count: usize, step: DetachStep) -> int {
    match step {
        DetachStep::Detach(i) => i as int,
        DetachStep::Reattach(i) => i + 1,
        DetachStep::Done => count as int,
        DetachStep::Failed => 0,
    }
}

/// A handover is all or nothing, as far as the requests succeed: when it is done every parent was
/// detached, when it failed every parent that was tried was attached again, and each step changes
/// one parent only.
pub proof fn handover_is_all_or_nothing(count: usize, step: DetachStep, succeeded: bool)
    requires
        step matches DetachStep::Detach(i) ==> i < count,
        step matches DetachStep::Reattach(i) ==> i < count,
    ensures
        ({
            let next = detach_next(count, step, succeeded);
            &&& next matches DetachStep::Detach(i) ==> i < count
            &&& next matches DetachStep::Reattach(i) ==> i < count
            &&& step matches DetachStep::Detach(_) ==> detached_parents(count, next)
                == detached_parents(count, step) + 1
            &&& step matches DetachStep::Reattach(_) ==> detached_parents(count, next)
                == detached_parents(count, step) - 1
            &&& step is Detach && succeeded ==> !(next is Reattach || next is Failed)
            &&& step is Reattach ==> !(next is Detach || next is Done)
        }),
{
}

/// Whether a reply tells that a parent is detached and its workers go on.
pub open spec fn tells_detached(reply: Json) -> bool {
    reply.member_is("attached"@, false) && reply.member_is("workersContinue"@, true)
}

/// Whether a parent acknowledged that it is detached and its workers go on.
pub fn detach_acknowledged(reply: &serde_json::Value) -> (res: Result<(), BridgeError>)
    ensures
        res is Ok <==> tells_detached(tree(*reply)),
        res matches Err(error) ==> error.is(
            "HOST_ERROR"@,
            "invalid workflow detach acknowledgement"@,
            false,
        ),
{
    if member_is(reply, "attached", false) && member_is(reply, "workersContinue", true) {
        Ok(())
    } else {
        Err(BridgeError::host("invalid workflow detach acknowledgement"))
    }
}

/// Notes in the error of a handover that a parent could not be attached again.
pub fn note_reattachment(
    error: BridgeError,
    parent_id: &str,
    recovery: &BridgeError,
) -> (res: BridgeError)
    ensures
        res.code == error.code,
        res.outcome_unresolved == error.outcome_unresolved,
        res.message@ == error.message@ + "; reattachment for "@ + parent_id@ + " failed: "@
            + recovery.code@ + ": "@ + recovery.message@,
{
    let mut message = error.message;
    message.append("; reattachment for ");
    message.append(parent_id);
    message.append(" failed: ");
    message.append(recovery.code.as_str());
    message.append(": ");
    message.append(recovery.message.as_str());
    BridgeError { code: error.code, message, outcome_unresolved: error.outcome_unresolved }
}

/// The bytes of lines, each with the line feed that ends it.
pub open spec fn bytes_of(lines: Seq<Seq<u8>>) -> Seq<u8>
    decreases lines.len(),
{
    if lines.len() == 0 {
        Seq::empty()
    } else {
        bytes_of(lines.drop_last()) + lines.last().push(10)
    }
}

/// Framing loses nothing and adds nothing: until a line is too long, the lines with their line feeds
/// and what is left over are the bytes that came in, and no line holds a line feed.
pub proof fn framing_keeps_the_bytes(bytes: Seq<u8>)
    ensures
        ({
            let framing = framed(unframed(), bytes);
            &&& !framing.overflow ==> bytes_of(framing.lines) + framing.rest == bytes
            &&& forall|i: int| 0 <= i < framing.rest.len() ==> framing.rest[i] != 10
            &&& forall|i: int, j: int|
                0 <= i < framing.lines.len() && 0 <= j < framing.lines[i].len()
                    ==> #[trigger] framing.lines[i][j] != 10
        }),
    decreases bytes.len(),
{
    if bytes.len() == 0 {
        assert(bytes_of(unframed().lines) + unframed().rest =~= bytes);
    } else {
        let head = bytes.drop_last();
        let byte = bytes.last();
        framing_keeps_the_bytes(head);
        let before = framed(unframed(), head);
        let after = framed(unframed(), bytes);
        if !after.overflow {
            assert(head.push(byte) =~= bytes);
            if byte == 10 {
                assert(after.lines.drop_last() =~= before.lines);
                assert(bytes_of(after.lines) + after.rest =~= (bytes_of(before.lines)
                    + before.rest).push(byte));
            } else {
                assert(bytes_of(after.lines) + after.rest =~= (bytes_of(before.lines)
                    + before.rest).push(byte));
            }
        }
    }
}

/// A line that fits is never taken for one that is too long: bytes overflow only where more than the
/// limit came in without a line feed, and they do then.
pub proof fn only_long_lines_overflow(framing: Framing, byte: u8)
    ensures
        !framing.overflow ==> (framed_byte(framing, byte).overflow <==> byte != 10
            && framing.rest.len() >= 8 * 1024 * 1024),
        framing.overflow ==> framed_byte(framing, byte) == framing,
{
}

/// Every value of the protocol is one kind of message: an event where it has that member, and of the
/// events only a change of a run counts; else a request where it has an identity and a method, and a
/// reply where it has an identity alone. Anything else is ignored.
pub proof fn messages_are_told_apart(message: BridgeMessage, value: Json)
    requires
        is_message(message, value),
    ensures
        ({
            let event = value.member_text("event"@);
            let id = value.member_text("id"@);
            let method = value.member_text("method"@);
            &&& message is Request <==> event is None && id is Some && method is Some
            &&& message is Reply <==> event is None && id is Some && method is None
            &&& message is RunChanged ==> event == Some("runChanged"@)
            &&& message matches BridgeMessage::Request { id: own, method: name, params } ==> {
                &&& id == Some(own@)
                &&& method == Some(name@)
                &&& value.member("params"@) is Some ==> tree(params) == value.member(
                    "params"@,
                )->Some_0
                &&& value.member("params"@) is None ==> tree(params) == Json::Object(Map::empty())
            }
            &&& message matches BridgeMessage::RunChanged { run_id, revision } ==> {
                &&& value.member_text("runId"@) == Some(run_id@)
                &&& value.member("revision"@) == Some(Json::Number(decimal(revision as nat)))
            }
            &&& message matches BridgeMessage::Reply { id: own, result } ==> {
                &&& id == Some(own@)
                &&& result is Ok <==> value.member("ok"@) == Some(Json::Bool(true))
                &&& result matches Ok(body) ==> (value.member("result"@) is Some ==> tree(body)
                    == value.member("result"@)->Some_0)
                &&& result matches Ok(body) ==> (value.member("result"@) is None ==> tree(body)
                    == Json::Null)
                &&& result matches Err(error) ==> !error.outcome_unresolved
                &&& result matches Err(error) ==> (value.member("error"@) matches Some(told) ==> (
                told.member_text("code"@) matches Some(code) ==> error.code@ == code) && (
                told.member_text("message"@) matches Some(text) ==> error.message@ == text))
            }
        }),
{
}

/// A change of a run that is told in full is never ignored.
pub proof fn run_change_is_read(
    message: BridgeMessage,
    value: Json,
    run_id: Seq<char>,
    revision: u64,
)
    requires
        is_message(message, value),
        value.member_text("event"@) == Some("runChanged"@),
        value.member_text("runId"@) == Some(run_id),
        value.member("revision"@) == Some(Json::Number(decimal(revision as nat))),
    ensures
        message matches BridgeMessage::RunChanged { run_id: run, revision: number } && run@ == run_id
            && number == revision,
{
    assert(value.member("revision"@)->Some_0.is_number(revision));
    if let BridgeMessage::RunChanged { run_id: run, revision: number } = message {
        decimal_is_injective(number as nat, revision as nat);
    }
}

/// Two requests never have the same identity, and each is answered once: it waits from its entering
/// until it is taken out, and no longer, while no other request is touched.
pub proof fn request_is_answered_once(
    before: PendingRequests,
    entered: PendingRequests,
    second: PendingRequests,
    taken: PendingRequests,
    again: PendingRequests,
    res: Result<String, BridgeError>,
    other: Result<String, BridgeError>,
    waited: bool,
    waited_again: bool,
)
    requires
        is_begun(before, res, entered),
        res is Ok,
        is_begun(entered, other, second),
        is_settled(second, res->Ok_0@, waited, taken),
        is_settled(taken, res->Ok_0@, waited_again, again),
    ensures
        waited,
        !waited_again,
        other matches Ok(id) ==> id@ != res->Ok_0@ && taken.map().dom().contains(id@),
        forall|id: Seq<char>|
            id != res->Ok_0@ && #[trigger] before.map().dom().contains(id)
                ==> taken.map().dom().contains(id),
        !before.is_closed(),
        before.size() < 1024,
{
    if let Ok(id) = other {
        let a = (before.sequence() + 1) as nat;
        let b = (entered.sequence() + 1) as nat;
        if id@ == res->Ok_0@ {
            assert(decimal(a) =~= request_name(a).skip("rust:"@.len() as int));
            assert(decimal(b) =~= request_name(b).skip("rust:"@.len() as int));
            decimal_is_injective(a, b);
        }
    }
}

/// A request is refused only where the connection is closed or too many wait, and then it is certain
/// that nothing happened.
pub proof fn request_is_refused_for_certain(
    before: PendingRequests,
    res: Result<String, BridgeError>,
    after: PendingRequests,
)
    requires
        is_begun(before, res, after),
    ensures
        res is Err <==> before.is_closed() || before.size() >= 1024,
        res matches Err(error) ==> !error.outcome_unresolved && after.map() == before.map(),
{
}

/// Without a reply what the other side did is not known, and the error says so; a reply is handed on
/// as it is.
pub proof fn silence_is_unresolved(waited: Waited, res: Result<serde_json::Value, BridgeError>)
    requires
        is_waited_result(waited, res),
    ensures
        waited matches Waited::Replied(reply) ==> res == reply,
        !(waited is Replied) ==> res is Err && res->Err_0.outcome_unresolved,
{
}

/// A line that may have been written in part leaves the outcome open, and so does a way that was
/// found closed.
pub proof fn failed_write_is_unresolved(error: BridgeError, message: Seq<char>)
    ensures
        is_write_error(error, message) ==> error.outcome_unresolved,
        is_closed_error(error) ==> error.outcome_unresolved && error.code@ == "INTERNAL"@,
{
}

/// A worker that the server rejected is told from one that it failed to start.
pub proof fn rejected_worker_is_told(server_code: Option<i64>)
    ensures
        worker_start_code(server_code) == "INVALID_WORKER_CONFIGURATION"@ <==> server_code == Some(
            -32600i64,
        ) || server_code == Some(-32602i64),
        worker_start_code(server_code) == "HOST_ERROR"@ <==> server_code != Some(-32600i64)
            && server_code != Some(-32602i64),
{
    reveal_strlit("INVALID_WORKER_CONFIGURATION");
    reveal_strlit("HOST_ERROR");
    assert("INVALID_WORKER_CONFIGURATION"@.len() != "HOST_ERROR"@.len());
}

/// What is kept of the error output is its end: all of it where it fits, and never more than fits.
pub proof fn last_bytes_are_the_end(text: Seq<char>, limit: nat)
    ensures
        ({
            let bytes = encode_utf8(text);
            let kept = last_bytes(text, limit);
            &&& kept.len() == if bytes.len() <= limit { bytes.len() } else { limit }
            &&& kept == bytes.skip(bytes.len() - kept.len())
        }),
{
    let bytes = encode_utf8(text);
    let kept = last_bytes(text, limit);
    assert(kept =~= bytes.skip(bytes.len() - kept.len()));
}

/// What can be sent can be received: a line that is sent with its end after whole lines comes out of
/// the framing as it was.
pub proof fn sent_lines_are_received(framing: Framing, line: Seq<u8>)
    requires
        !framing.overflow,
        framing.rest.len() == 0,
        !line.contains(10),
    ensures
        can_be_sent(line) <==> line.len() <= 8 * 1024 * 1024,
        can_be_sent(line) ==> framed(framing, line.push(10)).lines == framing.lines.push(line)
            && framed(framing, line.push(10)).rest.len() == 0 && !framed(
            framing,
            line.push(10),
        ).overflow,
        !can_be_sent(line) ==> framed(framing, line.push(10)).overflow,
{
    line_is_collected(framing, line);
    assert(line.push(10).drop_last() =~= line);
}

/// What a line without its end leaves of a framing.
proof fn line_is_collected(framing: Framing, line: Seq<u8>)
    requires
        !framing.overflow,
        framing.rest.len() == 0,
        !line.contains(10),
    ensures
        line.len() <= MAX_LINE_BYTES ==> framed(framing, line) == (Framing {
            rest: line,
            ..framing
        }),
        line.len() > MAX_LINE_BYTES ==> framed(framing, line).overflow,
    decreases line.len(),
{
    if line.len() == 0 {
        assert(framing.rest =~= line);
    } else {
        let head = line.drop_last();
        assert(line[line.len() - 1] == line.last());
        assert(line.contains(line.last()));
        assert forall|i: int| 0 <= i < head.len() implies head[i] != 10 by {
            assert(head[i] == line[i]);
            assert(line.contains(line[i]));
        }
        line_is_collected(framing, head);
        assert(head.push(line.last()) =~= line);
    }
}

/// A handover starts only where no parent would be left without a supervisor, with the first parent,
/// and is over at once where there is none.
pub proof fn no_parent_is_left_behind(supervised: Seq<bool>, i: int)
    requires
        0 <= i < supervised.len(),
    ensures
        can_be_handed_over(supervised) ==> supervised[i],
        (forall|j: int| 0 <= j < supervised.len() ==> #[trigger] supervised[j])
            ==> can_be_handed_over(supervised),
        first_detach(supervised) == DetachStep::Detach(0),
        can_be_handed_over(Seq::empty()),
        first_detach(Seq::empty()) is Done,
{
    assert(supervised[i] == supervised[i]);
}

/// A parent counts as handed over only where it says both that nobody is attached and that its workers
/// go on.
pub proof fn handover_is_acknowledged(reply: Json, attached: Json, go_on: Json)
    requires
        reply.member("attached"@) == Some(attached),
        reply.member("workersContinue"@) == Some(go_on),
    ensures
        tells_detached(reply) <==> attached == Json::Bool(false) && go_on == Json::Bool(true),
{
}

/// No process is launched with a directory that depends on where it is launched.
pub proof fn launch_needs_absolute_paths(
    plugin_root: Seq<char>,
    cwd: Seq<char>,
    state_dir: Seq<char>,
)
    ensures
        can_be_launched(plugin_root, cwd, state_dir) <==> plugin_root.len() > 0 && plugin_root[0]
            == '/' && cwd.len() > 0 && cwd[0] == '/' && state_dir.len() > 0 && state_dir[0] == '/',
{
}

} // verus!
