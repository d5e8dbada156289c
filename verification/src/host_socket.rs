//! The front door of the supervisor: what a frontend's frame asks for, in the state of its
//! connection.
use crate::bridge::{BridgeError, MAX_LINE_BYTES};
use crate::host::{host_refused, Connection};
use crate::json::{get, json_of_bytes, member_is, member_text, parse_bytes, tree, Json};
use crate::path::{is_absolute, path_is_absolute};
use crate::text::{is_text, option_text, same};
use vstd::prelude::*;

verus! {

/// The version of the protocol between frontends and the supervisor.
pub const PROTOCOL_VERSION: u64 = 4;

/// Why a connection is closed.
#[derive(Debug)]
pub struct ServeError {
    /// The frontend is not who it must be.
    pub denied: bool,
    pub message: String,
}

impl ServeError {
    pub open spec fn is(self, denied: bool, message: Seq<char>) -> bool {
        self.denied == denied && self.message@ == message
    }
}

fn broken(message: &str) -> (res: ServeError)
    ensures
        res.is(false, message@),
{
    ServeError { denied: false, message: message.to_owned() }
}

/// What a frame asks for. Each carries the identity under which it is answered.
#[derive(Debug)]
pub enum Directive {
    /// The frontend has shown the token.
    Authenticated { id: String },
    /// An answer to a launch that waits for consent.
    ConsentAnswer { id: String },
    /// To configure the frontend; a headless one names its plugin root.
    Configure { id: String, headless_root: Option<String> },
    Attach { id: String },
    Detach { id: String },
    /// To look at or stop the workflows of a headless parent.
    Headless { id: String },
    /// To accept or reject a question.
    Resolve { id: String, reject: bool },
    Shutdown { id: String },
    /// Anything else goes to the parent's runtime.
    Forward { id: String, method: String },
}

/// The member of a frame's parameters.
pub open spec fn param(value: Json, key: Seq<char>) -> Option<Json> {
    match value.member("params"@) {
        Some(params) => params.member(key),
        None => None,
    }
}

/// The text of a member of a frame's parameters.
pub open spec fn param_text(value: Json, key: Seq<char>) -> Option<Seq<char>> {
    match param(value, key) {
        Some(member) => member.text(),
        None => None,
    }
}

/// The method of a frame; one that is not a text counts as empty.
pub open spec fn frame_method(value: Json) -> Seq<char> {
    match value.member_text("method"@) {
        Some(method) => method,
        None => Seq::empty(),
    }
}

/// Whether a frame shows the token.
pub open spec fn shows_token(value: Json, token: Seq<char>) -> bool {
    value.member_text("method"@) == Some("authenticate"@) && param_text(value, "token"@) == Some(
        token,
    )
}

/// Whether a frame asks for a headless frontend.
pub open spec fn asks_headless(value: Json) -> bool {
    param_text(value, "frontend"@) == Some("headless"@)
}

/// Why a frame closes its connection.
pub open spec fn serve_refusal(connection: Connection, value: Json, token: Seq<char>) -> Option<
    (bool, Seq<char>),
> {
    if value.member_text("id"@) is None {
        Some((false, "missing workflow request ID"@))
    } else if !connection.authenticated {
        if shows_token(value, token) {
            None
        } else {
            Some((true, "invalid workflow host token"@))
        }
    } else if value.member("method"@) is Some && frame_method(value) == "configure"@ {
        if connection.configured || connection.parent_id is Some {
            Some((false, "frontend connection is already configured or attached"@))
        } else if asks_headless(value) && param_text(value, "pluginRoot"@) is None {
            Some((false, "missing frontend bundled workflow runtime"@))
        } else {
            None
        }
    } else {
        None
    }
}

/// Whether a directive is what a frame asks for.
pub open spec fn is_directive(directive: Directive, connection: Connection, value: Json) -> bool {
    let method = frame_method(value);
    let request = value.member_text("id"@);
    if !connection.authenticated {
        directive matches Directive::Authenticated { id } && request == Some(id@)
    } else if value.member("method"@) is None {
        directive matches Directive::ConsentAnswer { id } && request == Some(id@)
    } else if method == "configure"@ {
        directive matches Directive::Configure { id, headless_root } && request == Some(id@)
            && option_text(headless_root) == if asks_headless(value) {
            param_text(value, "pluginRoot"@)
        } else {
            None
        }
    } else if method == "attach"@ {
        directive matches Directive::Attach { id } && request == Some(id@)
    } else if method == "detach"@ {
        directive matches Directive::Detach { id } && request == Some(id@)
    } else if method == "headless"@ {
        directive matches Directive::Headless { id } && request == Some(id@)
    } else if method == "resolve"@ || method == "reject"@ {
        directive matches Directive::Resolve { id, reject } && request == Some(id@) && reject == (
        method == "reject"@)
    } else if method == "shutdown"@ {
        directive matches Directive::Shutdown { id } && request == Some(id@)
    } else {
        directive matches Directive::Forward { id, method: name } && request == Some(id@) && name@
            == method
    }
}

fn text_param(value: &serde_json::Value, key: &str) -> (res: Option<String>)
    ensures
        option_text(res) == param_text(tree(*value), key@),
{
    match get(value, "params") {
        Some(params) => member_text(params, key),
        None => None,
    }
}

/// Reads a frame in the state of its connection. Before the token was shown nothing else counts.
pub fn receive(connection: &mut Connection, value: &serde_json::Value, token: &str) -> (res: Result<
    Directive,
    ServeError,
>)
    ensures
        match serve_refusal(*old(connection), tree(*value), token@) {
            Some(refusal) => res matches Err(error) && error.is(refusal.0, refusal.1),
            None => res matches Ok(directive) && is_directive(
                directive,
                *old(connection),
                tree(*value),
            ),
        },
        *final(connection) == (Connection {
            authenticated: old(connection).authenticated || res is Ok,
            ..*old(connection)
        }),
{
    let id = match member_text(value, "id") {
        Some(id) => id,
        None => {
            return Err(broken("missing workflow request ID"));
        },
    };
    if !connection.authenticated {
        let shown = is_text(&member_text(value, "method"), "authenticate") && is_text(
            &text_param(value, "token"),
            token,
        );
        if !shown {
            return Err(
                ServeError { denied: true, message: "invalid workflow host token".to_owned() },
            );
        }
        connection.authenticated = true;
        return Ok(Directive::Authenticated { id });
    }
    if get(value, "method").is_none() {
        return Ok(Directive::ConsentAnswer { id });
    }
    let method = match member_text(value, "method") {
        Some(method) => method,
        None => String::new(),
    };
    assert(method@ =~= frame_method(tree(*value)));
    proof {
        reveal_strlit("resolve");
        reveal_strlit("reject");
    }
    if same(method.as_str(), "configure") {
        if connection.configured || connection.parent_id.is_some() {
            return Err(broken("frontend connection is already configured or attached"));
        }
        if !is_text(&text_param(value, "frontend"), "headless") {
            return Ok(Directive::Configure { id, headless_root: None });
        }
        return match text_param(value, "pluginRoot") {
            Some(root) => Ok(Directive::Configure { id, headless_root: Some(root) }),
            None => Err(broken("missing frontend bundled workflow runtime")),
        };
    }
    if same(method.as_str(), "attach") {
        Ok(Directive::Attach { id })
    } else if same(method.as_str(), "detach") {
        Ok(Directive::Detach { id })
    } else if same(method.as_str(), "headless") {
        Ok(Directive::Headless { id })
    } else if same(method.as_str(), "resolve") {
        Ok(Directive::Resolve { id, reject: false })
    } else if same(method.as_str(), "reject") {
        Ok(Directive::Resolve { id, reject: true })
    } else if same(method.as_str(), "shutdown") {
        Ok(Directive::Shutdown { id })
    } else {
        Ok(Directive::Forward { id, method })
    }
}

/// Nothing is done for a connection that has not shown the token: its first frame shows it, or the
/// connection is closed.
pub proof fn token_comes_first(
    connection: Connection,
    value: Json,
    token: Seq<char>,
    directive: Directive,
)
    requires
        !connection.authenticated,
        serve_refusal(connection, value, token) is None,
        is_directive(directive, connection, value),
    ensures
        directive is Authenticated,
        shows_token(value, token),
{
}

/// Why the bytes of a frame, the line end included, are no frame: there are too many of them, or they
/// are not JSON.
pub open spec fn bytes_refusal(frame: Seq<u8>) -> Option<Seq<char>> {
    if frame.len() > MAX_LINE_BYTES {
        Some("workflow host frame exceeds 8 MiB"@)
    } else {
        match json_of_bytes(frame) {
            Ok(_) => None,
            Err(message) => Some(message),
        }
    }
}

/// Reads a frame from its bytes, the line end included. A frame that is too long or is not JSON
/// closes the connection.
pub fn read_frame(frame: &[u8]) -> (res: Result<serde_json::Value, ServeError>)
    ensures
        match bytes_refusal(frame@) {
            Some(message) => res matches Err(error) && error.is(false, message),
            None => res matches Ok(value) && json_of_bytes(frame@) == Ok::<Json, Seq<char>>(
                tree(value),
            ),
        },
{
    if frame.len() > MAX_LINE_BYTES {
        return Err(broken("workflow host frame exceeds 8 MiB"));
    }
    match parse_bytes(frame) {
        Ok(value) => Ok(value),
        Err(message) => Err(ServeError { denied: false, message }),
    }
}

/// Whether a connection is as the configuration of its frontend leaves it.
pub open spec fn is_configured(before: Connection, headless: bool, after: Connection) -> bool {
    after == (Connection { configured: true, headless, ..before })
}

/// Notes that a frontend was configured.
pub fn mark_configured(connection: &mut Connection, headless: bool)
    ensures
        is_configured(*old(connection), headless, *final(connection)),
{
    connection.configured = true;
    connection.headless = headless;
}

/// Why a connection may not look at and stop headless workflows.
pub open spec fn control_refusal(connection: Connection) -> Option<Seq<char>> {
    if connection.headless {
        None
    } else {
        Some("headless control requires an explicitly configured headless frontend"@)
    }
}

/// Whether a connection may look at and stop headless workflows.
pub fn check_headless_control(connection: &Connection) -> (res: Result<(), BridgeError>)
    ensures
        host_refused(res, control_refusal(*connection)),
{
    if connection.headless {
        Ok(())
    } else {
        Err(
            BridgeError::host(
                "headless control requires an explicitly configured headless frontend",
            ),
        )
    }
}

/// Whether a reply tells the version of the protocol that is spoken here.
pub open spec fn speaks_protocol(reply: Json) -> bool {
    reply.member("protocolVersion"@) matches Some(version) && version.is_number(PROTOCOL_VERSION)
}

/// Whether a supervisor speaks the same protocol.
pub fn check_protocol_version(reply: &serde_json::Value) -> (res: Result<(), String>)
    ensures
        res is Ok <==> speaks_protocol(tree(*reply)),
        res matches Err(message) ==> message@
            == "workflow host protocol version mismatch; reconnect with the matching native host version"@,
{
    let version = match get(reply, "protocolVersion") {
        Some(version) => crate::json::as_number(version),
        None => None,
    };
    match version {
        Some(n) => if n == PROTOCOL_VERSION {
            return Ok(());
        } else {
            proof {
                crate::text::decimal_is_injective(n as nat, PROTOCOL_VERSION as nat);
            }
        },
        None => {},
    }
    Err(
        "workflow host protocol version mismatch; reconnect with the matching native host version".to_owned(),
    )
}

/// Why a frontend is not configured with a plugin root.
pub open spec fn root_refusal(root: Option<Seq<char>>) -> Option<Seq<char>> {
    match root {
        None => Some("frontend bundled workflow runtime is unavailable"@),
        Some(root) => if is_absolute(root) {
            None
        } else {
            Some("bundled workflow runtime root must be absolute"@)
        },
    }
}

/// The plugin root that a frontend is configured with.
pub fn configure_root(params: &serde_json::Value) -> (res: Result<String, BridgeError>)
    ensures
        host_refused(res, root_refusal(tree(*params).member_text("pluginRoot"@))),
        res matches Ok(root) ==> tree(*params).member_text("pluginRoot"@) == Some(root@),
{
    match member_text(params, "pluginRoot") {
        None => Err(BridgeError::host("frontend bundled workflow runtime is unavailable")),
        Some(root) => {
            if path_is_absolute(root.as_str()) {
                Ok(root)
            } else {
                Err(BridgeError::host("bundled workflow runtime root must be absolute"))
            }
        },
    }
}

/// Whether the configuration of a thread turns workflows off.
pub open spec fn disables_workflows(params: Json) -> bool {
    match params.member("threadStartParams"@) {
        Some(start) => match start.member("config"@) {
            Some(config) => config.member_is("disable_workflows"@, true),
            None => false,
        },
        None => false,
    }
}

/// Whether the frontend that a configuration names is the one that the connection is.
pub open spec fn names_frontend(params: Json, headless: bool) -> bool {
    let frontend = params.member_text("frontend"@);
    if headless {
        frontend == Some("headless"@)
    } else {
        frontend is None || frontend == Some("interactive"@)
    }
}

/// Whether workflows can be launched through the tool server of a frontend.
pub open spec fn can_launch(params: Json, headless: bool) -> bool {
    headless && !disables_workflows(params)
}

/// Checks the frontend that a configuration names, and tells whether workflows can be launched
/// through its tool server: only headless ones, and only where they are not turned off.
pub fn configure_frontend(params: &serde_json::Value, headless: bool) -> (res: Result<
    bool,
    BridgeError,
>)
    ensures
        host_refused(
            res,
            if names_frontend(tree(*params), headless) {
                None
            } else {
                Some("invalid native workflow frontend binding"@)
            },
        ),
        res matches Ok(enabled) ==> enabled == can_launch(tree(*params), headless),
{
    let disabled = match get(params, "threadStartParams") {
        Some(start) => match get(start, "config") {
            Some(config) => member_is(config, "disable_workflows", true),
            None => false,
        },
        None => false,
    };
    let frontend = member_text(params, "frontend");
    let named = if headless {
        is_text(&frontend, "headless")
    } else {
        frontend.is_none() || is_text(&frontend, "interactive")
    };
    if named {
        Ok(headless && !disabled)
    } else {
        Err(BridgeError::host("invalid native workflow frontend binding"))
    }
}

/// A file that only its owner may read.
#[derive(Clone, Copy, Debug, PartialEq, Eq, Structural)]
pub enum PrivateFile {
    Token,
    State,
}

/// Whether what stands at a path is a regular file that only its owner may touch.
pub open spec fn is_private_file(is_file: bool, mode: u32) -> bool {
    is_file && mode & 0o077 == 0
}

/// Checks that a file can be trusted: it is a regular one, and nobody else may touch it.
pub fn check_private_file(file: PrivateFile, is_file: bool, mode: u32) -> (res: Result<(), ServeError>)
    ensures
        res is Ok <==> is_private_file(is_file, mode),
        res matches Err(error) ==> error.is(
            true,
            match file {
                PrivateFile::Token => "unsafe workflow host token"@,
                PrivateFile::State => "unsafe workflow state file"@,
            },
        ),
{
    if is_file && mode & 0o077 == 0 {
        return Ok(());
    }
    let message = match file {
        PrivateFile::Token => "unsafe workflow host token".to_owned(),
        PrivateFile::State => "unsafe workflow state file".to_owned(),
    };
    Err(ServeError { denied: true, message })
}

/// What the runtime of a parent asks of the host.
#[derive(Clone, Copy, Debug, PartialEq, Eq, Structural)]
pub enum HostRequest {
    StartWorker,
    InterruptWorker,
    PrepareWorkspace,
    ReleaseWorkspace,
}

/// Whether a method asks for this of the host.
pub open spec fn is_host_request(
    method: Seq<char>,
    res: Result<HostRequest, BridgeError>,
) -> bool {
    match res {
        Ok(HostRequest::StartWorker) => method == "worker.start"@,
        Ok(HostRequest::InterruptWorker) => method == "worker.interrupt"@,
        Ok(HostRequest::PrepareWorkspace) => method == "workspace.prepare"@,
        Ok(HostRequest::ReleaseWorkspace) => method == "workspace.release"@,
        Err(error) => error.is("HOST_ERROR"@, "unknown native host request: "@ + method, false)
            && method != "worker.start"@ && method != "worker.interrupt"@ && method
            != "workspace.prepare"@ && method != "workspace.release"@,
    }
}

/// Reads the method of a request to the host.
pub fn host_request(method: &str) -> (res: Result<HostRequest, BridgeError>)
    ensures
        is_host_request(method@, res),
{
    if same(method, "worker.start") {
        Ok(HostRequest::StartWorker)
    } else if same(method, "worker.interrupt") {
        Ok(HostRequest::InterruptWorker)
    } else if same(method, "workspace.prepare") {
        Ok(HostRequest::PrepareWorkspace)
    } else if same(method, "workspace.release") {
        Ok(HostRequest::ReleaseWorkspace)
    } else {
        Err(BridgeError::host(crate::text::plus("unknown native host request: ", method).as_str()))
    }
}

/// Once the token was shown, a frame is read by its method alone: each known method is its own
/// directive, any other one goes to the parent, and a frame without a method answers a launch. It is
/// answered under the identity that it carries.
pub proof fn frames_are_read_by_their_methods(
    directive: Directive,
    connection: Connection,
    value: Json,
)
    requires
        connection.authenticated,
        is_directive(directive, connection, value),
    ensures
        ({
            let method = value.member_text("method"@);
            let id = value.member_text("id"@);
            &&& directive is ConsentAnswer <==> value.member("method"@) is None
            &&& directive is Configure <==> method == Some("configure"@)
            &&& directive is Attach <==> method == Some("attach"@)
            &&& directive is Detach <==> method == Some("detach"@)
            &&& directive is Headless <==> method == Some("headless"@)
            &&& directive is Resolve <==> method == Some("resolve"@) || method == Some("reject"@)
            &&& directive matches Directive::Resolve { id: own, reject } ==> (reject <==> method
                == Some("reject"@)) && id == Some(own@)
            &&& directive is Shutdown <==> method == Some("shutdown"@)
            &&& directive matches Directive::Forward { id: own, method: name } ==> id == Some(own@)
                && (method == Some(name@) || (method is None && name@.len() == 0))
            &&& directive matches Directive::Configure { id: own, headless_root } ==> id == Some(
                own@,
            ) && (headless_root is Some ==> asks_headless(value))
            &&& directive matches Directive::Attach { id: own } ==> id == Some(own@)
            &&& directive matches Directive::Detach { id: own } ==> id == Some(own@)
            &&& directive matches Directive::ConsentAnswer { id: own } ==> id == Some(own@)
            &&& directive matches Directive::Headless { id: own } ==> id == Some(own@)
            &&& directive matches Directive::Shutdown { id: own } ==> id == Some(own@)
        }),
{
    methods_differ();
}

/// The methods, told apart.
proof fn methods_differ()
    ensures
        "configure"@.len() == 9,
        "attach"@.len() == 6,
        "detach"@.len() == 6,
        "headless"@.len() == 8,
        "resolve"@.len() == 7,
        "reject"@.len() == 6,
        "shutdown"@.len() == 8,
        "attach"@ != "detach"@,
        "attach"@ != "reject"@,
        "detach"@ != "reject"@,
        "headless"@ != "shutdown"@,
{
    reveal_strlit("configure");
    reveal_strlit("attach");
    reveal_strlit("detach");
    reveal_strlit("headless");
    reveal_strlit("resolve");
    reveal_strlit("reject");
    reveal_strlit("shutdown");
    assert("attach"@[0] == 'a');
    assert("detach"@[0] == 'd');
    assert("reject"@[0] == 'r');
    assert("headless"@[0] == 'h');
    assert("shutdown"@[0] == 's');
}

/// A frame closes its connection only where it has no identity, where it comes before the token and
/// does not show it, or where it configures a frontend for the second time, after it was attached, or
/// headless without a runtime. Only a wrong token is a denial.
pub proof fn connection_is_closed_for_a_reason(
    connection: Connection,
    value: Json,
    token: Seq<char>,
)
    ensures
        serve_refusal(connection, value, token) is None <==> {
            &&& value.member_text("id"@) is Some
            &&& !connection.authenticated ==> value.member_text("method"@) == Some(
                "authenticate"@,
            ) && param_text(value, "token"@) == Some(token)
            &&& connection.authenticated && value.member_text("method"@) == Some("configure"@)
                ==> !connection.configured && connection.parent_id is None && (param_text(
                value,
                "frontend"@,
            ) == Some("headless"@) ==> param_text(value, "pluginRoot"@) is Some)
        },
        serve_refusal(connection, value, token) matches Some(refusal) ==> (refusal.0
            <==> value.member_text("id"@) is Some && !connection.authenticated),
{
    methods_differ();
}

/// The bytes of a frame are one exactly where they are not too many and are JSON.
pub proof fn frames_are_bounded_json(frame: Seq<u8>)
    ensures
        bytes_refusal(frame) is None <==> frame.len() <= 8 * 1024 * 1024 && json_of_bytes(frame)
            is Ok,
        frame.len() <= 8 * 1024 * 1024 ==> (json_of_bytes(frame) matches Err(message)
            ==> bytes_refusal(frame) == Some(message)),
{
}

/// Only a headless frontend can launch workflows through its tool server, and only where its thread
/// does not turn them off; a configuration must name the frontend that the connection is.
pub proof fn only_headless_frontends_launch(params: Json, headless: bool)
    ensures
        can_launch(params, headless) <==> headless && !(params.member("threadStartParams"@) is Some
            && params.member("threadStartParams"@)->Some_0.member("config"@) is Some
            && params.member("threadStartParams"@)->Some_0.member("config"@)->Some_0.member(
            "disable_workflows"@,
        ) == Some(Json::Bool(true))),
        names_frontend(params, true) <==> params.member_text("frontend"@) == Some("headless"@),
        names_frontend(params, false) <==> params.member_text("frontend"@) is None
            || params.member_text("frontend"@) == Some("interactive"@),
{
}

/// Each request to the host has one method, and no other method asks for anything.
pub proof fn host_requests_have_their_methods(
    method: Seq<char>,
    res: Result<HostRequest, BridgeError>,
)
    requires
        is_host_request(method, res),
    ensures
        res == Ok::<HostRequest, BridgeError>(HostRequest::StartWorker) <==> method
            == "worker.start"@,
        res == Ok::<HostRequest, BridgeError>(HostRequest::InterruptWorker) <==> method
            == "worker.interrupt"@,
        res == Ok::<HostRequest, BridgeError>(HostRequest::PrepareWorkspace) <==> method
            == "workspace.prepare"@,
        res == Ok::<HostRequest, BridgeError>(HostRequest::ReleaseWorkspace) <==> method
            == "workspace.release"@,
{
    reveal_strlit("worker.start");
    reveal_strlit("worker.interrupt");
    reveal_strlit("workspace.prepare");
    reveal_strlit("workspace.release");
    assert("worker.start"@.len() == 12);
    assert("worker.interrupt"@.len() == 16);
    assert("workspace.prepare"@.len() == 17);
    assert("workspace.prepare"@[10] == 'p');
    assert("workspace.release"@[10] == 'r');
}

/// A token or a state is read from a regular file alone that neither its group nor anyone else may
/// touch; what its owner may do does not matter.
pub proof fn trusted_file_is_private(is_file: bool, mode: u32, permissions: u32)
    requires
        mode < 0x0200_0000,
        permissions < 64,
    ensures
        is_private_file(true, (64 * mode) as u32),
        permissions > 0 ==> !is_private_file(is_file, (64 * mode + permissions) as u32),
        !is_private_file(false, mode),
{
    let open = (64 * mode) as u32;
    assert(open & 0o077 == 0) by (bit_vector)
        requires
            mode < 0x0200_0000,
            open == 64 * mode,
    ;
    let shared = (64 * mode + permissions) as u32;
    assert(shared & 0o077 == permissions) by (bit_vector)
        requires
            mode < 0x0200_0000,
            permissions < 64,
            shared == 64 * mode + permissions,
    ;
}

/// Only a frontend that was configured as a headless one controls headless workflows.
pub proof fn only_headless_frontends_control(
    before: Connection,
    headless: bool,
    after: Connection,
)
    requires
        is_configured(before, headless, after),
    ensures
        after.configured,
        control_refusal(after) is None <==> headless,
        after == (Connection { configured: after.configured, headless: after.headless, ..before }),
{
}

/// A supervisor of another version is not talked to, nor one that tells none.
pub proof fn other_versions_are_not_talked_to(reply: Json, n: u64)
    requires
        reply.member("protocolVersion"@) is None || reply.member("protocolVersion"@)->Some_0.is_number(
            n,
        ),
    ensures
        speaks_protocol(reply) <==> reply.member("protocolVersion"@) is Some && n == 4,
{
    if reply.member("protocolVersion"@) is Some {
        crate::text::decimal_is_injective(n as nat, 4);
    }
}

/// A frontend is configured with an absolute root, and with no other.
pub proof fn root_is_absolute(root: Seq<char>)
    ensures
        root_refusal(None) is Some,
        root_refusal(Some(root)) is None <==> root.len() > 0 && root[0] == '/',
{
}

/// What a frame asks with is found among its parameters.
pub proof fn parameters_are_found(value: Json, params: Json, key: Seq<char>)
    ensures
        value.member("params"@) == Some(params) ==> param(value, key) == params.member(key),
        value.member("params"@) is None ==> param(value, key) is None,
{
}

} // verus!
