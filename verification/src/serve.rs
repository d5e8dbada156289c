//! What the supervisor does for a frontend's frame.
use crate::bridge::BridgeError;
use crate::host::{
    answer_consent, attach_refusal, attach_target, detach_parent, detach_refusal, finish_attach,
    forward_parent, forward_refusal, may_answer, resolve_question, resolve_refusal, AttachTarget,
    Connection, Parent, ResolvedQuestion, Supervisor,
};
use crate::host_socket::{
    bytes_refusal, check_headless_control, frames_are_read_by_their_methods, is_directive,
    param_text, read_frame, receive, serve_refusal, Directive, ServeError,
};
use crate::json::{get, json_of_bytes, member_text, null, tree, Json};
use crate::text::option_text;
use vstd::prelude::*;
use vstd::string::*;

verus! {

/// What is to be done for a frame.
#[derive(Debug)]
pub enum ServeAction {
    /// Answers that the frontend is known.
    Welcome { id: String },
    /// Hands the answer to whoever waits for the consent.
    DeliverConsent { id: String },
    /// The answer counts for nobody.
    Drop,
    Configure { id: String, headless_root: Option<String> },
    /// The frontend is attached; the approvals of its parent are shown to it.
    Attached { id: String, parent_id: String },
    /// Opens a parent to which the frontend is attached when it is open.
    OpenParent { id: String, parent_id: String, plugin_root: String },
    /// Answers that the frontend is not attached.
    AttachFailed { id: String, message: String },
    /// Stores that a parent is detached, and then detaches it.
    StoreDetached { id: String, parent_id: String },
    Headless { id: String },
    /// Hands the answer on to whoever asked the question.
    Resolved { id: String, question: ResolvedQuestion, reject: bool },
    Shutdown { id: String, parent_id: String },
    Forward { id: String, parent_id: String, method: String },
    /// Answers with an error.
    Refuse { id: String, error: BridgeError },
}

/// Whether nothing of the supervisor's state changes.
pub open spec fn same_supervisor(a: Supervisor, b: Supervisor) -> bool {
    &&& a.parents == b.parents
    &&& a.consents == b.consents
    &&& a.approvals == b.approvals
    &&& a.headless_owners == b.headless_owners
    &&& a.headless_parents == b.headless_parents
}

/// Whether a frame to a parent is passed on, or refused.
pub open spec fn is_passed_on(
    supervisor: Supervisor,
    connection: Connection,
    id: Seq<char>,
    action: ServeAction,
    shutdown: bool,
    name: Seq<char>,
) -> bool {
    match forward_refusal(supervisor, connection) {
        Some(message) => action matches ServeAction::Refuse { id: answered, error } && answered@ == id
            && error.is("HOST_ERROR"@, message, false),
        None => if shutdown {
            action matches ServeAction::Shutdown { id: answered, parent_id } && answered@ == id
                && option_text(connection.parent_id) == Some(parent_id@)
        } else {
            action matches ServeAction::Forward { id: answered, parent_id, method } && answered@ == id
                && option_text(connection.parent_id) == Some(parent_id@) && method@ == name
        },
    }
}

/// The parameters of a frame; null where it has none.
pub open spec fn frame_params(value: Json) -> Json {
    match value.member("params"@) {
        Some(params) => params,
        None => Json::Null,
    }
}

/// Whether a frame that asks for an attachment leads to this. Only a parent that the connection is
/// bound to already is attached without being opened.
pub open spec fn is_attach_served(
    before: Supervisor,
    connection: Connection,
    params: Json,
    id: Seq<char>,
    after: Supervisor,
    connection_after: Connection,
    action: ServeAction,
) -> bool {
    let requested = params.member_text("parentThreadId"@);
    let bound = option_text(connection.parent_id) == requested && params.member("pluginRoot"@) is None;
    match attach_refusal(before, connection, params) {
        Some(refusal) => {
            &&& same_supervisor(before, after)
            &&& connection_after == connection
            &&& action matches ServeAction::AttachFailed { id: answered, message } && answered@ == id
                && message@ == refusal
        },
        None => if !bound {
            &&& same_supervisor(before, after)
            &&& connection_after == connection
            &&& action matches ServeAction::OpenParent { id: answered, parent_id, plugin_root }
                && answered@ == id && requested == Some(parent_id@) && params.member_text(
                "pluginRoot"@,
            ) == Some(plugin_root@)
        } else {
            is_attached(before, connection, requested->Some_0, id, after, connection_after, action)
        },
    }
}

/// Whether a frontend is attached to a parent, unless another one is.
pub open spec fn is_attached(
    before: Supervisor,
    connection: Connection,
    parent: Seq<char>,
    id: Seq<char>,
    after: Supervisor,
    connection_after: Connection,
    action: ServeAction,
) -> bool {
    let owner = before.attached(parent);
    &&& after.consents == before.consents
    &&& after.approvals == before.approvals
    &&& connection_after.id == connection.id
    &&& connection_after.authenticated == connection.authenticated
    &&& connection_after.configured == connection.configured
    &&& connection_after.headless == connection.headless
    &&& if owner is Some && owner != Some(connection.id) {
        &&& same_supervisor(before, after)
        &&& connection_after.parent_id == connection.parent_id
        &&& action matches ServeAction::AttachFailed { id: answered, message } && answered@ == id
            && message@ == "workflow parent already has an attached frontend"@
    } else {
        &&& after.parents.map() == before.parents.map().insert(
            parent,
            Parent { attachment: Some(connection.id), ..before.parents.map()[parent] },
        )
        &&& after.headless_owners.map() == before.headless_owners.map().remove(parent)
        &&& after.headless_parents.map() == before.headless_parents.map().remove(parent)
        &&& option_text(connection_after.parent_id) == Some(parent)
        &&& action matches ServeAction::Attached { id: answered, parent_id } && answered@ == id
            && parent_id@ == parent
    }
}

/// Why a frame ends the connection, in the state of the supervisor.
pub open spec fn frame_refusal(
    supervisor: Supervisor,
    connection: Connection,
    value: Json,
    token: Seq<char>,
) -> Option<(bool, Seq<char>)> {
    let refusal = serve_refusal(connection, value, token);
    if refusal is Some {
        refusal
    } else if connection.authenticated && value.member_text("method"@) == Some("detach"@)
        && detach_refusal(supervisor, connection) is Some {
        Some((false, detach_refusal(supervisor, connection)->Some_0))
    } else {
        None
    }
}

/// Whether a directive leads to this action and this state of the supervisor.
pub open spec fn is_served(
    before: Supervisor,
    connection: Connection,
    params: Json,
    directive: Directive,
    after: Supervisor,
    connection_after: Connection,
    action: ServeAction,
) -> bool {
    match directive {
        Directive::Authenticated { id } => {
            &&& same_supervisor(before, after)
            &&& connection_after == connection
            &&& action matches ServeAction::Welcome { id: answered } && answered@ == id@
        },
        Directive::ConsentAnswer { id } => {
            let counts = may_answer(before, connection.id, option_text(connection.parent_id), id@);
            &&& connection_after == connection
            &&& after.parents == before.parents
            &&& after.approvals == before.approvals
            &&& after.headless_owners == before.headless_owners
            &&& after.headless_parents == before.headless_parents
            &&& if counts {
                &&& after.consents.map() == before.consents.map().remove(id@)
                &&& action matches ServeAction::DeliverConsent { id: answered } && answered@ == id@
            } else {
                after.consents.map() == before.consents.map() && action is Drop
            }
        },
        Directive::Configure { id, headless_root } => {
            &&& same_supervisor(before, after)
            &&& connection_after == connection
            &&& action matches ServeAction::Configure { id: answered, headless_root: root }
                && answered@ == id@ && option_text(root) == option_text(headless_root)
        },
        Directive::Attach { id } => is_attach_served(
            before,
            connection,
            params,
            id@,
            after,
            connection_after,
            action,
        ),
        Directive::Detach { id } => {
            &&& same_supervisor(before, after)
            &&& connection_after == connection
            &&& action matches ServeAction::StoreDetached { id: answered, parent_id } && answered@
                == id@ && option_text(connection.parent_id) == Some(parent_id@)
        },
        Directive::Headless { id } => {
            &&& same_supervisor(before, after)
            &&& connection_after == connection
            &&& if connection.headless {
                action matches ServeAction::Headless { id: answered } && answered@ == id@
            } else {
                action matches ServeAction::Refuse { id: answered, error } && answered@ == id@
                    && error.is(
                    "HOST_ERROR"@,
                    "headless control requires an explicitly configured headless frontend"@,
                    false,
                )
            }
        },
        Directive::Resolve { id, reject } => {
            let key = params.member_text("id"@);
            &&& connection_after == connection
            &&& after.parents == before.parents
            &&& after.headless_owners == before.headless_owners
            &&& after.headless_parents == before.headless_parents
            &&& match resolve_refusal(before, connection, key) {
                Some(message) => {
                    &&& after.consents == before.consents
                    &&& after.approvals == before.approvals
                    &&& action matches ServeAction::Refuse { id: answered, error } && answered@
                        == id@ && error.is("HOST_ERROR"@, message, false)
                },
                None => {
                    let consent = crate::host::is_consent_key(key->Some_0);
                    &&& after.consents.map() == if consent {
                        before.consents.map().remove(key->Some_0)
                    } else {
                        before.consents.map()
                    }
                    &&& after.approvals.map() == if consent {
                        before.approvals.map()
                    } else {
                        before.approvals.map().remove(key->Some_0)
                    }
                    &&& action matches ServeAction::Resolved {
                        id: answered,
                        question,
                        reject: rejected,
                    } && answered@ == id@ && rejected == reject && (question is Consent <==> consent)
                },
            }
        },
        Directive::Shutdown { id } => {
            &&& same_supervisor(before, after)
            &&& connection_after == connection
            &&& is_passed_on(before, connection, id@, action, true, Seq::empty())
        },
        Directive::Forward { id, method } => {
            &&& same_supervisor(before, after)
            &&& connection_after == connection
            &&& is_passed_on(before, connection, id@, action, false, method@)
        },
    }
}

fn attach(
    supervisor: &mut Supervisor,
    connection: &mut Connection,
    params: &serde_json::Value,
    id: String,
) -> (res: ServeAction)
    requires
        old(supervisor).well_formed(),
    ensures
        final(supervisor).well_formed(),
        is_attach_served(
            *old(supervisor),
            *old(connection),
            tree(*params),
            id@,
            *final(supervisor),
            *final(connection),
            res,
        ),
{
    match attach_target(supervisor, connection, params) {
        Err(message) => ServeAction::AttachFailed { id, message },
        Ok(AttachTarget::Open { parent_id, plugin_root }) => ServeAction::OpenParent {
            id,
            parent_id,
            plugin_root,
        },
        Ok(AttachTarget::Bound(parent_id)) => {
            match finish_attach(supervisor, connection, parent_id.as_str()) {
                Ok(_) => ServeAction::Attached { id, parent_id },
                Err(message) => ServeAction::AttachFailed { id, message },
            }
        },
    }
}

/// Attaches a frontend to the parent that was opened for it.
pub fn parent_opened(
    supervisor: &mut Supervisor,
    connection: &mut Connection,
    id: String,
    parent_id: String,
) -> (res: ServeAction)
    requires
        old(supervisor).well_formed(),
        old(supervisor).parents.map().dom().contains(parent_id@),
    ensures
        final(supervisor).well_formed(),
        is_attached(
            *old(supervisor),
            *old(connection),
            parent_id@,
            id@,
            *final(supervisor),
            *final(connection),
            res,
        ),
{
    match finish_attach(supervisor, connection, parent_id.as_str()) {
        Ok(_) => ServeAction::Attached { id, parent_id },
        Err(message) => ServeAction::AttachFailed { id, message },
    }
}

proof fn detach_is_by_name(connection: Connection, value: Json, directive: Directive)
    requires
        is_directive(directive, connection, value),
    ensures
        directive is Detach <==> connection.authenticated && value.member_text("method"@) == Some(
            "detach"@,
        ),
{
    reveal_strlit("detach");
    reveal_strlit("configure");
    reveal_strlit("attach");
    reveal_strlit("headless");
    reveal_strlit("resolve");
    reveal_strlit("reject");
    reveal_strlit("shutdown");
    assert("detach"@[0] == 'd');
    assert("attach"@[0] == 'a');
    assert("reject"@[0] == 'r');
    assert("detach"@.len() == 6);
    assert("configure"@.len() == 9);
}

/// Serves a frame. An error ends the connection.
pub fn serve(
    supervisor: &mut Supervisor,
    connection: &mut Connection,
    value: &serde_json::Value,
    token: &str,
) -> (res: Result<ServeAction, ServeError>)
    requires
        old(supervisor).well_formed(),
    ensures
        final(supervisor).well_formed(),
        match frame_refusal(*old(supervisor), *old(connection), tree(*value), token@) {
            Some(refusal) => res matches Err(error) && error.is(refusal.0, refusal.1)
                && same_supervisor(*old(supervisor), *final(supervisor)) && *final(connection)
                == *old(connection),
            None => res matches Ok(action) && is_frame_served(
                *old(supervisor),
                *old(connection),
                tree(*value),
                *final(supervisor),
                *final(connection),
                action,
            ),
        },
{
    let ghost before = *supervisor;
    let ghost first = *connection;
    let directive = match receive(connection, value, token) {
        Ok(directive) => directive,
        Err(error) => {
            return Err(error);
        },
    };
    let ghost known = *connection;
    let ghost asked = directive;
    let absent = null();
    let params = match get(value, "params") {
        Some(params) => params,
        None => &absent,
    };
    proof {
        detach_is_by_name(first, tree(*value), asked);
    }
    let action = match directive {
        Directive::Authenticated { id } => ServeAction::Welcome { id },
        Directive::ConsentAnswer { id } => {
            if answer_consent(supervisor, connection.id, &connection.parent_id, id.as_str()) {
                ServeAction::DeliverConsent { id }
            } else {
                ServeAction::Drop
            }
        },
        Directive::Configure { id, headless_root } => ServeAction::Configure { id, headless_root },
        Directive::Attach { id } => attach(supervisor, connection, params, id),
        Directive::Detach { id } => match detach_parent(supervisor, connection) {
            Ok(parent_id) => ServeAction::StoreDetached { id, parent_id },
            Err(message) => {
                return Err(ServeError { denied: false, message });
            },
        },
        Directive::Headless { id } => match check_headless_control(connection) {
            Ok(_) => ServeAction::Headless { id },
            Err(error) => ServeAction::Refuse { id, error },
        },
        Directive::Resolve { id, reject } => {
            let key = member_text(params, "id");
            match resolve_question(supervisor, connection, &key) {
                Ok(question) => ServeAction::Resolved { id, question, reject },
                Err(error) => ServeAction::Refuse { id, error },
            }
        },
        Directive::Shutdown { id } => match forward_parent(supervisor, connection) {
            Ok(parent_id) => ServeAction::Shutdown { id, parent_id },
            Err(error) => ServeAction::Refuse { id, error },
        },
        Directive::Forward { id, method } => match forward_parent(supervisor, connection) {
            Ok(parent_id) => ServeAction::Forward { id, parent_id, method },
            Err(error) => ServeAction::Refuse { id, error },
        },
    };
    assert(tree(*params) == frame_params(tree(*value)));
    assert(is_served(before, known, tree(*params), asked, *supervisor, *connection, action));
    assert(leads_to(before, first, tree(*value), asked, *supervisor, *connection, action));
    Ok(action)
}

/// Serves a frame from its bytes, the line end included. An error ends the connection.
pub fn serve_frame(
    supervisor: &mut Supervisor,
    connection: &mut Connection,
    frame: &[u8],
    token: &str,
) -> (res: Result<ServeAction, ServeError>)
    requires
        old(supervisor).well_formed(),
    ensures
        final(supervisor).well_formed(),
        match bytes_frame_refusal(*old(supervisor), *old(connection), frame@, token@) {
            Some(refusal) => res matches Err(error) && error.is(refusal.0, refusal.1)
                && same_supervisor(*old(supervisor), *final(supervisor)) && *final(connection)
                == *old(connection),
            None => res matches Ok(action) && is_frame_served(
                *old(supervisor),
                *old(connection),
                json_of_bytes(frame@)->Ok_0,
                *final(supervisor),
                *final(connection),
                action,
            ),
        },
{
    match read_frame(frame) {
        Ok(value) => serve(supervisor, connection, &value, token),
        Err(error) => Err(error),
    }
}

/// Why the bytes of a frame end the connection, in the state of the supervisor.
pub open spec fn bytes_frame_refusal(
    supervisor: Supervisor,
    connection: Connection,
    frame: Seq<u8>,
    token: Seq<char>,
) -> Option<(bool, Seq<char>)> {
    match bytes_refusal(frame) {
        Some(message) => Some((false, message)),
        None => frame_refusal(supervisor, connection, json_of_bytes(frame)->Ok_0, token),
    }
}

/// Whether a frame that reads as a directive is served so.
pub open spec fn leads_to(
    before: Supervisor,
    connection: Connection,
    value: Json,
    directive: Directive,
    after: Supervisor,
    connection_after: Connection,
    action: ServeAction,
) -> bool {
    &&& is_directive(directive, connection, value)
    &&& is_served(
        before,
        Connection { authenticated: true, ..connection },
        frame_params(value),
        directive,
        after,
        connection_after,
        action,
    )
}

/// Whether a frame is served so, as the directive that it reads as.
pub open spec fn is_frame_served(
    before: Supervisor,
    connection: Connection,
    value: Json,
    after: Supervisor,
    connection_after: Connection,
    action: ServeAction,
) -> bool {
    exists|directive: Directive| #[trigger]
        leads_to(before, connection, value, directive, after, connection_after, action)
}

/// What a launch is answered that a frontend declined.
pub fn declined_launch() -> (res: String)
    ensures
        res@ == "Native frontend declined workflow launch"@,
{
    "Native frontend declined workflow launch".to_owned()
}

/// A connection that has not shown the token changes nothing of the supervisor's state.
pub proof fn strangers_change_nothing(
    before: Supervisor,
    connection: Connection,
    value: Json,
    after: Supervisor,
    connection_after: Connection,
    action: ServeAction,
)
    requires
        !connection.authenticated,
        is_frame_served(before, connection, value, after, connection_after, action),
    ensures
        same_supervisor(before, after),
        action is Welcome,
{
}

/// A frame never attaches a frontend to a parent that another one is attached to, and never takes an
/// attachment away from another connection.
pub proof fn frames_respect_other_attachments(
    before: Supervisor,
    connection: Connection,
    value: Json,
    after: Supervisor,
    connection_after: Connection,
    action: ServeAction,
    parent_id: Seq<char>,
)
    requires
        is_frame_served(before, connection, value, after, connection_after, action),
        before.attached(parent_id) is Some,
        before.attached(parent_id) != Some(connection.id),
    ensures
        after.attached(parent_id) == before.attached(parent_id),
{
}

/// What a frame comes to is answered under its own identity, unless it is an answer that counts for
/// nobody.
pub proof fn frame_is_answered_under_its_identity(
    before: Supervisor,
    connection: Connection,
    value: Json,
    after: Supervisor,
    connection_after: Connection,
    action: ServeAction,
)
    requires
        is_frame_served(before, connection, value, after, connection_after, action),
    ensures
        match action {
            ServeAction::Welcome { id } => value.member_text("id"@) == Some(id@),
            ServeAction::DeliverConsent { id } => value.member_text("id"@) == Some(id@),
            ServeAction::Drop => value.member("method"@) is None,
            ServeAction::Configure { id, .. } => value.member_text("id"@) == Some(id@),
            ServeAction::Attached { id, .. } => value.member_text("id"@) == Some(id@),
            ServeAction::OpenParent { id, .. } => value.member_text("id"@) == Some(id@),
            ServeAction::AttachFailed { id, .. } => value.member_text("id"@) == Some(id@),
            ServeAction::StoreDetached { id, .. } => value.member_text("id"@) == Some(id@),
            ServeAction::Headless { id } => value.member_text("id"@) == Some(id@),
            ServeAction::Resolved { id, .. } => value.member_text("id"@) == Some(id@),
            ServeAction::Shutdown { id, .. } => value.member_text("id"@) == Some(id@),
            ServeAction::Forward { id, .. } => value.member_text("id"@) == Some(id@),
            ServeAction::Refuse { id, .. } => value.member_text("id"@) == Some(id@),
        },
{
}

/// Only the frontend that is attached to a parent reaches it: what is passed on, stopped or detached
/// is its own parent. What a frame names as its method is what the parent is asked.
pub proof fn only_the_attached_frontend_reaches_its_parent(
    before: Supervisor,
    connection: Connection,
    value: Json,
    after: Supervisor,
    connection_after: Connection,
    action: ServeAction,
    token: Seq<char>,
)
    requires
        is_frame_served(before, connection, value, after, connection_after, action),
        frame_refusal(before, connection, value, token) is None,
    ensures
        action matches ServeAction::Forward { id, parent_id, method } ==> connection.authenticated
            && option_text(connection.parent_id) == Some(parent_id@) && before.attached(parent_id@)
            == Some(connection.id) && (value.member_text("method"@) matches Some(name) ==> method@
            == name),
        action matches ServeAction::Shutdown { id, parent_id } ==> connection.authenticated
            && option_text(connection.parent_id) == Some(parent_id@) && before.attached(parent_id@)
            == Some(connection.id) && value.member_text("method"@) == Some("shutdown"@),
        action matches ServeAction::StoreDetached { id, parent_id } ==> connection.authenticated
            && option_text(connection.parent_id) == Some(parent_id@) && before.attached(parent_id@)
            == Some(connection.id) && value.member_text("method"@) == Some("detach"@),
        action is Headless ==> connection.headless && value.member_text("method"@) == Some(
            "headless"@,
        ),
{
    let directive = choose|directive: Directive| #[trigger]
        leads_to(before, connection, value, directive, after, connection_after, action);
    if connection.authenticated {
        frames_are_read_by_their_methods(directive, connection, value);
    }
}

/// The attached frontend does reach its parent: a frame with any method that the supervisor does not
/// serve itself is passed on, and one that shuts down is obeyed.
pub proof fn attached_frontend_is_served(
    before: Supervisor,
    connection: Connection,
    value: Json,
    after: Supervisor,
    connection_after: Connection,
    action: ServeAction,
    method: Seq<char>,
    parent_id: Seq<char>,
)
    requires
        is_frame_served(before, connection, value, after, connection_after, action),
        connection.authenticated,
        option_text(connection.parent_id) == Some(parent_id),
        before.attached(parent_id) == Some(connection.id),
        value.member_text("method"@) == Some(method),
    ensures
        method != "configure"@ && method != "attach"@ && method != "detach"@ && method
            != "headless"@ && method != "resolve"@ && method != "reject"@ && method != "shutdown"@
            ==> (action matches ServeAction::Forward { id, parent_id: parent, method: name }
            && parent@ == parent_id && name@ == method),
        method == "shutdown"@ ==> (action matches ServeAction::Shutdown { id, parent_id: parent }
            && parent@ == parent_id),
        method == "detach"@ ==> (action matches ServeAction::StoreDetached { id, parent_id: parent }
            && parent@ == parent_id),
        method == "headless"@ && connection.headless ==> action is Headless,
        method == "headless"@ && !connection.headless ==> action is Refuse,
{
    let directive = choose|directive: Directive| #[trigger]
        leads_to(before, connection, value, directive, after, connection_after, action);
    frames_are_read_by_their_methods(directive, connection, value);
}

/// An answer to a launch is delivered exactly where it comes from the connection that was asked, and
/// then waits no longer. A question is rejected exactly by the method that rejects.
pub proof fn answers_are_delivered_once(
    before: Supervisor,
    connection: Connection,
    value: Json,
    after: Supervisor,
    connection_after: Connection,
    action: ServeAction,
    id: Seq<char>,
)
    requires
        is_frame_served(before, connection, value, after, connection_after, action),
        connection.authenticated,
        value.member_text("id"@) == Some(id),
    ensures
        action is DeliverConsent <==> value.member("method"@) is None && may_answer(
            before,
            connection.id,
            option_text(connection.parent_id),
            id,
        ),
        action is DeliverConsent ==> !after.consents.map().dom().contains(id),
        action is Drop ==> after.consents.map() == before.consents.map(),
        action matches ServeAction::Resolved { id: own, question, reject } ==> (reject
            <==> value.member_text("method"@) == Some("reject"@)),
        action is Resolved ==> value.member_text("method"@) == Some("resolve"@)
            || value.member_text("method"@) == Some("reject"@),
{
    let directive = choose|directive: Directive| #[trigger]
        leads_to(before, connection, value, directive, after, connection_after, action);
    frames_are_read_by_their_methods(directive, connection, value);
}

/// A frontend that is told it is attached is attached to the parent that it asked for, from then on;
/// one that must wait for its parent to be opened names it and its runtime.
pub proof fn attachment_is_what_was_asked(
    before: Supervisor,
    connection: Connection,
    value: Json,
    after: Supervisor,
    connection_after: Connection,
    action: ServeAction,
)
    requires
        is_frame_served(before, connection, value, after, connection_after, action),
        connection.authenticated,
    ensures
        action matches ServeAction::Attached { id, parent_id } ==> {
            &&& param_text(value, "parentThreadId"@) == Some(parent_id@)
            &&& after.attached(parent_id@) == Some(connection.id)
            &&& option_text(connection_after.parent_id) == Some(parent_id@)
            &&& !after.headless_owners.map().dom().contains(parent_id@)
        },
        action matches ServeAction::OpenParent { id, parent_id, plugin_root } ==> {
            &&& param_text(value, "parentThreadId"@) == Some(parent_id@)
            &&& param_text(value, "pluginRoot"@) == Some(plugin_root@)
            &&& connection_after == connection
        },
        action is Attached || action is OpenParent || action is AttachFailed <==> value.member_text(
            "method"@,
        ) == Some("attach"@),
{
    let directive = choose|directive: Directive| #[trigger]
        leads_to(before, connection, value, directive, after, connection_after, action);
    frames_are_read_by_their_methods(directive, connection, value);
}

/// An attachment changes the parent and what the connection is bound to alone: the connection keeps its
/// identity and what it may do, and other parents and the waiting questions stay. A parent that
/// another frontend is attached to stays with it.
pub proof fn attachment_changes_one_parent(
    before: Supervisor,
    connection: Connection,
    parent: Seq<char>,
    id: Seq<char>,
    after: Supervisor,
    connection_after: Connection,
    action: ServeAction,
    other: Seq<char>,
)
    requires
        is_attached(before, connection, parent, id, after, connection_after, action),
        other != parent,
        before.parents.map().dom().contains(parent),
    ensures
        connection_after.id == connection.id && connection_after.authenticated
            == connection.authenticated && connection_after.configured == connection.configured
            && connection_after.headless == connection.headless,
        after.consents == before.consents && after.approvals == before.approvals,
        before.parents.map().dom().contains(other) ==> after.parents.map().dom().contains(other)
            && after.parents.map()[other] == before.parents.map()[other],
        after.parents.map().dom().contains(parent),
        after.parents.map()[parent].plugin_root == before.parents.map()[parent].plugin_root,
        before.attached(parent) is Some && before.attached(parent) != Some(connection.id)
            ==> after.parents.map()[parent].attachment == before.parents.map()[parent].attachment
            && connection_after.parent_id == connection.parent_id && action is AttachFailed,
        before.attached(parent) is None || before.attached(parent) == Some(connection.id)
            ==> after.parents.map()[parent].attachment == Some(connection.id) && option_text(
            connection_after.parent_id,
        ) == Some(parent) && action is Attached && !after.headless_owners.map().dom().contains(
            parent,
        ) && !after.headless_parents.map().dom().contains(parent),
{
}

/// Asking for an attachment that is refused, or for a parent that is to be opened first, changes
/// neither the supervisor nor the connection.
pub proof fn unserved_attachment_changes_nothing(
    before: Supervisor,
    connection: Connection,
    params: Json,
    id: Seq<char>,
    after: Supervisor,
    connection_after: Connection,
    action: ServeAction,
)
    requires
        is_attach_served(before, connection, params, id, after, connection_after, action),
        attach_refusal(before, connection, params) is Some || params.member("pluginRoot"@) is Some,
    ensures
        connection_after == connection,
        after.parents == before.parents && after.consents == before.consents && after.approvals
            == before.approvals && after.headless_owners == before.headless_owners
            && after.headless_parents == before.headless_parents,
        action is AttachFailed || action is OpenParent,
        attach_refusal(before, connection, params) is Some <==> action is AttachFailed,
{
}

} // verus!
