//! Tests of the supervisor and of what it does for the frames of its frontends.
use ultracode_workflow::host::{
    answer_consent, attach_target, consent_id, consent_lost, detach_connection, detach_parent,
    find_parent, finish_attach, forward_parent, host_request_id, request_consent, resolve_question, AttachTarget,
    Connection, ResolvedQuestion, Supervisor,
};
use ultracode_workflow::host_binding::{check_listener, listener_url, HeadlessBinding};
use ultracode_workflow::host_socket::{
    check_headless_control, check_private_file, check_protocol_version, configure_frontend,
    configure_root, host_request, mark_configured, read_frame, receive, Directive, HostRequest,
    PrivateFile,
};
use ultracode_workflow::serve::{declined_launch, parent_opened, serve, serve_frame, ServeAction};

const PARENT: &str = "019b1a2b-3c4d-7e5f-8a6b-0123456789ab";
const OTHER: &str = "019b1a2b-3c4d-7e5f-8a6b-0123456789ac";
const TOKEN: &str = "host-token";

fn json(text: &str) -> serde_json::Value {
    serde_json::from_str(text).expect("valid test JSON")
}

fn supervisor() -> Supervisor {
    let mut supervisor = Supervisor::new();
    supervisor.register_parent(PARENT.to_owned(), "/plugin".to_owned());
    supervisor
}

fn known(id: u128) -> Connection {
    let mut connection = Connection::new(id);
    connection.authenticated = true;
    connection
}

fn attached(supervisor: &mut Supervisor, id: u128) -> Connection {
    let mut connection = known(id);
    finish_attach(supervisor, &mut connection, PARENT).expect("free parent");
    connection
}

#[test]
fn parent_is_opened_with_its_own_plugin_root() {
    let supervisor = supervisor();
    assert_eq!(find_parent(&supervisor, PARENT, "/plugin").ok(), Some(true));
    assert_eq!(find_parent(&supervisor, OTHER, "/plugin").ok(), Some(false));
    assert_eq!(
        find_parent(&supervisor, PARENT, "/elsewhere").unwrap_err().message,
        "parent workflow runtime belongs to a different plugin root"
    );
    assert_eq!(
        find_parent(&supervisor, &PARENT.to_uppercase(), "/plugin").unwrap_err().message,
        "parent thread ID must be a canonical UUID"
    );
    let error = find_parent(&supervisor, "thread", "/plugin").unwrap_err();
    assert_eq!(error.code, "HOST_ERROR");
    assert!(!error.message.is_empty());
}

#[test]
fn removed_parent_is_unknown() {
    let mut supervisor = supervisor();
    supervisor.remove_parent(PARENT);
    assert_eq!(find_parent(&supervisor, PARENT, "/elsewhere").ok(), Some(false));
}

#[test]
fn attachment_is_for_the_bound_or_a_named_parent() {
    let mut supervisor = supervisor();
    let connection = known(1);
    let named = json(&format!(r#"{{"parentThreadId":"{PARENT}","pluginRoot":"/plugin"}}"#));
    match attach_target(&supervisor, &connection, &named) {
        Ok(AttachTarget::Open { parent_id, plugin_root }) => {
            assert_eq!((parent_id.as_str(), plugin_root.as_str()), (PARENT, "/plugin"));
        }
        other => panic!("unexpected {other:?}"),
    }
    let bare = json(&format!(r#"{{"parentThreadId":"{PARENT}"}}"#));
    assert_eq!(
        attach_target(&supervisor, &connection, &bare).unwrap_err(),
        "missing frontend bundled workflow runtime"
    );
    assert_eq!(
        attach_target(&supervisor, &connection, &json("{}")).unwrap_err(),
        "missing parent thread ID"
    );
    let bound = attached(&mut supervisor, 1);
    assert!(matches!(attach_target(&supervisor, &bound, &bare), Ok(AttachTarget::Bound(_))));
    let elsewhere = json(&format!(r#"{{"parentThreadId":"{OTHER}"}}"#));
    assert_eq!(
        attach_target(&supervisor, &bound, &elsewhere).unwrap_err(),
        "connection already belongs to another parent"
    );
    supervisor.remove_parent(PARENT);
    assert_eq!(
        attach_target(&supervisor, &bound, &bare).unwrap_err(),
        "parent runtime unavailable"
    );
    let mut headless = known(2);
    mark_configured(&mut headless, true);
    assert_eq!(
        attach_target(&supervisor, &headless, &named).unwrap_err(),
        "headless connection cannot attach interactively"
    );
}

#[test]
fn parent_has_one_attached_frontend() {
    let mut supervisor = supervisor();
    let first = attached(&mut supervisor, 1);
    let mut second = known(2);
    assert_eq!(
        finish_attach(&mut supervisor, &mut second, PARENT).unwrap_err(),
        "workflow parent already has an attached frontend"
    );
    assert!(supervisor.owns(PARENT, 1) && !supervisor.owns(PARENT, 2));
    assert_eq!(detach_parent(&supervisor, &first).ok().as_deref(), Some(PARENT));
    detach_connection(&mut supervisor, &first);
    assert!(finish_attach(&mut supervisor, &mut second, PARENT).is_ok());
    assert!(supervisor.owns(PARENT, 2));
    assert_eq!(
        detach_parent(&supervisor, &first).unwrap_err(),
        "frontend does not own attachment"
    );
    assert_eq!(detach_parent(&supervisor, &known(3)).unwrap_err(), "no parent attached");
    supervisor.remove_parent(PARENT);
    assert_eq!(detach_parent(&supervisor, &second).unwrap_err(), "parent runtime unavailable");
}

#[test]
fn only_the_asked_frontend_answers_and_only_once() {
    let mut supervisor = supervisor();
    assert_eq!(
        request_consent(&mut supervisor, PARENT, "/plugin", "q".to_owned()).unwrap_err(),
        "Workflow launch requires an attached native frontend for consent."
    );
    assert_eq!(
        request_consent(&mut supervisor, PARENT, "/elsewhere", "q".to_owned()).unwrap_err(),
        "Workflow launch requires an attached native frontend using the same bundled workflow runtime for consent."
    );
    let frontend = attached(&mut supervisor, 1);
    let id = consent_id(5);
    assert_eq!(id, "workflow-supervisor:00000000-0000-0000-0000-000000000005");
    assert_eq!(request_consent(&mut supervisor, PARENT, "/plugin", id.clone()).ok(), Some(1));
    assert!(!answer_consent(&mut supervisor, 2, &Some(PARENT.to_owned()), &id));
    assert!(!answer_consent(&mut supervisor, 1, &None, &id));
    assert!(answer_consent(&mut supervisor, 1, &frontend.parent_id, &id));
    assert!(!answer_consent(&mut supervisor, 1, &frontend.parent_id, &id));
}

#[test]
fn detaching_drops_what_waits_for_the_frontend() {
    let mut supervisor = supervisor();
    let frontend = attached(&mut supervisor, 1);
    for unique in 0..3 {
        assert!(request_consent(&mut supervisor, PARENT, "/plugin", consent_id(unique)).is_ok());
    }
    detach_connection(&mut supervisor, &frontend);
    assert!(supervisor.consents.is_empty());
    assert_eq!(
        consent_lost(),
        "Workflow consent frontend disconnected; launch was not authorized."
    );
}

#[test]
fn answers_are_taken_from_the_owner_of_the_question() {
    let mut supervisor = supervisor();
    supervisor.register_parent(OTHER.to_owned(), "/plugin".to_owned());
    assert_eq!(
        resolve_question(&mut supervisor, &known(1), &None).unwrap_err().message,
        "workflow response requires an attached parent"
    );
    let frontend = attached(&mut supervisor, 1);
    let mut late = known(2);
    late.parent_id = Some(PARENT.to_owned());
    assert_eq!(
        resolve_question(&mut supervisor, &late, &None).unwrap_err().message,
        "workflow response connection does not own parent"
    );
    assert_eq!(
        resolve_question(&mut supervisor, &frontend, &None).unwrap_err().message,
        "missing supervisor response ID"
    );
    let id = consent_id(5);
    assert_eq!(
        resolve_question(&mut supervisor, &frontend, &Some(id.clone())).unwrap_err().message,
        "workflow response belongs to another parent"
    );
    assert!(request_consent(&mut supervisor, PARENT, "/plugin", id.clone()).is_ok());
    assert!(matches!(
        resolve_question(&mut supervisor, &frontend, &Some(id)),
        Ok(ResolvedQuestion::Consent)
    ));
    supervisor.approvals.insert("7".to_owned(), OTHER.to_owned());
    supervisor.approvals.insert("8".to_owned(), PARENT.to_owned());
    assert_eq!(
        resolve_question(&mut supervisor, &frontend, &Some("7".to_owned())).unwrap_err().message,
        "approval belongs to another parent"
    );
    assert!(matches!(
        resolve_question(&mut supervisor, &frontend, &Some("8".to_owned())),
        Ok(ResolvedQuestion::Approval)
    ));
    assert!(!supervisor.approvals.contains("8") && supervisor.approvals.contains("7"));
}

#[test]
fn requests_are_passed_on_for_an_attached_frontend() {
    let mut supervisor = supervisor();
    assert_eq!(
        forward_parent(&supervisor, &known(1)).unwrap_err().message,
        "workflow parent is not attached"
    );
    let frontend = attached(&mut supervisor, 1);
    assert_eq!(forward_parent(&supervisor, &frontend).ok().as_deref(), Some(PARENT));
    detach_connection(&mut supervisor, &frontend);
    assert_eq!(
        forward_parent(&supervisor, &frontend).unwrap_err().message,
        "workflow frontend is detached"
    );
    supervisor.remove_parent(PARENT);
    assert_eq!(
        forward_parent(&supervisor, &frontend).unwrap_err().message,
        "parent workflow runtime is unavailable"
    );
}

fn binding(id: u128) -> HeadlessBinding {
    let mut binding = HeadlessBinding::new(id, "/plugin", Ok("/real/plugin".to_owned()))
        .expect("absolute root");
    binding.listener_url = Some("http://127.0.0.1:1/mcp".to_owned());
    binding
}

#[test]
fn headless_binding_needs_an_absolute_root_and_a_listener() {
    assert_eq!(
        HeadlessBinding::new(1, "plugin", Ok("/plugin".to_owned())).unwrap_err().message,
        "plugin root must be absolute"
    );
    assert_eq!(
        HeadlessBinding::new(1, "/plugin", Err("gone".to_owned())).unwrap_err().message,
        "gone"
    );
    let mut unbound = binding(1);
    assert_eq!(unbound.plugin_root, "/real/plugin");
    assert_eq!(
        unbound.begin_authorize("parent").unwrap_err().message,
        "parent thread ID must be a canonical UUID"
    );
    assert_eq!(
        unbound.begin_authorize(PARENT).ok().flatten().as_deref(),
        Some("http://127.0.0.1:1/mcp")
    );
    unbound.listener_url = None;
    assert_eq!(
        unbound.begin_authorize(PARENT).unwrap_err().message,
        "headless listener is not configured"
    );
    assert!(check_listener("url", &Some("url".to_owned())).is_ok());
    assert_eq!(
        check_listener("url", &Some("other".to_owned())).unwrap_err().message,
        "parent does not belong to this headless listener"
    );
    assert_eq!(listener_url(&json(r#"{"url":"http://x"}"#)).ok().as_deref(), Some("http://x"));
    assert_eq!(
        listener_url(&json(r#"{"url":1}"#)).unwrap_err().message,
        "headless listener URL is unavailable"
    );
}

#[test]
fn parent_is_driven_by_one_connection() {
    let mut supervisor = supervisor();
    let mut first = binding(1);
    let mut second = binding(2);
    assert!(first.finish_authorize(&mut supervisor, PARENT).is_ok());
    assert!(supervisor.headless_parents.contains(PARENT));
    assert_eq!(first.begin_authorize(PARENT).ok(), Some(None));
    assert_eq!(
        first.begin_authorize(OTHER).unwrap_err().message,
        "headless connection belongs to another parent"
    );
    assert_eq!(
        second.finish_authorize(&mut supervisor, PARENT).unwrap_err().message,
        "parent belongs to another headless connection"
    );
    // A user takes the parent over.
    let frontend = attached(&mut supervisor, 3);
    assert!(!supervisor.headless_owners.contains(PARENT));
    assert_eq!(
        first.finish_authorize(&mut supervisor, PARENT).unwrap_err().message,
        "parent has an interactive frontend"
    );
    detach_connection(&mut supervisor, &frontend);
    assert_eq!(
        first.finish_authorize(&mut supervisor, PARENT).unwrap_err().message,
        "headless connection no longer owns parent"
    );
    assert!(second.finish_authorize(&mut supervisor, PARENT).is_ok());
}

#[test]
fn closed_connection_takes_no_parent() {
    let mut supervisor = supervisor();
    let mut closing = binding(1);
    assert!(closing.finish_authorize(&mut supervisor, PARENT).is_ok());
    closing.release(&mut supervisor);
    assert!(!supervisor.headless_owners.contains(PARENT));
    assert_eq!(
        closing.begin_authorize(PARENT).unwrap_err().message,
        "headless connection is closed"
    );
    assert_eq!(
        closing.finish_authorize(&mut supervisor, PARENT).unwrap_err().message,
        "headless connection is closed"
    );
}

#[test]
fn nothing_counts_before_the_token() {
    let mut connection = Connection::new(1);
    let attach = json(r#"{"id":"1","method":"attach","params":{"token":"host-token"}}"#);
    let error = receive(&mut connection, &attach, TOKEN).unwrap_err();
    assert!(error.denied && error.message == "invalid workflow host token");
    let wrong = json(r#"{"id":"1","method":"authenticate","params":{"token":"guess"}}"#);
    assert!(receive(&mut connection, &wrong, TOKEN).unwrap_err().denied);
    assert!(!connection.authenticated);
    let nameless = json(r#"{"method":"authenticate","params":{"token":"host-token"}}"#);
    let error = receive(&mut connection, &nameless, TOKEN).unwrap_err();
    assert!(!error.denied && error.message == "missing workflow request ID");
    let right = json(r#"{"id":"1","method":"authenticate","params":{"token":"host-token"}}"#);
    assert!(matches!(
        receive(&mut connection, &right, TOKEN),
        Ok(Directive::Authenticated { id }) if id == "1"
    ));
    assert!(connection.authenticated);
}

#[test]
fn frames_read_as_directives() {
    let mut connection = known(1);
    let mut read = |text: &str| receive(&mut connection, &json(text), TOKEN).expect("directive");
    assert!(matches!(read(r#"{"id":"1"}"#), Directive::ConsentAnswer { .. }));
    assert!(matches!(
        read(r#"{"id":"1","method":"configure","params":{}}"#),
        Directive::Configure { headless_root: None, .. }
    ));
    assert!(matches!(
        read(r#"{"id":"1","method":"configure","params":{"frontend":"headless","pluginRoot":"/p"}}"#),
        Directive::Configure { headless_root: Some(root), .. } if root == "/p"
    ));
    assert!(matches!(read(r#"{"id":"1","method":"attach"}"#), Directive::Attach { .. }));
    assert!(matches!(read(r#"{"id":"1","method":"detach"}"#), Directive::Detach { .. }));
    assert!(matches!(read(r#"{"id":"1","method":"headless"}"#), Directive::Headless { .. }));
    assert!(matches!(
        read(r#"{"id":"1","method":"resolve"}"#),
        Directive::Resolve { reject: false, .. }
    ));
    assert!(matches!(
        read(r#"{"id":"1","method":"reject"}"#),
        Directive::Resolve { reject: true, .. }
    ));
    assert!(matches!(read(r#"{"id":"1","method":"shutdown"}"#), Directive::Shutdown { .. }));
    assert!(matches!(
        read(r#"{"id":"1","method":"run.list"}"#),
        Directive::Forward { method, .. } if method == "run.list"
    ));
    assert!(matches!(
        read(r#"{"id":"1","method":7}"#),
        Directive::Forward { method, .. } if method.is_empty()
    ));
}

#[test]
fn configured_headless_connection_cannot_change_its_mode() {
    let mut connection = known(1);
    let bare = json(r#"{"id":"1","method":"configure","params":{"frontend":"headless"}}"#);
    assert_eq!(
        receive(&mut connection, &bare, TOKEN).unwrap_err().message,
        "missing frontend bundled workflow runtime"
    );
    mark_configured(&mut connection, true);
    assert!(check_headless_control(&connection).is_ok());
    let again = json(r#"{"id":"1","method":"configure","params":{}}"#);
    assert_eq!(
        receive(&mut connection, &again, TOKEN).unwrap_err().message,
        "frontend connection is already configured or attached"
    );
}

#[test]
fn frames_are_bounded_json() {
    let mut supervisor = Supervisor::new();
    let mut connection = known(1);
    assert!(matches!(
        serve_frame(&mut supervisor, &mut connection, b"{\"id\":\"1\",\"method\":\"headless\"}\n", TOKEN),
        Ok(ServeAction::Refuse { .. })
    ));
    let error = serve_frame(&mut supervisor, &mut connection, b"{", TOKEN).unwrap_err();
    assert!(!error.denied && error.message.contains("EOF"));
    let long = vec![b' '; 8 * 1024 * 1024 + 1];
    assert_eq!(
        serve_frame(&mut supervisor, &mut connection, &long, TOKEN).unwrap_err().message,
        "workflow host frame exceeds 8 MiB"
    );
    let mut stranger = Connection::new(2);
    let hello = format!(r#"{{"id":"1","method":"authenticate","params":{{"token":"{TOKEN}"}}}}"#);
    let wrong = br#"{"id":"1","method":"authenticate","params":{"token":"guess"}}"#;
    assert!(serve_frame(&mut supervisor, &mut stranger, wrong, TOKEN).unwrap_err().denied);
    assert!(!stranger.authenticated);
    assert!(matches!(
        serve_frame(&mut supervisor, &mut stranger, hello.as_bytes(), TOKEN),
        Ok(ServeAction::Welcome { .. })
    ));
    assert!(stranger.authenticated);
    assert_eq!(read_frame(b"[1]\n").unwrap(), json("[1]"));
}

#[test]
fn protocol_version_must_match() {
    assert!(check_protocol_version(&json(r#"{"protocolVersion":4}"#)).is_ok());
    for reply in [r#"{"protocolVersion":3}"#, r#"{"protocolVersion":"4"}"#, "{}"] {
        assert_eq!(
            check_protocol_version(&json(reply)).unwrap_err(),
            "workflow host protocol version mismatch; reconnect with the matching native host version"
        );
    }
}

#[test]
fn configuration_names_its_root_and_its_frontend() {
    assert_eq!(configure_root(&json(r#"{"pluginRoot":"/p"}"#)).ok().as_deref(), Some("/p"));
    assert_eq!(
        configure_root(&json(r#"{"pluginRoot":"p"}"#)).unwrap_err().message,
        "bundled workflow runtime root must be absolute"
    );
    assert_eq!(
        configure_root(&json("{}")).unwrap_err().message,
        "frontend bundled workflow runtime is unavailable"
    );
    assert_eq!(configure_frontend(&json("{}"), false).ok(), Some(false));
    assert_eq!(configure_frontend(&json(r#"{"frontend":"interactive"}"#), false).ok(), Some(false));
    assert_eq!(configure_frontend(&json(r#"{"frontend":"headless"}"#), true).ok(), Some(true));
    let disabled =
        r#"{"frontend":"headless","threadStartParams":{"config":{"disable_workflows":true}}}"#;
    assert_eq!(configure_frontend(&json(disabled), true).ok(), Some(false));
    for (params, headless) in [("{}", true), (r#"{"frontend":"headless"}"#, false)] {
        assert_eq!(
            configure_frontend(&json(params), headless).unwrap_err().message,
            "invalid native workflow frontend binding"
        );
    }
}

#[test]
fn private_files_are_for_their_owner() {
    assert!(check_private_file(PrivateFile::Token, true, 0o100600).is_ok());
    assert_eq!(
        check_private_file(PrivateFile::Token, true, 0o100640).unwrap_err().message,
        "unsafe workflow host token"
    );
    let error = check_private_file(PrivateFile::State, false, 0o600).unwrap_err();
    assert!(error.denied && error.message == "unsafe workflow state file");
}

#[test]
fn requests_to_the_host_are_known_by_name() {
    assert_eq!(host_request("worker.start").ok(), Some(HostRequest::StartWorker));
    assert_eq!(host_request("worker.interrupt").ok(), Some(HostRequest::InterruptWorker));
    assert_eq!(host_request("workspace.prepare").ok(), Some(HostRequest::PrepareWorkspace));
    assert_eq!(host_request("workspace.release").ok(), Some(HostRequest::ReleaseWorkspace));
    assert_eq!(host_request_id(5), "workflow-host:00000000-0000-0000-0000-000000000005");
    assert_eq!(
        host_request("worker.stop").unwrap_err().message,
        "unknown native host request: worker.stop"
    );
}

#[test]
fn frames_of_a_frontend_are_served() {
    let mut supervisor = supervisor();
    let mut connection = Connection::new(1);
    let hello = json(r#"{"id":"0","method":"authenticate","params":{"token":"host-token"}}"#);
    assert!(matches!(
        serve(&mut supervisor, &mut connection, &hello, TOKEN),
        Ok(ServeAction::Welcome { id }) if id == "0"
    ));
    let attach = json(&format!(
        r#"{{"id":"1","method":"attach","params":{{"parentThreadId":"{PARENT}","pluginRoot":"/plugin"}}}}"#
    ));
    match serve(&mut supervisor, &mut connection, &attach, TOKEN) {
        Ok(ServeAction::OpenParent { id, parent_id, plugin_root }) => {
            assert_eq!((id.as_str(), plugin_root.as_str()), ("1", "/plugin"));
            assert!(matches!(
                parent_opened(&mut supervisor, &mut connection, id, parent_id),
                ServeAction::Attached { parent_id, .. } if parent_id == PARENT
            ));
        }
        other => panic!("unexpected {other:?}"),
    }
    let list = json(r#"{"id":"2","method":"run.list"}"#);
    assert!(matches!(
        serve(&mut supervisor, &mut connection, &list, TOKEN),
        Ok(ServeAction::Forward { parent_id, method, .. })
            if parent_id == PARENT && method == "run.list"
    ));
    let id = consent_id(5);
    assert!(request_consent(&mut supervisor, PARENT, "/plugin", id.clone()).is_ok());
    let answer = json(&format!(r#"{{"id":"{id}","result":true}}"#));
    assert!(matches!(
        serve(&mut supervisor, &mut connection, &answer, TOKEN),
        Ok(ServeAction::DeliverConsent { .. })
    ));
    assert!(matches!(
        serve(&mut supervisor, &mut connection, &answer, TOKEN),
        Ok(ServeAction::Drop)
    ));
    assert!(request_consent(&mut supervisor, PARENT, "/plugin", id.clone()).is_ok());
    let reject = json(&format!(r#"{{"id":"3","method":"reject","params":{{"id":"{id}"}}}}"#));
    assert!(matches!(
        serve(&mut supervisor, &mut connection, &reject, TOKEN),
        Ok(ServeAction::Resolved { question: ResolvedQuestion::Consent, reject: true, .. })
    ));
    let headless = json(r#"{"id":"4","method":"headless"}"#);
    assert!(matches!(
        serve(&mut supervisor, &mut connection, &headless, TOKEN),
        Ok(ServeAction::Refuse { error, .. })
            if error.message
                == "headless control requires an explicitly configured headless frontend"
    ));
    let detach = json(r#"{"id":"5","method":"detach"}"#);
    assert!(matches!(
        serve(&mut supervisor, &mut connection, &detach, TOKEN),
        Ok(ServeAction::StoreDetached { parent_id, .. }) if parent_id == PARENT
    ));
    detach_connection(&mut supervisor, &connection);
    assert_eq!(
        serve(&mut supervisor, &mut connection, &detach, TOKEN).unwrap_err().message,
        "frontend does not own attachment"
    );
    let shutdown = json(r#"{"id":"6","method":"shutdown"}"#);
    assert!(matches!(
        serve(&mut supervisor, &mut connection, &shutdown, TOKEN),
        Ok(ServeAction::Refuse { error, .. }) if error.message == "workflow frontend is detached"
    ));
    assert_eq!(declined_launch(), "Native frontend declined workflow launch");
}

#[test]
fn conflicting_attachment_is_answered_and_the_connection_stays_usable() {
    let mut supervisor = supervisor();
    let _first = attached(&mut supervisor, 1);
    let mut second = known(2);
    assert!(matches!(
        parent_opened(&mut supervisor, &mut second, "1".to_owned(), PARENT.to_owned()),
        ServeAction::AttachFailed { message, .. }
            if message == "workflow parent already has an attached frontend"
    ));
    assert!(supervisor.owns(PARENT, 1));
    let attach = json(r#"{"id":"2","method":"attach","params":{}}"#);
    assert!(matches!(
        serve(&mut supervisor, &mut second, &attach, TOKEN),
        Ok(ServeAction::AttachFailed { message, .. }) if message == "missing parent thread ID"
    ));
}
