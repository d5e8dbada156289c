//! The supervisor of workflow parents: who is attached to which parent, and whose answers count.
use crate::bridge::BridgeError;
use crate::ids::{
    format_uuid, is_workspace_id, parse_uuid, uuid_parse, uuid_text, uuid_text_tells_the_uuid,
};
use crate::json::{get, member_text, tree, Json};
use crate::registry::Registry;
use crate::text::{has_prefix, option_text, plus, same, starts_with};
use vstd::prelude::*;
use vstd::string::*;

verus! {

/// A parent thread whose workflows the supervisor runs.
#[derive(Debug)]
pub struct Parent {
    pub plugin_root: String,
    /// The connection of the interactive frontend that is attached, if one is.
    pub attachment: Option<u128>,
}

/// A launch that waits for the consent of a frontend.
#[derive(Debug)]
pub struct PendingConsent {
    pub parent_id: String,
    pub connection_id: u128,
}

/// What the supervisor knows of parents, frontends and open questions.
pub struct Supervisor {
    pub parents: Registry<Parent>,
    pub consents: Registry<PendingConsent>,
    /// The parents of the approvals that wait for an answer, by the approval's key.
    pub approvals: Registry<String>,
    /// The headless connection that owns a parent.
    pub headless_owners: Registry<u128>,
    /// The parents that were ever driven headless and not attached since.
    pub headless_parents: Registry<bool>,
}

impl Supervisor {
    pub open spec fn tables_are_well_formed(self) -> bool {
        &&& self.parents.well_formed()
        &&& self.consents.well_formed()
        &&& self.approvals.well_formed()
        &&& self.headless_owners.well_formed()
        &&& self.headless_parents.well_formed()
    }

    /// The connection that is attached to a parent.
    pub open spec fn attached(self, parent_id: Seq<char>) -> Option<u128> {
        if self.parents.map().dom().contains(parent_id) {
            self.parents.map()[parent_id].attachment
        } else {
            None
        }
    }

    /// No parent has an interactive and a headless frontend at the same time.
    pub open spec fn one_frontend_each(self) -> bool {
        forall|parent_id: Seq<char>| #[trigger]
            self.headless_owners.map().dom().contains(parent_id) ==> self.attached(parent_id) is None
    }

    pub open spec fn well_formed(self) -> bool {
        self.tables_are_well_formed() && self.one_frontend_each()
    }

    pub fn new() -> (res: Supervisor)
        ensures
            res.well_formed(),
            res.parents.map() == Map::<Seq<char>, Parent>::empty(),
            res.consents.map() == Map::<Seq<char>, PendingConsent>::empty(),
            res.approvals.map() == Map::<Seq<char>, String>::empty(),
            res.headless_owners.map() == Map::<Seq<char>, u128>::empty(),
            res.headless_parents.map() == Map::<Seq<char>, bool>::empty(),
    {
        Supervisor {
            parents: Registry::new(),
            consents: Registry::new(),
            approvals: Registry::new(),
            headless_owners: Registry::new(),
            headless_parents: Registry::new(),
        }
    }

    /// Whether a connection is attached to a parent.
    pub fn owns(&self, parent_id: &str, connection_id: u128) -> (res: bool)
        requires
            self.well_formed(),
        ensures
            res == (self.attached(parent_id@) == Some(connection_id)),
    {
        match self.parents.get(parent_id) {
            Some(parent) => match parent.attachment {
                Some(owner) => owner == connection_id,
                None => false,
            },
            None => false,
        }
    }

    fn set_attachment(&mut self, parent_id: &str, attachment: Option<u128>)
        requires
            old(self).tables_are_well_formed(),
        ensures
            final(self).tables_are_well_formed(),
            final(self).parents.map() == if old(self).parents.map().dom().contains(parent_id@) {
                old(self).parents.map().insert(
                    parent_id@,
                    (Parent { attachment, ..old(self).parents.map()[parent_id@] }),
                )
            } else {
                old(self).parents.map()
            },
            final(self).consents == old(self).consents,
            final(self).approvals == old(self).approvals,
            final(self).headless_owners == old(self).headless_owners,
            final(self).headless_parents == old(self).headless_parents,
    {
        match self.parents.remove(parent_id) {
            Some(parent) => {
                let mut parent = parent;
                parent.attachment = attachment;
                self.parents.insert(parent_id.to_owned(), parent);
                assert(self.parents.map() =~= old(self).parents.map().insert(parent_id@, parent));
            },
            None => {
                assert(self.parents.map() =~= old(self).parents.map());
            },
        }
    }

    /// Drops the launches that wait for the consent of a connection.
    fn drop_consents(&mut self, connection_id: u128)
        requires
            old(self).tables_are_well_formed(),
        ensures
            final(self).tables_are_well_formed(),
            without_connection(
                final(self).consents.map(),
                old(self).consents.map(),
                connection_id,
            ),
            final(self).parents == old(self).parents,
            final(self).approvals == old(self).approvals,
            final(self).headless_owners == old(self).headless_owners,
            final(self).headless_parents == old(self).headless_parents,
    {
        let keys = self.consents.keys();
        let ghost start = self.consents.map();
        let mut i: usize = 0;
        while i < keys.len()
            invariant
                self.tables_are_well_formed(),
                i <= keys@.len(),
                forall|j: int| 0 <= j < keys@.len() ==> start.dom().contains(#[trigger] keys@[j]@),
                forall|key: Seq<char>| #[trigger]
                    start.dom().contains(key) ==> exists|j: int|
                        0 <= j < keys@.len() && #[trigger] keys@[j]@ == key,
                forall|a: int, b: int|
                    0 <= a < keys@.len() && 0 <= b < keys@.len() && #[trigger] keys@[a]@
                        == #[trigger] keys@[b]@ ==> a == b,
                forall|key: Seq<char>| #[trigger]
                    self.consents.map().dom().contains(key) ==> start.dom().contains(key)
                        && self.consents.map()[key] == start[key],
                forall|j: int|
                    i <= j < keys@.len() ==> self.consents.map().dom().contains(
                        #[trigger] keys@[j]@,
                    ),
                forall|j: int|
                    0 <= j < i ==> (self.consents.map().dom().contains(#[trigger] keys@[j]@)
                        <==> start[keys@[j]@].connection_id != connection_id),
                self.parents == old(self).parents,
                self.approvals == old(self).approvals,
                self.headless_owners == old(self).headless_owners,
                self.headless_parents == old(self).headless_parents,
            decreases keys@.len() - i,
        {
            let key = keys[i].clone();
            assert(self.consents.map().dom().contains(keys@[i as int]@));
            let ghost before = self.consents.map();
            let drop = match self.consents.get(key.as_str()) {
                Some(consent) => consent.connection_id == connection_id,
                None => false,
            };
            if drop {
                let _ = self.consents.remove(key.as_str());
                assert forall|j: int| i < j < keys@.len() implies self.consents.map().dom().contains(
                    #[trigger] keys@[j]@,
                ) by {
                    assert(before.dom().contains(keys@[j]@));
                    assert(keys@[j]@ != keys@[i as int]@);
                }
                assert forall|j: int| 0 <= j <= i implies (self.consents.map().dom().contains(
                    #[trigger] keys@[j]@,
                ) <==> start[keys@[j]@].connection_id != connection_id) by {
                    if j < i {
                        assert(keys@[j]@ != keys@[i as int]@);
                        assert(before.dom().contains(keys@[j]@) <==> start[keys@[j]@].connection_id
                            != connection_id);
                    }
                }
            }
            i = i + 1;
        }
        proof {
            assert forall|key: Seq<char>| #[trigger]
                self.consents.map().dom().contains(key) <==> (start.dom().contains(key)
                    && start[key].connection_id != connection_id) by {
                if start.dom().contains(key) {
                    let j = choose|j: int| 0 <= j < keys@.len() && #[trigger] keys@[j]@ == key;
                    assert(self.consents.map().dom().contains(keys@[j]@)
                        <==> start[keys@[j]@].connection_id != connection_id);
                }
            }
        }
    }
}

/// Whether the launches are those of before, without the ones that wait for a connection.
pub open spec fn without_connection(
    after: Map<Seq<char>, PendingConsent>,
    before: Map<Seq<char>, PendingConsent>,
    connection_id: u128,
) -> bool {
    &&& forall|key: Seq<char>| #[trigger]
        after.dom().contains(key) <==> before.dom().contains(key) && before[key].connection_id
            != connection_id
    &&& forall|key: Seq<char>| #[trigger] after.dom().contains(key) ==> after[key] == before[key]
}

/// Why a parent cannot be opened with a plugin root.
pub open spec fn parent_refusal(
    supervisor: Supervisor,
    parent_id: Seq<char>,
    plugin_root: Seq<char>,
) -> Option<Seq<char>> {
    if uuid_parse(parent_id) is Err {
        Some(uuid_parse(parent_id)->Err_0)
    } else if !is_workspace_id(parent_id) {
        Some("parent thread ID must be a canonical UUID"@)
    } else if supervisor.parents.map().dom().contains(parent_id)
        && supervisor.parents.map()[parent_id].plugin_root@ != plugin_root {
        Some("parent workflow runtime belongs to a different plugin root"@)
    } else {
        None
    }
}

/// Whether a result is a host error exactly where there is a refusal, and with its message.
pub open spec fn host_refused<T>(res: Result<T, BridgeError>, refusal: Option<Seq<char>>) -> bool {
    match refusal {
        Some(message) => res matches Err(error) && error.is("HOST_ERROR"@, message, false),
        None => res is Ok,
    }
}

/// Looks a parent up that is to be opened with a plugin root. The result tells whether it is open
/// already; one that is not must be started and registered.
pub fn find_parent(supervisor: &Supervisor, parent_id: &str, plugin_root: &str) -> (res: Result<
    bool,
    BridgeError,
>)
    requires
        supervisor.well_formed(),
    ensures
        host_refused(res, parent_refusal(*supervisor, parent_id@, plugin_root@)),
        res matches Ok(open) ==> open == supervisor.parents.map().dom().contains(parent_id@),
{
    match parse_uuid(parent_id) {
        Ok(id) => {
            let canonical = format_uuid(id);
            if !same(canonical.as_str(), parent_id) {
                proof {
                    if is_workspace_id(parent_id@) {
                        let other = choose|other: u128| parent_id@ == #[trigger] uuid_text(other);
                        assert(other == id);
                    }
                }
                return Err(BridgeError::host("parent thread ID must be a canonical UUID"));
            }
        },
        Err(message) => {
            return Err(BridgeError::host(message.as_str()));
        },
    }
    match supervisor.parents.get(parent_id) {
        Some(parent) => {
            if same(parent.plugin_root.as_str(), plugin_root) {
                Ok(true)
            } else {
                Err(
                    BridgeError::host("parent workflow runtime belongs to a different plugin root"),
                )
            }
        },
        None => Ok(false),
    }
}

impl Supervisor {
    /// Registers a parent whose workflow runtime was started. Nobody is attached to it.
    pub fn register_parent(&mut self, parent_id: String, plugin_root: String)
        requires
            old(self).well_formed(),
        ensures
            final(self).well_formed(),
            is_registered(*old(self), parent_id@, plugin_root, *final(self)),
    {
        self.parents.insert(parent_id, Parent { plugin_root, attachment: None });
        assert(self.one_frontend_each());
    }

    /// Forgets a parent whose workflow runtime was stopped.
    pub fn remove_parent(&mut self, parent_id: &str)
        requires
            old(self).well_formed(),
        ensures
            final(self).well_formed(),
            is_forgotten(*old(self), parent_id@, *final(self)),
    {
        let _ = self.parents.remove(parent_id);
        assert(self.one_frontend_each());
    }
}

/// Why a launch cannot be put before a frontend.
pub open spec fn consent_refusal(
    supervisor: Supervisor,
    parent_id: Seq<char>,
    plugin_root: Seq<char>,
) -> Option<Seq<char>> {
    if !supervisor.parents.map().dom().contains(parent_id)
        || supervisor.parents.map()[parent_id].plugin_root@ != plugin_root {
        Some(
            "Workflow launch requires an attached native frontend using the same bundled workflow runtime for consent."@,
        )
    } else if supervisor.parents.map()[parent_id].attachment is None {
        Some("Workflow launch requires an attached native frontend for consent."@)
    } else {
        None
    }
}

/// The key of a launch that waits for consent.
pub open spec fn consent_key(unique: u128) -> Seq<char> {
    "workflow-supervisor:"@ + uuid_text(unique)
}

/// The key of a request that the host makes.
pub open spec fn host_request_key(unique: u128) -> Seq<char> {
    "workflow-host:"@ + uuid_text(unique)
}

/// The identity under which a launch is put before a frontend.
pub fn consent_id(unique: u128) -> (res: String)
    ensures
        res@ == consent_key(unique),
{
    plus("workflow-supervisor:", format_uuid(unique).as_str())
}

/// The identity of a request that the host makes for the runtime of a parent.
pub fn host_request_id(unique: u128) -> (res: String)
    ensures
        res@ == host_request_key(unique),
{
    plus("workflow-host:", format_uuid(unique).as_str())
}

/// Whether two supervisors differ in the launches that wait for consent alone.
pub open spec fn same_but_consents(a: Supervisor, b: Supervisor) -> bool {
    &&& a.parents == b.parents
    &&& a.approvals == b.approvals
    &&& a.headless_owners == b.headless_owners
    &&& a.headless_parents == b.headless_parents
}

/// Whether a launch was put before a frontend, or refused.
pub open spec fn is_asked(
    before: Supervisor,
    parent_id: Seq<char>,
    plugin_root: Seq<char>,
    id: Seq<char>,
    res: Result<u128, String>,
    after: Supervisor,
) -> bool {
    &&& match consent_refusal(before, parent_id, plugin_root) {
        Some(message) => res matches Err(text) && text@ == message && after.consents.map()
            == before.consents.map(),
        None => {
            &&& res matches Ok(connection_id)
            &&& before.attached(parent_id) == Some(connection_id)
            &&& after.consents.map().dom() == before.consents.map().dom().insert(id)
            &&& after.consents.map()[id].parent_id@ == parent_id
            &&& after.consents.map()[id].connection_id == connection_id
            &&& after.consents.map().remove(id) == before.consents.map().remove(id)
        },
    }
    &&& same_but_consents(after, before)
}

/// Puts a launch before the frontend that is attached to its parent. The result is the connection
/// to which the question goes, or what the caller is told.
pub fn request_consent(
    supervisor: &mut Supervisor,
    parent_id: &str,
    plugin_root: &str,
    id: String,
) -> (res: Result<u128, String>)
    requires
        old(supervisor).well_formed(),
    ensures
        final(supervisor).well_formed(),
        is_asked(*old(supervisor), parent_id@, plugin_root@, id@, res, *final(supervisor)),
{
    let attachment = match supervisor.parents.get(parent_id) {
        Some(parent) => {
            if !same(parent.plugin_root.as_str(), plugin_root) {
                return Err(
                    "Workflow launch requires an attached native frontend using the same bundled workflow runtime for consent.".to_owned(),
                );
            }
            parent.attachment
        },
        None => {
            return Err(
                "Workflow launch requires an attached native frontend using the same bundled workflow runtime for consent.".to_owned(),
            );
        },
    };
    let connection_id: u128 = match attachment {
        Some(connection_id) => connection_id,
        None => {
            return Err(
                "Workflow launch requires an attached native frontend for consent.".to_owned(),
            );
        },
    };
    supervisor.consents.insert(
        id,
        PendingConsent { parent_id: parent_id.to_owned(), connection_id },
    );
    assert(supervisor.consents.map().dom() =~= old(supervisor).consents.map().dom().insert(id@));
    assert(supervisor.consents.map().remove(id@) =~= old(supervisor).consents.map().remove(id@));
    Ok(connection_id)
}

/// What the caller of a launch is told when the frontend went away before it answered.
pub fn consent_lost() -> (res: String)
    ensures
        res@ == "Workflow consent frontend disconnected; launch was not authorized."@,
{
    "Workflow consent frontend disconnected; launch was not authorized.".to_owned()
}

/// Whether a connection may answer a launch: it is the one that was asked, for the parent that it
/// is attached to.
pub open spec fn may_answer(
    supervisor: Supervisor,
    connection_id: u128,
    parent_id: Option<Seq<char>>,
    id: Seq<char>,
) -> bool {
    &&& parent_id is Some
    &&& supervisor.attached(parent_id->Some_0) == Some(connection_id)
    &&& supervisor.consents.map().dom().contains(id)
    &&& supervisor.consents.map()[id].parent_id@ == parent_id->Some_0
    &&& supervisor.consents.map()[id].connection_id == connection_id
}

/// Whether an answer to a launch was taken, where it counts.
pub open spec fn is_answered(
    before: Supervisor,
    connection_id: u128,
    parent_id: Option<Seq<char>>,
    id: Seq<char>,
    counts: bool,
    after: Supervisor,
) -> bool {
    &&& counts == may_answer(before, connection_id, parent_id, id)
    &&& after.consents.map() == if counts {
        before.consents.map().remove(id)
    } else {
        before.consents.map()
    }
    &&& same_but_consents(after, before)
}

/// Takes the answer to a launch, if the connection may give it. The result tells whether it counts;
/// an answer counts once.
pub fn answer_consent(
    supervisor: &mut Supervisor,
    connection_id: u128,
    parent_id: &Option<String>,
    id: &str,
) -> (res: bool)
    requires
        old(supervisor).well_formed(),
    ensures
        final(supervisor).well_formed(),
        is_answered(
            *old(supervisor),
            connection_id,
            option_text(*parent_id),
            id@,
            res,
            *final(supervisor),
        ),
{
    let parent_id = match parent_id {
        Some(parent_id) => parent_id.as_str(),
        None => {
            return false;
        },
    };
    if !supervisor.owns(parent_id, connection_id) {
        return false;
    }
    let asked = match supervisor.consents.get(id) {
        Some(consent) => same(consent.parent_id.as_str(), parent_id) && consent.connection_id
            == connection_id,
        None => false,
    };
    if asked {
        let _ = supervisor.consents.remove(id);
    }
    asked
}

/// Nobody else can answer a launch: not another connection, and not after the frontend was detached
/// from the parent.
pub proof fn only_the_asked_frontend_answers(
    supervisor: Supervisor,
    connection_id: u128,
    parent_id: Option<Seq<char>>,
    id: Seq<char>,
)
    requires
        supervisor.consents.map().dom().contains(id),
        connection_id != supervisor.consents.map()[id].connection_id || supervisor.attached(
            supervisor.consents.map()[id].parent_id@,
        ) != Some(connection_id),
    ensures
        !may_answer(supervisor, connection_id, parent_id, id),
{
}

/// A connection of a frontend.
#[derive(Debug)]
pub struct Connection {
    pub id: u128,
    pub authenticated: bool,
    pub configured: bool,
    pub headless: bool,
    pub parent_id: Option<String>,
}

impl Connection {
    pub fn new(id: u128) -> (res: Connection)
        ensures
            res.id == id,
            !res.authenticated,
            !res.configured,
            !res.headless,
            res.parent_id is None,
    {
        Connection { id, authenticated: false, configured: false, headless: false, parent_id: None }
    }
}

/// Which parent an attachment is for.
#[derive(Debug)]
pub enum AttachTarget {
    /// The parent that the connection is bound to already.
    Bound(String),
    /// A parent that is opened with this plugin root.
    Open { parent_id: String, plugin_root: String },
}

/// Why a frontend cannot be attached, before its parent is opened.
pub open spec fn attach_refusal(
    supervisor: Supervisor,
    connection: Connection,
    params: Json,
) -> Option<Seq<char>> {
    let requested = params.member_text("parentThreadId"@);
    let bound = option_text(connection.parent_id);
    if connection.headless {
        Some("headless connection cannot attach interactively"@)
    } else if requested is None {
        Some("missing parent thread ID"@)
    } else if bound is Some && bound != requested {
        Some("connection already belongs to another parent"@)
    } else if bound == requested && params.member("pluginRoot"@) is None {
        if supervisor.parents.map().dom().contains(requested->Some_0) {
            None
        } else {
            Some("parent runtime unavailable"@)
        }
    } else if params.member_text("pluginRoot"@) is None {
        Some("missing frontend bundled workflow runtime"@)
    } else {
        None
    }
}

/// Finds the parent that a frontend wants to be attached to.
pub fn attach_target(
    supervisor: &Supervisor,
    connection: &Connection,
    params: &serde_json::Value,
) -> (res: Result<AttachTarget, String>)
    requires
        supervisor.well_formed(),
    ensures
        match attach_refusal(*supervisor, *connection, tree(*params)) {
            Some(message) => res matches Err(text) && text@ == message,
            None => res is Ok,
        },
        res matches Ok(AttachTarget::Bound(parent_id)) ==> {
            &&& option_text(connection.parent_id) == Some(parent_id@)
            &&& tree(*params).member_text("parentThreadId"@) == Some(parent_id@)
            &&& tree(*params).member("pluginRoot"@) is None
        },
        res matches Ok(AttachTarget::Open { parent_id, plugin_root }) ==> {
            &&& tree(*params).member_text("parentThreadId"@) == Some(parent_id@)
            &&& tree(*params).member_text("pluginRoot"@) == Some(plugin_root@)
        },
{
    if connection.headless {
        return Err("headless connection cannot attach interactively".to_owned());
    }
    let requested = match member_text(params, "parentThreadId") {
        Some(requested) => requested,
        None => {
            return Err("missing parent thread ID".to_owned());
        },
    };
    let bound = match &connection.parent_id {
        Some(parent_id) => {
            if !same(parent_id.as_str(), requested.as_str()) {
                return Err("connection already belongs to another parent".to_owned());
            }
            true
        },
        None => false,
    };
    if bound && get(params, "pluginRoot").is_none() {
        if supervisor.parents.contains(requested.as_str()) {
            return Ok(AttachTarget::Bound(requested));
        }
        return Err("parent runtime unavailable".to_owned());
    }
    match member_text(params, "pluginRoot") {
        Some(plugin_root) => Ok(AttachTarget::Open { parent_id: requested, plugin_root }),
        None => Err("missing frontend bundled workflow runtime".to_owned()),
    }
}

/// Whether a frontend was attached to an open parent, or refused.
pub open spec fn is_attached(
    before: Supervisor,
    connection: Connection,
    parent_id: Seq<char>,
    res: Result<(), String>,
    after: Supervisor,
    bound: Connection,
) -> bool {
    let owner = before.attached(parent_id);
    &&& bound.id == connection.id
    &&& bound.authenticated == connection.authenticated
    &&& bound.configured == connection.configured
    &&& bound.headless == connection.headless
    &&& after.consents == before.consents
    &&& after.approvals == before.approvals
    &&& if owner is Some && owner != Some(connection.id) {
        &&& res matches Err(text)
        &&& text@ == "workflow parent already has an attached frontend"@
        &&& after.parents == before.parents
        &&& after.headless_owners == before.headless_owners
        &&& after.headless_parents == before.headless_parents
        &&& bound.parent_id == connection.parent_id
    } else {
        &&& res is Ok
        &&& after.parents.map() == before.parents.map().insert(
            parent_id,
            (Parent { attachment: Some(connection.id), ..before.parents.map()[parent_id] }),
        )
        &&& after.headless_owners.map() == before.headless_owners.map().remove(parent_id)
        &&& after.headless_parents.map() == before.headless_parents.map().remove(parent_id)
        &&& option_text(bound.parent_id) == Some(parent_id)
    }
}

/// Attaches a frontend to an open parent, unless another one is attached. A headless owner of the
/// parent loses it.
pub fn finish_attach(
    supervisor: &mut Supervisor,
    connection: &mut Connection,
    parent_id: &str,
) -> (res: Result<(), String>)
    requires
        old(supervisor).well_formed(),
        old(supervisor).parents.map().dom().contains(parent_id@),
    ensures
        final(supervisor).well_formed(),
        is_attached(
            *old(supervisor),
            *old(connection),
            parent_id@,
            res,
            *final(supervisor),
            *final(connection),
        ),
{
    let attachment = match supervisor.parents.get(parent_id) {
        Some(parent) => parent.attachment,
        None => None,
    };
    match attachment {
        Some(owner) => {
            if owner != connection.id {
                return Err("workflow parent already has an attached frontend".to_owned());
            }
        },
        None => {},
    }
    supervisor.set_attachment(parent_id, Some(connection.id));
    let _ = supervisor.headless_owners.remove(parent_id);
    let _ = supervisor.headless_parents.remove(parent_id);
    connection.parent_id = Some(parent_id.to_owned());
    proof {
        assert forall|other: Seq<char>| #[trigger]
            supervisor.headless_owners.map().dom().contains(other) implies supervisor.attached(
            other,
        ) is None by {
            assert(old(supervisor).headless_owners.map().dom().contains(other));
            assert(old(supervisor).attached(other) is None);
        }
    }
    Ok(())
}

/// Why a frontend cannot be detached; the connection is closed for it.
pub open spec fn detach_refusal(supervisor: Supervisor, connection: Connection) -> Option<
    Seq<char>,
> {
    match option_text(connection.parent_id) {
        None => Some("no parent attached"@),
        Some(parent_id) => if !supervisor.parents.map().dom().contains(parent_id) {
            Some("parent runtime unavailable"@)
        } else if supervisor.attached(parent_id) != Some(connection.id) {
            Some("frontend does not own attachment"@)
        } else {
            None
        },
    }
}

/// The parent that a frontend may be detached from.
pub fn detach_parent(supervisor: &Supervisor, connection: &Connection) -> (res: Result<
    String,
    String,
>)
    requires
        supervisor.well_formed(),
    ensures
        match detach_refusal(*supervisor, *connection) {
            Some(message) => res matches Err(text) && text@ == message,
            None => res matches Ok(parent_id) && option_text(connection.parent_id) == Some(
                parent_id@,
            ),
        },
{
    let parent_id = match &connection.parent_id {
        Some(parent_id) => parent_id,
        None => {
            return Err("no parent attached".to_owned());
        },
    };
    if !supervisor.parents.contains(parent_id.as_str()) {
        return Err("parent runtime unavailable".to_owned());
    }
    if !supervisor.owns(parent_id.as_str(), connection.id) {
        return Err("frontend does not own attachment".to_owned());
    }
    Ok(parent_id.clone())
}

/// Whether a connection was detached from its parent, and waits for no launch any more.
pub open spec fn is_detached(
    before: Supervisor,
    connection: Connection,
    after: Supervisor,
) -> bool {
    &&& after.approvals == before.approvals
    &&& after.headless_owners == before.headless_owners
    &&& after.headless_parents == before.headless_parents
    &&& match option_text(connection.parent_id) {
        None => after.parents == before.parents && after.consents == before.consents,
        Some(parent_id) => {
            &&& without_connection(after.consents.map(), before.consents.map(), connection.id)
            &&& after.parents.map() == if before.attached(parent_id) == Some(connection.id) {
                before.parents.map().insert(
                    parent_id,
                    (Parent { attachment: None, ..before.parents.map()[parent_id] }),
                )
            } else {
                before.parents.map()
            }
        },
    }
}

/// Detaches a connection from its parent, if it is attached to it, and drops the launches that wait
/// for its consent. This follows a detachment that was stored, and the end of a connection.
pub fn detach_connection(supervisor: &mut Supervisor, connection: &Connection)
    requires
        old(supervisor).well_formed(),
    ensures
        final(supervisor).well_formed(),
        is_detached(*old(supervisor), *connection, *final(supervisor)),
{
    match &connection.parent_id {
        Some(parent_id) => {
            if supervisor.owns(parent_id.as_str(), connection.id) {
                supervisor.set_attachment(parent_id.as_str(), None);
            }
            supervisor.drop_consents(connection.id);
            assert(supervisor.one_frontend_each()) by {
                assert forall|other: Seq<char>| #[trigger]
                    supervisor.headless_owners.map().dom().contains(
                        other,
                    ) implies supervisor.attached(other) is None by {
                    assert(old(supervisor).attached(other) is None);
                }
            }
        },
        None => {},
    }
}

/// An answer that a frontend gives to a question of the supervisor.
#[derive(Debug)]
pub enum ResolvedQuestion {
    /// To a launch that waited for consent.
    Consent,
    /// To an approval of this key.
    Approval,
}

/// Whether a key is that of a launch that waits for consent.
pub open spec fn is_consent_key(key: Seq<char>) -> bool {
    has_prefix(key, "workflow-supervisor:"@)
}

/// Why an answer of a frontend does not count.
pub open spec fn resolve_refusal(
    supervisor: Supervisor,
    connection: Connection,
    key: Option<Seq<char>>,
) -> Option<Seq<char>> {
    match option_text(connection.parent_id) {
        None => Some("workflow response requires an attached parent"@),
        Some(parent_id) => if supervisor.attached(parent_id) != Some(connection.id) {
            Some("workflow response connection does not own parent"@)
        } else {
            match key {
                None => Some("missing supervisor response ID"@),
                Some(key) => if is_consent_key(key) {
                    if may_answer(supervisor, connection.id, Some(parent_id), key) {
                        None
                    } else {
                        Some("workflow response belongs to another parent"@)
                    }
                } else if supervisor.approvals.map().dom().contains(key)
                    && supervisor.approvals.map()[key]@ == parent_id {
                    None
                } else {
                    Some("approval belongs to another parent"@)
                },
            }
        },
    }
}

/// Whether a question waits no longer, because it was answered.
pub open spec fn is_resolved(
    before: Supervisor,
    key: Seq<char>,
    question: ResolvedQuestion,
    after: Supervisor,
) -> bool {
    &&& question is Consent <==> is_consent_key(key)
    &&& after.consents.map() == if question is Consent {
        before.consents.map().remove(key)
    } else {
        before.consents.map()
    }
    &&& after.approvals.map() == if question is Consent {
        before.approvals.map()
    } else {
        before.approvals.map().remove(key)
    }
}

/// Takes the answer of a frontend to a launch or an approval. Only the frontend that is attached to
/// the parent may answer, and only once.
pub fn resolve_question(
    supervisor: &mut Supervisor,
    connection: &Connection,
    key: &Option<String>,
) -> (res: Result<ResolvedQuestion, BridgeError>)
    requires
        old(supervisor).well_formed(),
    ensures
        final(supervisor).well_formed(),
        host_refused(res, resolve_refusal(*old(supervisor), *connection, option_text(*key))),
        final(supervisor).parents == old(supervisor).parents,
        final(supervisor).headless_owners == old(supervisor).headless_owners,
        final(supervisor).headless_parents == old(supervisor).headless_parents,
        res is Err ==> final(supervisor).consents == old(supervisor).consents && final(supervisor).approvals == old(supervisor).approvals,
        res matches Ok(question) ==> is_resolved(
            *old(supervisor),
            option_text(*key)->Some_0,
            question,
            *final(supervisor),
        ),
{
    let parent_id = match &connection.parent_id {
        Some(parent_id) => parent_id,
        None => {
            return Err(BridgeError::host("workflow response requires an attached parent"));
        },
    };
    if !supervisor.owns(parent_id.as_str(), connection.id) {
        return Err(BridgeError::host("workflow response connection does not own parent"));
    }
    let key = match key {
        Some(key) => key.as_str(),
        None => {
            return Err(BridgeError::host("missing supervisor response ID"));
        },
    };
    if starts_with(key, "workflow-supervisor:") {
        let asked = match supervisor.consents.get(key) {
            Some(consent) => same(consent.parent_id.as_str(), parent_id.as_str())
                && consent.connection_id == connection.id,
            None => false,
        };
        if !asked {
            return Err(BridgeError::host("workflow response belongs to another parent"));
        }
        let _ = supervisor.consents.remove(key);
        Ok(ResolvedQuestion::Consent)
    } else {
        let asked = match supervisor.approvals.get(key) {
            Some(owner) => same(owner.as_str(), parent_id.as_str()),
            None => false,
        };
        if !asked {
            return Err(BridgeError::host("approval belongs to another parent"));
        }
        let _ = supervisor.approvals.remove(key);
        Ok(ResolvedQuestion::Approval)
    }
}

/// Why a request of a frontend cannot be passed on to its parent.
pub open spec fn forward_refusal(supervisor: Supervisor, connection: Connection) -> Option<
    Seq<char>,
> {
    match option_text(connection.parent_id) {
        None => Some("workflow parent is not attached"@),
        Some(parent_id) => if !supervisor.parents.map().dom().contains(parent_id) {
            Some("parent workflow runtime is unavailable"@)
        } else if supervisor.attached(parent_id) != Some(connection.id) {
            Some("workflow frontend is detached"@)
        } else {
            None
        },
    }
}

/// The parent to which the requests of a frontend are passed on.
pub fn forward_parent(supervisor: &Supervisor, connection: &Connection) -> (res: Result<
    String,
    BridgeError,
>)
    requires
        supervisor.well_formed(),
    ensures
        host_refused(res, forward_refusal(*supervisor, *connection)),
        res matches Ok(parent_id) ==> option_text(connection.parent_id) == Some(parent_id@),
{
    let parent_id = match &connection.parent_id {
        Some(parent_id) => parent_id,
        None => {
            return Err(BridgeError::host("workflow parent is not attached"));
        },
    };
    if !supervisor.parents.contains(parent_id.as_str()) {
        return Err(BridgeError::host("parent workflow runtime is unavailable"));
    }
    if !supervisor.owns(parent_id.as_str(), connection.id) {
        return Err(BridgeError::host("workflow frontend is detached"));
    }
    Ok(parent_id.clone())
}

/// The frontend that is attached to the parent is asked, and nobody else: it may answer, no other
/// connection may, and its answer counts once.
pub proof fn asked_frontend_answers_once(
    before: Supervisor,
    parent_id: Seq<char>,
    plugin_root: Seq<char>,
    id: Seq<char>,
    res: Result<u128, String>,
    asked: Supervisor,
    other: u128,
    counts: bool,
    answered: Supervisor,
    again: bool,
    after: Supervisor,
)
    requires
        is_asked(before, parent_id, plugin_root, id, res, asked),
        res is Ok,
        is_answered(asked, res->Ok_0, Some(parent_id), id, counts, answered),
        is_answered(answered, res->Ok_0, Some(parent_id), id, again, after),
    ensures
        before.parents.map().dom().contains(parent_id),
        before.parents.map()[parent_id].attachment == Some(res->Ok_0),
        before.parents.map()[parent_id].plugin_root@ == plugin_root,
        counts,
        !again,
        other != res->Ok_0 ==> !may_answer(asked, other, Some(parent_id), id),
        !may_answer(asked, res->Ok_0, None, id),
        forall|key: Seq<char>|
            key != id && #[trigger] before.consents.map().dom().contains(key)
                ==> answered.consents.map().dom().contains(key) && answered.consents.map()[key]
                == before.consents.map()[key],
{
    assert(asked.attached(parent_id) == before.attached(parent_id));
    assert forall|key: Seq<char>|
        key != id && #[trigger] before.consents.map().dom().contains(
            key,
        ) implies answered.consents.map().dom().contains(key) && answered.consents.map()[key]
        == before.consents.map()[key] by {
        assert(before.consents.map().remove(id).dom().contains(key));
        assert(asked.consents.map().remove(id)[key] == before.consents.map().remove(id)[key]);
    }
}

/// A launch is put before a frontend exactly where one is attached to the parent, and the parent runs
/// the same workflow runtime; else the caller is told why.
pub proof fn launch_needs_an_attached_frontend(
    supervisor: Supervisor,
    parent_id: Seq<char>,
    plugin_root: Seq<char>,
)
    ensures
        consent_refusal(supervisor, parent_id, plugin_root) is None
            <==> supervisor.parents.map().dom().contains(parent_id)
            && supervisor.parents.map()[parent_id].plugin_root@ == plugin_root
            && supervisor.parents.map()[parent_id].attachment is Some,
{
}

/// A parent can be opened only under its canonical identity, and an open one only with the runtime it
/// was opened with.
pub proof fn parent_is_opened_with_one_runtime(
    supervisor: Supervisor,
    parent_id: Seq<char>,
    plugin_root: Seq<char>,
)
    ensures
        parent_refusal(supervisor, parent_id, plugin_root) is None <==> uuid_parse(parent_id) is Ok
            && is_workspace_id(parent_id) && (supervisor.parents.map().dom().contains(parent_id)
            ==> supervisor.parents.map()[parent_id].plugin_root@ == plugin_root),
{
}

/// A frontend is attached unless another one is: from then on its requests reach the parent, its
/// answers count and it can be detached, and no headless connection owns the parent. No other parent
/// is touched. Once it is detached, nothing of this holds, and no launch waits for it any more, while
/// those of others do.
pub proof fn frontend_is_attached_until_detached(
    before: Supervisor,
    connection: Connection,
    parent_id: Seq<char>,
    res: Result<(), String>,
    attached: Supervisor,
    bound: Connection,
    detached: Supervisor,
    other: Seq<char>,
    id: Seq<char>,
)
    requires
        before.parents.map().dom().contains(parent_id),
        is_attached(before, connection, parent_id, res, attached, bound),
        res is Ok,
        is_detached(attached, bound, detached),
        other != parent_id,
    ensures
        before.attached(parent_id) is None || before.attached(parent_id) == Some(connection.id),
        attached.attached(parent_id) == Some(connection.id),
        bound.id == connection.id,
        option_text(bound.parent_id) == Some(parent_id),
        forward_refusal(attached, bound) is None,
        detach_refusal(attached, bound) is None,
        !attached.headless_owners.map().dom().contains(parent_id),
        !attached.headless_parents.map().dom().contains(parent_id),
        attached.attached(other) == before.attached(other),
        attached.parents.map()[parent_id].plugin_root == before.parents.map()[parent_id].plugin_root,
        detached.attached(parent_id) is None,
        detached.attached(other) == before.attached(other),
        forward_refusal(detached, bound) is Some,
        detach_refusal(detached, bound) is Some,
        !may_answer(detached, connection.id, Some(parent_id), id),
        detached.consents.map().dom().contains(id) <==> before.consents.map().dom().contains(id)
            && before.consents.map()[id].connection_id != connection.id,
{
}

/// A frontend is refused exactly where another one is attached to the parent, and nothing changes.
pub proof fn second_frontend_is_refused(
    before: Supervisor,
    connection: Connection,
    parent_id: Seq<char>,
    res: Result<(), String>,
    after: Supervisor,
    bound: Connection,
)
    requires
        is_attached(before, connection, parent_id, res, after, bound),
    ensures
        res is Err <==> before.attached(parent_id) is Some && before.attached(parent_id) != Some(
            connection.id,
        ),
        res is Err ==> after.attached(parent_id) == before.attached(parent_id) && bound.parent_id
            == connection.parent_id,
{
}

/// A connection that ends without being attached takes nothing from the one that is.
pub proof fn stranger_detaches_nobody(
    before: Supervisor,
    connection: Connection,
    after: Supervisor,
    parent_id: Seq<char>,
)
    requires
        is_detached(before, connection, after),
        before.attached(parent_id) != Some(connection.id) || option_text(connection.parent_id)
            != Some(parent_id),
    ensures
        after.attached(parent_id) == before.attached(parent_id),
{
}

/// A frontend can ask to be attached only to one parent, which it names, and not as a headless
/// connection; the runtime may be left out where it is bound to that parent already.
pub proof fn attachment_names_its_parent(
    supervisor: Supervisor,
    connection: Connection,
    params: Json,
)
    ensures
        attach_refusal(supervisor, connection, params) is None <==> {
            let requested = params.member_text("parentThreadId"@);
            &&& !connection.headless
            &&& requested is Some
            &&& connection.parent_id is None || connection.parent_id->Some_0@ == requested->Some_0
            &&& params.member_text("pluginRoot"@) is Some || (connection.parent_id is Some
                && params.member("pluginRoot"@) is None && supervisor.parents.map().dom().contains(
                requested->Some_0,
            ))
        },
{
}

/// An answer counts exactly where the connection is attached to the parent that it is bound to and the
/// question was put to it: a launch to this connection for this parent, or an approval of this parent.
/// It counts once.
pub proof fn answers_come_from_the_attached_frontend(
    supervisor: Supervisor,
    connection: Connection,
    key: Seq<char>,
    question: ResolvedQuestion,
    after: Supervisor,
)
    requires
        is_resolved(supervisor, key, question, after),
    ensures
        ({
            let parent = connection.parent_id->Some_0@;
            let launch = has_prefix(key, "workflow-supervisor:"@);
            let consent = supervisor.consents.map()[key];
            &&& resolve_refusal(supervisor, connection, None) is Some
            &&& resolve_refusal(supervisor, connection, Some(key)) is None <==> {
                &&& connection.parent_id is Some
                &&& supervisor.attached(parent) == Some(connection.id)
                &&& launch ==> supervisor.consents.map().dom().contains(key) && consent.parent_id@
                    == parent && consent.connection_id == connection.id
                &&& !launch ==> supervisor.approvals.map().dom().contains(key)
                    && supervisor.approvals.map()[key]@ == parent
            }
            &&& question is Consent <==> launch
            &&& launch ==> !after.consents.map().dom().contains(key) && after.approvals.map()
                == supervisor.approvals.map()
            &&& !launch ==> !after.approvals.map().dom().contains(key) && after.consents.map()
                == supervisor.consents.map()
        }),
        forall|other: Seq<char>|
            other != key && #[trigger] supervisor.consents.map().dom().contains(other)
                ==> after.consents.map().dom().contains(other),
        forall|other: Seq<char>|
            other != key && #[trigger] supervisor.approvals.map().dom().contains(other)
                ==> after.approvals.map().dom().contains(other),
{
}

/// The key of a launch is told from that of a request of the host, and a launch is answered as one.
pub proof fn launches_are_told_by_their_keys(unique: u128, other: u128)
    ensures
        is_consent_key(consent_key(unique)),
        !is_consent_key(host_request_key(other)),
        consent_key(unique) == consent_key(other) ==> unique == other,
        host_request_key(unique) == host_request_key(other) ==> unique == other,
{
    reveal_strlit("workflow-supervisor:");
    reveal_strlit("workflow-host:");
    let key = consent_key(unique);
    assert(key.take(20) =~= "workflow-supervisor:"@);
    assert(uuid_text(unique) =~= key.skip(20));
    assert(uuid_text(other) =~= consent_key(other).skip(20));
    let request = host_request_key(other);
    assert(uuid_text(unique) =~= host_request_key(unique).skip(14));
    assert(uuid_text(other) =~= request.skip(14));
    if uuid_text(unique) == uuid_text(other) {
        uuid_text_tells_the_uuid(unique, other);
    }
    assert(request[9] == 'h');
    assert("workflow-supervisor:"@[9] == 's');
    if is_consent_key(request) {
        assert(request.take(20)[9] == request[9]);
    }
}

/// Whether two supervisors differ in their parents alone.
pub open spec fn same_but_parents(a: Supervisor, b: Supervisor) -> bool {
    &&& a.consents == b.consents
    &&& a.approvals == b.approvals
    &&& a.headless_owners == b.headless_owners
    &&& a.headless_parents == b.headless_parents
}

/// Whether a parent is registered, with nobody attached.
pub open spec fn is_registered(
    before: Supervisor,
    parent_id: Seq<char>,
    plugin_root: String,
    after: Supervisor,
) -> bool {
    &&& after.parents.map() == before.parents.map().insert(
        parent_id,
        (Parent { plugin_root, attachment: None }),
    )
    &&& same_but_parents(before, after)
}

/// Whether a parent is forgotten.
pub open spec fn is_forgotten(before: Supervisor, parent_id: Seq<char>, after: Supervisor) -> bool {
    &&& after.parents.map() == before.parents.map().remove(parent_id)
    &&& same_but_parents(before, after)
}

/// A parent that is registered is known, with its runtime and nobody attached, until it is forgotten;
/// then it is not, and every other parent is as it was.
pub proof fn registered_parent_is_known_until_forgotten(
    before: Supervisor,
    parent_id: Seq<char>,
    plugin_root: String,
    known: Supervisor,
    after: Supervisor,
    other: Seq<char>,
)
    requires
        is_registered(before, parent_id, plugin_root, known),
        is_forgotten(known, parent_id, after),
    ensures
        known.parents.map().dom().contains(parent_id),
        known.parents.map()[parent_id].plugin_root == plugin_root,
        known.parents.map()[parent_id].attachment is None,
        !after.parents.map().dom().contains(parent_id),
        other != parent_id ==> (after.parents.map().dom().contains(other)
            <==> before.parents.map().dom().contains(other)),
        other != parent_id && before.parents.map().dom().contains(other)
            ==> after.parents.map()[other] == before.parents.map()[other]
            && known.parents.map()[other] == before.parents.map()[other],
        after.consents == before.consents && after.approvals == before.approvals,
        after.headless_owners == before.headless_owners && after.headless_parents
            == before.headless_parents,
{
}

/// An answer settles the launch that it is for and no other, and only where it counts; parents,
/// approvals and headless frontends do not change by it.
pub proof fn answer_settles_one_launch(
    before: Supervisor,
    connection_id: u128,
    parent_id: Option<Seq<char>>,
    id: Seq<char>,
    counts: bool,
    after: Supervisor,
    other: Seq<char>,
)
    requires
        is_answered(before, connection_id, parent_id, id, counts, after),
    ensures
        counts <==> may_answer(before, connection_id, parent_id, id),
        counts ==> !after.consents.map().dom().contains(id),
        other != id || !counts ==> (after.consents.map().dom().contains(other)
            <==> before.consents.map().dom().contains(other)),
        (other != id || !counts) && before.consents.map().dom().contains(other)
            ==> after.consents.map()[other] == before.consents.map()[other],
        after.parents == before.parents && after.approvals == before.approvals
            && after.headless_owners == before.headless_owners && after.headless_parents
            == before.headless_parents,
{
}

} // verus!
