//! The binding of a headless connection to its listener, its plugin root and its one parent.
use crate::bridge::BridgeError;
use crate::host::{host_refused, Supervisor};
use crate::ids::{is_workspace_id, validate_workflow_workspace_id};
use crate::json::{member_text, tree};
use crate::path::{is_absolute, path_is_absolute};
use crate::text::{is_text, option_text, same};
use vstd::prelude::*;

verus! {

/// A connection that drives a parent without a user. The parent's own configuration proves that it
/// belongs to the connection's listener; what a caller or a model says does not.
#[derive(Debug)]
pub struct HeadlessBinding {
    pub connection_id: u128,
    pub plugin_root: String,
    pub listener_url: Option<String>,
    pub parent_id: Option<String>,
    pub closed: bool,
}

/// Why a parent cannot be taken, before its configuration is looked at.
pub open spec fn binding_refusal(binding: HeadlessBinding, parent_id: Seq<char>) -> Option<
    Seq<char>,
> {
    if !is_workspace_id(parent_id) {
        Some("parent thread ID must be a canonical UUID"@)
    } else if binding.closed {
        Some("headless connection is closed"@)
    } else if binding.parent_id is Some && option_text(binding.parent_id) != Some(parent_id) {
        Some("headless connection belongs to another parent"@)
    } else if binding.parent_id is None && binding.listener_url is None {
        Some("headless listener is not configured"@)
    } else {
        None
    }
}

/// Why a parent cannot be owned by the connection.
pub open spec fn ownership_refusal(
    binding: HeadlessBinding,
    supervisor: Supervisor,
    parent_id: Seq<char>,
) -> Option<Seq<char>> {
    let owners = supervisor.headless_owners.map();
    if binding.closed {
        Some("headless connection is closed"@)
    } else if supervisor.attached(parent_id) is Some {
        Some("parent has an interactive frontend"@)
    } else if owners.dom().contains(parent_id) && owners[parent_id] != binding.connection_id {
        Some("parent belongs to another headless connection"@)
    } else if binding.parent_id is Some && !owners.dom().contains(parent_id) {
        Some("headless connection no longer owns parent"@)
    } else {
        None
    }
}

/// The listener that a parent must be configured with to be taken, where the connection has no parent
/// yet.
pub open spec fn expected_listener(binding: HeadlessBinding) -> Option<Seq<char>> {
    if binding.parent_id is Some {
        None
    } else {
        option_text(binding.listener_url)
    }
}

/// Whether a connection took a parent, where nothing spoke against it.
pub open spec fn is_authorized(
    before: HeadlessBinding,
    supervisor: Supervisor,
    parent_id: Seq<char>,
    allowed: bool,
    after: HeadlessBinding,
    owned: Supervisor,
) -> bool {
    &&& owned.parents == supervisor.parents
    &&& owned.consents == supervisor.consents
    &&& owned.approvals == supervisor.approvals
    &&& after.connection_id == before.connection_id
    &&& after.plugin_root == before.plugin_root
    &&& after.listener_url == before.listener_url
    &&& after.closed == before.closed
    &&& !allowed ==> after.parent_id == before.parent_id && owned.headless_owners
        == supervisor.headless_owners && owned.headless_parents == supervisor.headless_parents
    &&& allowed ==> {
        &&& option_text(after.parent_id) == Some(parent_id)
        &&& owned.headless_owners.map() == supervisor.headless_owners.map().insert(
            parent_id,
            before.connection_id,
        )
        &&& owned.headless_parents.map() == supervisor.headless_parents.map().insert(
            parent_id,
            true,
        )
    }
}

/// Whether a connection was ended and owns nothing any more.
pub open spec fn is_released(
    before: HeadlessBinding,
    supervisor: Supervisor,
    after: HeadlessBinding,
    released: Supervisor,
) -> bool {
    let owners = supervisor.headless_owners.map();
    let parent_id = option_text(before.parent_id);
    &&& after.closed
    &&& after.connection_id == before.connection_id
    &&& after.plugin_root == before.plugin_root
    &&& after.listener_url == before.listener_url
    &&& after.parent_id == before.parent_id
    &&& released.parents == supervisor.parents
    &&& released.consents == supervisor.consents
    &&& released.approvals == supervisor.approvals
    &&& released.headless_parents == supervisor.headless_parents
    &&& released.headless_owners.map() == if parent_id is Some && owners.dom().contains(
        parent_id->Some_0,
    ) && owners[parent_id->Some_0] == before.connection_id {
        owners.remove(parent_id->Some_0)
    } else {
        owners
    }
}

impl HeadlessBinding {
    /// A binding to a plugin root. `canonical` is the root's canonical path, or why it has none.
    pub fn new(connection_id: u128, plugin_root: &str, canonical: Result<String, String>) -> (res:
        Result<HeadlessBinding, BridgeError>)
        ensures
            host_refused(
                res,
                if !is_absolute(plugin_root@) {
                    Some("plugin root must be absolute"@)
                } else {
                    match canonical {
                        Ok(_) => None,
                        Err(message) => Some(message@),
                    }
                },
            ),
            res matches Ok(binding) ==> {
                &&& binding.connection_id == connection_id
                &&& binding.plugin_root@ == canonical->Ok_0@
                &&& binding.listener_url is None
                &&& binding.parent_id is None
                &&& !binding.closed
            },
    {
        if !path_is_absolute(plugin_root) {
            return Err(BridgeError::host("plugin root must be absolute"));
        }
        match canonical {
            Ok(plugin_root) => Ok(
                HeadlessBinding {
                    connection_id,
                    plugin_root,
                    listener_url: None,
                    parent_id: None,
                    closed: false,
                },
            ),
            Err(message) => Err(BridgeError::host(message.as_str())),
        }
    }

    /// Begins to authorize a parent. The result is the listener that the parent must be configured
    /// with, for a parent that the connection does not have yet.
    pub fn begin_authorize(&self, parent_id: &str) -> (res: Result<Option<String>, BridgeError>)
        ensures
            host_refused(res, binding_refusal(*self, parent_id@)),
            res matches Ok(expected) ==> option_text(expected) == expected_listener(*self),
    {
        match validate_workflow_workspace_id(parent_id) {
            Ok(_) => {},
            Err(_) => {
                return Err(BridgeError::host("parent thread ID must be a canonical UUID"));
            },
        }
        if self.closed {
            return Err(BridgeError::host("headless connection is closed"));
        }
        match &self.parent_id {
            Some(owned) => {
                if !same(owned.as_str(), parent_id) {
                    return Err(BridgeError::host("headless connection belongs to another parent"));
                }
                Ok(None)
            },
            None => match &self.listener_url {
                Some(url) => Ok(Some(url.clone())),
                None => Err(BridgeError::host("headless listener is not configured")),
            },
        }
    }

    /// Ends the authorization of a parent: the connection owns it from now on, unless a user is
    /// attached to it or another connection owns it.
    pub fn finish_authorize(&mut self, supervisor: &mut Supervisor, parent_id: &str) -> (res:
        Result<(), BridgeError>)
        requires
            old(supervisor).well_formed(),
            old(self).parent_id is Some ==> option_text(old(self).parent_id) == Some(parent_id@),
        ensures
            final(supervisor).well_formed(),
            host_refused(res, ownership_refusal(*old(self), *old(supervisor), parent_id@)),
            is_authorized(
                *old(self),
                *old(supervisor),
                parent_id@,
                res is Ok,
                *final(self),
                *final(supervisor),
            ),
    {
        if self.closed {
            return Err(BridgeError::host("headless connection is closed"));
        }
        let attached = match supervisor.parents.get(parent_id) {
            Some(parent) => parent.attachment.is_some(),
            None => false,
        };
        if attached {
            return Err(BridgeError::host("parent has an interactive frontend"));
        }
        match supervisor.headless_owners.get(parent_id) {
            Some(owner) => {
                if *owner != self.connection_id {
                    return Err(BridgeError::host("parent belongs to another headless connection"));
                }
            },
            None => {
                if self.parent_id.is_some() {
                    return Err(BridgeError::host("headless connection no longer owns parent"));
                }
            },
        }
        supervisor.headless_owners.insert(parent_id.to_owned(), self.connection_id);
        supervisor.headless_parents.insert(parent_id.to_owned(), true);
        self.parent_id = Some(parent_id.to_owned());
        assert(supervisor.one_frontend_each()) by {
            assert forall|other: Seq<char>| #[trigger]
                supervisor.headless_owners.map().dom().contains(other) implies supervisor.attached(
                other,
            ) is None by {
                if other != parent_id@ {
                    assert(old(supervisor).headless_owners.map().dom().contains(other));
                }
            }
        }
        Ok(())
    }

    /// Ends the connection: it owns nothing any more, and can never take a parent again.
    pub fn release(&mut self, supervisor: &mut Supervisor)
        requires
            old(supervisor).well_formed(),
        ensures
            final(supervisor).well_formed(),
            is_released(*old(self), *old(supervisor), *final(self), *final(supervisor)),
    {
        self.closed = true;
        match &self.parent_id {
            Some(parent_id) => {
                let owned = match supervisor.headless_owners.get(parent_id.as_str()) {
                    Some(owner) => *owner == self.connection_id,
                    None => false,
                };
                if owned {
                    let _ = supervisor.headless_owners.remove(parent_id.as_str());
                }
            },
            None => {},
        }
        assert(supervisor.one_frontend_each()) by {
            assert forall|other: Seq<char>| #[trigger]
                supervisor.headless_owners.map().dom().contains(other) implies supervisor.attached(
                other,
            ) is None by {
                assert(old(supervisor).headless_owners.map().dom().contains(other));
            }
        }
    }
}

/// Why a parent is not the connection's.
pub open spec fn listener_refusal(
    expected: Seq<char>,
    configured: Option<Seq<char>>,
) -> Option<Seq<char>> {
    if configured == Some(expected) {
        None
    } else {
        Some("parent does not belong to this headless listener"@)
    }
}

/// Whether a parent is configured with the connection's listener.
pub fn check_listener(expected: &str, configured: &Option<String>) -> (res: Result<
    (),
    BridgeError,
>)
    ensures
        host_refused(res, listener_refusal(expected@, option_text(*configured))),
{
    if is_text(configured, expected) {
        Ok(())
    } else {
        Err(BridgeError::host("parent does not belong to this headless listener"))
    }
}

/// A connection that has a parent takes no other, and a closed connection takes none.
pub proof fn binding_takes_one_parent(binding: HeadlessBinding, parent_id: Seq<char>)
    requires
        binding.closed || (binding.parent_id is Some && option_text(binding.parent_id) != Some(
            parent_id,
        )),
    ensures
        binding_refusal(binding, parent_id) is Some,
{
}

/// A parent with a user attached, or with another owner, is not taken.
pub proof fn parent_has_one_driver(
    binding: HeadlessBinding,
    supervisor: Supervisor,
    parent_id: Seq<char>,
)
    requires
        supervisor.attached(parent_id) is Some || (
        supervisor.headless_owners.map().dom().contains(parent_id)
            && supervisor.headless_owners.map()[parent_id] != binding.connection_id),
    ensures
        ownership_refusal(binding, supervisor, parent_id) is Some,
{
}

/// The address of a tool server that was started for a headless frontend.
pub fn listener_url(configuration: &serde_json::Value) -> (res: Result<String, BridgeError>)
    ensures
        host_refused(
            res,
            match tree(*configuration).member_text("url"@) {
                Some(_) => None,
                None => Some("headless listener URL is unavailable"@),
            },
        ),
        res matches Ok(url) ==> tree(*configuration).member_text("url"@) == Some(url@),
{
    match member_text(configuration, "url") {
        Some(url) => Ok(url),
        None => Err(BridgeError::host("headless listener URL is unavailable")),
    }
}

/// A connection takes a parent only where nobody else drives it, and one that it had only while it
/// still owns it; it drives that parent from then on, and can be authorized for it again. Once it is
/// ended it owns nothing and takes nothing, and what others own stays theirs.
pub proof fn connection_owns_its_parent_until_it_ends(
    before: HeadlessBinding,
    supervisor: Supervisor,
    parent_id: Seq<char>,
    bound: HeadlessBinding,
    owned: Supervisor,
    after: HeadlessBinding,
    released: Supervisor,
    other: Seq<char>,
)
    requires
        is_workspace_id(parent_id),
        ownership_refusal(before, supervisor, parent_id) is None,
        is_authorized(before, supervisor, parent_id, true, bound, owned),
        is_released(bound, owned, after, released),
        other != parent_id,
    ensures
        !before.closed,
        supervisor.attached(parent_id) is None,
        option_text(bound.parent_id) == Some(parent_id),
        owned.headless_owners.map().dom().contains(parent_id),
        owned.headless_owners.map()[parent_id] == before.connection_id,
        owned.headless_parents.map().dom().contains(parent_id),
        binding_refusal(bound, parent_id) is None,
        expected_listener(bound) is None,
        ownership_refusal(bound, owned, parent_id) is None,
        is_workspace_id(other) ==> binding_refusal(bound, other) is Some,
        after.closed,
        !released.headless_owners.map().dom().contains(parent_id),
        binding_refusal(after, parent_id) is Some,
        ownership_refusal(after, released, parent_id) is Some,
        supervisor.headless_owners.map().dom().contains(other) <==> released.headless_owners.map().dom().contains(
            other,
        ),
        supervisor.headless_owners.map().dom().contains(other)
            ==> released.headless_owners.map()[other] == supervisor.headless_owners.map()[other],
{
}

/// A connection is refused a parent exactly for one of these reasons.
pub proof fn parent_is_refused_for_a_reason(
    binding: HeadlessBinding,
    supervisor: Supervisor,
    parent_id: Seq<char>,
)
    ensures
        binding_refusal(binding, parent_id) is None <==> is_workspace_id(parent_id)
            && !binding.closed && (binding.parent_id is Some ==> binding.parent_id->Some_0@
            == parent_id) && (binding.parent_id is None ==> binding.listener_url is Some),
        ownership_refusal(binding, supervisor, parent_id) is None <==> {
            let owners = supervisor.headless_owners.map();
            &&& !binding.closed
            &&& supervisor.attached(parent_id) is None
            &&& owners.dom().contains(parent_id) ==> owners[parent_id] == binding.connection_id
            &&& binding.parent_id is Some ==> owners.dom().contains(parent_id)
        },
        binding.parent_id is None ==> expected_listener(binding) == option_text(
            binding.listener_url,
        ),
{
}

/// A connection serves the parents of its own listener alone.
pub proof fn connection_serves_its_own_listener(expected: Seq<char>, configured: Seq<char>)
    ensures
        listener_refusal(expected, Some(expected)) is None,
        listener_refusal(expected, None) is Some,
        configured != expected ==> listener_refusal(expected, Some(configured)) is Some,
{
}

/// The end of a connection takes from it what it owns, and nothing from anyone: parents, questions and
/// approvals stay, and so does what the connection was configured with.
pub proof fn ended_connection_takes_nothing_along(
    before: HeadlessBinding,
    supervisor: Supervisor,
    after: HeadlessBinding,
    released: Supervisor,
)
    requires
        is_released(before, supervisor, after, released),
    ensures
        after.closed,
        after.connection_id == before.connection_id && after.plugin_root == before.plugin_root
            && after.listener_url == before.listener_url && after.parent_id == before.parent_id,
        released.parents == supervisor.parents && released.consents == supervisor.consents
            && released.approvals == supervisor.approvals && released.headless_parents
            == supervisor.headless_parents,
        forall|parent: Seq<char>| #[trigger]
            supervisor.headless_owners.map().dom().contains(parent)
                && supervisor.headless_owners.map()[parent] != before.connection_id
                ==> released.headless_owners.map().dom().contains(parent)
                && released.headless_owners.map()[parent]
                == supervisor.headless_owners.map()[parent],
        before.parent_id is Some && supervisor.headless_owners.map().dom().contains(
            before.parent_id->Some_0@,
        ) && supervisor.headless_owners.map()[before.parent_id->Some_0@] == before.connection_id
            ==> !released.headless_owners.map().dom().contains(before.parent_id->Some_0@),
{
}

/// A parent that is refused is not taken: nobody owns it by that, and the connection is bound to what
/// it was bound to. Whatever came of it, the connection stays what it is, and parents and questions
/// stay.
pub proof fn refused_parent_is_not_taken(
    before: HeadlessBinding,
    supervisor: Supervisor,
    parent_id: Seq<char>,
    allowed: bool,
    after: HeadlessBinding,
    owned: Supervisor,
)
    requires
        is_authorized(before, supervisor, parent_id, allowed, after, owned),
    ensures
        !allowed ==> after.parent_id == before.parent_id && owned.headless_owners
            == supervisor.headless_owners && owned.headless_parents == supervisor.headless_parents,
        owned.parents == supervisor.parents && owned.consents == supervisor.consents
            && owned.approvals == supervisor.approvals,
        after.connection_id == before.connection_id && after.closed == before.closed
            && after.plugin_root == before.plugin_root && after.listener_url == before.listener_url,
{
}

} // verus!
