//! The list of saved workflows, and what a snapshot of the runs shows.
use crate::json::{as_items, as_text, get, member_text, tree, Json};
use crate::ledger::{has_ended, is_ended};
use crate::status::trees;
use crate::text::{is_text, option_text};
use vstd::prelude::*;
use vstd::string::*;

verus! {

/// A saved workflow that can be run by its name.
#[derive(Debug)]
pub struct WorkflowCommand {
    pub name: String,
    pub description: String,
}

/// What a command is.
#[verifier::ext_equal]
pub struct Command {
    pub name: Seq<char>,
    pub description: Seq<char>,
}

impl View for WorkflowCommand {
    type V = Command;

    open spec fn view(&self) -> Command {
        Command { name: self.name@, description: self.description@ }
    }
}

/// What the commands are.
pub open spec fn commands(list: Seq<WorkflowCommand>) -> Seq<Command> {
    list.map_values(|command: WorkflowCommand| command@)
}

/// The items of a list of saved workflows; none where there is no list.
pub open spec fn saved_items(catalog: Json) -> Seq<Json> {
    match catalog.member("workflows"@) {
        Some(list) => match list.items() {
            Some(items) => items,
            None => Seq::empty(),
        },
        None => Seq::empty(),
    }
}

/// The commands of the items that have a name, in their order.
pub open spec fn named_items(items: Seq<Json>) -> Seq<Command>
    decreases items.len(),
{
    if items.len() == 0 {
        Seq::empty()
    } else {
        let before = named_items(items.drop_last());
        match items.last().member_text("name"@) {
            Some(name) => before.push(
                Command {
                    name,
                    description: match items.last().member_text("description"@) {
                        Some(description) => description,
                        None => Seq::empty(),
                    },
                },
            ),
            None => before,
        }
    }
}

/// The commands that a list of saved workflows gives.
pub fn catalog_commands(catalog: &serde_json::Value) -> (res: Vec<WorkflowCommand>)
    ensures
        commands(res@) == named_items(saved_items(tree(*catalog))),
{
    let mut list: Vec<WorkflowCommand> = Vec::new();
    assert(commands(list@) =~= Seq::<Command>::empty());
    let items = match get(catalog, "workflows") {
        Some(value) => match as_items(value) {
            Some(items) => items,
            None => {
                return list;
            },
        },
        None => {
            return list;
        },
    };
    let ghost all = trees(items@);
    let mut i: usize = 0;
    assert(all.take(0) =~= Seq::<Json>::empty());
    while i < items.len()
        invariant
            all == trees(items@),
            i <= items@.len(),
            commands(list@) == named_items(all.take(i as int)),
        decreases items@.len() - i,
    {
        assert(all.take(i + 1).drop_last() =~= all.take(i as int));
        assert(all.take(i + 1).last() == tree(items@[i as int]));
        match member_text(&items[i], "name") {
            Some(name) => {
                let description = match member_text(&items[i], "description") {
                    Some(description) => description,
                    None => String::new(),
                };
                assert(description@ =~= match tree(items@[i as int]).member_text("description"@) {
                    Some(description) => description,
                    None => Seq::empty(),
                });
                let command = WorkflowCommand { name, description };
                let ghost before = list@;
                list.push(command);
                assert(commands(list@) =~= commands(before).push(command@));
            },
            None => {},
        }
        i = i + 1;
    }
    assert(all.take(items@.len() as int) =~= all);
    list
}

/// The digest that an item tells.
pub open spec fn item_digest(item: Json) -> Option<Seq<char>> {
    if item.member("sourceDigest"@) is Some {
        item.member_text("sourceDigest"@)
    } else {
        item.member_text("digest"@)
    }
}

/// The digest of a saved workflow: that of the first item with its name.
pub open spec fn digest_among(items: Seq<Json>, name: Seq<char>) -> Option<Seq<char>>
    decreases items.len(),
{
    if items.len() == 0 {
        None
    } else if items[0].member_text("name"@) == Some(name) {
        item_digest(items[0])
    } else {
        digest_among(items.skip(1), name)
    }
}

/// The digest of a saved workflow, where the list tells one.
pub fn saved_digest(catalog: &serde_json::Value, name: &str) -> (res: Option<String>)
    ensures
        option_text(res) == digest_among(saved_items(tree(*catalog)), name@),
{
    let items = match get(catalog, "workflows") {
        Some(value) => match as_items(value) {
            Some(items) => items,
            None => {
                return None;
            },
        },
        None => {
            return None;
        },
    };
    let ghost all = trees(items@);
    let mut i: usize = 0;
    assert(all.skip(0) =~= all);
    while i < items.len()
        invariant
            all == trees(items@),
            all == saved_items(tree(*catalog)),
            i <= items@.len(),
            digest_among(all.skip(i as int), name@) == digest_among(all, name@),
        decreases items@.len() - i,
    {
        assert(all.skip(i as int)[0] == tree(items@[i as int]));
        assert(all.skip(i as int).skip(1) =~= all.skip(i + 1));
        if is_text(&member_text(&items[i], "name"), name) {
            return match get(&items[i], "sourceDigest") {
                Some(digest) => as_text(digest),
                None => member_text(&items[i], "digest"),
            };
        }
        i = i + 1;
    }
    None
}

/// Whether a run goes on, or may.
pub open spec fn is_active(run: Json) -> bool {
    match run.member_text("status"@) {
        Some(status) => !has_ended(status),
        None => true,
    }
}

/// Whether any of the runs is active.
pub open spec fn some_active(runs: Seq<Json>) -> bool {
    exists|i: int| 0 <= i < runs.len() && is_active(#[trigger] runs[i])
}

/// Whether any run of a snapshot is active.
pub open spec fn any_active(snapshot: Json) -> bool {
    match snapshot.member("runs"@) {
        Some(list) => match list.items() {
            Some(runs) => some_active(runs),
            None => false,
        },
        None => false,
    }
}

pub fn has_active_runs(snapshot: &serde_json::Value) -> (res: bool)
    ensures
        res == any_active(tree(*snapshot)),
{
    let runs = match get(snapshot, "runs") {
        Some(value) => match as_items(value) {
            Some(runs) => runs,
            None => {
                return false;
            },
        },
        None => {
            return false;
        },
    };
    let ghost all = trees(runs@);
    let mut i: usize = 0;
    while i < runs.len()
        invariant
            all == trees(runs@),
            tree(*snapshot).member("runs"@) is Some,
            tree(*snapshot).member("runs"@)->Some_0.items() == Some(all),
            i <= runs@.len(),
            forall|j: int| 0 <= j < i ==> !is_active(#[trigger] all[j]),
        decreases runs@.len() - i,
    {
        assert(all[i as int] == tree(runs@[i as int]));
        let active = match member_text(&runs[i], "status") {
            Some(status) => !is_ended(status.as_str()),
            None => true,
        };
        if active {
            assert(some_active(all));
            return true;
        }
        i = i + 1;
    }
    false
}

/// Every saved workflow with a name is a command, in the order of the list, and nothing else is.
pub proof fn each_named_workflow_is_a_command(items: Seq<Json>, last: Json)
    ensures
        named_items(Seq::empty()).len() == 0,
        last.member_text("name"@) is None ==> named_items(items.push(last)) == named_items(items),
        last.member_text("name"@) matches Some(name) ==> {
            &&& named_items(items.push(last)).len() == named_items(items).len() + 1
            &&& named_items(items.push(last)).drop_last() == named_items(items)
            &&& named_items(items.push(last)).last().name == name
            &&& last.member_text("description"@) matches Some(text) ==> named_items(
                items.push(last),
            ).last().description == text
            &&& last.member_text("description"@) is None ==> named_items(
                items.push(last),
            ).last().description.len() == 0
        },
{
    assert(items.push(last).drop_last() =~= items);
}

/// The digest of a saved workflow is the one that the first item with its name tells, under either
/// name of the member; a workflow that is not in the list has none.
pub proof fn digest_is_of_the_first_with_the_name(items: Seq<Json>, name: Seq<char>, i: int)
    requires
        0 <= i <= items.len(),
        forall|j: int|
            0 <= j < i ==> (#[trigger] items[j]).member_text("name"@) != Some(name),
        i < items.len() ==> items[i].member_text("name"@) == Some(name),
    ensures
        i == items.len() ==> digest_among(items, name) is None,
        i < items.len() && items[i].member("sourceDigest"@) is Some ==> digest_among(items, name)
            == items[i].member_text("sourceDigest"@),
        i < items.len() && items[i].member("sourceDigest"@) is None ==> digest_among(items, name)
            == items[i].member_text("digest"@),
    decreases i,
{
    if i > 0 {
        let rest = items.skip(1);
        assert(items[0].member_text("name"@) != Some(name));
        assert forall|j: int| 0 <= j < i - 1 implies (#[trigger] rest[j]).member_text("name"@)
            != Some(name) by {
            assert(rest[j] == items[j + 1]);
        }
        if i < items.len() {
            assert(rest[i - 1] == items[i]);
        }
        digest_is_of_the_first_with_the_name(rest, name, i - 1);
    }
}

/// The members of a list of saved workflows, and those of a snapshot, are found under their names.
pub proof fn lists_are_found(catalog: Json, items: Seq<Json>)
    requires
        catalog.member("workflows"@) == Some(Json::Array(items)),
    ensures
        saved_items(catalog) == items,
{
}

/// A snapshot has an active run exactly where one of its runs has not ended: completed, failed,
/// stopped and interrupted runs have, and a run that tells no status has not.
pub proof fn active_runs_have_not_ended(snapshot: Json, runs: Seq<Json>)
    requires
        snapshot.member("runs"@) == Some(Json::Array(runs)),
    ensures
        any_active(snapshot) <==> exists|i: int|
            0 <= i < runs.len() && (#[trigger] runs[i]).member_text("status"@) != Some("completed"@)
                && runs[i].member_text("status"@) != Some("failed"@) && runs[i].member_text(
                "status"@,
            ) != Some("stopped"@) && runs[i].member_text("status"@) != Some("interrupted"@),
{
    if any_active(snapshot) {
        let i = choose|i: int| 0 <= i < runs.len() && is_active(#[trigger] runs[i]);
        assert(runs[i].member_text("status"@) != Some("completed"@));
    }
    assert forall|i: int|
        0 <= i < runs.len() && (#[trigger] runs[i]).member_text("status"@) != Some("completed"@)
            && runs[i].member_text("status"@) != Some("failed"@) && runs[i].member_text("status"@)
            != Some("stopped"@) && runs[i].member_text("status"@) != Some(
            "interrupted"@,
        ) implies is_active(runs[i]) by {}
}

} // verus!
