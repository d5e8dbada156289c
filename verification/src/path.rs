//! Absolute paths as lists of components.
use crate::ids::{is_workspace_id, workspace_id_is_one_component};
use crate::text::{join, joined, pieces, pieces_of_concat, plus, same, split, starts_with, texts};
use vstd::prelude::*;

verus! {

/// An absolute path. Its components are the names from the root down.
#[derive(Debug)]
pub struct AbsolutePath {
    pub components: Vec<String>,
}

impl View for AbsolutePath {
    type V = Seq<Seq<char>>;

    open spec fn view(&self) -> Seq<Seq<char>> {
        texts(self.components@)
    }
}

/// The components of a path text: what stands between the separators, without what is empty and
/// without `.`.
pub open spec fn kept(parts: Seq<Seq<char>>) -> Seq<Seq<char>>
    decreases parts.len(),
{
    if parts.len() == 0 {
        Seq::empty()
    } else {
        let before = kept(parts.drop_last());
        if parts.last().len() == 0 || parts.last() == "."@ {
            before
        } else {
            before.push(parts.last())
        }
    }
}

pub open spec fn components(text: Seq<char>) -> Seq<Seq<char>> {
    kept(pieces(text, '/'))
}

/// Whether a path text starts at the root.
pub open spec fn is_absolute(text: Seq<char>) -> bool {
    text.len() > 0 && text[0] == '/'
}

/// What `base` leads to by `relative`; an absolute text replaces the base.
pub open spec fn joined_path(base: Seq<Seq<char>>, relative: Seq<char>) -> Seq<Seq<char>> {
    if is_absolute(relative) {
        components(relative)
    } else {
        base + components(relative)
    }
}

/// The text of a path: `/` before each component, and `/` alone for the root.
pub open spec fn path_text(path: Seq<Seq<char>>) -> Seq<char> {
    "/"@ + joined(path, "/"@)
}

/// Whether the components of `prefix` come first in `path`.
pub open spec fn is_under(path: Seq<Seq<char>>, prefix: Seq<Seq<char>>) -> bool {
    prefix.len() <= path.len() && path.take(prefix.len() as int) == prefix
}

fn split_components(text: &str) -> (res: Vec<String>)
    ensures
        texts(res@) == components(text@),
{
    let parts = split(text, '/');
    let mut out: Vec<String> = Vec::new();
    let mut i: usize = 0;
    assert(texts(out@) =~= kept(texts(parts@).take(0)));
    while i < parts.len()
        invariant
            i <= parts@.len(),
            texts(out@) == kept(texts(parts@).take(i as int)),
        decreases parts@.len() - i,
    {
        let ghost before = out@;
        let ghost all = texts(parts@);
        assert(all.take(i + 1).drop_last() =~= all.take(i as int));
        assert(all.take(i + 1).last() == parts@[i as int]@);
        let part = parts[i].clone();
        if !part.as_str().is_empty() && !same(part.as_str(), ".") {
            out.push(part);
            assert(texts(out@) =~= texts(before).push(part@));
        }
        i = i + 1;
    }
    assert(texts(parts@).take(parts@.len() as int) =~= texts(parts@));
    out
}

/// Whether a path text starts at the root.
pub fn path_is_absolute(text: &str) -> (res: bool)
    ensures
        res == is_absolute(text@),
{
    let res = starts_with(text, "/");
    proof {
        reveal_strlit("/");
        if text@.len() > 0 {
            assert(text@.take(1)[0] == text@[0]);
            assert(text@[0] == '/' ==> text@.take(1) =~= "/"@);
        }
    }
    res
}

impl AbsolutePath {
    /// The path that an absolute text names.
    pub fn parse(text: &str) -> (res: Option<AbsolutePath>)
        ensures
            res is Some <==> is_absolute(text@),
            res matches Some(path) ==> path@ == components(text@),
    {
        if path_is_absolute(text) {
            Some(AbsolutePath { components: split_components(text) })
        } else {
            None
        }
    }

    pub fn join(&self, relative: &str) -> (res: AbsolutePath)
        ensures
            res@ == joined_path(self@, relative@),
    {
        if path_is_absolute(relative) {
            return AbsolutePath { components: split_components(relative) };
        }
        let tail = split_components(relative);
        let mut components = self.components.clone();
        let ghost start = components@;
        let mut i: usize = 0;
        assert(texts(components@) =~= self@ + texts(tail@).take(0));
        while i < tail.len()
            invariant
                i <= tail@.len(),
                texts(components@) == self@ + texts(tail@).take(i as int),
            decreases tail@.len() - i,
        {
            let ghost before = components@;
            components.push(tail[i].clone());
            assert(texts(components@) =~= texts(before).push(tail@[i as int]@));
            assert(texts(tail@).take(i + 1) =~= texts(tail@).take(i as int).push(
                texts(tail@)[i as int],
            ));
            assert(texts(components@) =~= self@ + texts(tail@).take(i + 1));
            i = i + 1;
        }
        assert(texts(tail@).take(tail@.len() as int) =~= texts(tail@));
        AbsolutePath { components }
    }

    /// The path without its last component; the root has none.
    pub fn parent(&self) -> (res: Option<AbsolutePath>)
        ensures
            res is Some <==> self@.len() > 0,
            res matches Some(parent) ==> parent@ == self@.drop_last(),
    {
        if self.components.len() == 0 {
            return None;
        }
        let mut components = self.components.clone();
        let _ = components.pop();
        assert(texts(components@) =~= self@.drop_last());
        Some(AbsolutePath { components })
    }

    pub fn starts_with(&self, prefix: &AbsolutePath) -> (res: bool)
        ensures
            res == is_under(self@, prefix@),
    {
        let n: usize = prefix.components.len();
        if n > self.components.len() {
            return false;
        }
        let mut i: usize = 0;
        while i < n
            invariant
                n == prefix.components@.len(),
                n <= self.components@.len(),
                i <= n,
                forall|j: int|
                    0 <= j < i ==> (#[trigger] self.components@[j])@ == prefix.components@[j]@,
            decreases n - i,
        {
            if !same(self.components[i].as_str(), prefix.components[i].as_str()) {
                assert(self@.take(n as int)[i as int] != prefix@[i as int]);
                return false;
            }
            i = i + 1;
        }
        assert(self@.take(n as int) =~= prefix@);
        true
    }

    pub fn same(&self, other: &AbsolutePath) -> (res: bool)
        ensures
            res == (self@ == other@),
    {
        if self.components.len() != other.components.len() {
            return false;
        }
        let res = self.starts_with(other);
        assert(self@.take(other@.len() as int) =~= self@);
        res
    }

    pub fn text(&self) -> (res: String)
        ensures
            res@ == path_text(self@),
    {
        let tail = join(&self.components, "/");
        plus("/", tail.as_str())
    }

    pub fn copy(&self) -> (res: AbsolutePath)
        ensures
            res@ == self@,
    {
        AbsolutePath { components: self.components.clone() }
    }
}

/// A name without a separator is a single piece.
proof fn one_piece(text: Seq<char>, separator: char)
    requires
        forall|i: int| 0 <= i < text.len() ==> text[i] != separator,
    ensures
        pieces(text, separator) == seq![text],
    decreases text.len(),
{
    if text.len() > 0 {
        let head = text.drop_last();
        assert forall|i: int| 0 <= i < head.len() implies head[i] != separator by {
            assert(head[i] == text[i]);
        }
        one_piece(head, separator);
        assert(head.push(text.last()) =~= text);
        assert(pieces(text, separator) =~= seq![text]);
    } else {
        assert(text =~= Seq::<char>::empty());
        assert(pieces(text, separator) =~= seq![text]);
    }
}

/// A name that is neither empty nor `.` and holds no `/` is one component.
pub proof fn one_component(name: Seq<char>)
    requires
        name.len() > 0,
        name != "."@,
        forall|i: int| 0 <= i < name.len() ==> name[i] != '/',
    ensures
        components(name) == seq![name],
        !is_absolute(name),
{
    one_piece(name, '/');
    let parts = seq![name];
    assert(parts.drop_last() =~= Seq::<Seq<char>>::empty());
    reveal_with_fuel(kept, 2);
    assert(kept(parts) =~= seq![name]);
}

/// Two names with a separator between them are two components.
pub proof fn two_components(base: Seq<Seq<char>>, head: Seq<char>, tail: Seq<char>)
    requires
        head.len() > 0,
        head != "."@,
        forall|i: int| 0 <= i < head.len() ==> head[i] != '/',
        tail.len() > 0,
        tail != "."@,
        forall|i: int| 0 <= i < tail.len() ==> tail[i] != '/',
    ensures
        joined_path(base, head + "/"@ + tail) == base.push(head).push(tail),
{
    reveal_strlit("/");
    let text = head + "/"@ + tail;
    assert(text =~= head.push('/') + tail);
    pieces_of_concat(head, tail, '/');
    one_piece(head, '/');
    let parts = pieces(text, '/');
    assert(parts =~= seq![head, tail]);
    reveal_with_fuel(kept, 3);
    assert(parts.drop_last() =~= seq![head]);
    assert(seq![head].drop_last() =~= Seq::<Seq<char>>::empty());
    assert(components(text) =~= seq![head, tail]);
    assert(text[0] == head[0]);
    assert(joined_path(base, text) =~= base.push(head).push(tail));
}

/// Whether every component is a name: neither empty nor `.`, and without a separator.
pub open spec fn has_names(path: Seq<Seq<char>>) -> bool {
    forall|k: int|
        0 <= k < path.len() ==> {
            &&& (#[trigger] path[k]).len() > 0
            &&& path[k] != "."@
            &&& forall|i: int| 0 <= i < path[k].len() ==> path[k][i] != '/'
        }
}

/// A path made of names is read back from its text.
pub proof fn path_is_read_back(path: Seq<Seq<char>>)
    requires
        has_names(path),
    ensures
        components(path_text(path)) == path,
    decreases path.len(),
{
    reveal_strlit("/");
    let root = Seq::<char>::empty();
    assert(pieces(root, '/') =~= seq![root]);
    assert(seq![root].drop_last() =~= Seq::<Seq<char>>::empty());
    if path.len() == 0 {
        pieces_of_concat(root, root, '/');
        assert(path_text(path) =~= root.push('/') + root);
        assert(seq![root, root].drop_last() =~= seq![root]);
        reveal_with_fuel(kept, 3);
        assert(components(path_text(path)) =~= path);
    } else {
        let above = path.drop_last();
        assert forall|k: int| 0 <= k < above.len() implies {
            &&& (#[trigger] above[k]).len() > 0
            &&& above[k] != "."@
            &&& forall|i: int| 0 <= i < above[k].len() ==> above[k][i] != '/'
        } by {
            assert(above[k] == path[k]);
        }
        let name = path.last();
        assert(name == path[path.len() - 1]);
        path_is_read_back(above);
        let head = if above.len() == 0 {
            root
        } else {
            path_text(above)
        };
        assert(above.len() == 0 ==> path[0] == name);
        assert(path_text(path) =~= head.push('/') + name);
        pieces_of_concat(head, name, '/');
        let parts = pieces(path_text(path), '/');
        assert(parts == pieces(head, '/').push(name));
        assert(parts.drop_last() =~= pieces(head, '/'));
        if above.len() == 0 {
            reveal_with_fuel(kept, 2);
            assert(kept(pieces(head, '/')) =~= above);
        }
        assert(kept(parts) =~= above.push(name));
        assert(above.push(name) =~= path);
    }
}

/// Where the record of a workspace stands in the repository's common Git directory.
pub open spec fn record_path(common_git_dir: Seq<Seq<char>>, id: Seq<char>) -> Seq<Seq<char>> {
    joined_path(joined_path(common_git_dir, "ultracode-workspaces"@), id + ".json"@)
}

pub fn workflow_workspace_record_path(common_git_dir: &AbsolutePath, id: &str) -> (res:
    AbsolutePath)
    ensures
        res@ == record_path(common_git_dir@, id@),
{
    common_git_dir.join("ultracode-workspaces").join(plus(id, ".json").as_str())
}

/// The record of an accepted workspace identity is a file directly inside the record directory.
pub proof fn record_stays_in_its_directory(common_git_dir: Seq<Seq<char>>, id: Seq<char>)
    requires
        is_workspace_id(id),
    ensures
        record_path(common_git_dir, id) == common_git_dir.push("ultracode-workspaces"@).push(
            id + ".json"@,
        ),
{
    reveal_strlit("ultracode-workspaces");
    reveal_strlit(".json");
    reveal_strlit(".");
    one_component("ultracode-workspaces"@);
    let name = id + ".json"@;
    workspace_id_is_one_component(id, 0);
    assert forall|i: int| 0 <= i < name.len() implies name[i] != '/' by {
        if i < id.len() {
            workspace_id_is_one_component(id, i);
        }
    }
    one_component(name);
    assert(record_path(common_git_dir, id) =~= common_git_dir.push("ultracode-workspaces"@).push(
        name,
    ));
}

} // verus!
