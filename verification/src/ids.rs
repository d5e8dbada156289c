//! Identities: threads, workspaces, runs and workers, saved workflows, plugins.
use crate::digest::{hex_digit, is_hex};
use crate::error::{invalid_request, RpcError, INVALID_REQUEST};
use crate::text::{plus, same};
use vstd::arithmetic::power::pow;
use vstd::prelude::*;
use vstd::string::*;

verus! {

/// What `uuid::Uuid::parse_str` makes of a text: the 128-bit value, or the message of its error.
pub uninterp spec fn uuid_parse(text: Seq<char>) -> Result<u128, Seq<char>>;

/// The `k`-th of the 32 hexadecimal digits of a 128-bit value, the most significant first.
pub open spec fn uuid_digit(id: u128, k: int) -> char {
    hex_digit(((id as int / pow(16, (31 - k) as nat)) % 16) as nat)
}

/// The canonical text of a UUID: lower-case hexadecimal digits in groups of 8, 4, 4, 4 and 12.
pub open spec fn uuid_text(id: u128) -> Seq<char> {
    Seq::new(
        36,
        |i: int|
            if i == 8 || i == 13 || i == 18 || i == 23 {
                '-'
            } else if i < 8 {
                uuid_digit(id, i)
            } else if i < 13 {
                uuid_digit(id, i - 1)
            } else if i < 18 {
                uuid_digit(id, i - 2)
            } else if i < 23 {
                uuid_digit(id, i - 3)
            } else {
                uuid_digit(id, i - 4)
            },
    )
}

/// The canonical text of a UUID has 36 characters, each a lower-case hexadecimal digit or `-`.
pub proof fn uuid_text_shape(id: u128)
    ensures
        uuid_text(id).len() == 36,
        forall|i: int|
            0 <= i < 36 ==> is_hex(#[trigger] uuid_text(id)[i]) || uuid_text(id)[i] == '-',
{
}

/// `uuid::Uuid::parse_str`: its result and its error's message depend on the text alone, and the
/// canonical text of a UUID gives that UUID back.
#[verifier::external_body]
pub(crate) fn parse_uuid(text: &str) -> (res: Result<u128, String>)
    ensures
        res is Ok <==> uuid_parse(text@) is Ok,
        res matches Ok(id) ==> id == uuid_parse(text@)->Ok_0,
        res matches Err(message) ==> message@ == uuid_parse(text@)->Err_0,
        forall|id: u128| text@ == #[trigger] uuid_text(id) ==> res is Ok && res->Ok_0 == id,
{
    match uuid::Uuid::parse_str(text) {
        Ok(id) => Ok(id.as_u128()),
        Err(error) => Err(error.to_string()),
    }
}

/// `Display` of `uuid::Uuid`: the canonical text.
#[verifier::external_body]
pub(crate) fn format_uuid(id: u128) -> (res: String)
    ensures
        res@ == uuid_text(id),
{
    uuid::Uuid::from_u128(id).to_string()
}

/// Whether a UUID is marked as a random one: its version is 4, and its variant that of the standard.
pub open spec fn is_random_uuid(id: u128) -> bool {
    (id >> 76) & 0xf == 4 && (id >> 62) & 0x3 == 2
}

/// `uuid::Uuid::new_v4`: a random UUID. Its version and its variant are fixed; the other bits are
/// chance, and nothing is stated of them.
#[verifier::external_body]
pub(crate) fn random_uuid() -> (res: u128)
    ensures
        is_random_uuid(res),
{
    uuid::Uuid::new_v4().as_u128()
}

/// A fresh identity in canonical form.
pub fn fresh_id() -> (res: String)
    ensures
        exists|id: u128| res@ == #[trigger] uuid_text(id) && is_random_uuid(id),
{
    let id: u128 = random_uuid();
    let text = format_uuid(id);
    assert(text@ == uuid_text(id));
    text
}

/// The identity of a thread.
#[derive(Clone, Copy, Debug, PartialEq, Eq, Structural)]
pub struct ThreadId {
    pub value: u128,
}

impl ThreadId {
    /// A fresh thread identity, a random one.
    #[allow(clippy::new_without_default)]
    pub fn new() -> (res: ThreadId)
        ensures
            is_random_uuid(res.value),
    {
        ThreadId { value: random_uuid() }
    }

    /// The thread that a text names, or the parser's message.
    pub fn from_string(text: &str) -> (res: Result<ThreadId, String>)
        ensures
            match res {
                Ok(id) => uuid_parse(text@) == Ok::<u128, Seq<char>>(id.value),
                Err(message) => uuid_parse(text@) == Err::<u128, Seq<char>>(message@),
            },
            forall|id: u128|
                text@ == #[trigger] uuid_text(id) ==> res == Ok::<ThreadId, String>(
                    ThreadId { value: id },
                ),
    {
        match parse_uuid(text) {
            Ok(value) => Ok(ThreadId { value }),
            Err(message) => Err(message),
        }
    }

    /// The canonical text of the identity.
    pub fn to_text(&self) -> (res: String)
        ensures
            res@ == uuid_text(self.value),
    {
        format_uuid(self.value)
    }
}

/// Whether a text is the canonical form of a UUID.
pub open spec fn is_workspace_id(value: Seq<char>) -> bool {
    exists|id: u128| value == #[trigger] uuid_text(id)
}

/// Accepts exactly the canonical texts of UUIDs.
pub fn validate_workflow_workspace_id(value: &str) -> (res: Result<(), RpcError>)
    ensures
        res is Ok <==> is_workspace_id(value@),
        res matches Err(error) ==> error.is(INVALID_REQUEST, "invalid workflow workspace ID"@),
{
    match parse_uuid(value) {
        Ok(id) => {
            let canonical = format_uuid(id);
            if same(canonical.as_str(), value) {
                Ok(())
            } else {
                Err(invalid_request("invalid workflow workspace ID"))
            }
        },
        Err(_) => Err(invalid_request("invalid workflow workspace ID")),
    }
}

/// No accepted workspace identity can name another directory or hide a file: it holds neither `/`
/// nor `.`.
pub proof fn workspace_id_is_one_component(value: Seq<char>, i: int)
    requires
        is_workspace_id(value),
        0 <= i < value.len(),
    ensures
        value.len() == 36,
        value[i] != '/',
        value[i] != '.',
{
    let id = choose|id: u128| value == #[trigger] uuid_text(id);
    uuid_text_shape(id);
    assert(is_hex(uuid_text(id)[i]) || uuid_text(id)[i] == '-');
}

/// Whether `c` may stand in the identity of a run or a worker.
pub open spec fn is_id_char(c: char) -> bool {
    ('a' <= c && c <= 'z') || ('A' <= c && c <= 'Z') || ('0' <= c && c <= '9') || c == '-' || c
        == '_'
}

/// Whether `c` may stand in the name of a plugin.
pub open spec fn is_plugin_char(c: char) -> bool {
    ('a' <= c && c <= 'z') || ('0' <= c && c <= '9') || c == '-' || c == '_'
}

/// Whether `c` may stand in the name of a saved workflow.
pub open spec fn is_save_char(c: char) -> bool {
    ('a' <= c && c <= 'z') || ('0' <= c && c <= '9') || c == '-'
}

/// One to 128 letters, digits, `-` and `_`.
pub open spec fn is_id_component(value: Seq<char>) -> bool {
    0 < value.len() <= 128 && forall|i: int| 0 <= i < value.len() ==> is_id_char(#[trigger] value[i])
}

/// One to 64 lower-case letters, digits, `-` and `_`.
pub open spec fn is_plugin_name(value: Seq<char>) -> bool {
    0 < value.len() <= 64 && forall|i: int|
        0 <= i < value.len() ==> is_plugin_char(#[trigger] value[i])
}

/// One to 64 lower-case letters, digits and `-`, not starting with `-`.
pub open spec fn is_save_name(value: Seq<char>) -> bool {
    0 < value.len() <= 64 && value[0] != '-' && forall|i: int|
        0 <= i < value.len() ==> is_save_char(#[trigger] value[i])
}

/// Whether a value can be the identity of a run or a worker.
pub fn workflow_id_component(value: &str) -> (res: bool)
    ensures
        res == is_id_component(value@),
{
    let n: usize = value.unicode_len();
    if n == 0 || n > 128 {
        return false;
    }
    let mut i: usize = 0;
    while i < n
        invariant
            n == value@.len(),
            i <= n,
            forall|j: int| 0 <= j < i ==> is_id_char(#[trigger] value@[j]),
        decreases n - i,
    {
        let c = value.get_char(i);
        let ok = ('a' <= c && c <= 'z') || ('A' <= c && c <= 'Z') || ('0' <= c && c <= '9') || c
            == '-' || c == '_';
        if !ok {
            assert(!is_id_char(value@[i as int]));
            return false;
        }
        i = i + 1;
    }
    true
}

/// Whether a value can be the name of a plugin that offers workflows.
pub fn plugin_name(value: &str) -> (res: bool)
    ensures
        res == is_plugin_name(value@),
{
    let n: usize = value.unicode_len();
    if n == 0 || n > 64 {
        return false;
    }
    let mut i: usize = 0;
    while i < n
        invariant
            n == value@.len(),
            i <= n,
            forall|j: int| 0 <= j < i ==> is_plugin_char(#[trigger] value@[j]),
        decreases n - i,
    {
        let c = value.get_char(i);
        let ok = ('a' <= c && c <= 'z') || ('0' <= c && c <= '9') || c == '-' || c == '_';
        if !ok {
            assert(!is_plugin_char(value@[i as int]));
            return false;
        }
        i = i + 1;
    }
    true
}

/// Whether a value can be the name of a saved workflow.
pub fn save_name(value: &str) -> (res: bool)
    ensures
        res == is_save_name(value@),
{
    let n: usize = value.unicode_len();
    if n == 0 || n > 64 || value.get_char(0) == '-' {
        return false;
    }
    let mut i: usize = 0;
    while i < n
        invariant
            n == value@.len(),
            i <= n,
            forall|j: int| 0 <= j < i ==> is_save_char(#[trigger] value@[j]),
        decreases n - i,
    {
        let c = value.get_char(i);
        let ok = ('a' <= c && c <= 'z') || ('0' <= c && c <= '9') || c == '-';
        if !ok {
            assert(!is_save_char(value@[i as int]));
            return false;
        }
        i = i + 1;
    }
    true
}

/// The reason under which the host locks the checkout of a workspace.
pub open spec fn lock_reason(id: Seq<char>) -> Seq<char> {
    "ultracode-workflow:"@ + id
}

pub fn workflow_lock_reason(id: &str) -> (res: String)
    ensures
        res@ == lock_reason(id@),
{
    plus("ultracode-workflow:", id)
}

/// Equal digits from the most significant on make equal quotients.
proof fn digits_tell_the_quotient(id: u128, other: u128, n: nat)
    requires
        n <= 32,
        forall|k: int| 0 <= k < 32 ==> #[trigger] uuid_digit(id, k) == uuid_digit(other, k),
    ensures
        id as int / pow(16, (32 - n) as nat) == other as int / pow(16, (32 - n) as nat),
    decreases n,
{
    if n == 0 {
        reveal_with_fuel(pow, 33);
        assert(pow(16, 32) == 0x1_0000_0000_0000_0000_0000_0000_0000_0000);
        vstd::arithmetic::div_mod::lemma_basic_div(id as int, pow(16, 32));
        vstd::arithmetic::div_mod::lemma_basic_div(other as int, pow(16, 32));
    } else {
        digits_tell_the_quotient(id, other, (n - 1) as nat);
        let m = (32 - n) as nat;
        let small = pow(16, m);
        let large = pow(16, m + 1);
        assert(large == 16 * small) by {
            reveal(pow);
        }
        vstd::arithmetic::power::lemma_pow_positive(16, m);
        let a = id as int / small;
        let b = other as int / small;
        assert(small * 16 == large);
        vstd::arithmetic::div_mod::lemma_div_denominator(id as int, small, 16);
        vstd::arithmetic::div_mod::lemma_div_denominator(other as int, small, 16);
        assert(a / 16 == b / 16);
        assert(uuid_digit(id, n - 1) == uuid_digit(other, n - 1));
        assert(31 - (n - 1) == m);
        assert(a % 16 == b % 16);
    }
}

/// The canonical text of a UUID tells it: no two UUIDs have the same.
pub proof fn uuid_text_tells_the_uuid(id: u128, other: u128)
    requires
        uuid_text(id) == uuid_text(other),
    ensures
        id == other,
{
    assert forall|k: int| 0 <= k < 32 implies #[trigger] uuid_digit(id, k) == uuid_digit(
        other,
        k,
    ) by {
        let i = if k < 8 {
            k
        } else if k < 12 {
            k + 1
        } else if k < 16 {
            k + 2
        } else if k < 20 {
            k + 3
        } else {
            k + 4
        };
        assert(uuid_text(id)[i] == uuid_digit(id, k));
        assert(uuid_text(other)[i] == uuid_digit(other, k));
    }
    digits_tell_the_quotient(id, other, 32);
    assert(pow(16, 0) == 1) by {
        reveal(pow);
    }
}

/// A name under which a workflow can be saved can be the name of a plugin, and that can be the identity
/// of a run. None of them can name another directory. A longer name is accepted as long as it is short
/// enough, and the characters beside letters and digits are the ones of each.
pub proof fn names_are_nested(value: Seq<char>, c: char)
    ensures
        is_save_name(value) ==> is_plugin_name(value),
        is_plugin_name(value) ==> is_id_component(value),
        is_id_component(value) ==> !value.contains('/') && !value.contains('.') && value.len() > 0,
        is_save_name(value) ==> value[0] != '-' && !value.contains('_'),
        is_id_component(value) ==> (is_id_component(value.push(c)) <==> value.len() < 128 && (c
            == '-' || c == '_' || 97 <= c as int <= 122 || 65 <= c as int <= 90 || 48 <= c as int
            <= 57)),
        is_plugin_name(value) ==> (is_plugin_name(value.push(c)) <==> value.len() < 64 && (c == '-'
            || c == '_' || 97 <= c as int <= 122 || 48 <= c as int <= 57)),
        is_save_name(value) ==> (is_save_name(value.push(c)) <==> value.len() < 64 && (c == '-'
            || 97 <= c as int <= 122 || 48 <= c as int <= 57)),
        is_id_component(seq![c]) <==> is_id_component(seq!['a', c]),
        is_plugin_name(seq![c]) <==> is_plugin_name(seq!['a', c]),
        is_save_name(seq![c]) <==> is_save_name(seq!['a', c]) && c != '-',
        is_save_name(seq!['a']),
        !is_id_component(Seq::empty()),
{
    let longer = value.push(c);
    assert(longer.last() == c);
    assert(longer[longer.len() - 1] == c);
    assert(seq![c][0] == c);
    assert(seq!['a', c][1] == c);
    assert(value.len() > 0 ==> longer[0] == value[0]);
    assert forall|i: int| 0 <= i < value.len() implies longer[i] == #[trigger] value[i] by {}
    if is_save_name(value) {
        assert forall|i: int| 0 <= i < value.len() implies is_plugin_char(
            #[trigger] value[i],
        ) by {
            assert(is_save_char(value[i]));
        }
    }
    if is_plugin_name(value) {
        assert forall|i: int| 0 <= i < value.len() implies is_id_char(#[trigger] value[i]) by {
            assert(is_plugin_char(value[i]));
        }
    }
}

/// The reason of a lock tells the workspace.
pub proof fn lock_reason_tells_the_workspace(id: Seq<char>, other: Seq<char>)
    ensures
        lock_reason(id) == lock_reason(other) ==> id == other,
        id.is_suffix_of(lock_reason(id)),
        "ultracode-workflow:"@.is_prefix_of(lock_reason(id)),
{
    let start = "ultracode-workflow:"@;
    let n = start.len() as int;
    assert(id =~= lock_reason(id).subrange(n, lock_reason(id).len() as int));
    assert(other =~= lock_reason(other).subrange(n, lock_reason(other).len() as int));
    assert(start =~= lock_reason(id).subrange(0, n));
}

} // verus!
