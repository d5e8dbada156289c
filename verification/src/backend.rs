//! Where the workflow daemon keeps its state and its control socket.
use crate::digest::{digest_bytes, is_hex, sha256_hex};
use crate::path::{
    components, has_names, joined_path, kept, one_component, path_is_read_back, path_text,
    AbsolutePath,
};
use crate::text::{
    decimal, decimal_is_digits, joined, number, pieces, pieces_of_concat, plus3,
};
use vstd::prelude::*;
use vstd::string::*;
use vstd::utf8::{
    encode_utf8, encode_utf8_decode_utf8, is_ascii_chars, is_ascii_chars_encode_utf8,
};

verus! {

/// The longest usable name of a Unix socket, in bytes.
pub const SOCKET_PATH_BYTES: usize = 100;

/// What the identity of an executable is the digest of: its path, a zero byte, and its contents.
pub open spec fn identity_bytes(name: Seq<u8>, contents: Seq<u8>) -> Seq<u8> {
    name + seq![0u8] + contents
}

/// Two executables whose paths or contents differ are told apart before anything is digested: a path
/// holds no zero byte, so it ends where the first one stands.
pub proof fn executables_are_told_apart(
    name: Seq<u8>,
    contents: Seq<u8>,
    other_name: Seq<u8>,
    other_contents: Seq<u8>,
)
    requires
        !name.contains(0u8),
        !other_name.contains(0u8),
        identity_bytes(name, contents) == identity_bytes(other_name, other_contents),
    ensures
        name == other_name,
        contents == other_contents,
{
    let bytes = identity_bytes(name, contents);
    let other = identity_bytes(other_name, other_contents);
    assert(bytes[name.len() as int] == 0u8);
    assert(other[other_name.len() as int] == 0u8);
    if name.len() < other_name.len() {
        assert(other[name.len() as int] == other_name[name.len() as int]);
        assert(other_name.contains(0u8));
    }
    if other_name.len() < name.len() {
        assert(bytes[other_name.len() as int] == name[other_name.len() as int]);
        assert(name.contains(0u8));
    }
    assert(name =~= bytes.take(name.len() as int));
    assert(other_name =~= other.take(other_name.len() as int));
    assert(contents =~= bytes.skip(name.len() as int + 1));
    assert(other_contents =~= other.skip(other_name.len() as int + 1));
}

fn digest_pair(name: &[u8], contents: &[u8]) -> (res: String)
    ensures
        res@ == sha256_hex(identity_bytes(name@, contents@)),
        res@.len() == 64,
        forall|i: int| 0 <= i < res@.len() ==> is_hex(#[trigger] res@[i]),
{
    let mut bytes: Vec<u8> = Vec::new();
    bytes.extend_from_slice(name);
    bytes.push(0u8);
    bytes.extend_from_slice(contents);
    assert(bytes@ =~= identity_bytes(name@, contents@));
    digest_bytes(bytes.as_slice())
}

/// Where the state of a daemon is kept.
#[derive(Debug)]
pub enum BackendDirectory {
    /// Below the home directory.
    Home(AbsolutePath),
    /// A private directory with a short name, because the socket's name would be too long.
    Short(AbsolutePath),
}

/// The directory of an executable below the home directory.
pub open spec fn home_directory(home: Seq<Seq<char>>, identity: Seq<char>) -> Seq<Seq<char>> {
    joined_path(joined_path(home, "ultracode-daemon"@), identity.take(16))
}

/// The control socket in a state directory.
pub open spec fn socket_path(directory: Seq<Seq<char>>) -> Seq<Seq<char>> {
    joined_path(directory, "control.sock"@)
}

/// The name of the short directory of a user for a home directory and an executable.
pub open spec fn short_name(uid: u32, home: Seq<Seq<char>>, identity: Seq<char>) -> Seq<char> {
    "/tmp/codex-workflow-"@ + decimal(uid as nat) + "-"@ + sha256_hex(short_key(home, identity)).take(
        32,
    )
}

/// What the short directory of an executable is named after.
pub open spec fn short_key(home: Seq<Seq<char>>, identity: Seq<char>) -> Seq<u8> {
    identity_bytes(encode_utf8(path_text(home)), encode_utf8(identity))
}

/// Whether the name of the socket in a directory is too long for a Unix socket.
pub open spec fn socket_is_too_long(directory: Seq<Seq<char>>) -> bool {
    encode_utf8(path_text(socket_path(directory))).len() > SOCKET_PATH_BYTES
}

/// The control socket in a state directory.
pub fn control_socket(directory: &AbsolutePath) -> (res: AbsolutePath)
    ensures
        res@ == socket_path(directory@),
{
    directory.join("control.sock")
}

proof fn decimal_is_short(n: nat, bound: nat, k: nat)
    requires
        k > 0,
        n < bound,
        bound <= ten_to(k),
    ensures
        decimal(n).len() <= k,
    decreases k,
{
    if n >= 10 {
        assert(k > 1) by {
            reveal_with_fuel(ten_to, 2);
        }
        assert(n / 10 < ten_to((k - 1) as nat));
        decimal_is_short(n / 10, ten_to((k - 1) as nat), (k - 1) as nat);
    }
}

spec fn ten_to(k: nat) -> nat
    decreases k,
{
    if k == 0 {
        1
    } else {
        10 * ten_to((k - 1) as nat)
    }
}

/// The last component of a short directory.
spec fn short_last(uid: u32, key: Seq<char>) -> Seq<char> {
    "codex-workflow-"@ + decimal(uid as nat) + "-"@ + key
}

/// A short directory stands directly in the directory for temporary files.
proof fn short_is_in_tmp(uid: u32, key: Seq<char>)
    requires
        forall|i: int| 0 <= i < key.len() ==> is_hex(#[trigger] key[i]),
    ensures
        components("/tmp/codex-workflow-"@ + decimal(uid as nat) + "-"@ + key) == seq![
            "tmp"@,
            short_last(uid, key),
        ],
        forall|i: int|
            0 <= i < short_last(uid, key).len() ==> (#[trigger] short_last(uid, key)[i]) != '/'
                && '\0' <= short_last(uid, key)[i] <= '\u{7f}',
{
    reveal_strlit("/tmp/codex-workflow-");
    reveal_strlit("codex-workflow-");
    reveal_strlit("-");
    reveal_strlit("tmp");
    reveal_strlit(".");
    let user = decimal(uid as nat);
    decimal_is_digits(uid as nat);
    let tmp = "tmp"@;
    let last = short_last(uid, key);
    let full = "/tmp/codex-workflow-"@ + user + "-"@ + key;
    let root = Seq::<char>::empty();
    assert forall|i: int| 0 <= i < last.len() implies (#[trigger] last[i]) != '/' && '\0'
        <= last[i] <= '\u{7f}' by {
        if 15 <= i < 15 + user.len() {
            assert('0' <= user[i - 15] && user[i - 15] <= '9');
        } else if i > 15 + user.len() {
            assert(is_hex(key[i - 16 - user.len()]));
        }
    }
    assert(full =~= (root.push('/') + tmp).push('/') + last);
    pieces_of_concat(root, tmp, '/');
    pieces_of_concat(root.push('/') + tmp, last, '/');
    assert(pieces(root, '/') =~= seq![root]);
    let parts = seq![root, tmp, last];
    assert(pieces(full, '/') =~= parts);
    assert(parts.drop_last() =~= seq![root, tmp]);
    assert(seq![root, tmp].drop_last() =~= seq![root]);
    assert(seq![root].drop_last() =~= Seq::<Seq<char>>::empty());
    reveal_with_fuel(kept, 4);
    assert(components(full) =~= seq![tmp, last]);
}

/// The socket in a short directory fits, whoever the user is.
proof fn short_socket_fits(uid: u32, key: Seq<char>)
    requires
        key.len() == 32,
        forall|i: int| 0 <= i < key.len() ==> is_hex(#[trigger] key[i]),
    ensures
        !socket_is_too_long(components("/tmp/codex-workflow-"@ + decimal(uid as nat) + "-"@ + key)),
{
    reveal_strlit("codex-workflow-");
    reveal_strlit("tmp");
    reveal_strlit("-");
    reveal_strlit("control.sock");
    reveal_strlit("/");
    reveal_strlit(".");
    let user = decimal(uid as nat);
    assert(ten_to(10) == 10000000000) by {
        reveal_with_fuel(ten_to, 11);
    }
    decimal_is_short(uid as nat, 10000000000, 10);
    short_is_in_tmp(uid, key);
    let tmp = "tmp"@;
    let last = short_last(uid, key);
    let directory = seq![tmp, last];
    assert("control.sock"@.len() != "."@.len());
    one_component("control.sock"@);
    let socket = seq![tmp, last, "control.sock"@];
    assert(socket_path(directory) =~= socket);
    assert(socket.drop_last() =~= seq![tmp, last]);
    assert(seq![tmp, last].drop_last() =~= seq![tmp]);
    reveal_with_fuel(joined, 4);
    let text = path_text(socket);
    assert(text =~= "/"@ + tmp + "/"@ + last + "/"@ + "control.sock"@);
    assert forall|i: int| 0 <= i < text.len() implies '\0' <= #[trigger] text[i] <= '\u{7f}' by {
        if 5 <= i < 5 + last.len() {
            assert(text[i] == last[i - 5]);
        }
    }
    assert(is_ascii_chars(text));
    is_ascii_chars_encode_utf8(text);
}

impl BackendDirectory {
    pub open spec fn path(self) -> Seq<Seq<char>> {
        match self {
            BackendDirectory::Home(path) => path@,
            BackendDirectory::Short(path) => path@,
        }
    }
}

/// Whether a text is a SHA-256 digest in hexadecimal.
pub open spec fn is_digest(text: Seq<char>) -> bool {
    &&& text.len() == 64
    &&& forall|i: int| 0 <= i < text.len() ==> is_hex(#[trigger] text[i])
}

/// Whether this is the directory of an executable: below the home directory, or the short one where
/// the socket's name would be too long.
pub open spec fn is_backend(
    home: Seq<Seq<char>>,
    executable: Seq<u8>,
    contents: Seq<u8>,
    uid: u32,
    directory: Seq<Seq<char>>,
) -> bool {
    let identity = sha256_hex(identity_bytes(executable, contents));
    &&& is_digest(identity)
    &&& if socket_is_too_long(home_directory(home, identity)) {
        &&& is_digest(sha256_hex(short_key(home, identity)))
        &&& directory == components(short_name(uid, home, identity))
    } else {
        directory == home_directory(home, identity)
    }
}

/// Whether the digests that name the directories of two executables tell apart what they are made
/// of: neither the first 16 digits of the one nor the first 32 of the other collide.
pub open spec fn digests_tell_apart(a: Seq<u8>, b: Seq<u8>) -> bool {
    (sha256_hex(a).take(16) == sha256_hex(b).take(16) || sha256_hex(a).take(32) == sha256_hex(
        b,
    ).take(32)) ==> a == b
}

/// The directory below the home directory, by its components.
proof fn home_directory_is(home: Seq<Seq<char>>, identity: Seq<char>)
    requires
        is_digest(identity),
    ensures
        home_directory(home, identity) == home.push("ultracode-daemon"@).push(identity.take(16)),
{
    reveal_strlit("ultracode-daemon");
    reveal_strlit(".");
    one_component("ultracode-daemon"@);
    let name = identity.take(16);
    assert forall|i: int| 0 <= i < name.len() implies name[i] != '/' by {
        assert(is_hex(identity[i]));
    }
    one_component(name);
    assert(home_directory(home, identity) =~= home.push("ultracode-daemon"@).push(name));
}

/// Each executable has a backend of its own, also across upgrades: for one user, two calls give the
/// same directory if and only if the home directory, the executable's path and its contents are the
/// same, as long as the digests tell them apart. Paths hold no zero byte. The name of the socket in
/// either directory fits.
pub proof fn backends_are_separate(
    home: Seq<Seq<char>>,
    executable: Seq<u8>,
    contents: Seq<u8>,
    directory: Seq<Seq<char>>,
    other_home: Seq<Seq<char>>,
    other_executable: Seq<u8>,
    other_contents: Seq<u8>,
    other_directory: Seq<Seq<char>>,
    uid: u32,
)
    requires
        is_backend(home, executable, contents, uid, directory),
        is_backend(other_home, other_executable, other_contents, uid, other_directory),
        has_names(home),
        has_names(other_home),
        !executable.contains(0u8),
        !other_executable.contains(0u8),
        !encode_utf8(path_text(home)).contains(0u8),
        !encode_utf8(path_text(other_home)).contains(0u8),
        digests_tell_apart(
            identity_bytes(executable, contents),
            identity_bytes(other_executable, other_contents),
        ),
        digests_tell_apart(
            short_key(home, sha256_hex(identity_bytes(executable, contents))),
            short_key(other_home, sha256_hex(identity_bytes(other_executable, other_contents))),
        ),
    ensures
        directory == other_directory <==> home == other_home && executable == other_executable
            && contents == other_contents,
        !socket_is_too_long(directory),
        !socket_is_too_long(other_directory),
{
    let bytes = identity_bytes(executable, contents);
    let other_bytes = identity_bytes(other_executable, other_contents);
    let identity = sha256_hex(bytes);
    let other_identity = sha256_hex(other_bytes);
    home_directory_is(home, identity);
    home_directory_is(other_home, other_identity);
    let below = home.push("ultracode-daemon"@).push(identity.take(16));
    let other_below = other_home.push("ultracode-daemon"@).push(other_identity.take(16));
    let short = socket_is_too_long(home_directory(home, identity));
    let other_short = socket_is_too_long(home_directory(other_home, other_identity));
    let key = sha256_hex(short_key(home, identity));
    let other_key = sha256_hex(short_key(other_home, other_identity));
    reveal_strlit("ultracode-daemon");
    reveal_strlit("tmp");
    if short {
        assert forall|i: int| 0 <= i < key.take(32).len() implies is_hex(
            #[trigger] key.take(32)[i],
        ) by {
            assert(is_hex(key[i]));
        }
        short_is_in_tmp(uid, key.take(32));
        short_socket_fits(uid, key.take(32));
    }
    if other_short {
        assert forall|i: int| 0 <= i < other_key.take(32).len() implies is_hex(
            #[trigger] other_key.take(32)[i],
        ) by {
            assert(is_hex(other_key[i]));
        }
        short_is_in_tmp(uid, other_key.take(32));
        short_socket_fits(uid, other_key.take(32));
    }
    if directory == other_directory {
        if short && other_short {
            let last = short_last(uid, key.take(32));
            let other_last = short_last(uid, other_key.take(32));
            assert(seq!["tmp"@, last][1] == seq!["tmp"@, other_last][1]);
            let from = last.len() - 32;
            assert(key.take(32) =~= last.skip(from));
            assert(other_key.take(32) =~= other_last.skip(from));
            executables_are_told_apart(
                encode_utf8(path_text(home)),
                encode_utf8(identity),
                encode_utf8(path_text(other_home)),
                encode_utf8(other_identity),
            );
            encode_utf8_decode_utf8(path_text(home));
            encode_utf8_decode_utf8(path_text(other_home));
            encode_utf8_decode_utf8(identity);
            encode_utf8_decode_utf8(other_identity);
            path_is_read_back(home);
            path_is_read_back(other_home);
        } else if !short && !other_short {
            assert(below.len() == other_below.len());
            assert(below.last() == other_below.last());
            assert(home =~= below.drop_last().drop_last());
            assert(other_home =~= other_below.drop_last().drop_last());
        } else if short {
            assert(directory[0] == "tmp"@);
            assert(other_below[other_below.len() - 2] == "ultracode-daemon"@);
            assert(other_below.len() == 2);
            assert("tmp"@.len() != "ultracode-daemon"@.len());
            assert(false);
        } else {
            assert(other_directory[0] == "tmp"@);
            assert(below[below.len() - 2] == "ultracode-daemon"@);
            assert(below.len() == 2);
            assert("tmp"@.len() != "ultracode-daemon"@.len());
            assert(false);
        }
        executables_are_told_apart(executable, contents, other_executable, other_contents);
    }
}

/// Keeps the backend of each executable separate, also across upgrades: the directory depends on the
/// executable's path and contents.
pub fn workflow_backend_state_dir(
    home: &AbsolutePath,
    executable: &[u8],
    contents: &[u8],
    uid: u32,
) -> (res: BackendDirectory)
    ensures
        is_backend(home@, executable@, contents@, uid, res.path()),
        res is Short <==> socket_is_too_long(
            home_directory(home@, sha256_hex(identity_bytes(executable@, contents@))),
        ),
        !socket_is_too_long(res.path()),
{
    let identity = digest_pair(executable, contents);
    assert(identity@.subrange(0, 16) =~= identity@.take(16));
    let directory = home.join("ultracode-daemon").join(identity.as_str().substring_char(0, 16));
    let socket = control_socket(&directory).text();
    if socket.as_str().as_bytes().len() > SOCKET_PATH_BYTES {
        let home_text = home.text();
        let key = digest_pair(home_text.as_str().as_bytes(), identity.as_str().as_bytes());
        assert(key@.subrange(0, 32) =~= key@.take(32));
        let mut name = plus3("/tmp/codex-workflow-", number(uid as u64).as_str(), "-");
        name.append(key.as_str().substring_char(0, 32));
        assert(name@ == short_name(uid, home@, identity@));
        let path = AbsolutePath { components: Vec::new() }.join(name.as_str());
        proof {
            reveal_strlit("/tmp/codex-workflow-");
            assert(name@[0] == '/');
            short_socket_fits(uid, key@.take(32));
        }
        BackendDirectory::Short(path)
    } else {
        BackendDirectory::Home(directory)
    }
}

/// Whether what stands at a path is a directory of the user that nobody else may use.
pub open spec fn is_private_directory(is_directory: bool, owner: u32, mode: u32, uid: u32) -> bool {
    is_directory && owner == uid && mode & 0o077 == 0
}

/// Why a short directory cannot be trusted.
pub fn check_private_directory(is_directory: bool, owner: u32, mode: u32, uid: u32) -> (res: Result<
    (),
    String,
>)
    ensures
        res is Ok <==> is_private_directory(is_directory, owner, mode, uid),
        res matches Err(message) ==> message@
            == "workflow socket directory must be a private directory owned by the current user"@,
{
    if is_directory && owner == uid && mode & 0o077 == 0 {
        Ok(())
    } else {
        Err(
            "workflow socket directory must be a private directory owned by the current user".to_owned(),
        )
    }
}

/// The state of a daemon is kept below the home directory, in a directory named after the executable,
/// unless the name of the socket in it would take more than a hundred bytes; then it is kept in a
/// directory of the user's for temporary files, named after the home directory and the executable.
/// The socket stands directly in it.
pub proof fn state_is_kept_below_home_where_it_fits(
    home: Seq<Seq<char>>,
    executable: Seq<u8>,
    contents: Seq<u8>,
    uid: u32,
    directory: Seq<Seq<char>>,
)
    requires
        is_backend(home, executable, contents, uid, directory),
    ensures
        ({
            let identity = sha256_hex(executable + seq![0u8] + contents);
            let below = home.push("ultracode-daemon"@).push(identity.take(16));
            let key = sha256_hex(
                encode_utf8(path_text(home)) + seq![0u8] + encode_utf8(identity),
            ).take(32);
            &&& socket_path(directory) == directory.push("control.sock"@)
            &&& encode_utf8(path_text(below.push("control.sock"@))).len() <= 100 ==> directory
                == below
            &&& encode_utf8(path_text(below.push("control.sock"@))).len() > 100 ==> directory
                == seq!["tmp"@, "codex-workflow-"@ + decimal(uid as nat) + "-"@ + key]
            &&& encode_utf8(path_text(directory.push("control.sock"@))).len() <= 100
        }),
{
    reveal_strlit("control.sock");
    reveal_strlit(".");
    one_component("control.sock"@);
    let identity = sha256_hex(identity_bytes(executable, contents));
    home_directory_is(home, identity);
    let below = home.push("ultracode-daemon"@).push(identity.take(16));
    assert(socket_path(below) =~= below.push("control.sock"@));
    assert(socket_path(directory) =~= directory.push("control.sock"@));
    if socket_is_too_long(home_directory(home, identity)) {
        let key = sha256_hex(short_key(home, identity)).take(32);
        assert forall|i: int| 0 <= i < key.len() implies is_hex(#[trigger] key[i]) by {
            assert(key[i] == sha256_hex(short_key(home, identity))[i]);
        }
        short_is_in_tmp(uid, key);
        short_socket_fits(uid, key);
        assert(directory == seq!["tmp"@, short_last(uid, key)]);
    }
}

/// A directory can be trusted exactly where it is one, is the user's own, and neither its group nor
/// anyone else may read, write or enter it; what its owner may do does not matter.
pub proof fn trusted_directory_is_private(
    is_directory: bool,
    owner: u32,
    mode: u32,
    uid: u32,
    permissions: u32,
)
    requires
        mode < 0x0200_0000,
        permissions < 64,
    ensures
        is_private_directory(true, uid, (64 * mode) as u32, uid),
        permissions > 0 ==> !is_private_directory(
            is_directory,
            owner,
            (64 * mode + permissions) as u32,
            uid,
        ),
        owner != uid ==> !is_private_directory(is_directory, owner, mode, uid),
        !is_private_directory(false, owner, mode, uid),
{
    let open = (64 * mode) as u32;
    assert(open & 0o077 == 0) by (bit_vector)
        requires
            mode < 0x0200_0000,
            open == 64 * mode,
    ;
    let shared = (64 * mode + permissions) as u32;
    assert(shared & 0o077 == permissions) by (bit_vector)
        requires
            mode < 0x0200_0000,
            permissions < 64,
            shared == 64 * mode + permissions,
    ;
}

} // verus!
