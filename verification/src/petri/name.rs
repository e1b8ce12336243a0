//! Names and command lines of VMs.
use crate::text::{hex4, owned, push_hex4};
use std::collections::hash_map::DefaultHasher;
use std::hash::{Hash, Hasher};
use vstd::prelude::*;
use vstd::std_specs::hash::DefaultHasherAdditionalSpecFns;
use vstd::string::{StrSliceExecFns, StringExecFns};

verus! {

/// The longest name of a VM, in characters.
pub const MAX_VM_NAME_LENGTH: usize = 100;

/// How much of a longer name is kept. Four hexadecimal digits follow.
pub const MAX_PREFIX_LENGTH: usize = 96;

/// What the `Hash` implementation of `str` writes into a hasher.
pub uninterp spec fn hash_writes(s: Seq<char>) -> Seq<Seq<u8>>;

/// `<str as Hash>::hash`: writes the text into a hasher, after what was written
/// before. What is written depends on the text alone.
#[verifier::external_body]
fn hash_str(s: &str, hasher: &mut DefaultHasher)
    ensures
        final(hasher)@ == old(hasher)@ + hash_writes(s@),
{
    s.hash(hasher)
}

/// The hash of a name.
pub open spec fn name_hash(name: Seq<char>) -> u64 {
    DefaultHasher::spec_finish(hash_writes(name))
}

/// The name of a VM, given the hash of the wanted name.
pub open spec fn safe_name(name: Seq<char>, hash: u64) -> Seq<char> {
    if name.len() <= MAX_VM_NAME_LENGTH {
        name
    } else {
        name.take(MAX_PREFIX_LENGTH as int) + hex4(hash)
    }
}

/// The wanted name, or if it is too long, the start of it and four digits of its hash.
pub fn shorten_vm_name(name: &str, hash: u64) -> (r: String)
    ensures
        r@ == safe_name(name@, hash),
{
    if name.unicode_len() <= MAX_VM_NAME_LENGTH {
        owned(name)
    } else {
        let prefix = name.substring_char(0, MAX_PREFIX_LENGTH);
        assert(prefix@ =~= name@.take(MAX_PREFIX_LENGTH as int));
        let mut r = owned(prefix);
        push_hex4(&mut r, hash);
        r
    }
}

/// Creates a name that the platform accepts: Hyper-V limits the names of VMs to 100
/// characters. A longer name is cut to 96 characters, and part of its hash is appended
/// so that it stays unique.
pub fn make_vm_safe_name(name: &str) -> (r: String)
    ensures
        r@ == safe_name(name@, name_hash(name@)),
{
    let mut hasher = DefaultHasher::new();
    hash_str(name, &mut hasher);
    assert(hasher@ =~= hash_writes(name@));
    shorten_vm_name(name, hasher.finish())
}

/// The name of a VM is never too long. A name that fits stays as it is; a longer one
/// makes use of the whole length, and keeps its start.
pub proof fn safe_name_fits(name: Seq<char>, hash: u64)
    ensures
        safe_name(name, hash).len() <= MAX_VM_NAME_LENGTH,
        name.len() <= MAX_VM_NAME_LENGTH ==> safe_name(name, hash) == name,
        name.len() > MAX_VM_NAME_LENGTH ==> {
            &&& safe_name(name, hash).len() == MAX_VM_NAME_LENGTH
            &&& safe_name(name, hash).take(MAX_PREFIX_LENGTH as int) == name.take(
                MAX_PREFIX_LENGTH as int,
            )
        },
{
    if name.len() > MAX_VM_NAME_LENGTH {
        assert(safe_name(name, hash).take(MAX_PREFIX_LENGTH as int) =~= name.take(
            MAX_PREFIX_LENGTH as int,
        ));
    }
}

/// The command line with something appended.
pub open spec fn appended(cmd: Option<Seq<char>>, add: Seq<char>) -> Option<Seq<char>> {
    match cmd {
        Some(cmd) => Some(cmd + " "@ + add),
        None => Some(add),
    }
}

/// The text of an optional string.
pub open spec fn text_of(s: Option<String>) -> Option<Seq<char>> {
    match s {
        Some(s) => Some(s@),
        None => None,
    }
}

/// Appends to a command line, after a space if it is not empty.
pub fn append_cmdline(cmd: &mut Option<String>, add_cmd: &str)
    ensures
        text_of(*final(cmd)) == appended(text_of(*old(cmd)), add_cmd@),
{
    match cmd.take() {
        Some(text) => {
            let mut text = text;
            text.append(" ");
            text.append(add_cmd);
            *cmd = Some(text);
        },
        None => {
            *cmd = Some(owned(add_cmd));
        },
    }
}

/// Something is appended behind a space, unless it is the first.
pub proof fn appended_text_follows_space(cmd: Seq<char>, add: Seq<char>)
    ensures
        appended(None, add) == Some(add),
        appended(Some(cmd), add) == Some(cmd.push(' ') + add),
{
    reveal_strlit(" ");
    assert(cmd + " "@ + add =~= cmd.push(' ') + add);
}

/// A name of up to 100 characters is kept. Of a longer one the first 96 are kept, and four
/// hexadecimal digits of its hash follow.
pub proof fn long_name_ends_with_hash(name: Seq<char>, hash: u64)
    ensures
        name.len() <= 100 ==> safe_name(name, hash) == name,
        name.len() > 100 ==> {
            let s = safe_name(name, hash);
            &&& s.len() == 100
            &&& s.subrange(0, 96) == name.subrange(0, 96)
            &&& s.subrange(96, 100) == hex4(hash)
        },
{
    if name.len() > 100 {
        let s = safe_name(name, hash);
        assert(s.subrange(0, 96) =~= name.subrange(0, 96));
        assert(s.subrange(96, 100) =~= hex4(hash));
    }
}

} // verus!
