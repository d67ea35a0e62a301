//! The identity under which the bridge joins the middleware.

use vstd::prelude::*;
use vstd::string::*;

verus! {

/// What every node name of the bridge starts with.
pub const NODE_NAME_PREFIX: &'static str = "robosapiens_rosmqttbridge_";

/// A digit of lower-case hexadecimal.
pub open spec fn lower_hex(c: char) -> bool {
    ('0' <= c && c <= '9') || ('a' <= c && c <= 'f')
}

/// The simple form of a random UUID: thirty-two digits of lower-case
/// hexadecimal, the thirteenth the version, 4, and the seventeenth one of the
/// four that the variant allows.
pub open spec fn simple_random_id(id: Seq<char>) -> bool {
    &&& id.len() == 32
    &&& forall|i: int| 0 <= i < 32 ==> lower_hex(#[trigger] id[i])
    &&& id[12] == '4'
    &&& (id[16] == '8' || id[16] == '9' || id[16] == 'a' || id[16] == 'b')
}

/// `uuid::Uuid::new_v4`, printed through `Uuid::as_simple`. The identifier is
/// random: nothing is claimed of it but its form, which is that of every
/// version 4 UUID in simple notation. The call reads the system's source of
/// randomness, and uuid panics where the system gives it no random bytes.
#[verifier::external_body]
fn random_id() -> (id: String)
    ensures
        simple_random_id(id@),
{
    uuid::Uuid::new_v4().as_simple().to_string()
}

/// The node name with the given identifier behind the prefix.
pub fn node_name(id: &str) -> (name: String)
    ensures
        name@ == NODE_NAME_PREFIX@ + id@,
{
    String::from_str(NODE_NAME_PREFIX).concat(id)
}

/// A node name that no other node has: the prefix and a fresh random
/// identifier.
pub fn fresh_node_name() -> (name: String)
    ensures
        name@.len() == NODE_NAME_PREFIX@.len() + 32,
        name@.subrange(0, NODE_NAME_PREFIX@.len() as int) == NODE_NAME_PREFIX@,
        simple_random_id(name@.subrange(NODE_NAME_PREFIX@.len() as int, name@.len() as int)),
{
    let id = random_id();
    let name = node_name(id.as_str());
    proof {
        let p = NODE_NAME_PREFIX@;
        assert(name@.subrange(0, p.len() as int) =~= p);
        assert(name@.subrange(p.len() as int, name@.len() as int) =~= id@);
    }
    name
}

/// The namespace of the node: the configured one, or the empty namespace
/// where none is configured.
pub fn namespace_or_default(configured: Option<String>) -> (namespace: String)
    ensures
        namespace@ == (match configured {
            Some(s) => s@,
            None => Seq::<char>::empty(),
        }),
{
    match configured {
        Some(s) => s,
        None => String::new(),
    }
}

} // verus!
