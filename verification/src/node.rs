//! Node identifiers and the secret key that a node binds its endpoint with.

use iroh_base::KeyParsingError;
use std::str::FromStr;
use vstd::prelude::*;

verus! {

/// The errors of `iroh_base`'s key parsers, carried as they come.
#[verifier::external_type_specification]
#[verifier::external_body]
pub struct ExKeyParsingError(KeyParsingError);

/// The public key that identifies a node.
#[derive(Clone, Copy, Debug)]
pub struct NodeId {
    pub bytes: [u8; 32],
}

/// The key that a node's endpoint is bound with.
#[derive(Clone, Copy)]
pub struct SecretKey {
    pub bytes: [u8; 32],
}

impl View for NodeId {
    type V = Seq<u8>;

    open spec fn view(&self) -> Seq<u8> {
        self.bytes@
    }
}

impl View for SecretKey {
    type V = Seq<u8>;

    open spec fn view(&self) -> Seq<u8> {
        self.bytes@
    }
}

/// The order of node identifiers: `a` comes before `b` when it holds the
/// smaller byte at the first place where they differ.
pub open spec fn comes_before(a: Seq<u8>, b: Seq<u8>) -> bool {
    exists|i: int| #[trigger] first_difference(a, b, i) && a[i] < b[i]
}

/// `i` is the first place where `a` and `b` differ.
pub open spec fn first_difference(a: Seq<u8>, b: Seq<u8>, i: int) -> bool {
    &&& 0 <= i < a.len()
    &&& i < b.len()
    &&& a[i] != b[i]
    &&& forall|j: int| 0 <= j < i ==> a[j] == b[j]
}

/// What `iroh_base` reads from the text of a node identifier: the bytes of the
/// public key, or nothing where the text is no key.
pub uninterp spec fn parsed_node_id(text: Seq<char>) -> Option<Seq<u8>>;

/// What `iroh_base` reads from the text of a secret key.
pub uninterp spec fn parsed_secret_key(text: Seq<char>) -> Option<Seq<u8>>;

/// `iroh_base::NodeId::from_str`: the text alone decides whether a key is read
/// and which bytes it has. The empty text is refused. What the error says is
/// left open.
#[verifier::external_body]
fn node_id_from_str(text: &str) -> (parsed: Result<NodeId, KeyParsingError>)
    ensures
        parsed matches Ok(id) ==> parsed_node_id(text@) == Some(id@),
        parsed is Err ==> parsed_node_id(text@) is None,
        text@.len() == 0 ==> parsed is Err,
{
    iroh_base::NodeId::from_str(text).map(|key| NodeId { bytes: *key.as_bytes() })
}

/// `iroh_base::SecretKey::from_str`: the text alone decides whether a key is
/// read and which bytes it has. The empty text is refused. What the error says
/// is left open.
#[verifier::external_body]
fn secret_key_from_str(text: &str) -> (parsed: Result<SecretKey, KeyParsingError>)
    ensures
        parsed matches Ok(key) ==> parsed_secret_key(text@) == Some(key@),
        parsed is Err ==> parsed_secret_key(text@) is None,
        text@.len() == 0 ==> parsed is Err,
{
    iroh_base::SecretKey::from_str(text).map(|key| SecretKey { bytes: key.to_bytes() })
}

/// `iroh_base::SecretKey::generate` with the random numbers of the operating
/// system. Nothing is promised of the key's bytes. `freshly_made` is what a call
/// of it makes known.
#[verifier::external_body]
fn secret_key_generate() -> (key: SecretKey)
{
    SecretKey { bytes: iroh_base::SecretKey::generate(&mut rand::rngs::OsRng).to_bytes() }
}

/// The key is a possible result of making one from the random numbers of the
/// operating system. Only making it makes this known of a key.
pub closed spec fn freshly_made(key: SecretKey) -> bool {
    call_ensures(secret_key_generate, (), key)
}

impl NodeId {
    /// Reads the node identifier that `text` spells.
    pub fn parse(text: &str) -> (parsed: Result<NodeId, KeyParsingError>)
        ensures
            parsed matches Ok(id) ==> parsed_node_id(text@) == Some(id@),
            parsed is Err ==> parsed_node_id(text@) is None,
            text@.len() == 0 ==> parsed is Err,
    {
        node_id_from_str(text)
    }

    /// Whether both identify the same node.
    pub fn same(&self, other: &NodeId) -> (r: bool)
        ensures
            r == (self@ == other@),
    {
        let mut i: usize = 0;
        while i < 32
            invariant
                i <= 32,
                self@.len() == 32,
                other@.len() == 32,
                forall|j: int| 0 <= j < i ==> self@[j] == other@[j],
            decreases 32 - i,
        {
            if self.bytes[i] != other.bytes[i] {
                assert(self@[i as int] != other@[i as int]);
                return false;
            }
            i += 1;
        }
        assert(self@ =~= other@);
        true
    }

    /// Whether this identifier comes before `other`.
    pub fn less_than(&self, other: &NodeId) -> (r: bool)
        ensures
            r == comes_before(self@, other@),
    {
        let mut i: usize = 0;
        while i < 32
            invariant
                i <= 32,
                self@.len() == 32,
                other@.len() == 32,
                forall|j: int| 0 <= j < i ==> self@[j] == other@[j],
            decreases 32 - i,
        {
            if self.bytes[i] != other.bytes[i] {
                let less = self.bytes[i] < other.bytes[i];
                proof {
                    assert(first_difference(self@, other@, i as int));
                    assert forall|k: int| first_difference(self@, other@, k) implies k == i by {
                        if k < i {
                            assert(self@[k] == other@[k]);
                        }
                    }
                }
                return less;
            }
            i += 1;
        }
        assert(forall|k: int| !first_difference(self@, other@, k));
        false
    }
}

/// The secret key that an endpoint is bound with: the one that the environment
/// spells, or a fresh one where the environment holds none.
pub fn endpoint_secret(configured: Option<&str>) -> (secret: Result<SecretKey, KeyParsingError>)
    ensures
        configured is None ==> (secret matches Ok(key) && freshly_made(key)),
        configured matches Some(text) ==> (secret matches Ok(key) ==> parsed_secret_key(text@)
            == Some(key@)),
        configured matches Some(text) ==> (secret is Err ==> parsed_secret_key(text@) is None),
        configured matches Some(text) ==> (text@.len() == 0 ==> secret is Err),
{
    match configured {
        Some(text) => secret_key_from_str(text),
        None => {
            let generate = secret_key_generate;
            Ok(generate())
        },
    }
}

/// Two identifiers of one length are the same, or exactly one of them comes
/// before the other.
pub proof fn law_order_is_total(a: Seq<u8>, b: Seq<u8>)
    requires
        a.len() == b.len(),
    ensures
        a == b <==> !comes_before(a, b) && !comes_before(b, a),
        !(comes_before(a, b) && comes_before(b, a)),
{
    assert forall|i: int, j: int|
        first_difference(a, b, i) && first_difference(b, a, j) implies i == j by {
        if i < j {
            assert(b[i] == a[i]);
        }
        if j < i {
            assert(a[j] == b[j]);
        }
    }
    if a != b {
        let i = lemma_differs(a, b);
        assert(first_difference(a, b, i));
        assert(first_difference(b, a, i));
    }
}

/// An identifier read as a number, its first byte counting most.
pub open spec fn as_number(id: Seq<u8>) -> nat
    decreases id.len(),
{
    if id.len() == 0 {
        0
    } else {
        as_number(id.drop_last()) * 256 + id.last() as nat
    }
}

/// Identifiers of one length are ordered as the numbers that they spell.
pub proof fn law_order_is_that_of_numbers(a: Seq<u8>, b: Seq<u8>)
    requires
        a.len() == b.len(),
    ensures
        comes_before(a, b) <==> as_number(a) < as_number(b),
        a == b <==> as_number(a) == as_number(b),
    decreases a.len(),
{
    if a.len() == 0 {
        assert(a =~= b);
        assert(forall|i: int| !first_difference(a, b, i));
    } else {
        let a0 = a.drop_last();
        let b0 = b.drop_last();
        let last = a.len() - 1;
        law_order_is_that_of_numbers(a0, b0);
        assert(forall|j: int| 0 <= j < last ==> a[j] == a0[j] && b[j] == b0[j]);
        if a0 == b0 {
            assert(forall|i: int| first_difference(a, b, i) ==> i == last);
            if a.last() != b.last() {
                assert(first_difference(a, b, last));
            } else {
                assert(a =~= b);
            }
        } else {
            assert forall|i: int| first_difference(a, b, i) implies first_difference(a0, b0, i) by {
                if i == last {
                    assert(a0 =~= b0);
                }
            }
            assert forall|i: int| first_difference(a0, b0, i) implies first_difference(a, b, i) by {
            }
        }
    }
}

/// Two distinct sequences of one length have a first difference.
proof fn lemma_differs(a: Seq<u8>, b: Seq<u8>) -> (i: int)
    requires
        a.len() == b.len(),
        a != b,
    ensures
        first_difference(a, b, i),
    decreases a.len(),
{
    if a.len() == 0 {
        assert(a =~= b);
        0
    } else if a.drop_last() != b.drop_last() {
        let i = lemma_differs(a.drop_last(), b.drop_last());
        assert forall|j: int| 0 <= j < i implies a[j] == b[j] by {
            assert(a.drop_last()[j] == b.drop_last()[j]);
        }
        i
    } else {
        assert forall|j: int| 0 <= j < a.len() - 1 implies a[j] == b[j] by {
            assert(a.drop_last()[j] == b.drop_last()[j]);
        }
        if a.last() == b.last() {
            assert(a =~= b);
        }
        a.len() - 1
    }
}

/// A key that was configured is the one that is used: whether a key is had, and
/// which, depends on the configured text alone.
pub proof fn law_configured_key_is_used(
    text: &str,
    again: &str,
    first: Result<SecretKey, KeyParsingError>,
    second: Result<SecretKey, KeyParsingError>,
)
    requires
        text@ == again@,
        call_ensures(endpoint_secret, (Some(text),), first),
        call_ensures(endpoint_secret, (Some(again),), second),
    ensures
        first is Ok <==> second is Ok,
        first is Ok <==> parsed_secret_key(text@) is Some,
        first matches Ok(key) ==> Some(key@) == parsed_secret_key(text@),
        first matches Ok(a) ==> (second matches Ok(b) ==> a@ == b@),
{
}

} // verus!
