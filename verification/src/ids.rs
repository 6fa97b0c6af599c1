//! Channel ids: the outside `uuid` crate as this library sees it.

use vstd::prelude::*;
use uuid::Uuid;

verus! {

/// `uuid::Uuid`, opaque.
#[verifier::external_type_specification]
#[verifier::external_body]
pub struct ExUuid(uuid::Uuid);

/// `uuid::Error`, opaque.
#[verifier::external_type_specification]
#[verifier::external_body]
pub struct ExUuidError(uuid::Error);

/// The sixteen bytes that a `uuid::Uuid` holds.
pub uninterp spec fn uuid_bytes(id: Uuid) -> Seq<u8>;

/// Whether `id` is the one id that holds `bytes`.
pub open spec fn is_id_of(id: Uuid, bytes: Seq<u8>) -> bool {
    &&& uuid_bytes(id) == bytes
    &&& forall|other: Uuid| #[trigger] uuid_bytes(other) == bytes ==> other == id
}

/// `uuid::Uuid::into_bytes` hands out the sixteen bytes of the id.
pub assume_specification[ uuid::Uuid::into_bytes ](id: Uuid) -> (r: [u8; 16])
    ensures
        r@ == uuid_bytes(id),
;

/// `uuid::Uuid::from_slice` accepts exactly the slices of sixteen bytes, and
/// gives the one id that holds them.
pub assume_specification[ uuid::Uuid::from_slice ](b: &[u8]) -> (r: Result<Uuid, uuid::Error>)
    ensures
        r is Ok <==> b@.len() == 16,
        r matches Ok(id) ==> is_id_of(id, b@),
;

/// `uuid::Uuid::new_v4`: any id. Like every id, it holds sixteen bytes.
#[verifier::external_body]
fn random_id() -> (r: Uuid)
    ensures
        uuid_bytes(r).len() == 16,
{
    Uuid::new_v4()
}

/// An id for a fresh channel.
pub fn new_id() -> (r: Uuid)
    ensures
        uuid_bytes(r).len() == 16,
{
    random_id()
}

/// The number that `bytes` are the digits of, the most significant first.
pub open spec fn big_endian(bytes: Seq<u8>) -> nat
    decreases bytes.len(),
{
    if bytes.len() == 0 {
        0
    } else {
        big_endian(bytes.drop_last()) * 256 + bytes.last() as nat
    }
}

/// The number of an id.
pub open spec fn id_number(id: Uuid) -> u128 {
    big_endian(uuid_bytes(id)) as u128
}

/// `uuid::Uuid::as_u128` reads the bytes of the id as one number, the most
/// significant byte first.
pub assume_specification[ uuid::Uuid::as_u128 ](id: &Uuid) -> (r: u128)
    ensures
        r == big_endian(uuid_bytes(*id)),
;

/// The number of an id.
pub fn uuid_number(id: &Uuid) -> (r: u128)
    ensures
        r == id_number(*id),
{
    id.as_u128()
}

proof fn lemma_big_endian_injective(a: Seq<u8>, b: Seq<u8>)
    requires
        a.len() == b.len(),
        big_endian(a) == big_endian(b),
    ensures
        a == b,
    decreases a.len(),
{
    if a.len() > 0 {
        lemma_big_endian_injective(a.drop_last(), b.drop_last());
        assert(a =~= a.drop_last().push(a.last()));
        assert(b =~= b.drop_last().push(b.last()));
    }
    assert(a =~= b);
}

proof fn lemma_big_endian_bound(a: Seq<u8>)
    ensures
        big_endian(a) < vstd::arithmetic::power::pow(256, a.len()),
    decreases a.len(),
{
    reveal(vstd::arithmetic::power::pow);
    if a.len() > 0 {
        lemma_big_endian_bound(a.drop_last());
    }
}

/// Ids that hold different bytes have different numbers.
pub proof fn law_numbers_tell_ids_apart(a: Uuid, b: Uuid)
    requires
        uuid_bytes(a).len() == 16,
        uuid_bytes(b).len() == 16,
        uuid_bytes(a) != uuid_bytes(b),
    ensures
        id_number(a) != id_number(b),
{
    lemma_big_endian_bound(uuid_bytes(a));
    lemma_big_endian_bound(uuid_bytes(b));
    assert(vstd::arithmetic::power::pow(256, 16) == 0x1_0000_0000_0000_0000_0000_0000_0000_0000int) by {
        reveal_with_fuel(vstd::arithmetic::power::pow, 17);
    }
    if id_number(a) == id_number(b) {
        lemma_big_endian_injective(uuid_bytes(a), uuid_bytes(b));
    }
}

} // verus!
