//! Machine identifiers: 128-bit values carried as `uuid::Uuid`.

use uuid::Uuid;
use vstd::bytes::*;
use vstd::prelude::*;

verus! {

/// `uuid::Uuid`, carried as it is; what it holds is known by `uuid_bytes`
/// alone.
#[verifier::external_type_specification]
#[verifier::external_body]
pub struct ExUuid(uuid::Uuid);

/// The sixteen bytes that an identifier holds, first byte first.
pub uninterp spec fn uuid_bytes(id: Uuid) -> Seq<u8>;

/// The number that an identifier stands for: its bytes read most significant
/// first. Machines are filed under this number.
pub open spec fn uuid_key(id: Uuid) -> u128 {
    spec_u128_from_le_bytes(uuid_bytes(id).reverse())
}

/// `Clone` for `Uuid`, which is `Copy`: the clone is the identifier itself.
pub assume_specification[ <Uuid as Clone>::clone ](id: &Uuid) -> (copy: Uuid)
    ensures
        copy == *id,
;

/// `Uuid::from_u128`: the identifier whose bytes are those of `value`, most
/// significant first.
#[verifier::external_body]
pub(crate) fn uuid_from_u128(value: u128) -> (id: Uuid)
    ensures
        uuid_bytes(id) == spec_u128_to_le_bytes(value).reverse(),
{
    Uuid::from_u128(value)
}

/// `Uuid::as_u128`: the identifier's bytes read as a number, most significant
/// first.
#[verifier::external_body]
pub(crate) fn uuid_as_u128(id: &Uuid) -> (value: u128)
    ensures
        value == spec_u128_from_le_bytes(uuid_bytes(*id).reverse()),
{
    id.as_u128()
}

/// Reading back the number an identifier was made from gives that number.
proof fn lemma_key_of_from_u128(value: u128, id: Uuid)
    requires
        uuid_bytes(id) == spec_u128_to_le_bytes(value).reverse(),
    ensures
        uuid_key(id) == value,
{
    lemma_auto_spec_u128_to_from_le_bytes();
    let le = spec_u128_to_le_bytes(value);
    assert(le.reverse().reverse() =~= le);
}

/// The 128-bit number whose low half is `low` and whose high half is `high`.
pub open spec fn joined_halves(low: u64, high: u64) -> int {
    high * 0x1_0000_0000_0000_0000 + low
}

/// The identifier that arrives as two 64-bit halves: `uuid0` is the low
/// half of its number, `uuid1` the high half.
pub fn uuid_from_api(uuid0: u64, uuid1: u64) -> (id: Uuid)
    ensures
        uuid_key(id) == joined_halves(uuid0, uuid1),
{
    let low: u128 = uuid0 as u128;
    let high: u128 = uuid1 as u128;
    assert(high << 64 == high * 0x1_0000_0000_0000_0000 && (high << 64)
        <= 0xffff_ffff_ffff_ffff_0000_0000_0000_0000) by (bit_vector)
        requires
            high <= 0xffff_ffff_ffff_ffff,
    ;
    let num: u128 = (high << 64) + low;
    let id = uuid_from_u128(num);
    proof {
        lemma_key_of_from_u128(num, id);
    }
    id
}

/// The two 64-bit halves that an identifier is sent as, low half first:
/// the halves of its number.
pub fn api_from_uuid(uuid: Uuid) -> (halves: (u64, u64))
    ensures
        halves.0 == uuid_key(uuid) % 0x1_0000_0000_0000_0000,
        halves.1 == uuid_key(uuid) / 0x1_0000_0000_0000_0000,
        joined_halves(halves.0, halves.1) == uuid_key(uuid),
{
    let num: u128 = uuid_as_u128(&uuid);
    let low: u128 = num & 0xffff_ffff_ffff_ffff;
    let high: u128 = num >> 64;
    assert(low == num % 0x1_0000_0000_0000_0000 && high == num / 0x1_0000_0000_0000_0000 && low
        <= 0xffff_ffff_ffff_ffff && high <= 0xffff_ffff_ffff_ffff) by (bit_vector)
        requires
            low == num & 0xffff_ffff_ffff_ffff,
            high == num >> 64,
    ;
    (low as u64, high as u64)
}

/// Two halves, joined and parted again, are the halves that went in.
pub proof fn lemma_halves_of_joined(low: u64, high: u64)
    ensures
        joined_halves(low, high) % 0x1_0000_0000_0000_0000 == low,
        joined_halves(low, high) / 0x1_0000_0000_0000_0000 == high,
        0 <= joined_halves(low, high) <= u128::MAX,
{
    assert(joined_halves(low, high) % 0x1_0000_0000_0000_0000 == low && joined_halves(low, high)
        / 0x1_0000_0000_0000_0000 == high) by (nonlinear_arith)
        requires
            0 <= low < 0x1_0000_0000_0000_0000,
            0 <= high,
            joined_halves(low, high) == high * 0x1_0000_0000_0000_0000 + low,
    ;
    assert(joined_halves(low, high) <= u128::MAX) by (nonlinear_arith)
        requires
            0 <= low <= 0xffff_ffff_ffff_ffff,
            0 <= high <= 0xffff_ffff_ffff_ffff,
            joined_halves(low, high) == high * 0x1_0000_0000_0000_0000 + low,
    ;
}

/// An identifier that is sent as its halves and put together again on the
/// other side is filed under the same number.
pub proof fn lemma_halves_round_trip(sent: Uuid, received: Uuid)
    requires
        uuid_key(received) == joined_halves(
            (uuid_key(sent) % 0x1_0000_0000_0000_0000) as u64,
            (uuid_key(sent) / 0x1_0000_0000_0000_0000) as u64,
        ),
    ensures
        uuid_key(received) == uuid_key(sent),
{
    let key = uuid_key(sent);
    assert(key / 0x1_0000_0000_0000_0000 <= 0xffff_ffff_ffff_ffff && (key
        / 0x1_0000_0000_0000_0000) * 0x1_0000_0000_0000_0000 + key % 0x1_0000_0000_0000_0000
        == key) by (nonlinear_arith)
        requires
            0 <= key <= 0xffff_ffff_ffff_ffff_ffff_ffff_ffff_ffff,
    ;
}

} // verus!
