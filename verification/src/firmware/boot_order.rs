//! The firmware's `BootOrder` variable: a packed array of little-endian boot
//! option numbers, and the "set as default" edit that moves one option to the
//! front.

use vstd::prelude::*;
use crate::le_bytes::u16_le;

verus! {

/// At most this many boot options are offered in the menus.
pub const MAX_BOOT_OPTIONS: usize = 32;

/// The option numbers stored in `data`, two bytes each, in order, keeping at
/// most `limit` of them; a trailing odd byte is ignored.
pub open spec fn spec_decode_boot_order(data: Seq<u8>, limit: nat) -> Seq<u16> {
    let n = if data.len() / 2 <= limit { data.len() / 2 } else { limit };
    Seq::new(n, |i: int| u16_le(data, 2 * i))
}

/// The bytes that store `order`: each number as two little-endian bytes.
pub open spec fn spec_encode_boot_order(order: Seq<u16>) -> Seq<u8> {
    Seq::new(2 * order.len(), |j: int| if j % 2 == 0 {
        (order[j / 2] & 0xff) as u8
    } else {
        (order[j / 2] >> 8u16) as u8
    })
}

/// Holds of every option number but `id`.
pub open spec fn not_option(id: u16) -> spec_fn(u16) -> bool {
    |x: u16| x != id
}

/// `order` with `id` moved (or added) to the front and every other number
/// kept in its place.
pub open spec fn spec_promote(order: Seq<u16>, id: u16) -> Seq<u16> {
    seq![id] + order.filter(not_option(id))
}

/// Decode a stored boot order, keeping at most `limit` entries.
pub fn decode_boot_order(data: &[u8], limit: usize) -> (r: Vec<u16>)
    ensures
        r@ == spec_decode_boot_order(data@, limit as nat),
{
    let n = if data.len() / 2 <= limit { data.len() / 2 } else { limit };
    let mut order: Vec<u16> = Vec::new();
    let mut i: usize = 0;
    while i < n
        invariant
            n == spec_decode_boot_order(data@, limit as nat).len(),
            n <= data.len() / 2,
            i <= n,
            order@ =~= spec_decode_boot_order(data@, limit as nat).take(i as int),
        decreases n - i,
    {
        let value = (data[2 * i] as u16) | ((data[2 * i + 1] as u16) << 8u16);
        order.push(value);
        i = i + 1;
    }
    order
}

/// Encode a boot order for storage.
pub fn encode_boot_order(order: &[u16]) -> (r: Vec<u8>)
    requires
        2 * order.len() <= usize::MAX,
    ensures
        r@ == spec_encode_boot_order(order@),
{
    let mut bytes: Vec<u8> = Vec::new();
    let mut i: usize = 0;
    while i < order.len()
        invariant
            2 * order.len() <= usize::MAX,
            i <= order.len(),
            bytes@ =~= spec_encode_boot_order(order@).take(2 * i as int),
        decreases order.len() - i,
    {
        let value = order[i];
        bytes.push((value & 0xff) as u8);
        bytes.push((value >> 8u16) as u8);
        proof {
            assert((2 * i) as int / 2 == i && (2 * i) as int % 2 == 0);
            assert((2 * i + 1) as int / 2 == i && (2 * i + 1) as int % 2 == 1);
        }
        i = i + 1;
    }
    bytes
}

/// Move `id` to the front of `order`, keeping the others in their order.
pub fn promote(order: &[u16], id: u16) -> (r: Vec<u16>)
    ensures
        r@ == spec_promote(order@, id),
{
    let mut result: Vec<u16> = Vec::new();
    result.push(id);
    let mut i: usize = 0;
    while i < order.len()
        invariant
            i <= order.len(),
            result@ =~= seq![id] + order@.take(i as int).filter(not_option(id)),
        decreases order.len() - i,
    {
        let value = order[i];
        proof {
            reveal(Seq::filter);
            assert(order@.take(i + 1).drop_last() =~= order@.take(i as int));
        }
        if value != id {
            result.push(value);
        }
        i = i + 1;
    }
    proof {
        assert(order@.take(order.len() as int) =~= order@);
    }
    result
}

/// Whether `order` holds `id`.
pub fn contains_option(order: &[u16], id: u16) -> (r: bool)
    ensures
        r == order@.contains(id),
{
    let mut i: usize = 0;
    while i < order.len()
        invariant
            i <= order.len(),
            forall|j: int| 0 <= j < i ==> order@[j] != id,
        decreases order.len() - i,
    {
        if order[i] == id {
            return true;
        }
        i = i + 1;
    }
    false
}

/// The new boot order for making `id` the default: the stored order, read in
/// full, with `id` moved to the front; `None` when `id` is not stored in it.
pub fn default_boot_order(stored: &[u8], id: u16) -> (r: Option<Vec<u16>>)
    ensures
        ({
            let order = spec_decode_boot_order(stored@, stored@.len());
            match r {
                Some(v) => order.contains(id) && v@ == spec_promote(order, id),
                None => !order.contains(id),
            }
        }),
{
    let order = decode_boot_order(stored, stored.len());
    if contains_option(order.as_slice(), id) {
        Some(promote(order.as_slice(), id))
    } else {
        None
    }
}

proof fn lemma_u16_bytes_roundtrip(v: u16)
    ensures
        ((((v & 0xff) as u8) as u16) | ((((v >> 8u16) as u8) as u16) << 8u16)) == v,
{
    assert(((((v & 0xff) as u8) as u16) | ((((v >> 8u16) as u8) as u16) << 8u16)) == v)
        by (bit_vector);
}

/// Storing a boot order and reading it back, in full, gives the same order.
pub proof fn lemma_boot_order_roundtrip(order: Seq<u16>)
    ensures
        spec_decode_boot_order(spec_encode_boot_order(order), 2 * order.len()) == order,
{
    let bytes = spec_encode_boot_order(order);
    let back = spec_decode_boot_order(bytes, 2 * order.len());
    assert forall|i: int| 0 <= i < order.len() implies back[i] == order[i] by {
        assert((2 * i) / 2 == i && (2 * i) % 2 == 0);
        assert((2 * i + 1) / 2 == i && (2 * i + 1) % 2 == 1);
        lemma_u16_bytes_roundtrip(order[i]);
    }
    assert(back =~= order);
}

proof fn lemma_filter_keeps_all(s: Seq<u16>, id: u16)
    requires
        forall|i: int| 0 <= i < s.len() ==> s[i] != id,
    ensures
        s.filter(not_option(id)) == s,
    decreases s.len(),
{
    reveal(Seq::filter);
    if s.len() > 0 {
        lemma_filter_keeps_all(s.drop_last(), id);
        assert(s.drop_last().push(s.last()) =~= s);
    }
}

proof fn lemma_filter_drops_front(s: Seq<u16>, id: u16)
    ensures
        (seq![id] + s).filter(not_option(id)) == s.filter(not_option(id)),
    decreases s.len(),
{
    reveal(Seq::filter);
    if s.len() == 0 {
        assert((seq![id] + s).drop_last() =~= Seq::<u16>::empty());
        assert(Seq::<u16>::empty().filter(not_option(id)) =~= Seq::<u16>::empty());
    } else {
        lemma_filter_drops_front(s.drop_last(), id);
        assert((seq![id] + s).drop_last() =~= seq![id] + s.drop_last());
        assert((seq![id] + s).last() == s.last());
    }
}

/// After "set as default" the chosen option comes first, nothing is lost or
/// invented, and doing it again changes nothing.
pub proof fn lemma_promote_laws(order: Seq<u16>, id: u16)
    ensures
        spec_promote(order, id)[0] == id,
        forall|x: u16| spec_promote(order, id).contains(x) <==> (x == id || order.contains(x)),
        spec_promote(spec_promote(order, id), id) == spec_promote(order, id),
{
    broadcast use vstd::seq_lib::group_filter_ensures;
    let p = spec_promote(order, id);
    let rest = order.filter(not_option(id));
    assert(p[0] == id);
    assert forall|x: u16| p.contains(x) <==> (x == id || order.contains(x)) by {
        if p.contains(x) && x != id {
            let k = choose|k: int| 0 <= k < p.len() && p[k] == x;
            assert(k != 0);
            assert(rest[k - 1] == x);
            assert(rest.contains(x));
            order.lemma_filter_contains_rev(not_option(id), x);
        }
        if order.contains(x) && x != id {
            let k = choose|k: int| 0 <= k < order.len() && order[k] == x;
            assert(rest.contains(order[k]));
            let m = choose|m: int| 0 <= m < rest.len() && rest[m] == x;
            assert(p[m + 1] == x);
        }
        if x == id {
            assert(p[0] == x);
        }
    }
    assert forall|i: int| 0 <= i < rest.len() implies rest[i] != id by {
        order.lemma_filter_pred(not_option(id), i);
    }
    lemma_filter_keeps_all(rest, id);
    lemma_filter_drops_front(rest, id);
}

} // verus!
