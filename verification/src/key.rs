//! The partition key of an event: the string by which the broker routes and
//! orders the messages of one entity.

use vstd::prelude::*;
use vstd::string::StringExecFns;
use crate::event::{Entity, Event, EventKind, EventView};
use crate::ids::{
    inscription_id_text, push_inscription_id, push_rune_id, rune_id_text, InscriptionIdView,
    RuneId,
};
use crate::text::{
    decimal, hex, is_digit, lemma_decimal_injective, lemma_decimal_shape, lemma_hex_injective,
    push_decimal, push_hex,
};

verus! {

/// The name of a kind of event, as keys and payloads spell it.
pub open spec fn kind_name(kind: EventKind) -> Seq<char> {
    match kind {
        EventKind::InscriptionCreated => "InscriptionCreated"@,
        EventKind::InscriptionTransferred => "InscriptionTransferred"@,
        EventKind::RuneBurned => "RuneBurned"@,
        EventKind::RuneEtched => "RuneEtched"@,
        EventKind::RuneMinted => "RuneMinted"@,
        EventKind::RuneTransferred => "RuneTransferred"@,
    }
}

/// The text that names an entity in a key: the identifier of an inscription,
/// or `<rune id>_<txid>` for an operation on a rune.
pub open spec fn entity_text(entity: Entity) -> Seq<char> {
    match entity {
        Entity::Inscription(id) => inscription_id_text(id),
        Entity::Rune(rune_id, txid) => rune_id_text(rune_id) + "_"@ + hex(txid),
    }
}

/// The key of an event: `<kind>_<block height>_<entity>`.
pub open spec fn key_text(e: EventView) -> Seq<char> {
    kind_name(e.kind()) + "_"@ + decimal(e.block_height() as nat) + "_"@ + entity_text(e.entity())
}

/// Whether `c` occurs nowhere in `s`.
pub open spec fn free_of(s: Seq<char>, c: char) -> bool {
    forall|i: int| 0 <= i < s.len() ==> #[trigger] s[i] != c
}

/// Two texts that agree, each made of a part free of `c`, then `c`, then a
/// rest, agree part by part.
pub proof fn lemma_split_at_first(
    a1: Seq<char>,
    r1: Seq<char>,
    a2: Seq<char>,
    r2: Seq<char>,
    c: char,
)
    requires
        a1 + seq![c] + r1 == a2 + seq![c] + r2,
        free_of(a1, c),
        free_of(a2, c),
    ensures
        a1 == a2,
        r1 == r2,
{
    let left = a1 + seq![c] + r1;
    let right = a2 + seq![c] + r2;
    if a1.len() < a2.len() {
        assert(left[a1.len() as int] == c);
        assert(right[a1.len() as int] == a2[a1.len() as int]);
    }
    if a2.len() < a1.len() {
        assert(right[a2.len() as int] == c);
        assert(left[a2.len() as int] == a1[a2.len() as int]);
    }
    assert(a1 =~= left.subrange(0, a1.len() as int));
    assert(a2 =~= right.subrange(0, a2.len() as int));
    assert(r1 =~= left.subrange(a1.len() as int + 1, left.len() as int));
    assert(r2 =~= right.subrange(a2.len() as int + 1, right.len() as int));
}

/// Two texts that agree, each made of a part of the same length and a rest,
/// agree part by part.
pub proof fn lemma_split_at_length(a1: Seq<char>, r1: Seq<char>, a2: Seq<char>, r2: Seq<char>)
    requires
        a1 + r1 == a2 + r2,
        a1.len() == a2.len(),
    ensures
        a1 == a2,
        r1 == r2,
{
    let whole = a1 + r1;
    assert(a1 =~= whole.subrange(0, a1.len() as int));
    assert(a2 =~= (a2 + r2).subrange(0, a2.len() as int));
    assert(r1 =~= whole.subrange(a1.len() as int, whole.len() as int));
    assert(r2 =~= (a2 + r2).subrange(a2.len() as int, whole.len() as int));
}

/// Decimal text holds digits only.
pub proof fn lemma_decimal_free_of(v: nat, c: char)
    requires
        !is_digit(c),
    ensures
        free_of(decimal(v), c),
{
    lemma_decimal_shape(v);
}

/// Two inscription identifiers with the same text are the same identifier.
pub proof fn lemma_inscription_id_text_injective(a: InscriptionIdView, b: InscriptionIdView)
    requires
        a.txid.len() == 32,
        b.txid.len() == 32,
        inscription_id_text(a) == inscription_id_text(b),
    ensures
        a == b,
{
    reveal_strlit("i");
    let ra = "i"@ + decimal(a.index as nat);
    let rb = "i"@ + decimal(b.index as nat);
    assert(inscription_id_text(a) =~= hex(a.txid) + ra);
    assert(inscription_id_text(b) =~= hex(b.txid) + rb);
    lemma_split_at_length(hex(a.txid), ra, hex(b.txid), rb);
    lemma_hex_injective(a.txid, b.txid);
    lemma_split_at_length("i"@, decimal(a.index as nat), "i"@, decimal(b.index as nat));
    lemma_decimal_injective(a.index as nat, b.index as nat);
}

/// Two operations on runes with the same entity text have the same rune and
/// the same transaction.
pub proof fn lemma_rune_entity_text_injective(a: RuneId, ta: Seq<u8>, b: RuneId, tb: Seq<u8>)
    requires
        entity_text(Entity::Rune(a, ta)) == entity_text(Entity::Rune(b, tb)),
    ensures
        a == b,
        ta == tb,
{
    reveal_strlit(":");
    reveal_strlit("_");
    let rest_a = decimal(a.tx as nat) + seq!['_'] + hex(ta);
    let rest_b = decimal(b.tx as nat) + seq!['_'] + hex(tb);
    assert(":"@ =~= seq![':']);
    assert("_"@ =~= seq!['_']);
    assert(entity_text(Entity::Rune(a, ta)) =~= decimal(a.block as nat) + seq![':'] + rest_a);
    assert(entity_text(Entity::Rune(b, tb)) =~= decimal(b.block as nat) + seq![':'] + rest_b);
    lemma_decimal_free_of(a.block as nat, ':');
    lemma_decimal_free_of(b.block as nat, ':');
    lemma_split_at_first(decimal(a.block as nat), rest_a, decimal(b.block as nat), rest_b, ':');
    lemma_decimal_injective(a.block as nat, b.block as nat);
    lemma_decimal_free_of(a.tx as nat, '_');
    lemma_decimal_free_of(b.tx as nat, '_');
    lemma_split_at_first(decimal(a.tx as nat), hex(ta), decimal(b.tx as nat), hex(tb), '_');
    lemma_decimal_injective(a.tx as nat, b.tx as nat);
    lemma_hex_injective(ta, tb);
}

/// The names of the kinds hold no underscore, and no two kinds share a name.
pub proof fn lemma_kind_names(a: EventKind, b: EventKind)
    ensures
        free_of(kind_name(a), '_'),
        kind_name(a) == kind_name(b) ==> a == b,
{
    reveal_strlit("InscriptionCreated");
    reveal_strlit("InscriptionTransferred");
    reveal_strlit("RuneBurned");
    reveal_strlit("RuneEtched");
    reveal_strlit("RuneMinted");
    reveal_strlit("RuneTransferred");
    if kind_name(a) == kind_name(b) {
        assert(kind_name(a).len() == kind_name(b).len());
        assert(kind_name(a)[4] == kind_name(b)[4]);
    }
}

/// Events with the same key are of the same kind, from blocks of the same
/// height, and about the same entity: distinct triples of kind, height and
/// entity never share a key.
pub proof fn lemma_key_injective(a: EventView, b: EventView)
    requires
        a.wf(),
        b.wf(),
        key_text(a) == key_text(b),
    ensures
        a.kind() == b.kind(),
        a.block_height() == b.block_height(),
        a.entity() == b.entity(),
{
    reveal_strlit("_");
    assert("_"@ =~= seq!['_']);
    let ha = decimal(a.block_height() as nat);
    let hb = decimal(b.block_height() as nat);
    let ea = entity_text(a.entity());
    let eb = entity_text(b.entity());
    let rest_a = ha + seq!['_'] + ea;
    let rest_b = hb + seq!['_'] + eb;
    assert(key_text(a) =~= kind_name(a.kind()) + seq!['_'] + rest_a);
    assert(key_text(b) =~= kind_name(b.kind()) + seq!['_'] + rest_b);
    lemma_kind_names(a.kind(), b.kind());
    lemma_kind_names(b.kind(), a.kind());
    lemma_split_at_first(kind_name(a.kind()), rest_a, kind_name(b.kind()), rest_b, '_');
    lemma_decimal_free_of(a.block_height() as nat, '_');
    lemma_decimal_free_of(b.block_height() as nat, '_');
    lemma_split_at_first(ha, ea, hb, eb, '_');
    lemma_decimal_injective(a.block_height() as nat, b.block_height() as nat);
    match (a.entity(), b.entity()) {
        (Entity::Inscription(ia), Entity::Inscription(ib)) => {
            lemma_inscription_id_text_injective(ia, ib);
        },
        (Entity::Rune(ra, ta), Entity::Rune(rb, tb)) => {
            lemma_rune_entity_text_injective(ra, ta, rb, tb);
        },
        _ => {},
    }
}

/// The name of a kind of event.
pub fn kind_str(kind: EventKind) -> (s: &'static str)
    ensures
        s@ == kind_name(kind),
{
    match kind {
        EventKind::InscriptionCreated => "InscriptionCreated",
        EventKind::InscriptionTransferred => "InscriptionTransferred",
        EventKind::RuneBurned => "RuneBurned",
        EventKind::RuneEtched => "RuneEtched",
        EventKind::RuneMinted => "RuneMinted",
        EventKind::RuneTransferred => "RuneTransferred",
    }
}

/// The partition key of `event`.
pub fn partition_key(event: &Event) -> (key: String)
    ensures
        key@ == key_text(event@),
{
    let mut key = String::new();
    key.append(kind_str(event.kind()));
    key.append("_");
    push_decimal(&mut key, event.block_height() as u128);
    key.append("_");
    match event {
        Event::InscriptionCreated { inscription_id, .. } => {
            push_inscription_id(&mut key, inscription_id);
        },
        Event::InscriptionTransferred { inscription_id, .. } => {
            push_inscription_id(&mut key, inscription_id);
        },
        Event::RuneBurned { rune_id, txid, .. } => {
            push_rune_id(&mut key, rune_id);
            key.append("_");
            push_hex(&mut key, &txid.bytes);
        },
        Event::RuneEtched { rune_id, txid, .. } => {
            push_rune_id(&mut key, rune_id);
            key.append("_");
            push_hex(&mut key, &txid.bytes);
        },
        Event::RuneMinted { rune_id, txid, .. } => {
            push_rune_id(&mut key, rune_id);
            key.append("_");
            push_hex(&mut key, &txid.bytes);
        },
        Event::RuneTransferred { rune_id, txid, .. } => {
            push_rune_id(&mut key, rune_id);
            key.append("_");
            push_hex(&mut key, &txid.bytes);
        },
    }
    assert(key@ =~= key_text(event@));
    key
}

} // verus!
