//! Identifiers that events carry, and their text forms.

use vstd::prelude::*;
use vstd::string::StringExecFns;
use crate::text::{
    as_text, decimal, decimal_at, digit_at, has_at, hex, hex_at, lemma_decimal_read_is_written,
    lemma_hex_read_is_written, lemma_read_written_decimal, lemma_read_written_hex, literal_at,
    push_decimal, push_hex, read_decimal, read_hex, read_literal,
};

verus! {

/// The identifier of a block: 32 bytes, in the order in which they are
/// written.
#[derive(Debug, Clone, Copy, PartialEq, Eq)]
pub struct BlockHash {
    pub bytes: [u8; 32],
}

/// The identifier of a transaction: 32 bytes, in the order in which they are
/// written.
#[derive(Debug, Clone, Copy, PartialEq, Eq)]
pub struct Txid {
    pub bytes: [u8; 32],
}

/// An output of a transaction.
#[derive(Debug, Clone, Copy, PartialEq, Eq)]
pub struct OutPoint {
    pub txid: Txid,
    pub vout: u32,
}

/// A position inside an output.
#[derive(Debug, Clone, Copy, PartialEq, Eq)]
pub struct SatPoint {
    pub outpoint: OutPoint,
    pub offset: u64,
}

/// The identifier of an inscription: the transaction that made it and its
/// index there.
#[derive(Debug, Clone, Copy, PartialEq, Eq)]
pub struct InscriptionId {
    pub txid: Txid,
    pub index: u32,
}

/// The identifier of a rune: the block and the transaction in it that
/// etched the rune.
#[derive(Debug, Clone, Copy, PartialEq, Eq)]
pub struct RuneId {
    pub block: u64,
    pub tx: u32,
}

/// An `OutPoint` as plain values.
pub ghost struct OutPointView {
    pub txid: Seq<u8>,
    pub vout: u32,
}

/// A `SatPoint` as plain values.
pub ghost struct SatPointView {
    pub outpoint: OutPointView,
    pub offset: u64,
}

/// An `InscriptionId` as plain values.
pub ghost struct InscriptionIdView {
    pub txid: Seq<u8>,
    pub index: u32,
}

impl View for BlockHash {
    type V = Seq<u8>;

    open spec fn view(&self) -> Seq<u8> {
        self.bytes@
    }
}

impl View for Txid {
    type V = Seq<u8>;

    open spec fn view(&self) -> Seq<u8> {
        self.bytes@
    }
}

impl View for OutPoint {
    type V = OutPointView;

    open spec fn view(&self) -> OutPointView {
        OutPointView { txid: self.txid@, vout: self.vout }
    }
}

impl View for SatPoint {
    type V = SatPointView;

    open spec fn view(&self) -> SatPointView {
        SatPointView { outpoint: self.outpoint@, offset: self.offset }
    }
}

impl View for InscriptionId {
    type V = InscriptionIdView;

    open spec fn view(&self) -> InscriptionIdView {
        InscriptionIdView { txid: self.txid@, index: self.index }
    }
}

/// `<txid>:<vout>`.
pub open spec fn outpoint_text(o: OutPointView) -> Seq<char> {
    hex(o.txid) + ":"@ + decimal(o.vout as nat)
}

/// `<txid>:<vout>:<offset>`.
pub open spec fn satpoint_text(s: SatPointView) -> Seq<char> {
    outpoint_text(s.outpoint) + ":"@ + decimal(s.offset as nat)
}

/// `<txid>i<index>`.
pub open spec fn inscription_id_text(i: InscriptionIdView) -> Seq<char> {
    hex(i.txid) + "i"@ + decimal(i.index as nat)
}

/// `<block>:<tx>`.
pub open spec fn rune_id_text(r: RuneId) -> Seq<char> {
    decimal(r.block as nat) + ":"@ + decimal(r.tx as nat)
}

/// Reading an output at `pos`.
pub open spec fn outpoint_at(text: Seq<char>, pos: int) -> Option<(OutPointView, int)> {
    match hex_at(text, pos, 32) {
        Some((txid, at1)) => match literal_at(text, at1, ":"@) {
            Some(at2) => match decimal_at(text, at2, u32::MAX as nat) {
                Some((vout, at3)) => Some((OutPointView { txid, vout: vout as u32 }, at3)),
                None => None,
            },
            None => None,
        },
        None => None,
    }
}

/// Reading a position inside an output at `pos`.
pub open spec fn satpoint_at(text: Seq<char>, pos: int) -> Option<(SatPointView, int)> {
    match outpoint_at(text, pos) {
        Some((outpoint, at1)) => match literal_at(text, at1, ":"@) {
            Some(at2) => match decimal_at(text, at2, u64::MAX as nat) {
                Some((offset, at3)) => Some(
                    (SatPointView { outpoint, offset: offset as u64 }, at3),
                ),
                None => None,
            },
            None => None,
        },
        None => None,
    }
}

/// Reading the identifier of an inscription at `pos`.
pub open spec fn inscription_id_at(text: Seq<char>, pos: int) -> Option<
    (InscriptionIdView, int),
> {
    match hex_at(text, pos, 32) {
        Some((txid, at1)) => match literal_at(text, at1, "i"@) {
            Some(at2) => match decimal_at(text, at2, u32::MAX as nat) {
                Some((index, at3)) => Some(
                    (InscriptionIdView { txid, index: index as u32 }, at3),
                ),
                None => None,
            },
            None => None,
        },
        None => None,
    }
}

/// Reading the identifier of a rune at `pos`.
pub open spec fn rune_id_at(text: Seq<char>, pos: int) -> Option<(RuneId, int)> {
    match decimal_at(text, pos, u64::MAX as nat) {
        Some((block, at1)) => match literal_at(text, at1, ":"@) {
            Some(at2) => match decimal_at(text, at2, u32::MAX as nat) {
                Some((tx, at3)) => Some((RuneId { block: block as u64, tx: tx as u32 }, at3)),
                None => None,
            },
            None => None,
        },
        None => None,
    }
}

/// A text made of two parts stands at `pos` exactly where the first part
/// stands at `pos` and the second right behind it.
pub proof fn lemma_has_at_parts(text: Seq<char>, pos: int, a: Seq<char>, b: Seq<char>)
    ensures
        has_at(text, pos, a + b) <==> has_at(text, pos, a) && has_at(text, pos + a.len(), b),
{
    let whole = a + b;
    if has_at(text, pos, whole) {
        let got = text.subrange(pos, pos + whole.len());
        assert(text.subrange(pos, pos + a.len()) =~= got.subrange(0, a.len() as int));
        assert(got.subrange(0, a.len() as int) =~= a);
        assert(text.subrange(pos + a.len(), pos + a.len() + b.len()) =~= got.subrange(
            a.len() as int,
            whole.len() as int,
        ));
        assert(got.subrange(a.len() as int, whole.len() as int) =~= b);
    }
    if has_at(text, pos, a) && has_at(text, pos + a.len(), b) {
        let first = text.subrange(pos, pos + a.len());
        let second = text.subrange(pos + a.len(), pos + a.len() + b.len());
        assert(text.subrange(pos, pos + whole.len()) =~= first + second);
    }
}

/// Reading an output that was written gives it back, where what follows is
/// no digit.
pub proof fn lemma_read_written_outpoint(text: Seq<char>, pos: int, o: OutPointView)
    requires
        o.txid.len() == 32,
        has_at(text, pos, outpoint_text(o)),
        !digit_at(text, pos + outpoint_text(o).len()),
    ensures
        outpoint_at(text, pos) == Some((o, pos + outpoint_text(o).len())),
{
    reveal_strlit(":");
    lemma_has_at_parts(text, pos, hex(o.txid) + ":"@, decimal(o.vout as nat));
    lemma_has_at_parts(text, pos, hex(o.txid), ":"@);
    lemma_read_written_hex(text, pos, o.txid);
    lemma_read_written_decimal(text, pos + 65, o.vout as nat, u32::MAX as nat);
}

/// What reading an output accepts is the text of the output it gives, with
/// no digit behind it.
pub proof fn lemma_outpoint_read_is_written(text: Seq<char>, pos: int)
    requires
        outpoint_at(text, pos) is Some,
    ensures
        has_at(text, pos, outpoint_text(outpoint_at(text, pos).unwrap().0)),
        outpoint_at(text, pos).unwrap().1 == pos + outpoint_text(
            outpoint_at(text, pos).unwrap().0,
        ).len(),
        outpoint_at(text, pos).unwrap().0.txid.len() == 32,
        !digit_at(text, outpoint_at(text, pos).unwrap().1),
{
    reveal_strlit(":");
    let o = outpoint_at(text, pos).unwrap().0;
    lemma_hex_read_is_written(text, pos, 32);
    lemma_decimal_read_is_written(text, pos + 65, u32::MAX as nat);
    lemma_has_at_parts(text, pos, hex(o.txid), ":"@);
    lemma_has_at_parts(text, pos, hex(o.txid) + ":"@, decimal(o.vout as nat));
}

/// Reading a position that was written gives it back, where what follows is
/// no digit.
pub proof fn lemma_read_written_satpoint(text: Seq<char>, pos: int, s: SatPointView)
    requires
        s.outpoint.txid.len() == 32,
        has_at(text, pos, satpoint_text(s)),
        !digit_at(text, pos + satpoint_text(s).len()),
    ensures
        satpoint_at(text, pos) == Some((s, pos + satpoint_text(s).len())),
{
    reveal_strlit(":");
    let head = outpoint_text(s.outpoint);
    lemma_has_at_parts(text, pos, head + ":"@, decimal(s.offset as nat));
    lemma_has_at_parts(text, pos, head, ":"@);
    assert(text[pos + head.len()] == text.subrange(pos + head.len(), pos + head.len() + 1)[0]);
    lemma_read_written_outpoint(text, pos, s.outpoint);
    lemma_read_written_decimal(text, pos + head.len() + 1, s.offset as nat, u64::MAX as nat);
}

/// What reading a position accepts is the text of the position it gives,
/// with no digit behind it.
pub proof fn lemma_satpoint_read_is_written(text: Seq<char>, pos: int)
    requires
        satpoint_at(text, pos) is Some,
    ensures
        has_at(text, pos, satpoint_text(satpoint_at(text, pos).unwrap().0)),
        satpoint_at(text, pos).unwrap().1 == pos + satpoint_text(
            satpoint_at(text, pos).unwrap().0,
        ).len(),
        satpoint_at(text, pos).unwrap().0.outpoint.txid.len() == 32,
        !digit_at(text, satpoint_at(text, pos).unwrap().1),
{
    reveal_strlit(":");
    let s = satpoint_at(text, pos).unwrap().0;
    let head = outpoint_text(s.outpoint);
    lemma_outpoint_read_is_written(text, pos);
    lemma_decimal_read_is_written(text, pos + head.len() + 1, u64::MAX as nat);
    lemma_has_at_parts(text, pos, head, ":"@);
    lemma_has_at_parts(text, pos, head + ":"@, decimal(s.offset as nat));
}

/// Reading the identifier of an inscription that was written gives it back,
/// where what follows is no digit.
pub proof fn lemma_read_written_inscription_id(text: Seq<char>, pos: int, i: InscriptionIdView)
    requires
        i.txid.len() == 32,
        has_at(text, pos, inscription_id_text(i)),
        !digit_at(text, pos + inscription_id_text(i).len()),
    ensures
        inscription_id_at(text, pos) == Some((i, pos + inscription_id_text(i).len())),
{
    reveal_strlit("i");
    lemma_has_at_parts(text, pos, hex(i.txid) + "i"@, decimal(i.index as nat));
    lemma_has_at_parts(text, pos, hex(i.txid), "i"@);
    lemma_read_written_hex(text, pos, i.txid);
    lemma_read_written_decimal(text, pos + 65, i.index as nat, u32::MAX as nat);
}

/// What reading the identifier of an inscription accepts is the text of the
/// identifier it gives, with no digit behind it.
pub proof fn lemma_inscription_id_read_is_written(text: Seq<char>, pos: int)
    requires
        inscription_id_at(text, pos) is Some,
    ensures
        has_at(text, pos, inscription_id_text(inscription_id_at(text, pos).unwrap().0)),
        inscription_id_at(text, pos).unwrap().1 == pos + inscription_id_text(
            inscription_id_at(text, pos).unwrap().0,
        ).len(),
        inscription_id_at(text, pos).unwrap().0.txid.len() == 32,
        !digit_at(text, inscription_id_at(text, pos).unwrap().1),
{
    reveal_strlit("i");
    let i = inscription_id_at(text, pos).unwrap().0;
    lemma_hex_read_is_written(text, pos, 32);
    lemma_decimal_read_is_written(text, pos + 65, u32::MAX as nat);
    lemma_has_at_parts(text, pos, hex(i.txid), "i"@);
    lemma_has_at_parts(text, pos, hex(i.txid) + "i"@, decimal(i.index as nat));
}

/// Reading the identifier of a rune that was written gives it back, where
/// what follows is no digit.
pub proof fn lemma_read_written_rune_id(text: Seq<char>, pos: int, r: RuneId)
    requires
        has_at(text, pos, rune_id_text(r)),
        !digit_at(text, pos + rune_id_text(r).len()),
    ensures
        rune_id_at(text, pos) == Some((r, pos + rune_id_text(r).len())),
{
    reveal_strlit(":");
    let head = decimal(r.block as nat);
    lemma_has_at_parts(text, pos, head + ":"@, decimal(r.tx as nat));
    lemma_has_at_parts(text, pos, head, ":"@);
    assert(text[pos + head.len()] == text.subrange(pos + head.len(), pos + head.len() + 1)[0]);
    lemma_read_written_decimal(text, pos, r.block as nat, u64::MAX as nat);
    lemma_read_written_decimal(text, pos + head.len() + 1, r.tx as nat, u32::MAX as nat);
}

/// What reading the identifier of a rune accepts is the text of the
/// identifier it gives, with no digit behind it.
pub proof fn lemma_rune_id_read_is_written(text: Seq<char>, pos: int)
    requires
        rune_id_at(text, pos) is Some,
    ensures
        has_at(text, pos, rune_id_text(rune_id_at(text, pos).unwrap().0)),
        rune_id_at(text, pos).unwrap().1 == pos + rune_id_text(
            rune_id_at(text, pos).unwrap().0,
        ).len(),
        !digit_at(text, rune_id_at(text, pos).unwrap().1),
{
    reveal_strlit(":");
    let r = rune_id_at(text, pos).unwrap().0;
    let head = decimal(r.block as nat);
    lemma_decimal_read_is_written(text, pos, u64::MAX as nat);
    lemma_decimal_read_is_written(text, pos + head.len() + 1, u32::MAX as nat);
    lemma_has_at_parts(text, pos, head, ":"@);
    lemma_has_at_parts(text, pos, head + ":"@, decimal(r.tx as nat));
}

} // verus!

verus! {

/// Appends `<txid>:<vout>` to `out`.
pub fn push_outpoint(out: &mut String, o: &OutPoint)
    ensures
        final(out)@ == old(out)@ + outpoint_text(o@),
{
    push_hex(out, &o.txid.bytes);
    out.append(":");
    push_decimal(out, o.vout as u128);
    assert(final(out)@ =~= old(out)@ + outpoint_text(o@));
}

/// Appends `<txid>:<vout>:<offset>` to `out`.
pub fn push_satpoint(out: &mut String, s: &SatPoint)
    ensures
        final(out)@ == old(out)@ + satpoint_text(s@),
{
    push_outpoint(out, &s.outpoint);
    out.append(":");
    push_decimal(out, s.offset as u128);
    assert(final(out)@ =~= old(out)@ + satpoint_text(s@));
}

/// Appends `<txid>i<index>` to `out`.
pub fn push_inscription_id(out: &mut String, i: &InscriptionId)
    ensures
        final(out)@ == old(out)@ + inscription_id_text(i@),
{
    push_hex(out, &i.txid.bytes);
    out.append("i");
    push_decimal(out, i.index as u128);
    assert(final(out)@ =~= old(out)@ + inscription_id_text(i@));
}

/// Appends `<block>:<tx>` to `out`.
pub fn push_rune_id(out: &mut String, r: &RuneId)
    ensures
        final(out)@ == old(out)@ + rune_id_text(*r),
{
    push_decimal(out, r.block as u128);
    out.append(":");
    push_decimal(out, r.tx as u128);
    assert(final(out)@ =~= old(out)@ + rune_id_text(*r));
}

/// Reads an output at `pos`: the output and the position behind it.
pub fn read_outpoint(bytes: &[u8], pos: usize) -> (r: Option<(OutPoint, usize)>)
    ensures
        r matches Some((_, end)) ==> end <= bytes.len(),
        match r {
            Some((o, end)) => outpoint_at(as_text(bytes@), pos as int) == Some((o@, end as int)),
            None => outpoint_at(as_text(bytes@), pos as int) is None,
        },
{
    proof {
        reveal_strlit(":");
    }
    let (hash, at1) = match read_hex(bytes, pos) {
        Some(found) => found,
        None => { return None; },
    };
    let at2 = match read_literal(bytes, at1, ":") {
        Some(found) => found,
        None => { return None; },
    };
    let (vout, at3) = match read_decimal(bytes, at2, 4294967295) {
        Some(found) => found,
        None => { return None; },
    };
    Some((OutPoint { txid: Txid { bytes: hash }, vout: vout as u32 }, at3))
}

/// Reads a position inside an output at `pos`: the position and the place
/// behind it.
pub fn read_satpoint(bytes: &[u8], pos: usize) -> (r: Option<(SatPoint, usize)>)
    ensures
        r matches Some((_, end)) ==> end <= bytes.len(),
        match r {
            Some((s, end)) => satpoint_at(as_text(bytes@), pos as int) == Some((s@, end as int)),
            None => satpoint_at(as_text(bytes@), pos as int) is None,
        },
{
    proof {
        reveal_strlit(":");
    }
    let (outpoint, at1) = match read_outpoint(bytes, pos) {
        Some(found) => found,
        None => { return None; },
    };
    let at2 = match read_literal(bytes, at1, ":") {
        Some(found) => found,
        None => { return None; },
    };
    let (offset, at3) = match read_decimal(bytes, at2, 18446744073709551615) {
        Some(found) => found,
        None => { return None; },
    };
    Some((SatPoint { outpoint, offset: offset as u64 }, at3))
}

/// Reads the identifier of an inscription at `pos`: the identifier and the
/// position behind it.
pub fn read_inscription_id(bytes: &[u8], pos: usize) -> (r: Option<(InscriptionId, usize)>)
    ensures
        r matches Some((_, end)) ==> end <= bytes.len(),
        match r {
            Some((i, end)) => inscription_id_at(as_text(bytes@), pos as int) == Some(
                (i@, end as int),
            ),
            None => inscription_id_at(as_text(bytes@), pos as int) is None,
        },
{
    proof {
        reveal_strlit("i");
    }
    let (hash, at1) = match read_hex(bytes, pos) {
        Some(found) => found,
        None => { return None; },
    };
    let at2 = match read_literal(bytes, at1, "i") {
        Some(found) => found,
        None => { return None; },
    };
    let (index, at3) = match read_decimal(bytes, at2, 4294967295) {
        Some(found) => found,
        None => { return None; },
    };
    Some((InscriptionId { txid: Txid { bytes: hash }, index: index as u32 }, at3))
}

/// Reads the identifier of a rune at `pos`: the identifier and the position
/// behind it.
pub fn read_rune_id(bytes: &[u8], pos: usize) -> (r: Option<(RuneId, usize)>)
    ensures
        r matches Some((_, end)) ==> end <= bytes.len(),
        match r {
            Some((id, end)) => rune_id_at(as_text(bytes@), pos as int) == Some((id, end as int)),
            None => rune_id_at(as_text(bytes@), pos as int) is None,
        },
{
    proof {
        reveal_strlit(":");
    }
    let (block, at1) = match read_decimal(bytes, pos, 18446744073709551615) {
        Some(found) => found,
        None => { return None; },
    };
    let at2 = match read_literal(bytes, at1, ":") {
        Some(found) => found,
        None => { return None; },
    };
    let (tx, at3) = match read_decimal(bytes, at2, 4294967295) {
        Some(found) => found,
        None => { return None; },
    };
    Some((RuneId { block: block as u64, tx: tx as u32 }, at3))
}

impl BlockHash {
    /// The 64 hexadecimal digits of the hash.
    pub fn to_text(&self) -> (s: String)
        ensures
            s@ == hex(self@),
    {
        let mut out = String::new();
        push_hex(&mut out, &self.bytes);
        assert(out@ =~= hex(self@));
        out
    }
}

impl Txid {
    /// The 64 hexadecimal digits of the identifier.
    pub fn to_text(&self) -> (s: String)
        ensures
            s@ == hex(self@),
    {
        let mut out = String::new();
        push_hex(&mut out, &self.bytes);
        assert(out@ =~= hex(self@));
        out
    }
}

impl OutPoint {
    /// `<txid>:<vout>`.
    pub fn to_text(&self) -> (s: String)
        ensures
            s@ == outpoint_text(self@),
    {
        let mut out = String::new();
        push_outpoint(&mut out, self);
        assert(out@ =~= outpoint_text(self@));
        out
    }
}

impl SatPoint {
    /// `<txid>:<vout>:<offset>`.
    pub fn to_text(&self) -> (s: String)
        ensures
            s@ == satpoint_text(self@),
    {
        let mut out = String::new();
        push_satpoint(&mut out, self);
        assert(out@ =~= satpoint_text(self@));
        out
    }
}

impl InscriptionId {
    /// `<txid>i<index>`.
    pub fn to_text(&self) -> (s: String)
        ensures
            s@ == inscription_id_text(self@),
    {
        let mut out = String::new();
        push_inscription_id(&mut out, self);
        assert(out@ =~= inscription_id_text(self@));
        out
    }
}

impl RuneId {
    /// `<block>:<tx>`.
    pub fn to_text(&self) -> (s: String)
        ensures
            s@ == rune_id_text(*self),
    {
        let mut out = String::new();
        push_rune_id(&mut out, self);
        assert(out@ =~= rune_id_text(*self));
        out
    }
}

} // verus!
