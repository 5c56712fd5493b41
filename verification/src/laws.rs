//! Laws of the blocking transfer, proved once and for all over the register
//! model: what a whole transfer sends, what it hands back, and what it leaves
//! behind.

use vstd::prelude::*;

use crate::model::{exchange_out, exchange_step, quiescent, transfer_spec, SpiState};

verus! {

/// What one blocking transfer does, for any entry state with no exchange in
/// flight, the peripheral enabled, and a peer script covering the buffer:
/// the answer bytes are exactly the first `buf.len()` bytes of the script in
/// order; the bytes sent are exactly `buf`, appended in index order with no
/// reordering; the script advances by exactly `buf.len()`; no exchange is
/// left in flight; and no configuration register changes.
pub proof fn lemma_transfer_facts(s: SpiState, buf: Seq<u8>)
    requires
        quiescent(s),
        s.enabled,
        buf.len() <= s.script.len(),
    ensures
        transfer_spec(s, buf).out == s.script.take(buf.len() as int),
        transfer_spec(s, buf).state.sent == s.sent + buf,
        transfer_spec(s, buf).state.script == s.script.skip(buf.len() as int),
        quiescent(transfer_spec(s, buf).state),
        transfer_spec(s, buf).state.enabled == s.enabled,
        transfer_spec(s, buf).state.sel_sck == s.sel_sck,
        transfer_spec(s, buf).state.sel_mosi == s.sel_mosi,
        transfer_spec(s, buf).state.sel_miso == s.sel_miso,
        transfer_spec(s, buf).state.config == s.config,
        transfer_spec(s, buf).state.frequency == s.frequency,
    decreases buf.len(),
{
    if buf.len() == 0 {
        assert(transfer_spec(s, buf).out =~= s.script.take(0));
        assert(s.sent + buf =~= s.sent);
        assert(s.script.skip(0) =~= s.script);
    } else {
        let s1 = exchange_step(s, buf[0]);
        let b0 = exchange_out(s, buf[0]);
        assert(b0 == s.script[0]);
        assert(s1.script =~= s.script.skip(1));
        assert(s1.sent =~= s.sent.push(buf[0]));
        lemma_transfer_facts(s1, buf.skip(1));
        let rest = transfer_spec(s1, buf.skip(1));
        assert(transfer_spec(s, buf).out == seq![b0] + rest.out);
        assert(seq![b0] + s.script.skip(1).take(buf.len() - 1) =~= s.script.take(
            buf.len() as int,
        ));
        assert(s.sent.push(buf[0]) + buf.skip(1) =~= s.sent + buf);
        assert(s.script.skip(1).skip(buf.len() - 1) =~= s.script.skip(buf.len() as int));
    }
}

/// Full-duplex identity: against a peer that echoes every transmitted byte
/// back unchanged — its script is the buffer itself — a transfer hands the
/// buffer back unchanged.
pub proof fn lemma_full_duplex_identity(s: SpiState, buf: Seq<u8>)
    requires
        quiescent(s),
        s.enabled,
        buf.len() <= s.script.len(),
        s.script.take(buf.len() as int) == buf,
    ensures
        transfer_spec(s, buf).out == buf,
{
    lemma_transfer_facts(s, buf);
}

/// Order preservation: against a peer that answers each received byte `b`
/// with `f(b)`, position `i` of the result is `f` of the byte that was at
/// position `i`, for every index, and the bytes are sent in index order with
/// no reordering.
pub proof fn lemma_order_preservation(s: SpiState, buf: Seq<u8>, f: spec_fn(u8) -> u8)
    requires
        quiescent(s),
        s.enabled,
        buf.len() <= s.script.len(),
        forall|i: int| 0 <= i < buf.len() ==> s.script[i] == f(buf[i]),
    ensures
        transfer_spec(s, buf).out.len() == buf.len(),
        forall|i: int| 0 <= i < buf.len() ==> transfer_spec(s, buf).out[i] == f(buf[i]),
        transfer_spec(s, buf).state.sent == s.sent + buf,
{
    lemma_transfer_facts(s, buf);
    assert forall|i: int| 0 <= i < buf.len() implies transfer_spec(s, buf).out[i] == f(
        buf[i],
    ) by {
        assert(transfer_spec(s, buf).out[i] == s.script.take(buf.len() as int)[i]);
        assert(s.script.take(buf.len() as int)[i] == s.script[i]);
    }
}

} // verus!
