//! The guarantees the server core gives, stated over the models that the
//! contracts of `store`, `protocol` and `handler` use.

use vstd::prelude::*;
use crate::protocol::{CommandV, FieldV, ResponseV, parsed_command};
use crate::handler::{ConnState, EventV, response_for, spec_step, store_after};

verus! {

/// The store after a whole sequence of commands, applied in order: the
/// serialization the store imposes on the requests of all connections.
pub open spec fn store_after_all(
    m: Map<Seq<char>, Seq<u8>>,
    cs: Seq<CommandV>,
) -> Map<Seq<char>, Seq<u8>>
    decreases cs.len(),
{
    if cs.len() == 0 {
        m
    } else {
        store_after_all(store_after(m, cs[0]), cs.drop_first())
    }
}

/// Whether a command writes the key `k`.
pub open spec fn writes_key(c: CommandV, k: Seq<char>) -> bool {
    match c {
        CommandV::Put { key, .. } => key == k,
        _ => false,
    }
}

/// Commands that do not write `k` leave its binding exactly as it is.
proof fn lemma_binding_preserved(m: Map<Seq<char>, Seq<u8>>, k: Seq<char>, cs: Seq<CommandV>)
    requires
        forall|i: int| 0 <= i < cs.len() ==> !writes_key(cs[i], k),
    ensures
        store_after_all(m, cs).contains_key(k) == m.contains_key(k),
        m.contains_key(k) ==> store_after_all(m, cs)[k] == m[k],
    decreases cs.len(),
{
    if cs.len() > 0 {
        let m1 = store_after(m, cs[0]);
        assert(m1.contains_key(k) == m.contains_key(k));
        assert(m.contains_key(k) ==> m1[k] == m[k]);
        assert(forall|i: int| 0 <= i < cs.drop_first().len() ==> cs.drop_first()[i] == cs[i + 1]);
        lemma_binding_preserved(m1, k, cs.drop_first());
    }
}

/// After `Set{k, v}` completes, a `Get{k}` — on any connection — returns
/// `Bulk(v)`, and keeps doing so until a later command sets `k` again:
/// any number of intervening commands that do not write `k` leave the
/// reply unchanged.
pub proof fn law_set_then_get(
    m: Map<Seq<char>, Seq<u8>>,
    k: Seq<char>,
    v: Seq<u8>,
    cs: Seq<CommandV>,
)
    requires
        forall|i: int| 0 <= i < cs.len() ==> !writes_key(cs[i], k),
    ensures
        response_for(store_after(m, CommandV::Put { key: k, value: v }), CommandV::Get { key: k })
            == ResponseV::Bulk(v),
        response_for(
            store_after_all(store_after(m, CommandV::Put { key: k, value: v }), cs),
            CommandV::Get { key: k },
        ) == ResponseV::Bulk(v),
{
    let m1 = store_after(m, CommandV::Put { key: k, value: v });
    lemma_binding_preserved(m1, k, cs);
}

/// A `Get` on a key never written returns the null marker: if the store
/// does not hold `k` and no command of the history writes `k`, the reply
/// to `Get{k}` is `Null`.
pub proof fn law_get_unwritten(m: Map<Seq<char>, Seq<u8>>, k: Seq<char>, cs: Seq<CommandV>)
    requires
        !m.contains_key(k),
        forall|i: int| 0 <= i < cs.len() ==> !writes_key(cs[i], k),
    ensures
        response_for(store_after_all(m, cs), CommandV::Get { key: k }) == ResponseV::Null,
{
    lemma_binding_preserved(m, k, cs);
}

/// An unsupported command is request-fatal only: the handler answers it
/// with the error response, leaves the store untouched, and once the
/// error is written the connection is back waiting for the next request.
pub proof fn law_unsupported_recoverable(m: Map<Seq<char>, Seq<u8>>, u: Seq<FieldV>)
    requires
        parsed_command(u) is Unknown,
    ensures
        ({
            let (s1, r1, m1) = spec_step(ConnState::AwaitingRequest, EventV::Received(u), m);
            &&& s1 == ConnState::Dispatching
            &&& r1 == Option::Some(ResponseV::Error("unsupported command"@))
            &&& m1 == m
            &&& spec_step(s1, EventV::WriteOk, m1) == (
                ConnState::AwaitingRequest,
                Option::<ResponseV>::None,
                m,
            )
        }),
{
}

/// Two connections setting the same key concurrently are serialized by
/// the store; whichever order it imposes, the key afterwards holds one of
/// the two values whole — the last writer's — and never a mixture.
pub proof fn law_no_torn_write(
    m: Map<Seq<char>, Seq<u8>>,
    k: Seq<char>,
    v1: Seq<u8>,
    v2: Seq<u8>,
)
    ensures
        store_after(store_after(m, CommandV::Put { key: k, value: v1 }), CommandV::Put {
            key: k,
            value: v2,
        })[k] == v2,
        store_after(store_after(m, CommandV::Put { key: k, value: v2 }), CommandV::Put {
            key: k,
            value: v1,
        })[k] == v1,
{
}

/// A peer that closes its side of the stream ends the handler cleanly:
/// from every state, the end of the stream closes the connection, writes
/// nothing, and leaves the store exactly as it was.
pub proof fn law_clean_close(s: ConnState, m: Map<Seq<char>, Seq<u8>>)
    ensures
        spec_step(s, EventV::StreamEnd, m) == (ConnState::Closed, Option::<ResponseV>::None, m),
{
}

} // verus!
