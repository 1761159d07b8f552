use vstd::prelude::*;

verus! {

/// Where a connection session stands: waiting for the handshake, active
/// with a known remote identity, or terminated for good.
pub enum SessionState {
    AwaitingHandshake,
    Active(Vec<u8>),
    Terminated,
}

/// The per-connection reactive state: the session's lifecycle state, the
/// handle of its private hub subscription, and the discovery keys it has
/// already issued an open command for.
pub struct ConnectionSession {
    pub state: SessionState,
    pub subscriber: usize,
    pub opened: Vec<Vec<u8>>,
}

/// The session has issued an open command for this discovery key.
pub open spec fn has_opened(opened: Seq<Vec<u8>>, dk: Seq<u8>) -> bool {
    exists|i: int| 0 <= i < opened.len() && (#[trigger] opened[i])@ == dk
}

/// How many open commands the session has recorded for this discovery key.
pub open spec fn opened_count(opened: Seq<Vec<u8>>, dk: Seq<u8>) -> int
    decreases opened.len(),
{
    if opened.len() == 0 {
        0
    } else {
        opened_count(opened.drop_last(), dk) + if opened.last()@ == dk {
            1int
        } else {
            0int
        }
    }
}

/// No discovery key is recorded as opened twice.
pub open spec fn opened_unique(opened: Seq<Vec<u8>>) -> bool {
    forall|i: int, j: int|
        0 <= i < opened.len() && 0 <= j < opened.len() && i != j ==> (#[trigger] opened[i])@ != (
        #[trigger] opened[j])@
}

/// A session opens each feed at most once, and opens nothing before its
/// handshake completes.
pub open spec fn session_wf(s: ConnectionSession) -> bool {
    opened_unique(s.opened@) && (s.state is AwaitingHandshake ==> s.opened@.len() == 0)
}

/// A unique key among those recorded is counted exactly once; an absent
/// key is counted zero times.
pub proof fn lemma_opened_count_bounds(opened: Seq<Vec<u8>>, dk: Seq<u8>)
    requires
        opened_unique(opened),
    ensures
        0 <= opened_count(opened, dk) <= 1,
        opened_count(opened, dk) == 1 <==> has_opened(opened, dk),
    decreases opened.len(),
{
    if opened.len() > 0 {
        assert(opened_unique(opened.drop_last()));
        lemma_opened_count_bounds(opened.drop_last(), dk);
        if opened.last()@ == dk {
            assert forall|i: int| 0 <= i < opened.len() - 1 implies (#[trigger] opened.drop_last()[i])@
                != dk by {
                assert(opened[i]@ != opened[opened.len() - 1]@);
            }
            assert(!has_opened(opened.drop_last(), dk));
            assert(has_opened(opened, dk));
        } else {
            if has_opened(opened, dk) {
                let i = choose|i: int| 0 <= i < opened.len() && (#[trigger] opened[i])@ == dk;
                assert(opened.drop_last()[i]@ == dk);
                assert(has_opened(opened.drop_last(), dk));
            }
            if has_opened(opened.drop_last(), dk) {
                let i = choose|i: int|
                    0 <= i < opened.len() - 1 && (#[trigger] opened.drop_last()[i])@ == dk;
                assert(opened[i]@ == dk);
            }
        }
    }
}

/// An absent key is counted zero times.
pub proof fn lemma_opened_count_absent(opened: Seq<Vec<u8>>, dk: Seq<u8>)
    requires
        !has_opened(opened, dk),
    ensures
        opened_count(opened, dk) == 0,
    decreases opened.len(),
{
    if opened.len() > 0 {
        assert forall|i: int| 0 <= i < opened.len() - 1 implies (#[trigger] opened.drop_last()[i])@
            != dk by {
            assert(opened[i]@ != dk);
        }
        lemma_opened_count_absent(opened.drop_last(), dk);
        assert(opened[opened.len() - 1]@ != dk);
    }
}

/// Appending one key raises its own count by one and no other's.
pub proof fn lemma_opened_count_push(opened: Seq<Vec<u8>>, x: Vec<u8>, dk: Seq<u8>)
    ensures
        opened_count(opened.push(x), dk) == opened_count(opened, dk) + if x@ == dk {
            1int
        } else {
            0int
        },
{
    assert(opened.push(x).drop_last() =~= opened);
    assert(opened.push(x).last() == x);
}

} // verus!
