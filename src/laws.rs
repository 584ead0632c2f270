use vstd::prelude::*;

use crate::account::AccountId;
use crate::contract::{authorizes_spec, committed, text_in, PendingAnnouncement};
use crate::interfaces::Owner;

verus! {

/// A request whose registry answer names the requester itself as the direct
/// account owner leaves its text under its token.
pub proof fn lemma_commit_correct(m: Map<u64, String>, t: u64, s: String, caller: AccountId)
    ensures
        text_in(
            committed(
                m,
                Some(Owner::Account(caller)),
                PendingAnnouncement { nft_id: t, announcement: s, requester: caller },
            ),
            t,
        ) == s@,
{
}

/// A request whose registry answer names anyone or anything but the
/// requester itself as direct account owner (another account, a token, a
/// token on another registry, a lock) leaves every text as it was.
pub proof fn lemma_denial_changes_nothing(m: Map<u64, String>, owner: Owner, p: PendingAnnouncement)
    requires
        !authorizes_spec(owner, p.requester@),
    ensures
        committed(m, Some(owner), p) == m,
        forall|t: u64| text_in(committed(m, Some(owner), p), t) == text_in(m, t),
{
}

/// A request whose registry query failed leaves every text as it was.
pub proof fn lemma_failure_changes_nothing(m: Map<u64, String>, p: PendingAnnouncement)
    ensures
        committed(m, None, p) == m,
        forall|t: u64| text_in(committed(m, None, p), t) == text_in(m, t),
{
}

/// A token that nothing was ever written for reads back as the empty text.
pub proof fn lemma_absent_reads_empty(m: Map<u64, String>, t: u64)
    requires
        !m.contains_key(t),
    ensures
        text_in(m, t) == Seq::<char>::empty(),
{
}

/// Two successful requests by the same owner on one token, one after the
/// other, leave the second text.
pub proof fn lemma_overwrite(m: Map<u64, String>, t: u64, s1: String, s2: String, caller: AccountId)
    ensures
        ({
            let owner = Some(Owner::Account(caller));
            let p1 = PendingAnnouncement { nft_id: t, announcement: s1, requester: caller };
            let p2 = PendingAnnouncement { nft_id: t, announcement: s2, requester: caller };
            text_in(committed(committed(m, owner, p1), owner, p2), t) == s2@
        }),
{
}

/// Two authorized requests on one token whose answers arrive in either order
/// leave the text of whichever was applied last, so one of the two texts.
pub proof fn lemma_interleaving(
    m: Map<u64, String>,
    oa: Owner,
    pa: PendingAnnouncement,
    ob: Owner,
    pb: PendingAnnouncement,
)
    requires
        pa.nft_id == pb.nft_id,
        authorizes_spec(oa, pa.requester@),
        authorizes_spec(ob, pb.requester@),
    ensures
        text_in(committed(committed(m, Some(oa), pa), Some(ob), pb), pa.nft_id) == pb.announcement@,
        text_in(committed(committed(m, Some(ob), pb), Some(oa), pa), pa.nft_id) == pa.announcement@,
{
}

} // verus!
