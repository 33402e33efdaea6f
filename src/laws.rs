//! Laws that relate the operations to one another.
use vstd::prelude::*;
use crate::account::{
    spec_account_move, spec_account_register, spec_account_revoke, spec_commit,
    spec_complete_delegate, spec_complete_undelegate, spec_request_delegate,
    spec_request_undelegate, DelegationState, PlayerAccount,
};
use crate::game::{holds_in, index_in, spec_join};
use crate::identity::Identity;
use crate::player::GameError;

verus! {

/// On a writable record, a move signed by the owner or by the registered
/// session key succeeds, and one signed by any other identity is refused
/// as `Unauthorized`.
pub proof fn lemma_move_gate(a: PlayerAccount, signer: Identity, dx: i8, dy: i8)
    requires
        a.wf(),
        a.writable(),
    ensures
        signer == a.live().authority ==> spec_account_move(a, signer, dx, dy) is Ok,
        a.live().session_key == Some(signer) ==> spec_account_move(a, signer, dx, dy) is Ok,
        signer != a.live().authority && a.live().session_key != Some(signer)
            ==> spec_account_move(a, signer, dx, dy) == Err::<PlayerAccount, GameError>(GameError::Unauthorized),
{
}

/// Once the owner revokes the session key, that key can no longer move the player.
pub proof fn lemma_revoked_key_refused(a: PlayerAccount, key: Identity, dx: i8, dy: i8)
    requires
        a.wf(),
        a.writable(),
        key != a.live().authority,
    ensures
        spec_account_revoke(a, a.live().authority) matches Ok(b)
            && spec_account_move(b, key, dx, dy) == Err::<PlayerAccount, GameError>(GameError::Unauthorized),
{
}

/// The session key cannot register or revoke session keys; the owner can.
pub proof fn lemma_only_owner_manages_keys(a: PlayerAccount, key: Identity, other: Identity)
    requires
        a.wf(),
        a.writable(),
        a.live().session_key == Some(key),
        key != a.live().authority,
    ensures
        spec_account_register(a, key, other) == Err::<PlayerAccount, GameError>(GameError::Unauthorized),
        spec_account_revoke(a, key) == Err::<PlayerAccount, GameError>(GameError::Unauthorized),
        spec_account_register(a, a.live().authority, other) is Ok,
        spec_account_revoke(a, a.live().authority) is Ok,
{
}

/// A `Resident` record handed to the venue by its owner becomes `Delegated`,
/// with the venue holding the durable copy; asking again is refused as
/// `InvalidState` and changes nothing.
pub proof fn lemma_delegate_once(a: PlayerAccount, signer: Identity)
    requires
        a.wf(),
        a.state == DelegationState::Resident,
        signer == a.base.authority,
    ensures
        spec_request_delegate(a, signer) matches Ok(b) && ({
            let (c, r) = spec_complete_delegate(b, true);
            &&& r is Ok
            &&& c.state == DelegationState::Delegated
            &&& c.live() == a.live()
            &&& spec_request_delegate(c, signer) == Err::<PlayerAccount, GameError>(GameError::InvalidState)
        }),
{
}

/// A checkpoint keeps the record `Delegated` and makes the durable copy equal
/// to the venue's.
pub proof fn lemma_commit_checkpoint(a: PlayerAccount)
    requires
        a.wf(),
        a.state == DelegationState::Delegated,
    ensures
        spec_commit(a, true) matches Ok(b) && b.state == DelegationState::Delegated
            && b.base == a.live() && b.live() == a.live(),
{
}

/// Returning write-authority makes the record `Resident`, with the durable
/// copy equal to the venue's copy at the time of the request.
pub proof fn lemma_undelegate_returns(a: PlayerAccount)
    requires
        a.wf(),
        a.state == DelegationState::Delegated,
    ensures
        spec_request_undelegate(a) matches Ok(b) && ({
            let (c, r) = spec_complete_undelegate(b, true);
            &&& r is Ok
            &&& c.state == DelegationState::Resident
            &&& c.base == a.live()
            &&& c.rollup is None
        }),
{
}

/// On a `Resident` record, checkpoints and returns are refused as `InvalidState`.
pub proof fn lemma_resident_refuses_return(a: PlayerAccount, pushed: bool, released: bool)
    requires
        a.wf(),
        a.state == DelegationState::Resident,
    ensures
        spec_commit(a, pushed) == Err::<PlayerAccount, GameError>(GameError::InvalidState),
        spec_request_undelegate(a) == Err::<PlayerAccount, GameError>(GameError::InvalidState),
        spec_complete_undelegate(a, released) == (a, Err::<(), GameError>(GameError::InvalidState)),
{
}

/// Joining twice: the second join is refused as `AlreadyExists`, and the
/// record of the first is the fresh one.
pub proof fn lemma_join_twice(s: Seq<PlayerAccount>, who: Identity, bump: u8, bump2: u8)
    requires
        !holds_in(s, who),
    ensures
        spec_join(s, who, bump) matches Ok(t) && ({
            &&& spec_join(t, who, bump2) == Err::<Seq<PlayerAccount>, GameError>(GameError::AlreadyExists)
            &&& t[index_in(t, who)] == PlayerAccount::joined(who, bump)
        }),
{
    let t = s.push(PlayerAccount::joined(who, bump));
    assert(t[s.len() as int].base.authority == who);
    assert(holds_in(t, who));
    let k = index_in(t, who);
    if k != s.len() {
        assert(t[k] == s[k]);
    }
}

} // verus!
