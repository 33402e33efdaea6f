//! One player's record across the durable store and the auxiliary venue, and
//! the handoff of write-authority between them.
//!
//! At most one copy is writable at any time: the durable copy while
//! `Resident`, the venue's copy while `Delegated`, and neither while a
//! handoff is in flight.
use vstd::prelude::*;
use crate::grid::{INITIAL_X, INITIAL_Y};
use crate::identity::Identity;
use crate::player::{
    applied, spec_move, spec_register, spec_revoke, GameError, Player,
};

verus! {

/// Where write-authority for a record currently lives.
#[derive(Clone, Copy, Debug, PartialEq, Eq, Structural)]
pub enum DelegationState {
    /// The durable store holds it.
    Resident,
    /// A handoff to the venue has been asked for and not yet answered.
    Delegating,
    /// The venue holds it; the durable copy is frozen.
    Delegated,
    /// A return to the durable store has been asked for and not yet answered.
    Undelegating,
}

/// A player's record: the durable copy, the venue's copy while it has one,
/// and the delegation state.
#[derive(Clone, Copy, Debug)]
pub struct PlayerAccount {
    pub base: Player,
    pub rollup: Option<Player>,
    pub state: DelegationState,
}

/// The venue's copy replaced by `p`, or the durable one where the venue holds none.
pub open spec fn with_live(a: PlayerAccount, p: Player) -> PlayerAccount {
    match a.rollup {
        Some(_) => PlayerAccount { rollup: Some(p), ..a },
        None => PlayerAccount { base: p, ..a },
    }
}

/// Refuses with `InvalidState` unless a copy is writable, and otherwise lifts
/// a change of the live copy to the account.
pub open spec fn lift(a: PlayerAccount, s: Result<Player, GameError>) -> Result<PlayerAccount, GameError> {
    if !a.writable() {
        Err(GameError::InvalidState)
    } else {
        match s {
            Ok(p) => Ok(with_live(a, p)),
            Err(e) => Err(e),
        }
    }
}

pub open spec fn spec_account_move(a: PlayerAccount, signer: Identity, dx: i8, dy: i8) -> Result<PlayerAccount, GameError> {
    lift(a, spec_move(a.live(), signer, dx, dy))
}

pub open spec fn spec_account_register(a: PlayerAccount, signer: Identity, key: Identity) -> Result<PlayerAccount, GameError> {
    lift(a, spec_register(a.live(), signer, key))
}

pub open spec fn spec_account_revoke(a: PlayerAccount, signer: Identity) -> Result<PlayerAccount, GameError> {
    lift(a, spec_revoke(a.live(), signer))
}

/// Asking to hand the record to the venue: only from `Resident`, only by the owner.
pub open spec fn spec_request_delegate(a: PlayerAccount, signer: Identity) -> Result<PlayerAccount, GameError> {
    if a.state != DelegationState::Resident {
        Err(GameError::InvalidState)
    } else if signer != a.base.authority {
        Err(GameError::Unauthorized)
    } else {
        Ok(PlayerAccount { state: DelegationState::Delegating, ..a })
    }
}

/// The venue's answer to a handoff: on acceptance it holds a copy of the
/// durable record; on failure the record is `Resident` again, as before.
pub open spec fn spec_complete_delegate(a: PlayerAccount, accepted: bool) -> (PlayerAccount, Result<(), GameError>) {
    if a.state != DelegationState::Delegating {
        (a, Err(GameError::InvalidState))
    } else if accepted {
        (PlayerAccount { rollup: Some(a.base), state: DelegationState::Delegated, ..a }, Ok(()))
    } else {
        (PlayerAccount { state: DelegationState::Resident, ..a }, Err(GameError::StoreFailure))
    }
}

/// A checkpoint: the durable copy takes the venue's, which stays writable.
pub open spec fn spec_commit(a: PlayerAccount, pushed: bool) -> Result<PlayerAccount, GameError> {
    if a.state != DelegationState::Delegated {
        Err(GameError::InvalidState)
    } else if !pushed {
        Err(GameError::StoreFailure)
    } else {
        Ok(PlayerAccount { base: a.live(), ..a })
    }
}

/// Asking to return write-authority: only from `Delegated`. The venue's copy
/// is frozen from here on.
pub open spec fn spec_request_undelegate(a: PlayerAccount) -> Result<PlayerAccount, GameError> {
    if a.state != DelegationState::Delegated {
        Err(GameError::InvalidState)
    } else {
        Ok(PlayerAccount { state: DelegationState::Undelegating, ..a })
    }
}

/// The venue's answer to a return: on release the durable copy takes the
/// venue's final state and is writable again; on failure the venue keeps it.
pub open spec fn spec_complete_undelegate(a: PlayerAccount, released: bool) -> (PlayerAccount, Result<(), GameError>) {
    if a.state != DelegationState::Undelegating {
        (a, Err(GameError::InvalidState))
    } else if released {
        (PlayerAccount { base: a.live(), rollup: None, state: DelegationState::Resident }, Ok(()))
    } else {
        (PlayerAccount { state: DelegationState::Delegated, ..a }, Err(GameError::StoreFailure))
    }
}

impl PlayerAccount {
    /// Both copies on the grid and of one owner; the venue holds a copy
    /// exactly while it holds or is giving back write-authority.
    pub open spec fn wf(self) -> bool {
        &&& self.base.wf()
        &&& match self.rollup {
            Some(p) => p.wf() && p.authority == self.base.authority,
            None => true,
        }
        &&& (self.rollup is Some) == (self.state == DelegationState::Delegated
            || self.state == DelegationState::Undelegating)
    }

    /// The authoritative copy: the venue's while it has one.
    pub open spec fn live(self) -> Player {
        match self.rollup {
            Some(p) => p,
            None => self.base,
        }
    }

    /// Mutations are allowed: no handoff is in flight.
    pub open spec fn writable(self) -> bool {
        self.state == DelegationState::Resident || self.state == DelegationState::Delegated
    }

    /// The record that joining creates for `who`.
    pub open spec fn joined(who: Identity, bump: u8) -> PlayerAccount {
        PlayerAccount {
            base: Player { authority: who, x: INITIAL_X, y: INITIAL_Y, bump, session_key: None },
            rollup: None,
            state: DelegationState::Resident,
        }
    }

    /// A record that lives in the durable store only.
    pub fn new(base: Player) -> (r: PlayerAccount)
        requires
            base.wf(),
        ensures
            r.base == base,
            r.rollup is None,
            r.state == DelegationState::Resident,
            r.wf(),
    {
        PlayerAccount { base, rollup: None, state: DelegationState::Resident }
    }

    /// The authoritative copy.
    pub fn current(&self) -> (r: Player)
        ensures
            r == self.live(),
    {
        match self.rollup {
            Some(p) => p,
            None => self.base,
        }
    }

    fn check_writable(&self) -> (r: Result<(), GameError>)
        ensures
            r is Ok <==> self.writable(),
            r is Err ==> r == Err::<(), GameError>(GameError::InvalidState),
    {
        match self.state {
            DelegationState::Resident | DelegationState::Delegated => Ok(()),
            _ => Err(GameError::InvalidState),
        }
    }

    fn set_live(&mut self, p: Player)
        ensures
            *final(self) == with_live(*old(self), p),
    {
        if self.rollup.is_some() {
            self.rollup = Some(p);
        } else {
            self.base = p;
        }
    }

    /// Moves the authoritative copy, if it is writable and `signer` may move it.
    pub fn move_player(&mut self, signer: &Identity, dx: i8, dy: i8) -> (r: Result<(), GameError>)
        requires
            old(self).wf(),
        ensures
            applied(*old(self), *final(self), r, spec_account_move(*old(self), *signer, dx, dy)),
            final(self).wf(),
            final(self).base.authority == old(self).base.authority,
    {
        if let Err(e) = self.check_writable() {
            return Err(e);
        }
        let mut p = self.current();
        match p.move_by(signer, dx, dy) {
            Err(e) => Err(e),
            Ok(()) => {
                self.set_live(p);
                Ok(())
            },
        }
    }

    /// Installs a session key on the authoritative copy; owner only.
    pub fn register_session_key(&mut self, signer: &Identity, key: Identity) -> (r: Result<(), GameError>)
        requires
            old(self).wf(),
        ensures
            applied(*old(self), *final(self), r, spec_account_register(*old(self), *signer, key)),
            final(self).wf(),
            final(self).base.authority == old(self).base.authority,
    {
        if let Err(e) = self.check_writable() {
            return Err(e);
        }
        let mut p = self.current();
        match p.register_session_key(signer, key) {
            Err(e) => Err(e),
            Ok(()) => {
                self.set_live(p);
                Ok(())
            },
        }
    }

    /// Clears the session key of the authoritative copy; owner only.
    pub fn revoke_session_key(&mut self, signer: &Identity) -> (r: Result<(), GameError>)
        requires
            old(self).wf(),
        ensures
            applied(*old(self), *final(self), r, spec_account_revoke(*old(self), *signer)),
            final(self).wf(),
            final(self).base.authority == old(self).base.authority,
    {
        if let Err(e) = self.check_writable() {
            return Err(e);
        }
        let mut p = self.current();
        match p.revoke_session_key(signer) {
            Err(e) => Err(e),
            Ok(()) => {
                self.set_live(p);
                Ok(())
            },
        }
    }

    /// First half of `delegate`: on `Ok` the caller asks the venue to accept
    /// the record and reports its answer to `complete_delegate`.
    pub fn request_delegate(&mut self, signer: &Identity) -> (r: Result<(), GameError>)
        requires
            old(self).wf(),
        ensures
            applied(*old(self), *final(self), r, spec_request_delegate(*old(self), *signer)),
            final(self).wf(),
            final(self).base.authority == old(self).base.authority,
    {
        if self.state != DelegationState::Resident {
            return Err(GameError::InvalidState);
        }
        if !signer.same(&self.base.authority) {
            return Err(GameError::Unauthorized);
        }
        self.state = DelegationState::Delegating;
        Ok(())
    }

    /// Second half of `delegate`, given whether the venue accepted.
    pub fn complete_delegate(&mut self, accepted: bool) -> (r: Result<(), GameError>)
        requires
            old(self).wf(),
        ensures
            (*final(self), r) == spec_complete_delegate(*old(self), accepted),
            final(self).wf(),
            final(self).base.authority == old(self).base.authority,
    {
        if self.state != DelegationState::Delegating {
            return Err(GameError::InvalidState);
        }
        if accepted {
            self.rollup = Some(self.base);
            self.state = DelegationState::Delegated;
            Ok(())
        } else {
            self.state = DelegationState::Resident;
            Err(GameError::StoreFailure)
        }
    }

    /// The copy that a checkpoint pushes to the durable store; only while `Delegated`.
    pub fn commit_snapshot(&self) -> (r: Result<Player, GameError>)
        requires
            self.wf(),
        ensures
            r == (if self.state == DelegationState::Delegated {
                Ok::<Player, GameError>(self.live())
            } else {
                Err(GameError::InvalidState)
            }),
    {
        if self.state != DelegationState::Delegated {
            return Err(GameError::InvalidState);
        }
        Ok(self.current())
    }

    /// A checkpoint, given whether the venue's push reached the durable store.
    pub fn commit_player(&mut self, pushed: bool) -> (r: Result<(), GameError>)
        requires
            old(self).wf(),
        ensures
            applied(*old(self), *final(self), r, spec_commit(*old(self), pushed)),
            final(self).wf(),
            final(self).base.authority == old(self).base.authority,
    {
        if self.state != DelegationState::Delegated {
            return Err(GameError::InvalidState);
        }
        if !pushed {
            return Err(GameError::StoreFailure);
        }
        self.base = self.current();
        Ok(())
    }

    /// First half of `undelegate`: on `Ok` the caller asks the venue for a
    /// final commit and release, and reports its answer to `complete_undelegate`.
    pub fn request_undelegate(&mut self) -> (r: Result<(), GameError>)
        requires
            old(self).wf(),
        ensures
            applied(*old(self), *final(self), r, spec_request_undelegate(*old(self))),
            final(self).wf(),
            final(self).base.authority == old(self).base.authority,
    {
        if self.state != DelegationState::Delegated {
            return Err(GameError::InvalidState);
        }
        self.state = DelegationState::Undelegating;
        Ok(())
    }

    /// Second half of `undelegate`, given whether the venue released the record.
    pub fn complete_undelegate(&mut self, released: bool) -> (r: Result<(), GameError>)
        requires
            old(self).wf(),
        ensures
            (*final(self), r) == spec_complete_undelegate(*old(self), released),
            final(self).wf(),
            final(self).base.authority == old(self).base.authority,
    {
        if self.state != DelegationState::Undelegating {
            return Err(GameError::InvalidState);
        }
        if released {
            self.base = self.current();
            self.rollup = None;
            self.state = DelegationState::Resident;
            Ok(())
        } else {
            self.state = DelegationState::Delegated;
            Err(GameError::StoreFailure)
        }
    }
}

} // verus!
