//! The player record, the board marker, and the authorization gate.
use vstd::prelude::*;
use crate::grid::{apply_move, clamp_coord, in_bounds, INITIAL_X, INITIAL_Y};
use crate::identity::{option_is, Identity};

verus! {

/// Why a request was refused. Every refusal leaves the state as it was.
#[derive(Clone, Copy, Debug, PartialEq, Eq, Structural)]
pub enum GameError {
    Unauthorized,
    AlreadyExists,
    NotFound,
    InvalidState,
    StoreFailure,
}

/// The singleton ownership marker, fixed at creation.
#[derive(Clone, Copy, Debug)]
pub struct Board {
    pub authority: Identity,
}

/// A participant's state.
#[derive(Clone, Copy, Debug)]
pub struct Player {
    /// The immutable owner.
    pub authority: Identity,
    pub x: u8,
    pub y: u8,
    /// Seed byte of the record's derived address.
    pub bump: u8,
    /// The one identity, besides the owner, that may move the player.
    pub session_key: Option<Identity>,
}

/// Which of the two keys a signer presented.
#[derive(Clone, Copy, Debug, PartialEq, Eq, Structural)]
pub enum SignerRole {
    PrimaryAuthority,
    SessionKey,
}

impl Player {
    /// The position lies on the grid.
    pub open spec fn wf(self) -> bool {
        in_bounds(self.x) && in_bounds(self.y)
    }

    /// A fresh player at the spawn point, with no session key.
    pub fn new(authority: Identity, bump: u8) -> (r: Player)
        ensures
            r.authority == authority,
            r.x == INITIAL_X,
            r.y == INITIAL_Y,
            r.bump == bump,
            r.session_key is None,
            r.wf(),
    {
        Player { authority, x: INITIAL_X, y: INITIAL_Y, bump, session_key: None }
    }
}

/// The role under which `signer` may move `p`, if any: the owner first,
/// then the registered session key.
pub open spec fn role_of(p: Player, signer: Identity) -> Option<SignerRole> {
    if signer == p.authority {
        Some(SignerRole::PrimaryAuthority)
    } else if p.session_key == Some(signer) {
        Some(SignerRole::SessionKey)
    } else {
        None
    }
}

/// Decides whether `signer` may move `p`: the owner or the current session key.
pub fn authorize(p: &Player, signer: &Identity) -> (r: Result<SignerRole, GameError>)
    ensures
        match role_of(*p, *signer) {
            Some(role) => r == Ok::<SignerRole, GameError>(role),
            None => r == Err::<SignerRole, GameError>(GameError::Unauthorized),
        },
{
    if signer.same(&p.authority) {
        Ok(SignerRole::PrimaryAuthority)
    } else if option_is(&p.session_key, signer) {
        Ok(SignerRole::SessionKey)
    } else {
        Err(GameError::Unauthorized)
    }
}

/// Decides whether `signer` may manage session keys of `p`: the owner alone.
pub fn authorize_owner(p: &Player, signer: &Identity) -> (r: Result<(), GameError>)
    ensures
        r == (if *signer == p.authority {
            Ok::<(), GameError>(())
        } else {
            Err(GameError::Unauthorized)
        }),
{
    if signer.same(&p.authority) {
        Ok(())
    } else {
        Err(GameError::Unauthorized)
    }
}

/// The player after a move by `(dx, dy)`, or the refusal.
pub open spec fn spec_move(p: Player, signer: Identity, dx: i8, dy: i8) -> Result<Player, GameError> {
    if role_of(p, signer) is Some {
        Ok(
            Player {
                x: clamp_coord(p.x + dx) as u8,
                y: clamp_coord(p.y + dy) as u8,
                ..p
            },
        )
    } else {
        Err(GameError::Unauthorized)
    }
}

/// The player with `key` as its session key, or the refusal.
pub open spec fn spec_register(p: Player, signer: Identity, key: Identity) -> Result<Player, GameError> {
    if signer == p.authority {
        Ok(Player { session_key: Some(key), ..p })
    } else {
        Err(GameError::Unauthorized)
    }
}

/// The player without a session key, or the refusal.
pub open spec fn spec_revoke(p: Player, signer: Identity) -> Result<Player, GameError> {
    if signer == p.authority {
        Ok(Player { session_key: None, ..p })
    } else {
        Err(GameError::Unauthorized)
    }
}

/// `r` reports the outcome `s` of a change from `before` to `after`: on
/// success `after` is the new value, on refusal nothing changed.
pub open spec fn applied<T>(before: T, after: T, r: Result<(), GameError>, s: Result<T, GameError>) -> bool {
    match s {
        Ok(n) => r == Ok::<(), GameError>(()) && after == n,
        Err(e) => r == Err::<(), GameError>(e) && after == before,
    }
}

impl Player {
    /// Moves the player if `signer` is its owner or session key.
    pub fn move_by(&mut self, signer: &Identity, dx: i8, dy: i8) -> (r: Result<(), GameError>)
        requires
            old(self).wf(),
        ensures
            applied(*old(self), *final(self), r, spec_move(*old(self), *signer, dx, dy)),
            final(self).wf(),
    {
        match authorize(self, signer) {
            Err(e) => Err(e),
            Ok(_) => {
                let (nx, ny) = apply_move(self.x, self.y, dx, dy);
                self.x = nx;
                self.y = ny;
                Ok(())
            },
        }
    }

    /// Installs `key` as the session key, replacing any earlier one.
    pub fn register_session_key(&mut self, signer: &Identity, key: Identity) -> (r: Result<(), GameError>)
        ensures
            applied(*old(self), *final(self), r, spec_register(*old(self), *signer, key)),
    {
        match authorize_owner(self, signer) {
            Err(e) => Err(e),
            Ok(_) => {
                self.session_key = Some(key);
                Ok(())
            },
        }
    }

    /// Clears the session key.
    pub fn revoke_session_key(&mut self, signer: &Identity) -> (r: Result<(), GameError>)
        ensures
            applied(*old(self), *final(self), r, spec_revoke(*old(self), *signer)),
    {
        match authorize_owner(self, signer) {
            Err(e) => Err(e),
            Ok(_) => {
                self.session_key = None;
                Ok(())
            },
        }
    }
}

} // verus!
