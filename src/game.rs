//! The store of records: the board, created once, and one player record per
//! owner identity, located by that identity alone.
use vstd::prelude::*;
use crate::account::{
    spec_account_move, spec_account_register, spec_account_revoke, spec_commit,
    spec_complete_delegate, spec_complete_undelegate, spec_request_delegate,
    spec_request_undelegate, PlayerAccount,
};
use crate::identity::Identity;
use crate::player::{Board, GameError, Player};

verus! {

/// Some record in `s` is owned by `who`.
pub open spec fn holds_in(s: Seq<PlayerAccount>, who: Identity) -> bool {
    exists|i: int| 0 <= i < s.len() && #[trigger] s[i].base.authority == who
}

/// The place in `s` of the record owned by `who`.
pub open spec fn index_in(s: Seq<PlayerAccount>, who: Identity) -> int {
    choose|i: int| 0 <= i < s.len() && #[trigger] s[i].base.authority == who
}

/// The records after `who` joins: a new one at the spawn point, unless
/// `who` already owns one.
pub open spec fn spec_join(s: Seq<PlayerAccount>, who: Identity, bump: u8) -> Result<Seq<PlayerAccount>, GameError> {
    if holds_in(s, who) {
        Err(GameError::AlreadyExists)
    } else {
        Ok(s.push(PlayerAccount::joined(who, bump)))
    }
}

pub struct Game {
    pub board: Option<Board>,
    pub accounts: Vec<PlayerAccount>,
}

impl Game {
    /// Every record is well formed, and no two share an owner.
    pub open spec fn wf(self) -> bool {
        &&& forall|i: int| 0 <= i < self.accounts@.len() ==> #[trigger] self.accounts@[i].wf()
        &&& forall|i: int, j: int|
            0 <= i < self.accounts@.len() && 0 <= j < self.accounts@.len() && i != j
                ==> #[trigger] self.accounts@[i].base.authority != #[trigger] self.accounts@[j].base.authority
    }

    /// A record owned by `who` exists.
    pub open spec fn holds(self, who: Identity) -> bool {
        holds_in(self.accounts@, who)
    }

    /// Where the record owned by `who` stands.
    pub open spec fn index_of(self, who: Identity) -> int {
        index_in(self.accounts@, who)
    }

    /// The record owned by `who`.
    pub open spec fn account_of(self, who: Identity) -> PlayerAccount {
        self.accounts@[self.index_of(who)]
    }

    /// `r` reports the outcome `s` of a change to the record of `who`: the
    /// record is missing, or `s` replaced it, or nothing changed.
    pub open spec fn updated(
        self,
        after: Game,
        who: Identity,
        r: Result<(), GameError>,
        s: Result<PlayerAccount, GameError>,
    ) -> bool {
        &&& after.board == self.board
        &&& if !self.holds(who) {
            r == Err::<(), GameError>(GameError::NotFound) && after.accounts@ == self.accounts@
        } else {
            match s {
                Ok(n) => r == Ok::<(), GameError>(()) && after.accounts@ == self.accounts@.update(self.index_of(who), n),
                Err(e) => r == Err::<(), GameError>(e) && after.accounts@ == self.accounts@,
            }
        }
    }

    /// As `updated`, for a change that reports its own result and new record.
    pub open spec fn stepped(
        self,
        after: Game,
        who: Identity,
        r: Result<(), GameError>,
        s: (PlayerAccount, Result<(), GameError>),
    ) -> bool {
        &&& after.board == self.board
        &&& if !self.holds(who) {
            r == Err::<(), GameError>(GameError::NotFound) && after.accounts@ == self.accounts@
        } else {
            r == s.1 && after.accounts@ == self.accounts@.update(self.index_of(who), s.0)
        }
    }

    /// An empty store: no board, no players.
    pub fn new() -> (r: Game)
        ensures
            r.board is None,
            r.accounts@.len() == 0,
            r.wf(),
    {
        Game { board: None, accounts: Vec::new() }
    }

    /// Creates the board, owned by `signer`; there is only ever one.
    pub fn initialize(&mut self, signer: &Identity) -> (r: Result<(), GameError>)
        ensures
            final(self).accounts@ == old(self).accounts@,
            old(self).board is Some ==> r == Err::<(), GameError>(GameError::AlreadyExists)
                && final(self).board == old(self).board,
            old(self).board is None ==> r == Ok::<(), GameError>(())
                && final(self).board == Some(Board { authority: *signer }),
    {
        if self.board.is_some() {
            return Err(GameError::AlreadyExists);
        }
        self.board = Some(Board { authority: *signer });
        Ok(())
    }

    /// Where the record owned by `who` stands, if there is one.
    pub fn find(&self, who: &Identity) -> (r: Option<usize>)
        requires
            self.wf(),
        ensures
            r is None <==> !self.holds(*who),
            r matches Some(i) ==> i == self.index_of(*who) && i < self.accounts@.len(),
    {
        let mut i: usize = 0;
        while i < self.accounts.len()
            invariant
                self.wf(),
                i <= self.accounts@.len(),
                forall|j: int| 0 <= j < i ==> #[trigger] self.accounts@[j].base.authority != *who,
            decreases self.accounts@.len() - i,
        {
            if self.accounts[i].base.authority.same(who) {
                proof {
                    assert(self.accounts@[i as int].base.authority == *who);
                    assert(self.holds(*who));
                    let k = self.index_of(*who);
                    assert(self.accounts@[k].base.authority == *who);
                    assert(k == i);
                }
                return Some(i);
            }
            i = i + 1;
        }
        None
    }

    /// The record owned by `who`.
    pub fn get(&self, who: &Identity) -> (r: Result<PlayerAccount, GameError>)
        requires
            self.wf(),
        ensures
            self.holds(*who) ==> r == Ok::<PlayerAccount, GameError>(self.account_of(*who)),
            !self.holds(*who) ==> r == Err::<PlayerAccount, GameError>(GameError::NotFound),
    {
        match self.find(who) {
            Some(i) => Ok(self.accounts[i]),
            None => Err(GameError::NotFound),
        }
    }

    /// Creates the record of `signer` at the spawn point; a second join by
    /// the same identity is refused and leaves the first record alone.
    pub fn join_game(&mut self, signer: &Identity, bump: u8) -> (r: Result<(), GameError>)
        requires
            old(self).wf(),
        ensures
            final(self).wf(),
            final(self).board == old(self).board,
            match spec_join(old(self).accounts@, *signer, bump) {
                Ok(n) => r == Ok::<(), GameError>(()) && final(self).accounts@ == n,
                Err(e) => r == Err::<(), GameError>(e) && final(self).accounts@ == old(self).accounts@,
            },
    {
        if self.find(signer).is_some() {
            return Err(GameError::AlreadyExists);
        }
        let acct = PlayerAccount::new(Player::new(*signer, bump));
        proof {
            assert(acct == PlayerAccount::joined(*signer, bump));
        }
        self.accounts.push(acct);
        proof {
            let s = self.accounts@;
            assert forall|i: int, j: int|
                0 <= i < s.len() && 0 <= j < s.len() && i != j
                    implies #[trigger] s[i].base.authority != #[trigger] s[j].base.authority by {
                if i < s.len() - 1 && j < s.len() - 1 {
                    assert(s[i] == old(self).accounts@[i]);
                    assert(s[j] == old(self).accounts@[j]);
                } else if i < s.len() - 1 {
                    assert(s[i] == old(self).accounts@[i]);
                } else {
                    assert(s[j] == old(self).accounts@[j]);
                }
            }
        }
        Ok(())
    }
    fn replace(&mut self, i: usize, n: PlayerAccount)
        requires
            old(self).wf(),
            i < old(self).accounts@.len(),
            n.wf(),
            n.base.authority == old(self).accounts@[i as int].base.authority,
        ensures
            final(self).wf(),
            final(self).board == old(self).board,
            final(self).accounts@ == old(self).accounts@.update(i as int, n),
    {
        self.accounts.set(i, n);
        proof {
            let s = self.accounts@;
            let o = old(self).accounts@;
            assert forall|a: int, b: int|
                0 <= a < s.len() && 0 <= b < s.len() && a != b
                    implies #[trigger] s[a].base.authority != #[trigger] s[b].base.authority by {
                assert(s[a].base.authority == o[a].base.authority);
                assert(s[b].base.authority == o[b].base.authority);
            }
            assert forall|a: int| 0 <= a < s.len() implies #[trigger] s[a].wf() by {
                if a != i {
                    assert(s[a] == o[a]);
                }
            }
        }
    }

    /// Moves the player owned by `player`, as `signer`.
    pub fn move_player(&mut self, player: &Identity, signer: &Identity, dx: i8, dy: i8) -> (r: Result<(), GameError>)
        requires
            old(self).wf(),
        ensures
            final(self).wf(),
            old(self).updated(*final(self), *player, r,
                spec_account_move(old(self).account_of(*player), *signer, dx, dy)),
    {
        match self.find(player) {
            None => Err(GameError::NotFound),
            Some(i) => {
                let mut a = self.accounts[i];
                let r = a.move_player(signer, dx, dy);
                if r.is_ok() {
                    self.replace(i, a);
                }
                r
            },
        }
    }

    /// Registers `key` as the session key of the player owned by `player`.
    pub fn register_session_key(&mut self, player: &Identity, signer: &Identity, key: Identity) -> (r: Result<(), GameError>)
        requires
            old(self).wf(),
        ensures
            final(self).wf(),
            old(self).updated(*final(self), *player, r,
                spec_account_register(old(self).account_of(*player), *signer, key)),
    {
        match self.find(player) {
            None => Err(GameError::NotFound),
            Some(i) => {
                let mut a = self.accounts[i];
                let r = a.register_session_key(signer, key);
                if r.is_ok() {
                    self.replace(i, a);
                }
                r
            },
        }
    }

    /// Revokes the session key of the player owned by `player`.
    pub fn revoke_session_key(&mut self, player: &Identity, signer: &Identity) -> (r: Result<(), GameError>)
        requires
            old(self).wf(),
        ensures
            final(self).wf(),
            old(self).updated(*final(self), *player, r,
                spec_account_revoke(old(self).account_of(*player), *signer)),
    {
        match self.find(player) {
            None => Err(GameError::NotFound),
            Some(i) => {
                let mut a = self.accounts[i];
                let r = a.revoke_session_key(signer);
                if r.is_ok() {
                    self.replace(i, a);
                }
                r
            },
        }
    }

    /// Starts handing the player owned by `player` to the venue.
    pub fn request_delegate(&mut self, player: &Identity, signer: &Identity) -> (r: Result<(), GameError>)
        requires
            old(self).wf(),
        ensures
            final(self).wf(),
            old(self).updated(*final(self), *player, r,
                spec_request_delegate(old(self).account_of(*player), *signer)),
    {
        match self.find(player) {
            None => Err(GameError::NotFound),
            Some(i) => {
                let mut a = self.accounts[i];
                let r = a.request_delegate(signer);
                if r.is_ok() {
                    self.replace(i, a);
                }
                r
            },
        }
    }

    /// Records the venue's answer to a handoff.
    pub fn complete_delegate(&mut self, player: &Identity, accepted: bool) -> (r: Result<(), GameError>)
        requires
            old(self).wf(),
        ensures
            final(self).wf(),
            old(self).stepped(*final(self), *player, r,
                spec_complete_delegate(old(self).account_of(*player), accepted)),
    {
        match self.find(player) {
            None => Err(GameError::NotFound),
            Some(i) => {
                let mut a = self.accounts[i];
                let r = a.complete_delegate(accepted);
                self.replace(i, a);
                r
            },
        }
    }

    /// Records a checkpoint of the player owned by `player`.
    pub fn commit_player(&mut self, player: &Identity, pushed: bool) -> (r: Result<(), GameError>)
        requires
            old(self).wf(),
        ensures
            final(self).wf(),
            old(self).updated(*final(self), *player, r,
                spec_commit(old(self).account_of(*player), pushed)),
    {
        match self.find(player) {
            None => Err(GameError::NotFound),
            Some(i) => {
                let mut a = self.accounts[i];
                let r = a.commit_player(pushed);
                if r.is_ok() {
                    self.replace(i, a);
                }
                r
            },
        }
    }

    /// Starts returning the player owned by `player` to the durable store.
    pub fn request_undelegate(&mut self, player: &Identity) -> (r: Result<(), GameError>)
        requires
            old(self).wf(),
        ensures
            final(self).wf(),
            old(self).updated(*final(self), *player, r,
                spec_request_undelegate(old(self).account_of(*player))),
    {
        match self.find(player) {
            None => Err(GameError::NotFound),
            Some(i) => {
                let mut a = self.accounts[i];
                let r = a.request_undelegate();
                if r.is_ok() {
                    self.replace(i, a);
                }
                r
            },
        }
    }

    /// Records the venue's answer to a return.
    pub fn complete_undelegate(&mut self, player: &Identity, released: bool) -> (r: Result<(), GameError>)
        requires
            old(self).wf(),
        ensures
            final(self).wf(),
            old(self).stepped(*final(self), *player, r,
                spec_complete_undelegate(old(self).account_of(*player), released)),
    {
        match self.find(player) {
            None => Err(GameError::NotFound),
            Some(i) => {
                let mut a = self.accounts[i];
                let r = a.complete_undelegate(released);
                self.replace(i, a);
                r
            },
        }
    }
}

} // verus!
