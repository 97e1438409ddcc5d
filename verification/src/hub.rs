//! The session hub: a record of every round a game reports, kept by session
//! number.

use crate::constants::NO_OUTCOME;
use crate::types::Identity;
use vstd::prelude::*;

verus! {

/// Where a session stands.
#[derive(Clone, Copy, Debug, PartialEq, Eq, Structural)]
pub enum SessionStatus {
    Active,
    Finished,
    TimedOut,
}

/// One round as a game reported it.
#[derive(Clone, Copy, Debug, PartialEq, Eq)]
pub struct GameSession {
    pub game_id: Identity,
    pub session_id: u32,
    pub player1: Identity,
    pub player2: Identity,
    pub player1_points: i128,
    pub player2_points: i128,
    pub status: SessionStatus,
    pub player1_won: bool,
    pub result: u32,
}

/// Why the hub refused a report.
#[derive(Clone, Copy, Debug, PartialEq, Eq, Structural)]
pub enum HubError {
    /// No session has this number.
    SessionNotFound,
    /// The count of sessions has reached its limit.
    TooManySessions,
}

/// The state of the hub.
pub struct GameHubContract {
    admin: Identity,
    sessions: Vec<GameSession>,
    total_sessions: u32,
}

/// A session as it is opened: active, nobody has won, no outcome.
pub open spec fn opened_session(
    game_id: Identity,
    session_id: u32,
    player1: Identity,
    player2: Identity,
    player1_points: i128,
    player2_points: i128,
) -> GameSession {
    GameSession {
        game_id,
        session_id,
        player1,
        player2,
        player1_points,
        player2_points,
        status: SessionStatus::Active,
        player1_won: false,
        result: NO_OUTCOME,
    }
}

/// A session as it is closed: who won, how, what was staked and the outcome;
/// who played, and what the first player brought, stay.
pub open spec fn closed_session(
    session: GameSession,
    player1_won: bool,
    timed_out: bool,
    bet_amount: i128,
    result: u32,
) -> GameSession {
    GameSession {
        status: if timed_out {
            SessionStatus::TimedOut
        } else {
            SessionStatus::Finished
        },
        player1_won,
        player2_points: bet_amount,
        result,
        ..session
    }
}

/// The session with number `id` in a list, if there is one.
pub open spec fn session_in(sessions: Seq<GameSession>, id: u32) -> Option<GameSession>
    decreases sessions.len(),
{
    if sessions.len() == 0 {
        None
    } else if sessions.last().session_id == id {
        Some(sessions.last())
    } else {
        session_in(sessions.drop_last(), id)
    }
}

/// No two sessions share a number.
pub open spec fn numbered_once(sessions: Seq<GameSession>) -> bool {
    forall|i: int, j: int|
        0 <= i < j < sessions.len() ==> (#[trigger] sessions[i]).session_id != (#[trigger] sessions[j]).session_id
}

/// A session is found under its number.
proof fn session_at(sessions: Seq<GameSession>, i: int)
    requires
        numbered_once(sessions),
        0 <= i < sessions.len(),
    ensures
        session_in(sessions, sessions[i].session_id) == Some(sessions[i]),
    decreases sessions.len(),
{
    if i < sessions.len() - 1 {
        session_at(sessions.drop_last(), i);
    }
}

/// A number that no session carries finds nothing.
proof fn session_unknown(sessions: Seq<GameSession>, id: u32)
    requires
        forall|i: int| 0 <= i < sessions.len() ==> (#[trigger] sessions[i]).session_id != id,
    ensures
        session_in(sessions, id) is None,
    decreases sessions.len(),
{
    if sessions.len() > 0 {
        session_unknown(sessions.drop_last(), id);
    }
}

/// Rewriting one session changes what its number finds and nothing else.
proof fn session_after_update(sessions: Seq<GameSession>, i: int, entry: GameSession, id: u32)
    requires
        numbered_once(sessions),
        0 <= i < sessions.len(),
        entry.session_id == sessions[i].session_id,
    ensures
        session_in(sessions.update(i, entry), id) == if id == entry.session_id {
            Some(entry)
        } else {
            session_in(sessions, id)
        },
    decreases sessions.len(),
{
    let updated = sessions.update(i, entry);
    if i == sessions.len() - 1 {
        assert(updated.drop_last() =~= sessions.drop_last());
    } else {
        assert(updated.drop_last() =~= sessions.drop_last().update(i, entry));
        session_after_update(sessions.drop_last(), i, entry, id);
        assert(sessions.last().session_id != sessions[i].session_id);
    }
}

impl GameHubContract {
    /// The record holds each session number once.
    pub closed spec fn wf(&self) -> bool {
        numbered_once(self.sessions@)
    }

    /// Who administers the hub.
    pub closed spec fn admin(&self) -> Identity {
        self.admin
    }

    /// The session with this number, if one was started.
    pub closed spec fn session(&self, session_id: u32) -> Option<GameSession> {
        session_in(self.sessions@, session_id)
    }

    /// How many sessions were started.
    pub closed spec fn total(&self) -> int {
        self.total_sessions as int
    }

    /// Whether two states of the hub agree on every session but `session_id`.
    pub open spec fn same_sessions_but(&self, other: &GameHubContract, session_id: u32) -> bool {
        forall|id: u32| id != session_id ==> self.session(id) == other.session(id)
    }

    /// A hub with no session.
    pub fn new(admin: Identity) -> (hub: GameHubContract)
        ensures
            hub.wf(),
            hub.admin() == admin,
            hub.total() == 0,
            forall|id: u32| hub.session(id) is None,
    {
        GameHubContract { admin, sessions: Vec::new(), total_sessions: 0 }
    }

    /// A hub as it was written down, or the part of it that holds the sessions
    /// given: `None` where two of them share a number.
    pub fn restore(admin: Identity, sessions: Vec<GameSession>, total_sessions: u32) -> (hub: Option<
        GameHubContract,
    >)
        ensures
            hub is Some <==> numbered_once(sessions@),
            hub matches Some(h) ==> {
                &&& h.wf()
                &&& h.admin() == admin
                &&& h.total() == total_sessions
                &&& forall|id: u32| h.session(id) == session_in(sessions@, id)
            },
    {
        let mut j: usize = 0;
        while j < sessions.len()
            invariant
                j <= sessions@.len(),
                forall|a: int, b: int|
                    0 <= a < b < j ==> (#[trigger] sessions@[a]).session_id != (#[trigger] sessions@[b]).session_id,
            decreases sessions@.len() - j,
        {
            let mut i: usize = 0;
            while i < j
                invariant
                    i <= j < sessions@.len(),
                    forall|a: int|
                        0 <= a < i ==> (#[trigger] sessions@[a]).session_id != sessions@[j as int].session_id,
                decreases j - i,
            {
                if sessions[i].session_id == sessions[j].session_id {
                    return None;
                }
                i += 1;
            }
            j += 1;
        }
        Some(GameHubContract { admin, sessions, total_sessions })
    }

    /// Who administers the hub.
    pub fn get_admin(&self) -> (a: Identity)
        ensures
            a == self.admin(),
    {
        self.admin
    }

    /// Where the session with this number stands in the record.
    fn find(&self, session_id: u32) -> (found: Option<usize>)
        ensures
            match found {
                Some(i) => i < self.sessions@.len() && self.sessions@[i as int].session_id == session_id,
                None => forall|i: int|
                    0 <= i < self.sessions@.len() ==> (#[trigger] self.sessions@[i]).session_id != session_id,
            },
    {
        let mut i: usize = 0;
        while i < self.sessions.len()
            invariant
                i <= self.sessions@.len(),
                forall|k: int| 0 <= k < i ==> (#[trigger] self.sessions@[k]).session_id != session_id,
            decreases self.sessions@.len() - i,
        {
            if self.sessions[i].session_id == session_id {
                return Some(i);
            }
            i += 1;
        }
        None
    }

    /// Writes a session under its number, over what was there.
    fn put(&mut self, session: GameSession)
        requires
            old(self).wf(),
        ensures
            final(self).wf(),
            final(self).session(session.session_id) == Some(session),
            final(self).same_sessions_but(old(self), session.session_id),
            final(self).admin() == old(self).admin(),
            final(self).total() == old(self).total(),
    {
        let ghost before = self.sessions@;
        match self.find(session.session_id) {
            Some(i) => {
                proof {
                    assert forall|id: u32|
                        session_in(before.update(i as int, session), id) == if id == session.session_id {
                            Some(session)
                        } else {
                            session_in(before, id)
                        } by {
                        session_after_update(before, i as int, session, id);
                    }
                }
                self.sessions[i] = session;
                assert(self.sessions@ == before.update(i as int, session));
            },
            None => {
                proof {
                    assert(before.push(session).drop_last() =~= before);
                }
                self.sessions.push(session);
            },
        }
    }

    /// A game reports that a round has started.
    pub fn start_game(
        &mut self,
        game_id: Identity,
        session_id: u32,
        player1: Identity,
        player2: Identity,
        player1_points: i128,
        player2_points: i128,
    ) -> (r: Result<(), HubError>)
        requires
            old(self).wf(),
        ensures
            final(self).wf(),
            final(self).admin() == old(self).admin(),
            r is Ok <==> old(self).total() < u32::MAX,
            r is Ok ==> {
                &&& final(self).session(session_id) == Some(
                    opened_session(game_id, session_id, player1, player2, player1_points, player2_points),
                )
                &&& final(self).same_sessions_but(old(self), session_id)
                &&& final(self).total() == old(self).total() + 1
            },
            r matches Err(e) ==> e == HubError::TooManySessions && *final(self) == *old(self),
    {
        if self.total_sessions == u32::MAX {
            return Err(HubError::TooManySessions);
        }
        let session = GameSession {
            game_id,
            session_id,
            player1,
            player2,
            player1_points,
            player2_points,
            status: SessionStatus::Active,
            player1_won: false,
            result: NO_OUTCOME,
        };
        self.put(session);
        self.total_sessions = self.total_sessions + 1;
        Ok(())
    }

    /// A game reports how a round ended.
    pub fn end_game(
        &mut self,
        session_id: u32,
        player1_won: bool,
        timed_out: bool,
        bet_amount: i128,
        result: u32,
    ) -> (r: Result<(), HubError>)
        requires
            old(self).wf(),
        ensures
            final(self).wf(),
            final(self).admin() == old(self).admin(),
            final(self).total() == old(self).total(),
            r is Ok <==> old(self).session(session_id) is Some,
            r is Ok ==> {
                &&& final(self).session(session_id) == Some(
                    closed_session(
                        old(self).session(session_id).unwrap(),
                        player1_won,
                        timed_out,
                        bet_amount,
                        result,
                    ),
                )
                &&& final(self).same_sessions_but(old(self), session_id)
            },
            r matches Err(e) ==> e == HubError::SessionNotFound && *final(self) == *old(self),
    {
        let mut session: GameSession = match self.get_session(session_id) {
            Some(s) => s,
            None => { return Err(HubError::SessionNotFound); },
        };
        session.status = if timed_out {
            SessionStatus::TimedOut
        } else {
            SessionStatus::Finished
        };
        session.player1_won = player1_won;
        session.player2_points = bet_amount;
        session.result = result;
        self.put(session);
        Ok(())
    }

    /// The session with this number.
    pub fn get_session(&self, session_id: u32) -> (s: Option<GameSession>)
        requires
            self.wf(),
        ensures
            s == self.session(session_id),
            s matches Some(found) ==> found.session_id == session_id,
    {
        match self.find(session_id) {
            Some(i) => {
                proof {
                    session_at(self.sessions@, i as int);
                }
                Some(self.sessions[i])
            },
            None => {
                proof {
                    session_unknown(self.sessions@, session_id);
                }
                None
            },
        }
    }

    /// How many sessions were started.
    pub fn get_total_sessions(&self) -> (n: u32)
        ensures
            n == self.total(),
    {
        self.total_sessions
    }
}

} // verus!
