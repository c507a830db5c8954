use vstd::prelude::*;

use crate::roster::{supported_size, BuilderCount, NumeroJugadores, Table};
use crate::status::{status_message, status_text};

verus! {

/// What a lobby holds: the size it waits for, the winning score and the
/// admitted players' names in admission order.
pub struct LobbyView {
    pub target: nat,
    pub hasta: u8,
    pub players: Seq<Seq<char>>,
}

/// Why the lobby refused a request.
#[derive(Clone, Copy, PartialEq, Eq, Structural, Debug)]
pub enum LobbyError {
    /// An admission was asked for while the roster was already full.
    TooManyPlayers,
    /// The roster was finalized at a size other than the one it waits for.
    Unbuildable,
}

/// The reply of an admission, with the message as a sequence of bytes.
pub open spec fn reply_view(r: Result<Vec<u8>, LobbyError>) -> Result<Seq<u8>, LobbyError> {
    match r {
        Ok(m) => Ok(m@),
        Err(e) => Err(e),
    }
}

/// One admission: below the target the name is appended and every admitted
/// player is told the new count; at the target it is refused and nothing changes.
pub open spec fn join_step(v: LobbyView, name: Seq<char>) -> (LobbyView, Result<
    Seq<u8>,
    LobbyError,
>) {
    if v.players.len() < v.target {
        (
            LobbyView { target: v.target, hasta: v.hasta, players: v.players.push(name) },
            Ok(status_text(v.players.len() + 1, v.target)),
        )
    } else {
        (v, Err(LobbyError::TooManyPlayers))
    }
}

/// The lobby after admitting `names` one after another.
pub open spec fn join_all(v: LobbyView, names: Seq<Seq<char>>) -> LobbyView
    decreases names.len(),
{
    if names.len() == 0 {
        v
    } else {
        join_step(join_all(v, names.drop_last()), names.last()).0
    }
}

/// The replies to admitting `names` one after another, in order.
pub open spec fn join_replies(v: LobbyView, names: Seq<Seq<char>>) -> Seq<
    Result<Seq<u8>, LobbyError>,
>
    decreases names.len(),
{
    if names.len() == 0 {
        Seq::empty()
    } else {
        join_replies(v, names.drop_last()).push(
            join_step(join_all(v, names.drop_last()), names.last()).1,
        )
    }
}

/// Finalizing: the roster, when it holds exactly the target number of players.
pub open spec fn finalize_spec(v: LobbyView) -> Result<Seq<Seq<char>>, LobbyError> {
    if v.players.len() == v.target {
        Ok(v.players)
    } else {
        Err(LobbyError::Unbuildable)
    }
}

/// Names joined one after another into an empty lobby keep their order: the
/// roster is the names themselves up to the target, and never grows past it.
pub proof fn law_join_order(v: LobbyView, names: Seq<Seq<char>>)
    requires
        v.players.len() == 0,
    ensures
        join_all(v, names).target == v.target,
        join_all(v, names).hasta == v.hasta,
        names.len() <= v.target ==> join_all(v, names).players == names,
        names.len() > v.target ==> join_all(v, names).players == names.take(v.target as int),
    decreases names.len(),
{
    if names.len() > 0 {
        let prefix = names.drop_last();
        law_join_order(v, prefix);
        assert(prefix.push(names.last()) =~= names);
        if prefix.len() > v.target {
            assert(prefix.take(v.target as int) =~= names.take(v.target as int));
        } else if prefix.len() == v.target {
            assert(prefix =~= names.take(v.target as int));
        }
    }
}

/// Each join is answered with the count at that moment: the i-th name (from
/// zero) is told `i+1/target` while there is room, and every later one is refused.
pub proof fn law_join_replies(v: LobbyView, names: Seq<Seq<char>>)
    requires
        v.players.len() == 0,
    ensures
        join_replies(v, names).len() == names.len(),
        forall|i: int|
            0 <= i < names.len() ==> #[trigger] join_replies(v, names)[i] == (if i < v.target {
                Ok::<Seq<u8>, LobbyError>(status_text((i + 1) as nat, v.target))
            } else {
                Err::<Seq<u8>, LobbyError>(LobbyError::TooManyPlayers)
            }),
    decreases names.len(),
{
    if names.len() > 0 {
        let prefix = names.drop_last();
        law_join_replies(v, prefix);
        law_join_order(v, prefix);
        assert forall|i: int| 0 <= i < prefix.len() implies #[trigger] join_replies(v, names)[i]
            == join_replies(v, prefix)[i] by {}
    }
}

/// A roster filled by n joins, n at most the target, finalizes exactly when n
/// is the target; the table then has 2, 4 or 6 players, in joining order.
pub proof fn law_finalize_after_joins(v: LobbyView, names: Seq<Seq<char>>)
    requires
        v.players.len() == 0,
        supported_size(v.target),
        names.len() <= v.target,
    ensures
        finalize_spec(join_all(v, names)) is Ok <==> names.len() == v.target,
        finalize_spec(join_all(v, names)) is Ok ==> supported_size(names.len())
            && finalize_spec(join_all(v, names)) == Ok::<Seq<Seq<char>>, LobbyError>(names),
{
    law_join_order(v, names);
}

/// A lobby that is full refuses a join and keeps its roster as it was.
pub proof fn law_full_refuses(v: LobbyView, name: Seq<char>)
    requires
        v.players.len() == v.target,
    ensures
        join_step(v, name) == (v, Err::<Seq<u8>, LobbyError>(LobbyError::TooManyPlayers)),
{
}

/// A session being assembled: players are admitted one at a time up to the target.
pub struct Lobby {
    target: NumeroJugadores,
    builder: BuilderCount,
}

impl View for Lobby {
    type V = LobbyView;

    closed spec fn view(&self) -> LobbyView {
        LobbyView {
            target: self.target.spec_count(),
            hasta: self.builder.spec_hasta(),
            players: self.builder.spec_players(),
        }
    }
}

impl Lobby {
    /// The roster never holds more players than the target.
    pub closed spec fn wf(&self) -> bool {
        &&& self.builder.wf()
        &&& self.builder.stage() <= self.target.spec_count()
    }

    /// An empty lobby waiting for `target` players, for a game up to `hasta` points.
    pub fn new(target: NumeroJugadores, hasta: u8) -> (r: Self)
        ensures
            r.wf(),
            r@ == (LobbyView { target: target.spec_count(), hasta, players: Seq::empty() }),
            supported_size(r@.target),
    {
        Lobby { target, builder: BuilderCount::new(hasta) }
    }

    /// The size the lobby waits for.
    pub fn target(&self) -> (r: NumeroJugadores)
        ensures
            r.spec_count() == self@.target,
    {
        self.target
    }

    /// The number of admitted players.
    pub fn admitted(&self) -> (r: usize)
        requires
            self.wf(),
        ensures
            r as nat == self@.players.len(),
    {
        self.builder.len()
    }

    /// Whether the roster has reached the target.
    pub fn is_full(&self) -> (r: bool)
        requires
            self.wf(),
        ensures
            r == (self@.players.len() == self@.target),
    {
        self.builder.len() == self.target.count() as usize
    }

    /// Admits a player named `name`. On success returns the status message
    /// `<admitted>/<target>` for every admitted player, the newest included.
    pub fn add_player(&mut self, name: &str) -> (r: Result<Vec<u8>, LobbyError>)
        requires
            old(self).wf(),
        ensures
            final(self).wf(),
            (final(self)@, reply_view(r)) == join_step(old(self)@, name@),
    {
        let count = self.builder.len();
        let total = self.target.count();
        if count >= total as usize {
            return Err(LobbyError::TooManyPlayers);
        }
        let mut builder = BuilderCount::new(0);
        std::mem::swap(&mut self.builder, &mut builder);
        self.builder = builder.add_player(name);
        Ok(status_message((count + 1) as u64, total as u64))
    }

    /// Turns a full roster into a table, keeping the admission order.
    pub fn finalize(self) -> (r: Result<Table, LobbyError>)
        requires
            self.wf(),
        ensures
            r is Ok <==> finalize_spec(self@) is Ok,
            r matches Ok(t) ==> (finalize_spec(self@) == Ok::<Seq<Seq<char>>, LobbyError>(
                t.spec_players(),
            ) && t.spec_hasta() == self@.hasta),
            r matches Err(e) ==> finalize_spec(self@) == Err::<Seq<Seq<char>>, LobbyError>(e),
    {
        if self.builder.len() != self.target.count() as usize {
            return Err(LobbyError::Unbuildable);
        }
        Ok(self.builder.build())
    }
}

} // verus!
