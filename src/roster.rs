use vstd::prelude::*;

verus! {

/// Table sizes the game can be played with: heads-up, two teams or three teams.
pub open spec fn supported_size(n: nat) -> bool {
    n == 2 || n == 4 || n == 6
}

/// The number of players a session waits for before it starts.
#[derive(Clone, Copy, PartialEq, Eq, Structural, Debug)]
pub enum NumeroJugadores {
    Dos,
    Cuatro,
    Seis,
}

impl NumeroJugadores {
    pub open spec fn spec_count(self) -> nat {
        match self {
            NumeroJugadores::Dos => 2,
            NumeroJugadores::Cuatro => 4,
            NumeroJugadores::Seis => 6,
        }
    }

    /// The player count as a number.
    pub fn count(self) -> (r: u8)
        ensures
            r as nat == self.spec_count(),
            supported_size(r as nat),
    {
        match self {
            NumeroJugadores::Dos => 2,
            NumeroJugadores::Cuatro => 4,
            NumeroJugadores::Seis => 6,
        }
    }
}

/// The names of a sequence of players, as text.
pub open spec fn names_of(players: Seq<String>) -> Seq<Seq<char>> {
    players.map_values(|s: String| s@)
}

/// Players gathered so far, in admission order, and the score that wins the game.
pub struct TableBuilder {
    hasta: u8,
    players: Vec<String>,
}

impl TableBuilder {
    pub closed spec fn spec_hasta(&self) -> u8 {
        self.hasta
    }

    pub closed spec fn spec_players(&self) -> Seq<Seq<char>> {
        names_of(self.players@)
    }

    /// An empty builder for a game played up to `hasta` points.
    pub fn new(hasta: u8) -> (r: Self)
        ensures
            r.spec_hasta() == hasta,
            r.spec_players() == Seq::<Seq<char>>::empty(),
    {
        let r = TableBuilder { hasta, players: Vec::new() };
        assert(r.spec_players() =~= Seq::<Seq<char>>::empty());
        r
    }

    fn push_player(self, name: &str) -> (r: Self)
        ensures
            r.spec_hasta() == self.spec_hasta(),
            r.spec_players() == self.spec_players().push(name@),
    {
        let mut players = self.players;
        let ghost before = players@;
        players.push(name.to_owned());
        let r = TableBuilder { hasta: self.hasta, players };
        assert(r.spec_players() =~= names_of(before).push(name@));
        r
    }

    fn player_count(&self) -> (r: usize)
        ensures
            r as nat == self.spec_players().len(),
    {
        self.players.len()
    }

    fn into_table(self) -> (t: Table)
        requires
            supported_size(self.spec_players().len()),
        ensures
            t.spec_hasta() == self.spec_hasta(),
            t.spec_players() == self.spec_players(),
    {
        Table { hasta: self.hasta, players: self.players }
    }
}

/// A roster that is complete: the session's players, in admission order.
pub struct Table {
    hasta: u8,
    players: Vec<String>,
}

impl Table {
    pub closed spec fn spec_hasta(&self) -> u8 {
        self.hasta
    }

    pub closed spec fn spec_players(&self) -> Seq<Seq<char>> {
        names_of(self.players@)
    }

    /// The score that wins the game.
    pub fn hasta(&self) -> (r: u8)
        ensures
            r == self.spec_hasta(),
    {
        self.hasta
    }

    /// The players' names, in admission order.
    pub fn players(&self) -> (r: &[String])
        ensures
            names_of(r@) == self.spec_players(),
    {
        self.players.as_slice()
    }
}

/// A roster under construction, one variant per number of admitted players.
pub enum BuilderCount {
    Cero(TableBuilder),
    Uno(TableBuilder),
    Dos(TableBuilder),
    Tres(TableBuilder),
    Cuatro(TableBuilder),
    Cinco(TableBuilder),
    Seis(TableBuilder),
}

impl BuilderCount {
    /// The number of players that the variant stands for.
    pub open spec fn stage(&self) -> nat {
        match self {
            BuilderCount::Cero(_) => 0,
            BuilderCount::Uno(_) => 1,
            BuilderCount::Dos(_) => 2,
            BuilderCount::Tres(_) => 3,
            BuilderCount::Cuatro(_) => 4,
            BuilderCount::Cinco(_) => 5,
            BuilderCount::Seis(_) => 6,
        }
    }

    pub open spec fn inner(&self) -> TableBuilder {
        match self {
            BuilderCount::Cero(b) => *b,
            BuilderCount::Uno(b) => *b,
            BuilderCount::Dos(b) => *b,
            BuilderCount::Tres(b) => *b,
            BuilderCount::Cuatro(b) => *b,
            BuilderCount::Cinco(b) => *b,
            BuilderCount::Seis(b) => *b,
        }
    }

    /// The admitted players' names, in admission order.
    pub open spec fn spec_players(&self) -> Seq<Seq<char>> {
        self.inner().spec_players()
    }

    pub open spec fn spec_hasta(&self) -> u8 {
        self.inner().spec_hasta()
    }

    /// The variant agrees with the number of players held.
    pub open spec fn wf(&self) -> bool {
        self.spec_players().len() == self.stage()
    }

    /// An empty roster for a game played up to `hasta` points.
    pub fn new(hasta: u8) -> (r: Self)
        ensures
            r.wf(),
            r.stage() == 0,
            r.spec_hasta() == hasta,
            r.spec_players() == Seq::<Seq<char>>::empty(),
    {
        BuilderCount::Cero(TableBuilder::new(hasta))
    }

    /// Admits one more player, advancing to the next variant.
    pub fn add_player(self, str: &str) -> (r: Self)
        requires
            self.wf(),
            self.stage() < 6,
        ensures
            r.wf(),
            r.stage() == self.stage() + 1,
            r.spec_players() == self.spec_players().push(str@),
            r.spec_hasta() == self.spec_hasta(),
    {
        match self {
            BuilderCount::Cero(b) => BuilderCount::Uno(b.push_player(str)),
            BuilderCount::Uno(b) => BuilderCount::Dos(b.push_player(str)),
            BuilderCount::Dos(b) => BuilderCount::Tres(b.push_player(str)),
            BuilderCount::Tres(b) => BuilderCount::Cuatro(b.push_player(str)),
            BuilderCount::Cuatro(b) => BuilderCount::Cinco(b.push_player(str)),
            BuilderCount::Cinco(b) => BuilderCount::Seis(b.push_player(str)),
            // excluded by the precondition: a full roster takes no one else
            BuilderCount::Seis(b) => BuilderCount::Seis(b),
        }
    }

    /// The number of admitted players.
    pub fn len(&self) -> (r: usize)
        requires
            self.wf(),
        ensures
            r as nat == self.stage(),
    {
        match self {
            BuilderCount::Cero(b) => b.player_count(),
            BuilderCount::Uno(b) => b.player_count(),
            BuilderCount::Dos(b) => b.player_count(),
            BuilderCount::Tres(b) => b.player_count(),
            BuilderCount::Cuatro(b) => b.player_count(),
            BuilderCount::Cinco(b) => b.player_count(),
            BuilderCount::Seis(b) => b.player_count(),
        }
    }

    /// Whether the roster may be built at its current size.
    pub fn can_build(&self) -> (r: bool)
        ensures
            r == supported_size(self.stage()),
    {
        match self {
            BuilderCount::Dos(_) | BuilderCount::Cuatro(_) | BuilderCount::Seis(_) => true,
            _ => false,
        }
    }

    /// Turns a roster of two, four or six players into a table.
    pub fn build(self) -> (t: Table)
        requires
            self.wf(),
            supported_size(self.stage()),
        ensures
            t.spec_players() == self.spec_players(),
            t.spec_hasta() == self.spec_hasta(),
    {
        match self {
            BuilderCount::Dos(b) | BuilderCount::Cuatro(b) | BuilderCount::Seis(b) => b.into_table(),
            // excluded by the precondition: these sizes cannot be built
            BuilderCount::Cero(b) | BuilderCount::Uno(b) | BuilderCount::Tres(b)
            | BuilderCount::Cinco(b) => b.into_table(),
        }
    }
}

} // verus!
