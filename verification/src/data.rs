//! The two inputs that every engine renders: a big table of numbers and a
//! list of teams with their scores.
use vstd::prelude::*;

verus! {

/// The number of rows of the default table, and of cells in each row.
pub const TABLE_SIZE: usize = 100;

/// A table of numbers, row by row.
#[derive(Debug, Clone, PartialEq, Hash)]
pub struct BigTable {
    pub table: Vec<Vec<usize>>,
}

impl View for BigTable {
    type V = Seq<Seq<usize>>;

    open spec fn view(&self) -> Seq<Seq<usize>> {
        self.table@.map_values(|row: Vec<usize>| row@)
    }
}

/// One row of the default table: the numbers `0, 1, ..., TABLE_SIZE - 1`.
pub open spec fn default_row() -> Seq<usize> {
    Seq::new(TABLE_SIZE as nat, |i: int| i as usize)
}

/// The default table: `TABLE_SIZE` copies of `default_row()`.
pub open spec fn default_table() -> Seq<Seq<usize>> {
    Seq::new(TABLE_SIZE as nat, |i: int| default_row())
}

impl Default for BigTable {
    fn default() -> (t: Self)
        ensures
            t@ == default_table(),
    {
        let mut table: Vec<Vec<usize>> = Vec::with_capacity(TABLE_SIZE);
        for r in 0..TABLE_SIZE
            invariant
                table@.len() == r,
                forall|k: int| 0 <= k < r ==> #[trigger] table@[k]@ == default_row(),
        {
            let mut inner: Vec<usize> = Vec::with_capacity(TABLE_SIZE);
            for i in 0..TABLE_SIZE
                invariant
                    inner@ == default_row().take(i as int),
            {
                inner.push(i);
                assert(inner@ == default_row().take(i + 1));
            }
            assert(inner@ == default_row());
            table.push(inner);
        }
        let t = BigTable { table };
        assert(t@ == default_table());
        t
    }
}

/// A team: its name and its score.
#[derive(Debug, Clone, PartialEq, Hash)]
pub struct Team {
    pub name: String,
    pub score: u8,
}

impl View for Team {
    type V = (Seq<char>, u8);

    open spec fn view(&self) -> (Seq<char>, u8) {
        (self.name@, self.score)
    }
}

/// A season: its year and its teams, the champion first.
#[derive(Debug, Clone, PartialEq, Hash)]
pub struct Teams {
    pub year: u16,
    pub teams: Vec<Team>,
}

impl View for Teams {
    type V = (u16, Seq<(Seq<char>, u8)>);

    open spec fn view(&self) -> (u16, Seq<(Seq<char>, u8)>) {
        (self.year, self.teams@.map_values(|t: Team| t@))
    }
}

/// The default season: 2015, with four teams.
pub open spec fn default_teams() -> (u16, Seq<(Seq<char>, u8)>) {
    (
        2015,
        seq![
            ("Jiangsu"@, 43u8),
            ("Beijing"@, 27u8),
            ("Guangzhou"@, 22u8),
            ("Shandong"@, 12u8),
        ],
    )
}

impl Default for Teams {
    fn default() -> (t: Self)
        ensures
            t@ == default_teams(),
    {
        let teams = vec![
            Team { name: "Jiangsu".to_owned(), score: 43 },
            Team { name: "Beijing".to_owned(), score: 27 },
            Team { name: "Guangzhou".to_owned(), score: 22 },
            Team { name: "Shandong".to_owned(), score: 12 },
        ];
        let t = Teams { year: 2015, teams };
        assert(t@.1 == default_teams().1);
        t
    }
}

} // verus!
