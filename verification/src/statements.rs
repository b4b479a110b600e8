//! The two statements that the bridge issues, and what the database answers
//! to them on given tables.

use crate::rows::{FixtureRowModel, TeamRowModel};
use vstd::prelude::*;

verus! {

/// The statement that reads every team. It takes no parameter, filters
/// nothing and asks for no order.
pub const TEAMS_STATEMENT: &'static str =
    "SELECT id, name, short_name, tla, crest, area, league, club_colors FROM teams";

/// The statement that reads the fixtures of one team. Its one parameter is
/// the team's short name.
pub const FIXTURES_STATEMENT: &'static str =
    "SELECT id, competition, date, home_team, away_team, status FROM fixtures \
     WHERE (home_team = $1 OR away_team = $1) AND status = 'TIMED' ORDER BY date ASC";

/// A statement as it goes to the database: its text, and the values bound to
/// its parameters `$1`, `$2` and so on, in that order.
#[derive(Debug, Clone, PartialEq, Eq)]
pub struct Statement {
    pub text: &'static str,
    pub parameters: Vec<String>,
}

/// What a [`Statement`] holds, as mathematical values.
pub ghost struct StatementModel {
    pub text: Seq<char>,
    pub parameters: Seq<Seq<char>>,
}

impl View for Statement {
    type V = StatementModel;

    open spec fn view(&self) -> StatementModel {
        StatementModel {
            text: self.text@,
            parameters: self.parameters@.map_values(|parameter: String| parameter@),
        }
    }
}

/// The teams statement, which has no parameter.
pub open spec fn teams_statement_model() -> StatementModel {
    StatementModel { text: TEAMS_STATEMENT@, parameters: Seq::empty() }
}

/// The fixtures statement with `short_name` bound to its one parameter.
pub open spec fn fixtures_statement_model(short_name: Seq<char>) -> StatementModel {
    StatementModel { text: FIXTURES_STATEMENT@, parameters: seq![short_name] }
}

/// The statement that lists the teams.
pub fn teams_statement() -> (statement: Statement)
    ensures
        statement@ == teams_statement_model(),
{
    let statement = Statement { text: TEAMS_STATEMENT, parameters: Vec::new() };
    proof {
        assert(statement@.parameters =~= Seq::empty());
    }
    statement
}

/// The statement that lists the timed fixtures of the team with the short
/// name `short_name`.
pub fn fixtures_statement(short_name: String) -> (statement: Statement)
    ensures
        statement@ == fixtures_statement_model(short_name@),
{
    let mut parameters: Vec<String> = Vec::new();
    parameters.push(short_name);
    let statement = Statement { text: FIXTURES_STATEMENT, parameters };
    proof {
        assert(statement@.parameters =~= seq![short_name@]);
    }
    statement
}

/// The status of a match with a confirmed kick-off that is still to be
/// played.
pub open spec fn timed() -> Seq<char> {
    "TIMED"@
}

/// Whether the fixtures statement, bound to `short_name`, selects `row`: the
/// team is one of the two sides, and the match is timed. A NULL equals
/// nothing.
pub open spec fn selects(row: FixtureRowModel, short_name: Seq<char>) -> bool {
    &&& row.home_team == Some(short_name) || row.away_team == Some(short_name)
    &&& row.status == Some(timed())
}

/// The rows of `table` that the fixtures statement selects when bound to
/// `short_name`, in the order of the table.
pub open spec fn selected(table: Seq<FixtureRowModel>, short_name: Seq<char>) -> Seq<
    FixtureRowModel,
> {
    table.filter(|row: FixtureRowModel| selects(row, short_name))
}

/// Whether the dates of `rows` never go down from one row to a later one,
/// under the order `precedes` by which the database compares dates. Rows
/// without a date are left out of the comparison.
pub open spec fn ordered_by_date(
    rows: Seq<FixtureRowModel>,
    precedes: spec_fn(Seq<char>, Seq<char>) -> bool,
) -> bool {
    forall|earlier: int, later: int|
        0 <= earlier <= later < rows.len() && rows[earlier].date is Some && rows[later].date
            is Some ==> precedes(rows[earlier].date->0, rows[later].date->0)
}

/// Whether `rows` is a reply that the database may give to the teams
/// statement on `table`: every row of the table once, in any order.
pub open spec fn answers_teams_statement(
    table: Seq<TeamRowModel>,
    rows: Seq<TeamRowModel>,
) -> bool {
    rows.to_multiset() == table.to_multiset()
}

/// Whether `rows` is a reply that the database may give to the fixtures
/// statement bound to `short_name` on `table`: every selected row once, by
/// ascending date under the database's order `precedes`.
pub open spec fn answers_fixtures_statement(
    table: Seq<FixtureRowModel>,
    short_name: Seq<char>,
    precedes: spec_fn(Seq<char>, Seq<char>) -> bool,
    rows: Seq<FixtureRowModel>,
) -> bool {
    &&& rows.to_multiset() == selected(table, short_name).to_multiset()
    &&& ordered_by_date(rows, precedes)
}

} // verus!
