//! Listing the fixtures of selected teams.
//!
//! The listing issues one statement per selected team, in the caller's
//! order, and each statement waits for the reply to the one before. The rules
//! of the listing are therefore a step function: [`list_fixtures_for`] starts
//! a listing, [`FixtureListing::resume`] takes the reply to the statement that
//! is out and gives the next step. Whoever owns the database session issues
//! the statements and hands the replies back.

use crate::records::{fixture_views, team_views, Fixture, FixtureModel, Team, TeamModel};
use crate::failures::{first_failure, lemma_first_failure_at};
use crate::rows::{fixture_row_views, FixtureRow, FixtureRowModel};
use crate::statements::{fixtures_statement, fixtures_statement_model, Statement, StatementModel};
use vstd::prelude::*;

verus! {

/// The reply of the database to one fixtures statement, as mathematical
/// values: the rows it returned, or the text of its failure.
pub type ReplyModel = Result<Seq<FixtureRowModel>, Seq<char>>;

/// The result of a listing, as mathematical values: the fixtures, or the text
/// of the failure.
pub type ResultModel = Result<Seq<FixtureModel>, Seq<char>>;

/// For each row, the failure for which it is rejected, if any.
pub open spec fn fixture_row_failures(rows: Seq<FixtureRowModel>) -> Seq<Option<Seq<char>>> {
    rows.map_values(|row: FixtureRowModel| row.failure())
}

/// The fixtures that the rows describe for the team `selected`, one per row
/// in the order of the rows. Meant for rows of which none is rejected.
pub open spec fn group_of_rows(rows: Seq<FixtureRowModel>, selected: TeamModel) -> Seq<
    FixtureModel,
> {
    rows.map_values(|row: FixtureRowModel| row.fixture(selected))
}

/// What the rows of a reply become for the team `selected`: its group of
/// fixtures, unless a row is rejected.
pub open spec fn fixtures_of_rows(rows: Seq<FixtureRowModel>, selected: TeamModel) -> ResultModel {
    match first_failure(fixture_row_failures(rows)) {
        Some(failure) => Err(failure),
        None => Ok(group_of_rows(rows, selected)),
    }
}

/// The reply of the database to one fixtures statement, as mathematical
/// values.
pub open spec fn fixtures_reply_view(reply: Result<Vec<FixtureRow>, String>) -> ReplyModel {
    match reply {
        Ok(rows) => Ok(fixture_row_views(rows@)),
        Err(failure) => Err(failure@),
    }
}

/// The result of a listing, as mathematical values.
pub open spec fn fixtures_result_view(result: Result<Vec<Fixture>, String>) -> ResultModel {
    match result {
        Ok(fixtures) => Ok(fixture_views(fixtures@)),
        Err(failure) => Err(failure@),
    }
}

/// Turns the rows of one reply into the fixtures of the team `selected`, one
/// per row in the order of the rows, each with a copy of the team attached. A
/// row that holds NULL fails the whole reply with the failure of the first
/// such row.
pub fn fixtures_from_rows(rows: Vec<FixtureRow>, selected: &Team) -> (result: Result<
    Vec<Fixture>,
    String,
>)
    ensures
        fixtures_result_view(result) == fixtures_of_rows(fixture_row_views(rows@), selected@),
{
    let ghost all = fixture_row_views(rows@);
    let mut fixtures: Vec<Fixture> = Vec::new();
    for row in it: rows
        invariant
            fixture_row_views(rows@) == all,
            fixture_row_views(it.seq()) == all,
            fixtures.len() == it.index(),
            forall|done: int|
                0 <= done < it.index() ==> (#[trigger] all[done]).failure() is None
                    && fixtures[done]@ == all[done].fixture(selected@),
    {
        match row.into_fixture(selected) {
            Ok(fixture) => {
                fixtures.push(fixture);
            },
            Err(failure) => {
                proof {
                    lemma_first_failure_at(fixture_row_failures(all), it.index() as int);
                }
                return Err(failure);
            },
        }
    }
    proof {
        assert(fixture_views(fixtures@) =~= group_of_rows(all, selected@));
    }
    Ok(fixtures)
}

/// A listing that has a statement out and waits for its reply.
#[derive(Debug)]
pub struct FixtureListing {
    /// The selected teams, in the caller's order.
    teams: Vec<Team>,
    /// The position of the team whose statement is out.
    cursor: usize,
    /// The fixtures of the teams before the cursor, group after group.
    gathered: Vec<Fixture>,
}

/// What a [`FixtureListing`] holds, as mathematical values.
pub ghost struct ListingModel {
    pub teams: Seq<TeamModel>,
    pub cursor: int,
    pub gathered: Seq<FixtureModel>,
}

impl View for FixtureListing {
    type V = ListingModel;

    closed spec fn view(&self) -> ListingModel {
        ListingModel {
            teams: team_views(self.teams@),
            cursor: self.cursor as int,
            gathered: fixture_views(self.gathered@),
        }
    }
}

/// Where a listing stands: a statement to issue, or the result.
#[derive(Debug)]
pub enum FixtureStep {
    /// Issue `statement`, and hand the reply to `listing`.
    Ask { listing: FixtureListing, statement: Statement },
    /// The listing is over with this result.
    Done(Result<Vec<Fixture>, String>),
}

/// What a [`FixtureStep`] holds, as mathematical values.
pub ghost enum StepModel {
    Ask { listing: ListingModel, statement: StatementModel },
    Done(ResultModel),
}

impl View for FixtureStep {
    type V = StepModel;

    open spec fn view(&self) -> StepModel {
        match self {
            FixtureStep::Ask { listing, statement } => StepModel::Ask {
                listing: listing@,
                statement: statement@,
            },
            FixtureStep::Done(result) => StepModel::Done(fixtures_result_view(*result)),
        }
    }
}

/// The step of a listing over `teams` once `gathered` holds the fixtures of
/// the first `cursor` teams: the fixtures statement bound to the short name
/// of the team at the cursor, or, past the last team, the gathered fixtures
/// as the result.
pub open spec fn step_at(
    teams: Seq<TeamModel>,
    cursor: int,
    gathered: Seq<FixtureModel>,
) -> StepModel {
    if 0 <= cursor < teams.len() {
        StepModel::Ask {
            listing: ListingModel { teams, cursor, gathered },
            statement: fixtures_statement_model(teams[cursor].short_name),
        }
    } else {
        StepModel::Done(Ok(gathered))
    }
}

/// The first step of a listing over `teams`.
pub open spec fn started(teams: Seq<TeamModel>) -> StepModel {
    step_at(teams, 0, Seq::empty())
}

/// The step after `reply` has come in for the statement that `listing` has
/// out. A failed statement, or a rejected row, ends the listing with that
/// failure and without the fixtures gathered so far. Otherwise the group of
/// the reply goes behind the gathered fixtures and the listing moves on to
/// the next team.
pub open spec fn resumed(listing: ListingModel, reply: ReplyModel) -> StepModel {
    match reply {
        Err(failure) => StepModel::Done(Err(failure)),
        Ok(rows) => match fixtures_of_rows(rows, listing.teams[listing.cursor]) {
            Err(failure) => StepModel::Done(Err(failure)),
            Ok(group) => step_at(listing.teams, listing.cursor + 1, listing.gathered + group),
        },
    }
}

/// The step at `cursor`, built from the parts of a listing.
fn step_from(teams: Vec<Team>, cursor: usize, gathered: Vec<Fixture>) -> (step: FixtureStep)
    requires
        cursor <= teams.len(),
    ensures
        step@ == step_at(team_views(teams@), cursor as int, fixture_views(gathered@)),
{
    if cursor < teams.len() {
        let statement = fixtures_statement(teams[cursor].short_name.clone());
        FixtureStep::Ask { listing: FixtureListing { teams, cursor, gathered }, statement }
    } else {
        FixtureStep::Done(Ok(gathered))
    }
}

/// Starts listing the timed fixtures of `selected_teams`.
///
/// With no team selected the listing is over at once, with no fixtures.
/// Otherwise the first step asks for the fixtures of the first team.
pub fn list_fixtures_for(selected_teams: Vec<Team>) -> (step: FixtureStep)
    ensures
        step@ == started(team_views(selected_teams@)),
{
    let gathered: Vec<Fixture> = Vec::new();
    proof {
        assert(fixture_views(gathered@) =~= Seq::<FixtureModel>::empty());
    }
    step_from(selected_teams, 0, gathered)
}

impl FixtureListing {
    #[verifier::type_invariant]
    spec fn statement_is_out(self) -> bool {
        self.cursor < self.teams.len()
    }

    /// Takes the reply to the statement that is out and gives the next step.
    pub fn resume(self, reply: Result<Vec<FixtureRow>, String>) -> (step: FixtureStep)
        ensures
            step@ == resumed(self@, fixtures_reply_view(reply)),
    {
        proof {
            use_type_invariant(&self);
        }
        let rows = match reply {
            Ok(rows) => rows,
            Err(failure) => {
                return FixtureStep::Done(Err(failure));
            },
        };
        let FixtureListing { teams, cursor, gathered } = self;
        let mut gathered = gathered;
        let mut group = match fixtures_from_rows(rows, &teams[cursor]) {
            Ok(group) => group,
            Err(failure) => {
                return FixtureStep::Done(Err(failure));
            },
        };
        let ghost before = gathered@;
        let ghost added = group@;
        gathered.append(&mut group);
        proof {
            assert(fixture_views(gathered@) =~= fixture_views(before) + fixture_views(added));
        }
        step_from(teams, cursor + 1, gathered)
    }
}

} // verus!
