//! Rows as the database returns them, and the step that turns a row into a
//! record.
//!
//! A column of a returned row may hold NULL; the records of the bridge hold a
//! value in every field. A row that holds NULL is therefore rejected, with a
//! failure that names its first such column in the statement's order.

use crate::records::{Fixture, FixtureModel, Team, TeamModel};
use vstd::prelude::*;
use vstd::string::*;

verus! {

/// The text of the failure reported for a row that holds NULL in `column`.
pub open spec fn null_failure(column: Seq<char>) -> Seq<char> {
    "unexpected NULL in column "@ + column
}

/// The value of an optional text, as mathematical values.
pub open spec fn text_view(text: Option<String>) -> Option<Seq<char>> {
    match text {
        Some(value) => Some(value@),
        None => None,
    }
}

/// The value of an optional integer, as mathematical values.
pub open spec fn integer_view(integer: Option<i64>) -> Option<int> {
    match integer {
        Some(value) => Some(value as int),
        None => None,
    }
}

/// Builds the failure text for a NULL in `column`.
fn null_failure_text(column: &str) -> (text: String)
    ensures
        text@ == null_failure(column@),
{
    let mut text = String::from_str("unexpected NULL in column ");
    text.append(column);
    text
}

/// The text held in `column`, or the failure for a NULL there.
fn required_text(value: Option<String>, column: &str) -> (result: Result<String, String>)
    ensures
        match result {
            Ok(text) => text_view(value) == Some(text@),
            Err(failure) => value is None && failure@ == null_failure(column@),
        },
{
    match value {
        Some(text) => Ok(text),
        None => Err(null_failure_text(column)),
    }
}

/// The integer held in `column`, or the failure for a NULL there.
fn required_integer(value: Option<i64>, column: &str) -> (result: Result<i64, String>)
    ensures
        match result {
            Ok(integer) => value == Some(integer),
            Err(failure) => value is None && failure@ == null_failure(column@),
        },
{
    match value {
        Some(integer) => Ok(integer),
        None => Err(null_failure_text(column)),
    }
}

/// One row of the reply to the teams statement, column by column in the
/// statement's order. `None` stands for NULL.
#[derive(Debug, Clone, PartialEq, Eq)]
pub struct TeamRow {
    pub id: Option<i64>,
    pub name: Option<String>,
    pub short_name: Option<String>,
    pub tla: Option<String>,
    pub crest: Option<String>,
    pub area: Option<String>,
    pub league: Option<String>,
    pub club_colors: Option<String>,
}

/// What a [`TeamRow`] holds, as mathematical values.
pub ghost struct TeamRowModel {
    pub id: Option<int>,
    pub name: Option<Seq<char>>,
    pub short_name: Option<Seq<char>>,
    pub tla: Option<Seq<char>>,
    pub crest: Option<Seq<char>>,
    pub area: Option<Seq<char>>,
    pub league: Option<Seq<char>>,
    pub club_colors: Option<Seq<char>>,
}

impl View for TeamRow {
    type V = TeamRowModel;

    open spec fn view(&self) -> TeamRowModel {
        TeamRowModel {
            id: integer_view(self.id),
            name: text_view(self.name),
            short_name: text_view(self.short_name),
            tla: text_view(self.tla),
            crest: text_view(self.crest),
            area: text_view(self.area),
            league: text_view(self.league),
            club_colors: text_view(self.club_colors),
        }
    }
}

impl TeamRowModel {
    /// The name of the first column, in the statement's order, that holds
    /// NULL; `None` where every column holds a value.
    pub open spec fn null_column(self) -> Option<Seq<char>> {
        if self.id is None {
            Some("id"@)
        } else if self.name is None {
            Some("name"@)
        } else if self.short_name is None {
            Some("short_name"@)
        } else if self.tla is None {
            Some("tla"@)
        } else if self.crest is None {
            Some("crest"@)
        } else if self.area is None {
            Some("area"@)
        } else if self.league is None {
            Some("league"@)
        } else if self.club_colors is None {
            Some("club_colors"@)
        } else {
            None
        }
    }

    /// The failure for which the row is rejected: that of its first column
    /// that holds NULL. `None` where the row is accepted.
    pub open spec fn failure(self) -> Option<Seq<char>> {
        match self.null_column() {
            Some(column) => Some(null_failure(column)),
            None => None,
        }
    }

    /// The team that the row describes: every field taken from the column of
    /// the same name. Meant for rows that are accepted.
    pub open spec fn team(self) -> TeamModel
        recommends
            self.failure() is None,
    {
        TeamModel {
            id: self.id->0,
            name: self.name->0,
            short_name: self.short_name->0,
            tla: self.tla->0,
            crest: self.crest->0,
            area: self.area->0,
            league: self.league->0,
            club_colors: self.club_colors->0,
        }
    }
}

impl TeamRow {
    /// Turns the row into a team, field by field from the column of the same
    /// name. A row that holds NULL is rejected with its failure.
    pub fn into_team(self) -> (result: Result<Team, String>)
        ensures
            match result {
                Ok(team) => self@.failure() is None && team@ == self@.team(),
                Err(failure) => self@.failure() == Some(failure@),
            },
    {
        let id = required_integer(self.id, "id")?;
        let name = required_text(self.name, "name")?;
        let short_name = required_text(self.short_name, "short_name")?;
        let tla = required_text(self.tla, "tla")?;
        let crest = required_text(self.crest, "crest")?;
        let area = required_text(self.area, "area")?;
        let league = required_text(self.league, "league")?;
        let club_colors = required_text(self.club_colors, "club_colors")?;
        Ok(Team { id, name, short_name, tla, crest, area, league, club_colors })
    }
}

/// One row of the reply to the fixtures statement, column by column in the
/// statement's order. `None` stands for NULL.
#[derive(Debug, Clone, PartialEq, Eq)]
pub struct FixtureRow {
    pub id: Option<i64>,
    pub competition: Option<String>,
    pub date: Option<String>,
    pub home_team: Option<String>,
    pub away_team: Option<String>,
    pub status: Option<String>,
}

/// What a [`FixtureRow`] holds, as mathematical values.
pub ghost struct FixtureRowModel {
    pub id: Option<int>,
    pub competition: Option<Seq<char>>,
    pub date: Option<Seq<char>>,
    pub home_team: Option<Seq<char>>,
    pub away_team: Option<Seq<char>>,
    pub status: Option<Seq<char>>,
}

impl View for FixtureRow {
    type V = FixtureRowModel;

    open spec fn view(&self) -> FixtureRowModel {
        FixtureRowModel {
            id: integer_view(self.id),
            competition: text_view(self.competition),
            date: text_view(self.date),
            home_team: text_view(self.home_team),
            away_team: text_view(self.away_team),
            status: text_view(self.status),
        }
    }
}

impl FixtureRowModel {
    /// The name of the first column, in the statement's order, that holds
    /// NULL; `None` where every column holds a value.
    pub open spec fn null_column(self) -> Option<Seq<char>> {
        if self.id is None {
            Some("id"@)
        } else if self.competition is None {
            Some("competition"@)
        } else if self.date is None {
            Some("date"@)
        } else if self.home_team is None {
            Some("home_team"@)
        } else if self.away_team is None {
            Some("away_team"@)
        } else if self.status is None {
            Some("status"@)
        } else {
            None
        }
    }

    /// The failure for which the row is rejected: that of its first column
    /// that holds NULL. `None` where the row is accepted.
    pub open spec fn failure(self) -> Option<Seq<char>> {
        match self.null_column() {
            Some(column) => Some(null_failure(column)),
            None => None,
        }
    }

    /// The fixture that the row describes for the team `selected`: the
    /// match's fields taken from the columns of the same names, the team
    /// attached, and the home flag set where the team's short name is the
    /// home side. Meant for rows that are accepted.
    pub open spec fn fixture(self, selected: TeamModel) -> FixtureModel
        recommends
            self.failure() is None,
    {
        FixtureModel {
            id: self.id->0,
            competition: self.competition->0,
            date: self.date->0,
            home_team: self.home_team->0,
            away_team: self.away_team->0,
            status: self.status->0,
            selected_team: selected,
            is_home: selected.short_name == self.home_team->0,
        }
    }
}

impl FixtureRow {
    /// Turns the row into a fixture seen from the side of `selected`, which
    /// is copied into the record. A row that holds NULL is rejected with its
    /// failure.
    pub fn into_fixture(self, selected: &Team) -> (result: Result<Fixture, String>)
        ensures
            match result {
                Ok(fixture) => self@.failure() is None && fixture@ == self@.fixture(selected@),
                Err(failure) => self@.failure() == Some(failure@),
            },
    {
        let id = required_integer(self.id, "id")?;
        let competition = required_text(self.competition, "competition")?;
        let date = required_text(self.date, "date")?;
        let home_team = required_text(self.home_team, "home_team")?;
        let away_team = required_text(self.away_team, "away_team")?;
        let status = required_text(self.status, "status")?;
        let is_home = selected.short_name == home_team;
        Ok(
            Fixture {
                id,
                competition,
                date,
                home_team,
                away_team,
                status,
                selected_team: selected.clone(),
                is_home,
            },
        )
    }
}

/// The views of a sequence of team rows, in the same order.
pub open spec fn team_row_views(rows: Seq<TeamRow>) -> Seq<TeamRowModel> {
    rows.map_values(|row: TeamRow| row@)
}

/// The views of a sequence of fixture rows, in the same order.
pub open spec fn fixture_row_views(rows: Seq<FixtureRow>) -> Seq<FixtureRowModel> {
    rows.map_values(|row: FixtureRow| row@)
}

} // verus!
