//! The two record shapes that the bridge hands to its caller.

use vstd::prelude::*;

verus! {

/// A football club.
#[derive(Debug, PartialEq, Eq)]
pub struct Team {
    pub id: i64,
    pub name: String,
    pub short_name: String,
    pub tla: String,
    pub crest: String,
    pub area: String,
    pub league: String,
    pub club_colors: String,
}

/// What a [`Team`] holds, as mathematical values.
pub ghost struct TeamModel {
    pub id: int,
    pub name: Seq<char>,
    pub short_name: Seq<char>,
    pub tla: Seq<char>,
    pub crest: Seq<char>,
    pub area: Seq<char>,
    pub league: Seq<char>,
    pub club_colors: Seq<char>,
}

impl View for Team {
    type V = TeamModel;

    open spec fn view(&self) -> TeamModel {
        TeamModel {
            id: self.id as int,
            name: self.name@,
            short_name: self.short_name@,
            tla: self.tla@,
            crest: self.crest@,
            area: self.area@,
            league: self.league@,
            club_colors: self.club_colors@,
        }
    }
}

impl Clone for Team {
    /// A copy that holds the same values in every field.
    fn clone(&self) -> (copy: Team)
        ensures
            copy@ == self@,
    {
        Team {
            id: self.id,
            name: self.name.clone(),
            short_name: self.short_name.clone(),
            tla: self.tla.clone(),
            crest: self.crest.clone(),
            area: self.area.clone(),
            league: self.league.clone(),
            club_colors: self.club_colors.clone(),
        }
    }
}

/// A scheduled match, seen from the side of one selected team.
#[derive(Debug, Clone, PartialEq, Eq)]
pub struct Fixture {
    pub id: i64,
    pub competition: String,
    pub date: String,
    pub home_team: String,
    pub away_team: String,
    pub status: String,
    pub selected_team: Team,
    pub is_home: bool,
}

/// What a [`Fixture`] holds, as mathematical values.
pub ghost struct FixtureModel {
    pub id: int,
    pub competition: Seq<char>,
    pub date: Seq<char>,
    pub home_team: Seq<char>,
    pub away_team: Seq<char>,
    pub status: Seq<char>,
    pub selected_team: TeamModel,
    pub is_home: bool,
}

impl FixtureModel {
    /// The home flag says whether the selected team plays at home.
    pub open spec fn home_flag_agrees(self) -> bool {
        self.is_home <==> self.home_team == self.selected_team.short_name
    }

    /// The selected team is one of the two sides of the match.
    pub open spec fn involves_selected_team(self) -> bool {
        self.home_team == self.selected_team.short_name || self.away_team
            == self.selected_team.short_name
    }
}

impl View for Fixture {
    type V = FixtureModel;

    open spec fn view(&self) -> FixtureModel {
        FixtureModel {
            id: self.id as int,
            competition: self.competition@,
            date: self.date@,
            home_team: self.home_team@,
            away_team: self.away_team@,
            status: self.status@,
            selected_team: self.selected_team@,
            is_home: self.is_home,
        }
    }
}

/// The views of a sequence of teams, in the same order.
pub open spec fn team_views(teams: Seq<Team>) -> Seq<TeamModel> {
    teams.map_values(|team: Team| team@)
}

/// The views of a sequence of fixtures, in the same order.
pub open spec fn fixture_views(fixtures: Seq<Fixture>) -> Seq<FixtureModel> {
    fixtures.map_values(|fixture: Fixture| fixture@)
}

} // verus!
