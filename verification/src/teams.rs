//! Listing every team.

use crate::failures::{first_failure, lemma_first_failure_at, lemma_none_fails};
use crate::records::{team_views, Team, TeamModel};
use crate::rows::{team_row_views, TeamRow, TeamRowModel};
use crate::sequences::lemma_map_values_keeps_multiset;
use crate::statements::answers_teams_statement;
use vstd::prelude::*;
use vstd::seq_lib::*;

verus! {

/// The reply of the database to the teams statement, as mathematical values:
/// the rows it returned, or the text of its failure.
pub type ReplyModel = Result<Seq<TeamRowModel>, Seq<char>>;

/// The result of listing the teams, as mathematical values: the teams, or the
/// text of the failure.
pub type ResultModel = Result<Seq<TeamModel>, Seq<char>>;

/// For each row, the failure for which it is rejected, if any.
pub open spec fn team_row_failures(rows: Seq<TeamRowModel>) -> Seq<Option<Seq<char>>> {
    rows.map_values(|row: TeamRowModel| row.failure())
}

/// The teams that the rows of a reply describe: one per row, in the order of
/// the rows, unless a row is rejected.
pub open spec fn teams_of_rows(rows: Seq<TeamRowModel>) -> ResultModel {
    match first_failure(team_row_failures(rows)) {
        Some(failure) => Err(failure),
        None => Ok(rows.map_values(|row: TeamRowModel| row.team())),
    }
}

/// The reply of the database to the teams statement, as mathematical values.
pub open spec fn teams_reply_view(reply: Result<Vec<TeamRow>, String>) -> ReplyModel {
    match reply {
        Ok(rows) => Ok(team_row_views(rows@)),
        Err(failure) => Err(failure@),
    }
}

/// The result of listing the teams, as mathematical values.
pub open spec fn teams_result_view(result: Result<Vec<Team>, String>) -> ResultModel {
    match result {
        Ok(teams) => Ok(team_views(teams@)),
        Err(failure) => Err(failure@),
    }
}

/// What listing the teams returns for a reply: the failure of the database
/// unchanged, or what its rows become.
pub open spec fn teams_listed(reply: ReplyModel) -> ResultModel {
    match reply {
        Ok(rows) => teams_of_rows(rows),
        Err(failure) => Err(failure),
    }
}

/// Lists the teams from the reply of the database to the teams statement.
///
/// A failed statement is reported with the text of the database. Otherwise
/// there is one team per returned row, in the order of the rows, each field
/// taken from the column of the same name; no rows give no teams. A row that
/// holds NULL fails the listing with the failure of the first such row.
pub fn list_teams(reply: Result<Vec<TeamRow>, String>) -> (result: Result<Vec<Team>, String>)
    ensures
        teams_result_view(result) == teams_listed(teams_reply_view(reply)),
{
    let rows = match reply {
        Ok(rows) => rows,
        Err(failure) => {
            return Err(failure);
        },
    };
    let ghost all = team_row_views(rows@);
    let mut teams: Vec<Team> = Vec::new();
    for row in it: rows
        invariant
            teams_reply_view(reply) == ReplyModel::Ok(all),
            team_row_views(it.seq()) == all,
            teams.len() == it.index(),
            forall|done: int|
                0 <= done < it.index() ==> (#[trigger] all[done]).failure() is None
                    && teams[done]@ == all[done].team(),
    {
        match row.into_team() {
            Ok(team) => {
                teams.push(team);
            },
            Err(failure) => {
                proof {
                    lemma_first_failure_at(team_row_failures(all), it.index() as int);
                }
                return Err(failure);
            },
        }
    }
    proof {
        assert(team_views(teams@) =~= all.map_values(|row: TeamRowModel| row.team()));
    }
    Ok(teams)
}

/// Whether every row of `rows` is accepted.
pub open spec fn all_accepted(rows: Seq<TeamRowModel>) -> bool {
    forall|at: int| 0 <= at < rows.len() ==> (#[trigger] rows[at]).failure() is None
}

/// The rows of a reply are all accepted exactly when their listing succeeds.
proof fn lemma_accepted_rows_are_listed(rows: Seq<TeamRowModel>)
    ensures
        all_accepted(rows) <==> teams_of_rows(rows) is Ok,
{
    let failures = team_row_failures(rows);
    if all_accepted(rows) {
        assert forall|at: int| 0 <= at < failures.len() implies failures[at] is None by {
            assert(rows[at].failure() is None);
        }
    }
    if teams_of_rows(rows) is Ok {
        lemma_none_fails(failures);
        assert forall|at: int| 0 <= at < rows.len() implies (#[trigger] rows[at]).failure()
            is None by {
            assert(failures[at] is None);
        }
    }
}

/// A row of one of two sequences that hold the same rows as often is a row
/// of the other.
proof fn lemma_row_of_both(first: Seq<TeamRowModel>, second: Seq<TeamRowModel>, at: int)
    requires
        first.to_multiset() == second.to_multiset(),
        0 <= at < first.len(),
    ensures
        second.contains(first[at]),
{
    broadcast use to_multiset_contains;

    assert(first.contains(first[at]));
    assert(first.to_multiset().count(first[at]) > 0);
}

/// A reply to the teams statement is accepted as a whole exactly when every
/// row of the table is.
proof fn lemma_answer_accepted_as_table(table: Seq<TeamRowModel>, rows: Seq<TeamRowModel>)
    requires
        answers_teams_statement(table, rows),
    ensures
        all_accepted(rows) <==> all_accepted(table),
{
    if all_accepted(table) {
        assert forall|at: int| 0 <= at < rows.len() implies (#[trigger] rows[at]).failure()
            is None by {
            lemma_row_of_both(rows, table, at);
        }
    }
    if all_accepted(rows) {
        assert forall|at: int| 0 <= at < table.len() implies (#[trigger] table[at]).failure()
            is None by {
            lemma_row_of_both(table, rows, at);
        }
    }
}

/// Listing the teams gives exactly one team for each row of the table, each
/// field taken from the column of the same name, whatever the order in which
/// the database returns the rows.
pub proof fn law_one_team_per_table_row(table: Seq<TeamRowModel>, rows: Seq<TeamRowModel>)
    requires
        answers_teams_statement(table, rows),
        all_accepted(table),
    ensures
        teams_listed(Ok(rows)) is Ok,
        teams_listed(Ok(rows))->Ok_0.len() == table.len(),
        teams_listed(Ok(rows))->Ok_0.to_multiset() == table.map_values(
            |row: TeamRowModel| row.team(),
        ).to_multiset(),
{
    lemma_answer_accepted_as_table(table, rows);
    lemma_accepted_rows_are_listed(rows);
    lemma_map_values_keeps_multiset(rows, table, |row: TeamRowModel| row.team());
    to_multiset_len(rows);
    to_multiset_len(table);
}

/// Two listings of the teams of one table give together, whatever the order
/// of their replies, the teams of a single listing twice over.
pub proof fn law_two_listings_double_one(
    table: Seq<TeamRowModel>,
    first: Seq<TeamRowModel>,
    second: Seq<TeamRowModel>,
    single: Seq<TeamRowModel>,
)
    requires
        answers_teams_statement(table, first),
        answers_teams_statement(table, second),
        answers_teams_statement(table, single),
        teams_listed(Ok(single)) is Ok,
    ensures
        teams_listed(Ok(first)) is Ok,
        teams_listed(Ok(second)) is Ok,
        teams_listed(Ok(first))->Ok_0.to_multiset().add(
            teams_listed(Ok(second))->Ok_0.to_multiset(),
        ) == teams_listed(Ok(single))->Ok_0.to_multiset().add(
            teams_listed(Ok(single))->Ok_0.to_multiset(),
        ),
{
    lemma_accepted_rows_are_listed(single);
    lemma_answer_accepted_as_table(table, single);
    law_one_team_per_table_row(table, first);
    law_one_team_per_table_row(table, second);
    law_one_team_per_table_row(table, single);
}

/// An empty table gives no teams, and no failure.
pub proof fn law_empty_table_no_teams(rows: Seq<TeamRowModel>)
    requires
        answers_teams_statement(Seq::empty(), rows),
    ensures
        teams_listed(Ok(rows)) == ResultModel::Ok(Seq::empty()),
{
    law_one_team_per_table_row(Seq::empty(), rows);
    assert(teams_listed(Ok(rows))->Ok_0 =~= Seq::<TeamModel>::empty());
}

} // verus!
