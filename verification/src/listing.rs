//! What a whole listing of fixtures comes to, from its first step to its
//! result, and what holds of that result.

use crate::failures::{first_failure, is_first_failure, lemma_none_fails};
use crate::fixtures::{
    fixture_row_failures, fixtures_of_rows, group_of_rows, resumed, started, step_at, ReplyModel,
    ResultModel, StepModel,
};
use crate::records::{FixtureModel, TeamModel};
use crate::rows::FixtureRowModel;
use crate::sequences::{lemma_flatten_position, lemma_flatten_splits_at};
use crate::statements::{
    answers_fixtures_statement, fixtures_statement_model, selected, selects, timed,
};
use vstd::prelude::*;
use vstd::seq_lib::*;

verus! {

/// The failure in which a reply ends: that of the database, or that of the
/// first rejected row. `None` for a reply whose rows are all accepted.
pub open spec fn reply_failure(reply: ReplyModel) -> Option<Seq<char>> {
    match reply {
        Ok(rows) => first_failure(fixture_row_failures(rows)),
        Err(failure) => Some(failure),
    }
}

/// For each reply, the failure in which it ends, if any.
pub open spec fn reply_failures(replies: Seq<ReplyModel>) -> Seq<Option<Seq<char>>> {
    replies.map_values(|reply: ReplyModel| reply_failure(reply))
}

/// The group of fixtures that the rows of a reply give for the team
/// `selected`; no fixtures for a failed statement.
pub open spec fn reply_group(reply: ReplyModel, selected: TeamModel) -> Seq<FixtureModel> {
    match reply {
        Ok(rows) => group_of_rows(rows, selected),
        Err(_) => Seq::empty(),
    }
}

/// The groups of a listing over `teams`, one per team in the order of the
/// teams, where `replies` holds for each team the reply to its statement.
pub open spec fn groups(teams: Seq<TeamModel>, replies: Seq<ReplyModel>) -> Seq<
    Seq<FixtureModel>,
> {
    Seq::new(teams.len(), |at: int| reply_group(replies[at], teams[at]))
}

/// The result of a listing over `teams`, where `replies` holds for each team
/// the reply to its statement: the first failure, or else the groups of all
/// teams, one after the other in the order of the teams.
pub open spec fn fixtures_listed(teams: Seq<TeamModel>, replies: Seq<ReplyModel>) -> ResultModel
    recommends
        replies.len() == teams.len(),
{
    match first_failure(reply_failures(replies)) {
        Some(failure) => Err(failure),
        None => Ok(groups(teams, replies).flatten()),
    }
}

/// The step that a listing reaches from `step` when the replies come in one
/// by one, each for the statement that is out. A listing that is over stays
/// as it is.
pub open spec fn after_replies(step: StepModel, replies: Seq<ReplyModel>) -> StepModel
    decreases replies.len(),
{
    if replies.len() == 0 {
        step
    } else {
        match step {
            StepModel::Ask { listing, .. } => after_replies(
                resumed(listing, replies.first()),
                replies.drop_first(),
            ),
            StepModel::Done(_) => step,
        }
    }
}

/// Replies that come in behind others take the listing on from the step
/// that the others led to.
proof fn lemma_replies_in_turn(step: StepModel, first: Seq<ReplyModel>, then: Seq<ReplyModel>)
    ensures
        after_replies(step, first + then) == after_replies(after_replies(step, first), then),
    decreases first.len(),
{
    if first.len() == 0 {
        assert(first + then =~= then);
    } else {
        assert((first + then).drop_first() =~= first.drop_first() + then);
        if let StepModel::Ask { listing, .. } = step {
            lemma_replies_in_turn(resumed(listing, first.first()), first.drop_first(), then);
        }
    }
}

/// From the team at `from`, with the groups of the teams before it gathered,
/// a listing gets to the team at `to` when the replies between the two come
/// in and none of them fails.
proof fn lemma_steps_between(
    teams: Seq<TeamModel>,
    replies: Seq<ReplyModel>,
    from: int,
    to: int,
)
    requires
        0 <= from <= to <= teams.len(),
        to <= replies.len(),
        forall|at: int| from <= at < to ==> reply_failure(#[trigger] replies[at]) is None,
    ensures
        after_replies(
            step_at(teams, from, groups(teams, replies).take(from).flatten()),
            replies.subrange(from, to),
        ) == step_at(teams, to, groups(teams, replies).take(to).flatten()),
    decreases to - from,
{
    if from < to {
        let group = reply_group(replies[from], teams[from]);
        assert(replies.subrange(from, to).drop_first() =~= replies.subrange(from + 1, to));
        assert(fixtures_of_rows(replies[from]->Ok_0, teams[from]) == ResultModel::Ok(group));
        lemma_flatten_splits_at(groups(teams, replies), from);
        lemma_steps_between(teams, replies, from + 1, to);
    }
}

/// The statements of a listing follow the order of the teams: once the
/// first `answered` statements have been answered without a failure, the
/// listing issues the fixtures statement bound to the short name of the team
/// at that position, or is over past the last team; and it has gathered the
/// groups of the teams before, in their order.
pub proof fn law_statements_follow_the_teams(
    teams: Seq<TeamModel>,
    replies: Seq<ReplyModel>,
    answered: int,
)
    requires
        0 <= answered <= teams.len(),
        answered <= replies.len(),
        forall|at: int| 0 <= at < answered ==> reply_failure(#[trigger] replies[at]) is None,
    ensures
        after_replies(started(teams), replies.take(answered)) == step_at(
            teams,
            answered,
            groups(teams, replies).take(answered).flatten(),
        ),
        answered < teams.len() ==> after_replies(
            started(teams),
            replies.take(answered),
        ) is Ask && after_replies(started(teams), replies.take(answered))->statement
            == fixtures_statement_model(teams[answered].short_name),
{
    lemma_steps_between(teams, replies, 0, answered);
}

/// The first reply that fails ends the listing with its failure: the groups
/// gathered before it are dropped, no further statement is issued, and what
/// comes in afterwards changes nothing.
pub proof fn law_first_failure_ends_the_listing(
    teams: Seq<TeamModel>,
    replies: Seq<ReplyModel>,
    failed: int,
)
    requires
        failed < teams.len(),
        is_first_failure(reply_failures(replies), failed),
    ensures
        after_replies(started(teams), replies) == StepModel::Done(
            Err(reply_failure(replies[failed])->0),
        ),
{
    let before = replies.take(failed);
    let behind = replies.skip(failed + 1);
    assert forall|at: int| 0 <= at < failed implies reply_failure(#[trigger] replies[at])
        is None by {
        assert(reply_failures(replies)[at] is None);
    }
    law_statements_follow_the_teams(teams, replies, failed);
    let asking = after_replies(started(teams), before);
    let over = resumed(asking->listing, replies[failed]);
    assert(reply_failures(replies)[failed] == reply_failure(replies[failed]));
    assert(over == StepModel::Done(Err(reply_failure(replies[failed])->0)));
    assert(after_replies(asking, seq![replies[failed]]) == over) by {
        reveal_with_fuel(after_replies, 2);
        assert(seq![replies[failed]].first() == replies[failed]);
    }
    assert(after_replies(over, behind) == over);
    assert(replies =~= before + seq![replies[failed]] + behind);
    lemma_replies_in_turn(started(teams), before, seq![replies[failed]]);
    lemma_replies_in_turn(started(teams), before + seq![replies[failed]], behind);
}

/// Step by step, a listing comes to the result of the whole listing: started
/// over `teams` and resumed with the reply to each statement in turn, it is
/// over with the first failure, or else with the groups of all teams in the
/// order of the teams.
pub proof fn law_steps_reach_listed(teams: Seq<TeamModel>, replies: Seq<ReplyModel>)
    requires
        replies.len() == teams.len(),
    ensures
        after_replies(started(teams), replies) == StepModel::Done(fixtures_listed(teams, replies)),
{
    let failures = reply_failures(replies);
    if first_failure(failures) is Some {
        let failed = choose|failed: int| is_first_failure(failures, failed);
        law_first_failure_ends_the_listing(teams, replies, failed);
    } else {
        lemma_none_fails(failures);
        assert forall|at: int| 0 <= at < replies.len() implies reply_failure(
            #[trigger] replies[at],
        ) is None by {
            assert(failures[at] is None);
        }
        law_statements_follow_the_teams(teams, replies, replies.len() as int);
        assert(replies.take(replies.len() as int) =~= replies);
        assert(groups(teams, replies).take(teams.len() as int) =~= groups(teams, replies));
    }
}

/// Whether `replies` are what a database that holds `table`, and compares
/// dates by `precedes`, gives to the statements of a listing over `teams`:
/// for each team in turn, rows that answer the fixtures statement bound to
/// the team's short name.
pub open spec fn database_replies(
    table: Seq<FixtureRowModel>,
    precedes: spec_fn(Seq<char>, Seq<char>) -> bool,
    teams: Seq<TeamModel>,
    replies: Seq<ReplyModel>,
) -> bool {
    &&& replies.len() == teams.len()
    &&& forall|at: int|
        0 <= at < teams.len() ==> (#[trigger] replies[at]) is Ok && answers_fixtures_statement(
            table,
            teams[at].short_name,
            precedes,
            replies[at]->Ok_0,
        )
}

/// Whether the dates of `fixtures` never go down from one fixture to a later
/// one, under the order `precedes`.
pub open spec fn fixtures_ordered_by_date(
    fixtures: Seq<FixtureModel>,
    precedes: spec_fn(Seq<char>, Seq<char>) -> bool,
) -> bool {
    forall|earlier: int, later: int|
        0 <= earlier <= later < fixtures.len() ==> precedes(
            fixtures[earlier].date,
            fixtures[later].date,
        )
}

/// The position in the result at which the group of the team at `at` begins:
/// right behind the groups of the teams before it.
pub open spec fn group_start(teams: Seq<TeamModel>, replies: Seq<ReplyModel>, at: int) -> int {
    groups(teams, replies).take(at).flatten().len() as int
}

/// The number of rows of `table` that the statements of a listing over
/// `teams` select, team by team. A team that is selected twice counts twice.
pub open spec fn selected_count(table: Seq<FixtureRowModel>, teams: Seq<TeamModel>) -> nat
    decreases teams.len(),
{
    if teams.len() == 0 {
        0
    } else {
        selected_count(table, teams.drop_last()) + selected(
            table,
            teams.last().short_name,
        ).len()
    }
}

/// A row of a reply that answers the fixtures statement is selected by it.
proof fn lemma_answer_rows_are_selected(
    table: Seq<FixtureRowModel>,
    short_name: Seq<char>,
    precedes: spec_fn(Seq<char>, Seq<char>) -> bool,
    rows: Seq<FixtureRowModel>,
    at: int,
)
    requires
        answers_fixtures_statement(table, short_name, precedes, rows),
        0 <= at < rows.len(),
    ensures
        selects(rows[at], short_name),
{
    broadcast use to_multiset_contains;

    let chosen = selected(table, short_name);
    assert(rows.contains(rows[at]));
    assert(rows.to_multiset().count(rows[at]) > 0);
    assert(chosen.contains(rows[at]));
    let found = choose|found: int| 0 <= found < chosen.len() && chosen[found] == rows[at];
    table.lemma_filter_pred(|row: FixtureRowModel| selects(row, short_name), found);
}

/// A reply that answers the fixtures statement holds as many rows as the
/// statement selects.
proof fn lemma_answer_length(
    table: Seq<FixtureRowModel>,
    short_name: Seq<char>,
    precedes: spec_fn(Seq<char>, Seq<char>) -> bool,
    rows: Seq<FixtureRowModel>,
)
    requires
        answers_fixtures_statement(table, short_name, precedes, rows),
    ensures
        rows.len() == selected(table, short_name).len(),
{
    to_multiset_len(rows);
    to_multiset_len(selected(table, short_name));
}

/// Every fixture that a listing returns is timed, is seen from the side of
/// one of the selected teams, has that team as its home or its away side,
/// and says with its home flag which of the two it is.
pub proof fn law_listed_fixtures_are_timed_and_of_a_selected_team(
    table: Seq<FixtureRowModel>,
    precedes: spec_fn(Seq<char>, Seq<char>) -> bool,
    teams: Seq<TeamModel>,
    replies: Seq<ReplyModel>,
)
    requires
        database_replies(table, precedes, teams, replies),
        fixtures_listed(teams, replies) is Ok,
    ensures
        forall|position: int|
            0 <= position < fixtures_listed(teams, replies)->Ok_0.len() ==> {
                let fixture = #[trigger] fixtures_listed(teams, replies)->Ok_0[position];
                &&& fixture.status == timed()
                &&& fixture.home_flag_agrees()
                &&& fixture.involves_selected_team()
                &&& exists|at: int| 0 <= at < teams.len() && fixture.selected_team == teams[at]
            },
{
    let listed = fixtures_listed(teams, replies)->Ok_0;
    let all = groups(teams, replies);
    lemma_none_fails(reply_failures(replies));
    assert forall|position: int| 0 <= position < listed.len() implies {
        let fixture = #[trigger] listed[position];
        &&& fixture.status == timed()
        &&& fixture.home_flag_agrees()
        &&& fixture.involves_selected_team()
        &&& exists|at: int| 0 <= at < teams.len() && fixture.selected_team == teams[at]
    } by {
        let (at, within) = lemma_flatten_position(all, position);
        let rows = replies[at]->Ok_0;
        assert(reply_failures(replies)[at] is None);
        lemma_none_fails(fixture_row_failures(rows));
        assert(fixture_row_failures(rows)[within] is None);
        lemma_answer_rows_are_selected(table, teams[at].short_name, precedes, rows, within);
        assert(listed[position] == rows[within].fixture(teams[at]));
    }
}

/// In the result of a listing the group of each team stands right behind
/// the groups of the teams before it, and within each group the dates never
/// go down.
pub proof fn law_groups_are_ordered_by_date(
    table: Seq<FixtureRowModel>,
    precedes: spec_fn(Seq<char>, Seq<char>) -> bool,
    teams: Seq<TeamModel>,
    replies: Seq<ReplyModel>,
)
    requires
        database_replies(table, precedes, teams, replies),
        fixtures_listed(teams, replies) is Ok,
    ensures
        forall|at: int|
            0 <= at < teams.len() ==> {
                let group = #[trigger] groups(teams, replies)[at];
                let start = group_start(teams, replies, at);
                &&& 0 <= start <= start + group.len() <= fixtures_listed(teams, replies)->Ok_0.len()
                &&& fixtures_listed(teams, replies)->Ok_0.subrange(start, start + group.len())
                    == group
                &&& fixtures_ordered_by_date(group, precedes)
            },
{
    let listed = fixtures_listed(teams, replies)->Ok_0;
    let all = groups(teams, replies);
    lemma_none_fails(reply_failures(replies));
    assert forall|at: int| 0 <= at < teams.len() implies {
        let group = #[trigger] groups(teams, replies)[at];
        let start = group_start(teams, replies, at);
        &&& 0 <= start <= start + group.len() <= listed.len()
        &&& listed.subrange(start, start + group.len()) == group
        &&& fixtures_ordered_by_date(group, precedes)
    } by {
        let group = all[at];
        let start = group_start(teams, replies, at);
        lemma_flatten_splits_at(all, at);
        assert(listed.subrange(start, start + group.len()) =~= group);
        let rows = replies[at]->Ok_0;
        assert(reply_failures(replies)[at] is None);
        lemma_none_fails(fixture_row_failures(rows));
        assert forall|earlier: int, later: int|
            0 <= earlier <= later < group.len() implies precedes(
            group[earlier].date,
            group[later].date,
        ) by {
            assert(fixture_row_failures(rows)[earlier] is None);
            assert(fixture_row_failures(rows)[later] is None);
        }
    }
}

/// The groups of the first `upto` teams hold together as many fixtures as
/// the statements of those teams select.
proof fn lemma_gathered_count(
    table: Seq<FixtureRowModel>,
    precedes: spec_fn(Seq<char>, Seq<char>) -> bool,
    teams: Seq<TeamModel>,
    replies: Seq<ReplyModel>,
    upto: int,
)
    requires
        database_replies(table, precedes, teams, replies),
        0 <= upto <= teams.len(),
    ensures
        groups(teams, replies).take(upto).flatten().len() == selected_count(
            table,
            teams.take(upto),
        ),
    decreases upto,
{
    if upto > 0 {
        let at = upto - 1;
        lemma_gathered_count(table, precedes, teams, replies, at);
        lemma_flatten_splits_at(groups(teams, replies), at);
        assert(teams.take(upto).drop_last() =~= teams.take(at));
        lemma_answer_length(table, teams[at].short_name, precedes, replies[at]->Ok_0);
    }
}

/// A listing returns as many fixtures as its statements select, team by
/// team: a team that is selected twice has its group twice.
pub proof fn law_listed_count(
    table: Seq<FixtureRowModel>,
    precedes: spec_fn(Seq<char>, Seq<char>) -> bool,
    teams: Seq<TeamModel>,
    replies: Seq<ReplyModel>,
)
    requires
        database_replies(table, precedes, teams, replies),
        fixtures_listed(teams, replies) is Ok,
    ensures
        fixtures_listed(teams, replies)->Ok_0.len() == selected_count(table, teams),
{
    lemma_gathered_count(table, precedes, teams, replies, teams.len() as int);
    assert(groups(teams, replies).take(teams.len() as int) =~= groups(teams, replies));
    assert(teams.take(teams.len() as int) =~= teams);
}

/// A listing over no teams issues no statement and returns no fixtures.
pub proof fn law_no_teams_no_fixtures()
    ensures
        started(Seq::<TeamModel>::empty()) == StepModel::Done(Ok(Seq::<FixtureModel>::empty())),
        fixtures_listed(Seq::empty(), Seq::empty()) == ResultModel::Ok(Seq::empty()),
{
    law_steps_reach_listed(Seq::empty(), Seq::empty());
}

/// A team of which the table holds no timed fixture has an empty group.
pub proof fn law_team_without_timed_fixtures(
    table: Seq<FixtureRowModel>,
    precedes: spec_fn(Seq<char>, Seq<char>) -> bool,
    teams: Seq<TeamModel>,
    replies: Seq<ReplyModel>,
    at: int,
)
    requires
        database_replies(table, precedes, teams, replies),
        0 <= at < teams.len(),
        selected(table, teams[at].short_name).len() == 0,
    ensures
        groups(teams, replies)[at] == Seq::<FixtureModel>::empty(),
{
    lemma_answer_length(table, teams[at].short_name, precedes, replies[at]->Ok_0);
}

} // verus!
