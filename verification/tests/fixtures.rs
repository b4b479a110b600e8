use fixture_bridge::fixtures::{fixtures_from_rows, list_fixtures_for, FixtureStep};
use fixture_bridge::records::{Fixture, Team};
use fixture_bridge::rows::FixtureRow;
use fixture_bridge::statements::{fixtures_statement, FIXTURES_STATEMENT};

fn team(id: i64, short_name: &str) -> Team {
    Team {
        id,
        name: format!("{} FC", short_name),
        short_name: short_name.to_string(),
        tla: short_name[..3].to_uppercase(),
        crest: format!("crest{}", id),
        area: "England".to_string(),
        league: "Premier League".to_string(),
        club_colors: "Red/White".to_string(),
    }
}

fn arsenal() -> Team {
    team(1, "Arsenal")
}

fn chelsea() -> Team {
    team(2, "Chelsea")
}

fn row(id: i64, date: &str, home: &str, away: &str, status: &str) -> FixtureRow {
    FixtureRow {
        id: Some(id),
        competition: Some("PL".to_string()),
        date: Some(date.to_string()),
        home_team: Some(home.to_string()),
        away_team: Some(away.to_string()),
        status: Some(status.to_string()),
    }
}

fn seeded_fixtures() -> Vec<FixtureRow> {
    vec![
        row(10, "2025-01-10", "Arsenal", "Chelsea", "TIMED"),
        row(11, "2025-01-20", "Chelsea", "Arsenal", "FINISHED"),
    ]
}

/// What a database that holds `table` answers to the fixtures statement
/// bound to `short_name`.
fn answer(table: &[FixtureRow], short_name: &str) -> Vec<FixtureRow> {
    let mut rows: Vec<FixtureRow> = table
        .iter()
        .filter(|row| {
            (row.home_team.as_deref() == Some(short_name)
                || row.away_team.as_deref() == Some(short_name))
                && row.status.as_deref() == Some("TIMED")
        })
        .cloned()
        .collect();
    rows.sort_by(|a, b| a.date.cmp(&b.date));
    rows
}

/// Runs a listing against a database that holds `table`, and records the
/// short names that the statements were bound to.
fn run(teams: Vec<Team>, table: &[FixtureRow]) -> (Result<Vec<Fixture>, String>, Vec<String>) {
    let mut asked = Vec::new();
    let mut step = list_fixtures_for(teams);
    loop {
        match step {
            FixtureStep::Ask { listing, statement } => {
                assert_eq!(statement.text, FIXTURES_STATEMENT);
                assert_eq!(statement.parameters.len(), 1);
                let short_name = statement.parameters[0].clone();
                let reply = Ok(answer(table, &short_name));
                asked.push(short_name);
                step = listing.resume(reply);
            }
            FixtureStep::Done(result) => return (result, asked),
        }
    }
}

fn summary(fixtures: &[Fixture]) -> Vec<(i64, String, bool)> {
    fixtures
        .iter()
        .map(|fixture| {
            (
                fixture.id,
                fixture.selected_team.short_name.clone(),
                fixture.is_home,
            )
        })
        .collect()
}

#[test]
fn fixtures_statement_filters_by_team_and_status_and_orders_by_date() {
    assert_eq!(
        FIXTURES_STATEMENT,
        "SELECT id, competition, date, home_team, away_team, status FROM fixtures WHERE (home_team = $1 OR away_team = $1) AND status = 'TIMED' ORDER BY date ASC"
    );
}

#[test]
fn single_team_gets_its_one_timed_fixture() {
    let (result, asked) = run(vec![arsenal()], &seeded_fixtures());
    assert_eq!(asked, vec!["Arsenal".to_string()]);
    let fixtures = result.unwrap();
    assert_eq!(
        fixtures,
        vec![Fixture {
            id: 10,
            competition: "PL".to_string(),
            date: "2025-01-10".to_string(),
            home_team: "Arsenal".to_string(),
            away_team: "Chelsea".to_string(),
            status: "TIMED".to_string(),
            selected_team: arsenal(),
            is_home: true,
        }]
    );
}

#[test]
fn derby_is_listed_once_per_selected_side() {
    let mut table = seeded_fixtures();
    table.push(row(12, "2025-02-01", "Chelsea", "Arsenal", "TIMED"));
    let (result, asked) = run(vec![arsenal(), chelsea()], &table);
    assert_eq!(asked, vec!["Arsenal".to_string(), "Chelsea".to_string()]);
    let fixtures = result.unwrap();
    assert_eq!(
        summary(&fixtures),
        vec![
            (10, "Arsenal".to_string(), true),
            (12, "Arsenal".to_string(), false),
            (10, "Chelsea".to_string(), false),
            (12, "Chelsea".to_string(), true),
        ]
    );
    assert_eq!(fixtures[0].selected_team, arsenal());
    assert_eq!(fixtures[3].selected_team, chelsea());
}

#[test]
fn postponed_fixture_appears_in_no_result() {
    let mut table = seeded_fixtures();
    table.push(row(12, "2025-02-01", "Chelsea", "Arsenal", "TIMED"));
    table.push(row(13, "2025-01-15", "Arsenal", "Spurs", "POSTPONED"));
    for teams in [
        vec![arsenal()],
        vec![chelsea()],
        vec![team(3, "Spurs")],
        vec![arsenal(), chelsea(), team(3, "Spurs")],
    ] {
        let (result, _) = run(teams, &table);
        let fixtures = result.unwrap();
        assert!(fixtures.iter().all(|fixture| fixture.id != 13));
        assert!(fixtures.iter().all(|fixture| fixture.status == "TIMED"));
    }
}

#[test]
fn no_selected_team_gives_no_fixtures_and_no_statement() {
    let (result, asked) = run(vec![], &seeded_fixtures());
    assert_eq!(result, Ok(vec![]));
    assert!(asked.is_empty());
    assert!(matches!(
        list_fixtures_for(vec![]),
        FixtureStep::Done(Ok(fixtures)) if fixtures.is_empty()
    ));
}

#[test]
fn team_without_timed_fixtures_adds_nothing() {
    let spurs = team(3, "Spurs");
    let (result, asked) = run(vec![spurs.clone()], &seeded_fixtures());
    assert_eq!(asked, vec!["Spurs".to_string()]);
    assert_eq!(result, Ok(vec![]));

    let (result, asked) = run(vec![spurs, arsenal()], &seeded_fixtures());
    assert_eq!(asked, vec!["Spurs".to_string(), "Arsenal".to_string()]);
    assert_eq!(
        summary(&result.unwrap()),
        vec![(10, "Arsenal".to_string(), true)]
    );
}

#[test]
fn duplicate_team_duplicates_its_group() {
    let mut table = seeded_fixtures();
    table.push(row(12, "2025-02-01", "Chelsea", "Arsenal", "TIMED"));
    let (result, asked) = run(vec![arsenal(), arsenal()], &table);
    assert_eq!(asked, vec!["Arsenal".to_string(), "Arsenal".to_string()]);
    assert_eq!(
        summary(&result.unwrap()),
        vec![
            (10, "Arsenal".to_string(), true),
            (12, "Arsenal".to_string(), false),
            (10, "Arsenal".to_string(), true),
            (12, "Arsenal".to_string(), false),
        ]
    );
}

#[test]
fn groups_follow_team_order_and_dates_rise_within_each() {
    let table = vec![
        row(24, "2025-03-01", "Chelsea", "Spurs", "TIMED"),
        row(21, "2025-02-01", "Arsenal", "Spurs", "TIMED"),
        row(23, "2025-01-05", "Spurs", "Chelsea", "TIMED"),
        row(22, "2025-01-01", "Chelsea", "Arsenal", "TIMED"),
    ];
    let teams = vec![chelsea(), arsenal()];
    let (result, _) = run(teams.clone(), &table);
    let fixtures = result.unwrap();
    assert_eq!(
        summary(&fixtures),
        vec![
            (22, "Chelsea".to_string(), true),
            (23, "Chelsea".to_string(), false),
            (24, "Chelsea".to_string(), true),
            (22, "Arsenal".to_string(), false),
            (21, "Arsenal".to_string(), true),
        ]
    );
    let mut start = 0;
    for team in &teams {
        let size = answer(&table, &team.short_name).len();
        let group = &fixtures[start..start + size];
        assert!(group.iter().all(|fixture| fixture.selected_team == *team));
        assert!(group.windows(2).all(|pair| pair[0].date <= pair[1].date));
        start += size;
    }
    assert_eq!(start, fixtures.len());
}

#[test]
fn listed_count_is_the_sum_of_the_selected_rows() {
    let mut table = seeded_fixtures();
    table.push(row(12, "2025-02-01", "Chelsea", "Arsenal", "TIMED"));
    table.push(row(14, "2025-02-03", "Chelsea", "Spurs", "TIMED"));
    let teams = vec![arsenal(), chelsea(), arsenal(), team(3, "Spurs")];
    let expected: usize = teams
        .iter()
        .map(|team| answer(&table, &team.short_name).len())
        .sum();
    assert_eq!(expected, 2 + 3 + 2 + 1);
    let (result, _) = run(teams, &table);
    assert_eq!(result.unwrap().len(), 8);
}

#[test]
fn every_listed_fixture_involves_its_selected_team() {
    let mut table = seeded_fixtures();
    table.push(row(12, "2025-02-01", "Chelsea", "Arsenal", "TIMED"));
    table.push(row(14, "2025-02-03", "Chelsea", "Spurs", "TIMED"));
    let teams = vec![arsenal(), chelsea(), team(3, "Spurs")];
    let (result, _) = run(teams.clone(), &table);
    for fixture in result.unwrap() {
        let name = &fixture.selected_team.short_name;
        assert!(teams.contains(&fixture.selected_team));
        assert!(fixture.home_team == *name || fixture.away_team == *name);
        assert_eq!(fixture.is_home, fixture.home_team == *name);
        assert_eq!(fixture.status, "TIMED");
    }
}

#[test]
fn first_statement_is_bound_to_the_first_team() {
    match list_fixtures_for(vec![chelsea(), arsenal()]) {
        FixtureStep::Ask { statement, .. } => {
            assert_eq!(statement.text, FIXTURES_STATEMENT);
            assert_eq!(statement.parameters, vec!["Chelsea".to_string()]);
        }
        FixtureStep::Done(_) => panic!("a statement is due"),
    }
}

#[test]
fn fixtures_statement_binds_the_short_name() {
    let statement = fixtures_statement("Arsenal".to_string());
    assert_eq!(statement.text, FIXTURES_STATEMENT);
    assert_eq!(statement.parameters, vec!["Arsenal".to_string()]);
}

#[test]
fn failed_statement_ends_the_listing_with_its_text() {
    match list_fixtures_for(vec![arsenal(), chelsea()]) {
        FixtureStep::Ask { listing, .. } => {
            match listing.resume(Err("connection closed".to_string())) {
                FixtureStep::Done(result) => {
                    assert_eq!(result, Err("connection closed".to_string()))
                }
                FixtureStep::Ask { .. } => panic!("the listing is over"),
            }
        }
        FixtureStep::Done(_) => panic!("a statement is due"),
    }
}

#[test]
fn later_failure_discards_the_earlier_groups() {
    let first = match list_fixtures_for(vec![arsenal(), chelsea()]) {
        FixtureStep::Ask { listing, statement } => {
            listing.resume(Ok(answer(&seeded_fixtures(), &statement.parameters[0])))
        }
        FixtureStep::Done(_) => panic!("a statement is due"),
    };
    match first {
        FixtureStep::Ask { listing, statement } => {
            assert_eq!(statement.parameters, vec!["Chelsea".to_string()]);
            match listing.resume(Err("timeout".to_string())) {
                FixtureStep::Done(result) => assert_eq!(result, Err("timeout".to_string())),
                FixtureStep::Ask { .. } => panic!("the listing is over"),
            }
        }
        FixtureStep::Done(_) => panic!("a second statement is due"),
    }
}

#[test]
fn null_in_a_fixture_row_fails_the_listing() {
    let mut broken = row(10, "2025-01-10", "Arsenal", "Chelsea", "TIMED");
    broken.date = None;
    broken.status = None;
    match list_fixtures_for(vec![arsenal()]) {
        FixtureStep::Ask { listing, .. } => {
            let good = row(9, "2025-01-09", "Arsenal", "Spurs", "TIMED");
            match listing.resume(Ok(vec![good, broken])) {
                FixtureStep::Done(result) => {
                    assert_eq!(result, Err("unexpected NULL in column date".to_string()))
                }
                FixtureStep::Ask { .. } => panic!("the listing is over"),
            }
        }
        FixtureStep::Done(_) => panic!("a statement is due"),
    }
}

#[test]
fn each_fixture_column_is_named_when_null() {
    let names = ["id", "competition", "date", "home_team", "away_team", "status"];
    for (position, name) in names.iter().enumerate() {
        let mut broken = row(10, "2025-01-10", "Arsenal", "Chelsea", "TIMED");
        match position {
            0 => broken.id = None,
            1 => broken.competition = None,
            2 => broken.date = None,
            3 => broken.home_team = None,
            4 => broken.away_team = None,
            _ => broken.status = None,
        }
        assert_eq!(
            broken.into_fixture(&arsenal()),
            Err(format!("unexpected NULL in column {}", name))
        );
    }
}

#[test]
fn home_flag_follows_the_home_side() {
    let home = row(1, "2025-01-10", "Arsenal", "Chelsea", "TIMED")
        .into_fixture(&arsenal())
        .unwrap();
    assert!(home.is_home);
    let away = row(1, "2025-01-10", "Arsenal", "Chelsea", "TIMED")
        .into_fixture(&chelsea())
        .unwrap();
    assert!(!away.is_home);
    assert_eq!(away.selected_team, chelsea());
    let neither = row(1, "2025-01-10", "Arsenal", "Chelsea", "TIMED")
        .into_fixture(&team(3, "Spurs"))
        .unwrap();
    assert!(!neither.is_home);
    let both = row(1, "2025-01-10", "Arsenal", "Arsenal", "TIMED")
        .into_fixture(&arsenal())
        .unwrap();
    assert!(both.is_home);
}

#[test]
fn rows_of_one_reply_keep_their_order() {
    let rows = vec![
        row(3, "2025-03-01", "Arsenal", "Spurs", "TIMED"),
        row(1, "2025-01-01", "Chelsea", "Arsenal", "TIMED"),
        row(2, "2025-02-01", "Arsenal", "Chelsea", "TIMED"),
    ];
    let fixtures = fixtures_from_rows(rows, &arsenal()).unwrap();
    assert_eq!(
        summary(&fixtures),
        vec![
            (3, "Arsenal".to_string(), true),
            (1, "Arsenal".to_string(), false),
            (2, "Arsenal".to_string(), true),
        ]
    );
    assert_eq!(fixtures[1].date, "2025-01-01");
    assert_eq!(fixtures[1].competition, "PL");
    assert_eq!(fixtures[1].home_team, "Chelsea");
    assert_eq!(fixtures[1].away_team, "Arsenal");
}

#[test]
fn no_rows_give_an_empty_group() {
    assert_eq!(fixtures_from_rows(vec![], &arsenal()), Ok(vec![]));
}
