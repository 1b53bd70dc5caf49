use cricket_scoring::cricsheet::{
    Cricsheet, CricsheetInfo, CricsheetInnings, CricsheetMeta, Date, Delivery, Extras, Method,
    Outcome, Over, PenaltyRuns, Registry, Runs, Squad, Toss, Wicket,
};
use cricket_scoring::cricsheet::fixture::match_type_from;
use cricket_scoring::{
    Match, MatchResult, MatchStatus, MatchType, Player, Team, WinMargin,
};
use std::collections::HashMap;

fn delivery(batter: &str, non_striker: &str, bowler: &str, runs: i32) -> Delivery {
    Delivery {
        batter: batter.to_string(),
        bowler: bowler.to_string(),
        extras: None,
        non_striker: non_striker.to_string(),
        replacements: None,
        review: None,
        runs: Runs {
            batter: runs,
            extras: 0,
            non_boundary: None,
            total: runs,
        },
        wickets: None,
    }
}

fn no_extras() -> Extras {
    Extras {
        byes: None,
        legbyes: None,
        noballs: None,
        penalty: None,
        wides: None,
    }
}

fn parsed(record: &Delivery) -> cricket_scoring::BallOutcome {
    record.parse(
        Player::new(record.batter.clone()),
        Player::new(record.non_striker.clone()),
        Player::new(record.bowler.clone()),
    )
}

fn outcome() -> Outcome {
    Outcome {
        by: None,
        bowl_out: None,
        eliminator: None,
        method: None,
        result: None,
        winner: None,
    }
}

fn info(match_type: &str, dates: Vec<Date>) -> CricsheetInfo {
    CricsheetInfo {
        balls_per_over: 6,
        bowl_out: None,
        city: None,
        dates,
        event: None,
        gender: "female".to_string(),
        match_type: match_type.to_string(),
        match_type_number: None,
        missing: None,
        officials: None,
        outcome: outcome(),
        overs: Some(20),
        player_of_match: None,
        players: vec![
            Squad {
                team: "Stars".to_string(),
                players: vec!["Ann".to_string(), "Bea".to_string(), "Cat".to_string()],
            },
            Squad {
                team: "Comets".to_string(),
                players: vec!["Flo".to_string(), "Gil".to_string()],
            },
        ],
        registry: Registry {
            people: HashMap::new(),
        },
        season: "2024".to_string(),
        supersubs: None,
        team_type: "club".to_string(),
        teams: vec!["Comets".to_string(), "Stars".to_string()],
        toss: Toss {
            decision: "bat".to_string(),
            winner: "Stars".to_string(),
            uncontested: None,
        },
        venue: Some("The Oval".to_string()),
    }
}

fn stars() -> Team {
    info("T20", vec![]).team(&"Stars".to_string())
}

fn comets() -> Team {
    info("T20", vec![]).team(&"Comets".to_string())
}

fn first_innings() -> CricsheetInnings {
    let mut wide = delivery("Bea", "Ann", "Flo", 0);
    wide.extras = Some(Extras {
        wides: Some(1),
        ..no_extras()
    });
    let mut bowled = delivery("Bea", "Ann", "Gil", 0);
    bowled.wickets = Some(vec![Wicket {
        fielders: None,
        kind: "bowled".to_string(),
        player_out: "Bea".to_string(),
    }]);
    CricsheetInnings {
        team: "Stars".to_string(),
        overs: Some(vec![
            Over {
                over: 0,
                deliveries: vec![delivery("Ann", "Bea", "Flo", 1), wide, delivery("Bea", "Ann", "Flo", 4)],
            },
            Over {
                over: 1,
                deliveries: vec![bowled],
            },
        ]),
        absent_hurt: None,
        penalty_runs: Some(PenaltyRuns {
            pre: Some(5),
            post: Some(2),
        }),
        declared: None,
        forfeited: None,
        miscounted_overs: None,
        super_over: None,
    }
}

#[test]
fn delivery_with_nothing_but_runs() {
    let ball = parsed(&delivery("Ann", "Bea", "Flo", 3));
    assert_eq!(ball.runs, 3);
    assert_eq!(ball.on_strike.name, "Ann");
    assert_eq!(ball.off_strike.name, "Bea");
    assert_eq!(ball.bowler.name, "Flo");
    assert!(ball.wicket.is_none());
    assert!(ball.wide.is_none() && ball.no_ball.is_none());
    assert!(ball.byes.is_none() && ball.leg_byes.is_none() && ball.penalty.is_none());
    assert!(!ball.four && !ball.six && !ball.free_hit);
    assert!(ball.validate().is_ok());
}

#[test]
fn delivery_with_every_extra_but_one() {
    let mut record = delivery("Ann", "Bea", "Flo", 0);
    record.extras = Some(Extras {
        byes: Some(2),
        legbyes: None,
        noballs: Some(1),
        penalty: Some(5),
        wides: Some(3),
    });
    let ball = parsed(&record);
    assert_eq!(ball.byes, Some(2));
    assert_eq!(ball.leg_byes, None);
    assert_eq!(ball.no_ball, Some(1));
    assert_eq!(ball.penalty, Some(5));
    assert_eq!(ball.wide, Some(3));
}

#[test]
fn delivery_boundaries() {
    assert!(parsed(&delivery("Ann", "Bea", "Flo", 4)).four);
    assert!(!parsed(&delivery("Ann", "Bea", "Flo", 4)).six);
    assert!(parsed(&delivery("Ann", "Bea", "Flo", 6)).six);
    assert!(!parsed(&delivery("Ann", "Bea", "Flo", 5)).four);
    let mut all_run = delivery("Ann", "Bea", "Flo", 4);
    all_run.runs.non_boundary = Some(true);
    assert!(!parsed(&all_run).four);
    all_run.runs.non_boundary = Some(false);
    assert!(parsed(&all_run).four);
    let mut six_run = delivery("Ann", "Bea", "Flo", 6);
    six_run.runs.non_boundary = Some(true);
    assert!(!parsed(&six_run).six);
}

#[test]
fn delivery_dismissals_keep_their_order() {
    let mut record = delivery("Ann", "Bea", "Flo", 0);
    record.wickets = Some(vec![
        Wicket {
            fielders: None,
            kind: "run out".to_string(),
            player_out: "Bea".to_string(),
        },
        Wicket {
            fielders: None,
            kind: "retired hurt".to_string(),
            player_out: "Ann".to_string(),
        },
    ]);
    let wickets = parsed(&record).wicket.unwrap();
    assert_eq!(wickets.len(), 2);
    assert_eq!(wickets[0].player_out, "Bea");
    assert_eq!(wickets[0].kind, "run out");
    assert_eq!(wickets[1].player_out, "Ann");
    assert_eq!(wickets[1].kind, "retired hurt");
}

#[test]
fn results_that_the_record_names() {
    let mut record = outcome();
    record.method = Some("D/L".to_string());
    record.winner = Some("Stars".to_string());
    record.result = Some("draw".to_string());
    assert!(matches!(
        record.create_match_result("Stars", "Comets"),
        MatchResult::Draw
    ));
    record.result = Some("tie".to_string());
    assert!(matches!(
        record.create_match_result("Stars", "Comets"),
        MatchResult::Tie { method: Some(m) } if m == "D/L"
    ));
    record.result = Some("no result".to_string());
    assert!(matches!(
        record.create_match_result("Stars", "Comets"),
        MatchResult::NoResult
    ));
    record.result = Some("Draw".to_string());
    assert!(matches!(
        record.create_match_result("Stars", "Comets"),
        MatchResult::Team1Won {
            margin: WinMargin::Award,
            method: Some(_)
        }
    ));
}

#[test]
fn wins_and_their_margins() {
    let mut record = outcome();
    assert!(matches!(
        record.create_match_result("Stars", "Comets"),
        MatchResult::NoResult
    ));
    record.winner = Some("Comets".to_string());
    assert!(matches!(
        record.create_match_result("Stars", "Comets"),
        MatchResult::Team2Won {
            margin: WinMargin::Award,
            method: None
        }
    ));
    record.by = Some(Method {
        innings: None,
        runs: None,
        wickets: None,
    });
    assert!(matches!(
        record.create_match_result("Stars", "Comets"),
        MatchResult::Team2Won {
            margin: WinMargin::Award,
            method: None
        }
    ));
    record.by = Some(Method {
        innings: None,
        runs: None,
        wickets: Some(7),
    });
    assert!(matches!(
        record.create_match_result("Stars", "Comets"),
        MatchResult::Team2Won {
            margin: WinMargin::Wickets(7),
            method: None
        }
    ));
    record.by = Some(Method {
        innings: Some(1),
        runs: Some(25),
        wickets: Some(7),
    });
    assert!(matches!(
        record.create_match_result("Comets", "Stars"),
        MatchResult::Team1Won {
            margin: WinMargin::Runs(25),
            method: None
        }
    ));
    assert!(matches!(
        record.create_match_result("Stars", "Meteors"),
        MatchResult::NoResult
    ));
    record.by = Some(Method {
        innings: None,
        runs: Some(-1),
        wickets: None,
    });
    assert!(matches!(
        record.create_match_result("Comets", "Stars"),
        MatchResult::Team1Won {
            margin: WinMargin::Runs(4294967295),
            method: None
        }
    ));
    record.by = Some(Method {
        innings: None,
        runs: None,
        wickets: Some(-1),
    });
    assert!(matches!(
        record.create_match_result("Comets", "Stars"),
        MatchResult::Team1Won {
            margin: WinMargin::Wickets(255),
            method: None
        }
    ));
}

#[test]
fn side_with_its_squad() {
    let side = stars();
    assert_eq!(side.name, "Stars");
    assert_eq!(side.players.len(), 3);
    assert_eq!(side.players[0].name, "Ann");
    assert_eq!(side.players[2].name, "Cat");
    assert_eq!(side.players[1].runs, 0);
    assert!(!side.players[1].out);
    assert_eq!(comets().players.len(), 2);
}

#[test]
fn dates_as_text() {
    let text = |year, month, day| Date { year, month, day }.to_text();
    assert_eq!(text(2025, 1, 15), Some("2025-01-15".to_string()));
    assert_eq!(text(2024, 2, 29), Some("2024-02-29".to_string()));
    assert_eq!(text(2023, 2, 29), None);
    assert_eq!(text(2023, 13, 1), None);
    assert_eq!(text(2023, 0, 1), None);
    assert_eq!(text(2023, 4, 31), None);
    assert_eq!(text(987, 12, 31), Some("0987-12-31".to_string()));
    assert_eq!(text(12345, 1, 1), Some("+12345-01-01".to_string()));
    assert_eq!(text(400000, 1, 1), None);
}

#[test]
fn match_types_by_name() {
    assert!(matches!(
        match_type_from("test", &"Test".to_string()),
        MatchType::Test
    ));
    assert!(matches!(
        match_type_from("odi", &"ODI".to_string()),
        MatchType::OD
    ));
    assert!(matches!(
        match_type_from("t20", &"T20".to_string()),
        MatchType::T20
    ));
    assert!(matches!(
        match_type_from("it20", &"IT20".to_string()),
        MatchType::Other(name) if name == "IT20"
    ));
    assert!(matches!(
        match_type_from("Test", &"Test".to_string()),
        MatchType::Other(name) if name == "Test"
    ));
}

#[test]
fn game_from_a_file() {
    let file = |match_type: &str, dates: Vec<Date>| Cricsheet {
        meta: CricsheetMeta {
            data_version: "1.1.0".to_string(),
            created: "2024-05-01".to_string(),
            revision: 1,
        },
        info: info(match_type, dates),
        innings: vec![],
    };
    let game = file(
        "TEST",
        vec![
            Date {
                year: 2024,
                month: 4,
                day: 30,
            },
            Date {
                year: 2024,
                month: 5,
                day: 1,
            },
        ],
    )
    .create_game();
    assert_eq!(game.id, "1");
    assert_eq!(game.title, "Comets vs Stars");
    assert_eq!(game.venue, Some("The Oval".to_string()));
    assert_eq!(game.date, Some("2024-04-30".to_string()));
    assert!(matches!(game.match_type, MatchType::Test));
    assert_eq!(game.team1.name, "Comets");
    assert_eq!(game.team1.players.len(), 2);
    assert_eq!(game.team2.name, "Stars");
    assert_eq!(game.team2.players.len(), 3);
    assert!(game.innings.is_empty());
    assert!(matches!(game.status, MatchStatus::NotStarted));
    assert!(game.result.is_none());

    let undated = file("Odi", vec![]).create_game();
    assert!(matches!(undated.match_type, MatchType::OD));
    assert_eq!(undated.date, None);
    let hundred = file("The Hundred", vec![Date { year: 2024, month: 2, day: 30 }]).create_game();
    assert!(matches!(hundred.match_type, MatchType::Other(name) if name == "The Hundred"));
    assert_eq!(hundred.date, None);
}

#[test]
fn innings_played_through() {
    let mut game = Match::new(
        "1".to_string(),
        "Comets vs Stars".to_string(),
        MatchType::T20,
        comets(),
        stars(),
    );
    first_innings().process_innings(&mut game);
    assert_eq!(game.innings.len(), 1);
    let innings = &game.innings[0];
    assert_eq!(innings.batting_team.name, "Stars");
    assert_eq!(innings.bowling_team.name, "Comets");
    assert!(innings.finished);
    // 5 before the first ball, 1, a wide, 4, a wicket, 2 after the last ball
    assert_eq!(innings.score.runs, 13);
    assert_eq!(innings.score.wides, 1);
    assert_eq!(innings.score.wickets_lost, 1);
    assert_eq!(innings.score.wickets_left, 9);
    assert_eq!(innings.score.over, 2);
    assert_eq!(innings.score.ball, 0);
    assert_eq!(innings.batting_team.players[0].runs, 1);
    assert_eq!(innings.batting_team.players[0].balls_faced, 1);
    assert_eq!(innings.batting_team.players[1].runs, 4);
    assert_eq!(innings.batting_team.players[1].fours, 1);
    assert_eq!(innings.batting_team.players[1].balls_faced, 2);
    assert!(innings.batting_team.players[1].out);
    assert_eq!(innings.bowling_team.players[0].balls_bowled, 2);
    assert_eq!(innings.bowling_team.players[0].wides, 1);
    assert_eq!(innings.bowling_team.players[0].runs_conceded, 6);
    assert_eq!(innings.bowling_team.players[1].runs_conceded, 0);
    assert_eq!(innings.bowling_team.players[1].wickets_taken, 1);
    // Bea out on strike, Cat in at her end, and the ends changed by the over.
    assert_eq!(innings.on_strike, 0);
    assert_eq!(innings.off_strike, 2);
    // The rosters of the match itself are as they were.
    assert_eq!(game.team2.players[1].runs, 0);
}

#[test]
fn innings_state_by_state() {
    let states = first_innings().process_innings_with_states(comets(), stars());
    assert_eq!(states.len(), 4);
    assert_eq!(states[0].score.runs, 6);
    assert_eq!(states[1].score.runs, 7);
    assert_eq!(states[2].score.runs, 11);
    assert_eq!(states[3].score.runs, 13);
    assert_eq!(states[0].score.ball, 1);
    assert_eq!(states[1].score.ball, 1);
    assert_eq!(states[2].score.ball, 2);
    assert_eq!(states[2].score.over, 0);
    assert_eq!(states[3].score.over, 2);
    assert!(!states[0].finished && !states[1].finished && !states[2].finished);
    assert!(states[3].finished);
    assert_eq!((states[0].on_strike, states[0].off_strike), (1, 0));
    assert_eq!(states[0].batting_team.name, "Stars");

    let mut game = Match::new(
        "1".to_string(),
        "Comets vs Stars".to_string(),
        MatchType::T20,
        comets(),
        stars(),
    );
    first_innings().process_innings(&mut game);
    assert_eq!(format!("{:?}", states[3]), format!("{:?}", game.innings[0]));
}

#[test]
fn innings_without_play() {
    let idle = CricsheetInnings {
        team: "Nobody".to_string(),
        overs: None,
        absent_hurt: None,
        penalty_runs: None,
        declared: None,
        forfeited: Some(true),
        miscounted_overs: None,
        super_over: None,
    };
    assert!(idle
        .process_innings_with_states(comets(), stars())
        .is_empty());
    let mut game = Match::new(
        "1".to_string(),
        "Comets vs Stars".to_string(),
        MatchType::T20,
        comets(),
        stars(),
    );
    idle.process_innings(&mut game);
    // A side that is not the first team by name is taken for the second.
    assert_eq!(game.innings[0].batting_team.name, "Stars");
    assert_eq!(game.innings[0].score.runs, 0);
    assert_eq!(game.innings[0].score.wickets_left, 10);
    assert!(game.innings[0].finished);
}

#[test]
fn margins_in_words() {
    let words = |innings, runs, wickets| {
        Method {
            innings,
            runs,
            wickets,
        }
        .to_string()
    };
    assert_eq!(words(None, Some(25), None), "Won by 25 runs");
    assert_eq!(words(Some(1), Some(25), None), "Won by an innings and 25 runs");
    assert_eq!(words(None, None, Some(7)), "Won by 7 wickets");
    assert_eq!(
        words(Some(1), None, Some(7)),
        "Won by an innings and 7 wickets"
    );
    assert_eq!(words(None, Some(25), Some(7)), "Won by 25 runs");
    assert_eq!(words(None, Some(-3), None), "Won by -3 runs");
}

#[test]
fn squads_by_side() {
    let record = info("T20", vec![]);
    assert_eq!(record.find_squad("Stars"), Some(0));
    assert_eq!(record.find_squad("Comets"), Some(1));
    assert_eq!(record.find_squad("stars"), None);
    assert_eq!(record.find_squad(""), None);
}

#[test]
fn innings_that_cannot_be_replayed() {
    assert!(first_innings().is_replayable(&comets(), &stars()));
    assert!(first_innings().is_replayable(&stars(), &comets()));

    // A batter whom the batting side does not have
    let mut unknown_batter = first_innings();
    unknown_batter.overs.as_mut().unwrap()[0].deliveries[2].batter = "Flo".to_string();
    assert!(!unknown_batter.is_replayable(&comets(), &stars()));

    // A bowler whom the bowling side does not have
    let mut unknown_bowler = first_innings();
    unknown_bowler.overs.as_mut().unwrap()[1].deliveries[0].bowler = "Ann".to_string();
    assert!(!unknown_bowler.is_replayable(&comets(), &stars()));

    // Byes and leg byes on one delivery
    let mut both = first_innings();
    both.overs.as_mut().unwrap()[0].deliveries[0].extras = Some(Extras {
        byes: Some(1),
        legbyes: Some(1),
        ..no_extras()
    });
    assert!(!both.is_replayable(&comets(), &stars()));

    // A dismissed player whom the batting side does not have
    let mut unknown_out = first_innings();
    unknown_out.overs.as_mut().unwrap()[1].deliveries[0]
        .wickets
        .as_mut()
        .unwrap()[0]
        .player_out = "Flo".to_string();
    assert!(!unknown_out.is_replayable(&comets(), &stars()));

    // A total beyond the counter
    let mut too_many = first_innings();
    too_many.penalty_runs = Some(PenaltyRuns {
        pre: Some(i32::MAX - 5),
        post: None,
    });
    assert!(!too_many.is_replayable(&comets(), &stars()));
    too_many.penalty_runs = Some(PenaltyRuns {
        pre: Some(i32::MAX - 7),
        post: Some(1),
    });
    assert!(too_many.is_replayable(&comets(), &stars()));
    too_many.penalty_runs = Some(PenaltyRuns {
        pre: Some(i32::MAX - 7),
        post: Some(2),
    });
    assert!(!too_many.is_replayable(&comets(), &stars()));

    // The side of the innings is the second team unless it is the first by name
    let mut other_side = first_innings();
    other_side.team = "Comets".to_string();
    assert!(!other_side.is_replayable(&comets(), &stars()));
}
