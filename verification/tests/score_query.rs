use score_timeline::query::get_score;
use score_timeline::timeline::{check_timeline, Score, Stamp};

fn stamps() -> Vec<Stamp> {
    vec![
        Stamp {
            offset: 0,
            score: Score { home: 0, away: 0 },
        },
        Stamp {
            offset: 3,
            score: Score { home: 1, away: 1 },
        },
        Stamp {
            offset: 5,
            score: Score { home: 3, away: 1 },
        },
        Stamp {
            offset: 9,
            score: Score { home: 6, away: 0 },
        },
        Stamp {
            offset: 11,
            score: Score { home: 10, away: 2 },
        },
    ]
}

#[test]
fn offset_exactly_in_stamps() {
    let game_stamps = stamps();
    let offset: i32 = 5;
    let res = get_score(&game_stamps[..], offset);
    assert_eq!(res, (2, offset));
}

#[test]
fn offset_between_existing_stamps() {
    let game_stamps = stamps();
    let offset: i32 = 7;
    let res = get_score(&game_stamps[..], offset);
    assert_eq!(res, (2, offset));
}

#[test]
fn offset_is_out_of_the_right_stamp_range() {
    let game_stamps = stamps();
    let offset: i32 = 12;
    let res = get_score(&game_stamps[..], offset);
    assert_eq!(res, (8, offset));
}

#[test]
fn offset_is_out_of_the_left_stamp_range() {
    let game_stamps = stamps();
    let offset: i32 = -5;
    let res = get_score(&game_stamps[..], offset);
    assert_eq!(res, (0, offset));
}

#[test]
fn offset_at_every_exact_stamp() {
    let game_stamps = stamps();
    assert_eq!(get_score(&game_stamps[..], 0), (0, 0));
    assert_eq!(get_score(&game_stamps[..], 3), (0, 3));
    assert_eq!(get_score(&game_stamps[..], 9), (6, 9));
    assert_eq!(get_score(&game_stamps[..], 11), (8, 11));
}

#[test]
fn offset_floors_to_earlier_stamp() {
    let game_stamps = stamps();
    assert_eq!(get_score(&game_stamps[..], 1), (0, 1));
    assert_eq!(get_score(&game_stamps[..], 4), (0, 4));
    assert_eq!(get_score(&game_stamps[..], 8), (2, 8));
    assert_eq!(get_score(&game_stamps[..], 10), (6, 10));
}

#[test]
fn single_stamp_timeline() {
    let game_stamps = vec![Stamp {
        offset: 0,
        score: Score { home: 0, away: 0 },
    }];
    assert_eq!(get_score(&game_stamps[..], 0), (0, 0));
    assert_eq!(get_score(&game_stamps[..], 7), (0, 7));
    assert_eq!(get_score(&game_stamps[..], -3), (0, -3));
}

#[test]
fn check_timeline_accepts_valid() {
    let game_stamps = stamps();
    assert!(check_timeline(&game_stamps[..]));
}

#[test]
fn check_timeline_rejects_empty() {
    let game_stamps: Vec<Stamp> = Vec::new();
    assert!(!check_timeline(&game_stamps[..]));
}

#[test]
fn check_timeline_rejects_wrong_start() {
    let game_stamps = vec![Stamp {
        offset: 0,
        score: Score { home: 1, away: 0 },
    }];
    assert!(!check_timeline(&game_stamps[..]));
}

#[test]
fn check_timeline_rejects_unsorted_offsets() {
    let mut game_stamps = stamps();
    game_stamps[3].offset = 5;
    assert!(!check_timeline(&game_stamps[..]));
}

#[test]
fn check_timeline_rejects_negative_score() {
    let mut game_stamps = stamps();
    game_stamps[2].score.away = -1;
    assert!(!check_timeline(&game_stamps[..]));
}
