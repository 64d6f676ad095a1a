use rust_racer::flow::{
    button_feedback, run_events, scoreboard_event, ButtonFeedback, FlowEvent, GameState,
    PointerState, ScoreboardButton,
};
use rust_racer::settings::{Difficulty, DifficultySetting};

#[test]
fn game_starts_on_splash_screen() {
    assert_eq!(GameState::initial(), GameState::Splash);
}

#[test]
fn full_round_of_screens() {
    let mut s = GameState::initial();
    s = s.next(FlowEvent::SplashFinished);
    assert_eq!(s, GameState::MainMenu);
    s = s.next(FlowEvent::StartPressed);
    assert_eq!(s, GameState::Loading);
    s = s.next(FlowEvent::LoadingFinished);
    assert_eq!(s, GameState::GeneratingLevel);
    s = s.next(FlowEvent::LevelGenerated);
    assert_eq!(s, GameState::Racing);
    assert!(s.is_racing());
    s = s.next(FlowEvent::PlayerFinished);
    assert_eq!(s, GameState::Scoreboard);
    s = s.next(FlowEvent::ContinuePressed);
    assert_eq!(s, GameState::PostRace);
    s = s.next(FlowEvent::PostRaceEntered);
    assert_eq!(s, GameState::GeneratingLevel);
}

#[test]
fn events_that_do_not_apply_change_nothing() {
    assert_eq!(GameState::MainMenu.next(FlowEvent::PlayerFinished), GameState::MainMenu);
    assert_eq!(GameState::Splash.next(FlowEvent::StartPressed), GameState::Splash);
    assert_eq!(GameState::GameOver.next(FlowEvent::PostRaceEntered), GameState::GameOver);
    assert_eq!(GameState::Scoreboard.next(FlowEvent::EscapePressed), GameState::Scoreboard);
}

#[test]
fn escape_leaves_race_for_main_menu() {
    assert_eq!(GameState::Racing.next(FlowEvent::EscapePressed), GameState::MainMenu);
}

#[test]
fn scoreboard_buttons() {
    assert_eq!(
        GameState::Scoreboard.next(scoreboard_event(ScoreboardButton::MainMenu)),
        GameState::MainMenu
    );
    assert_eq!(
        GameState::Scoreboard.next(scoreboard_event(ScoreboardButton::Continue)),
        GameState::PostRace
    );
}

#[test]
fn post_race_is_not_a_dead_end() {
    let events = vec![FlowEvent::PostRaceEntered, FlowEvent::LevelGenerated];
    assert_eq!(run_events(GameState::PostRace, &events), GameState::Racing);
}

#[test]
fn every_screen_but_game_over_leads_back_to_a_race() {
    let from_splash = vec![
        FlowEvent::SplashFinished,
        FlowEvent::StartPressed,
        FlowEvent::LoadingFinished,
        FlowEvent::LevelGenerated,
    ];
    assert_eq!(run_events(GameState::Splash, &from_splash), GameState::Racing);
    let from_scoreboard = vec![
        FlowEvent::ContinuePressed,
        FlowEvent::PostRaceEntered,
        FlowEvent::LevelGenerated,
    ];
    assert_eq!(run_events(GameState::Scoreboard, &from_scoreboard), GameState::Racing);
    assert_eq!(run_events(GameState::GameOver, &from_splash), GameState::GameOver);
}

#[test]
fn buttons_react_to_pointer() {
    assert_eq!(button_feedback(PointerState::Pressed), ButtonFeedback::Activate);
    assert_eq!(button_feedback(PointerState::Hovered), ButtonFeedback::Highlight);
    assert_eq!(button_feedback(PointerState::Idle), ButtonFeedback::Normal);
}

#[test]
fn difficulty_defaults() {
    let d = Difficulty::new();
    assert_eq!(d.value(DifficultySetting::AiAggression), 10);
    assert_eq!(d.value(DifficultySetting::SteeringSensitivity), 30);
    assert_eq!(d.value(DifficultySetting::TopSpeed), 120);
    assert_eq!(d.value(DifficultySetting::Acceleration), 500);
    assert_eq!(d.value(DifficultySetting::Laps), 3);
    let e = Difficulty::default();
    assert_eq!(e.value(DifficultySetting::Laps), 3);
}

#[test]
fn difficulty_steps_and_clamps() {
    let mut d = Difficulty::new();
    d.adjust(DifficultySetting::TopSpeed, true);
    assert_eq!(d.value(DifficultySetting::TopSpeed), 130);
    d.adjust(DifficultySetting::TopSpeed, false);
    d.adjust(DifficultySetting::TopSpeed, false);
    assert_eq!(d.value(DifficultySetting::TopSpeed), 110);
    for _ in 0..20 {
        d.adjust(DifficultySetting::Laps, true);
    }
    assert_eq!(d.value(DifficultySetting::Laps), 10);
    for _ in 0..20 {
        d.adjust(DifficultySetting::Laps, false);
    }
    assert_eq!(d.value(DifficultySetting::Laps), 1);
    for _ in 0..100 {
        d.adjust(DifficultySetting::Acceleration, true);
    }
    assert_eq!(d.value(DifficultySetting::Acceleration), 2000);
    // The other settings did not move.
    assert_eq!(d.value(DifficultySetting::AiAggression), 10);
    assert_eq!(d.value(DifficultySetting::SteeringSensitivity), 30);
}

#[test]
fn ai_aggression_range_and_step() {
    let mut d = Difficulty::new();
    for _ in 0..10 {
        d.adjust(DifficultySetting::AiAggression, false);
    }
    assert_eq!(d.value(DifficultySetting::AiAggression), 2);
    d.adjust(DifficultySetting::AiAggression, true);
    assert_eq!(d.value(DifficultySetting::AiAggression), 4);
    assert_eq!(Difficulty::min(DifficultySetting::SteeringSensitivity), 5);
    assert_eq!(Difficulty::max(DifficultySetting::SteeringSensitivity), 100);
    assert_eq!(Difficulty::step(DifficultySetting::SteeringSensitivity), 5);
}

#[test]
fn increase_then_decrease_restores_value() {
    let mut d = Difficulty::new();
    d.adjust(DifficultySetting::SteeringSensitivity, true);
    d.adjust(DifficultySetting::SteeringSensitivity, false);
    assert_eq!(d.value(DifficultySetting::SteeringSensitivity), 30);
}
