use vstd::prelude::*;

verus! {

/// The screens the game moves through.
#[derive(Debug, Clone, Copy, PartialEq, Eq, Structural)]
pub enum GameState {
    Splash,
    MainMenu,
    Loading,
    GeneratingLevel,
    Racing,
    Scoreboard,
    PostRace,
    GameOver,
}

/// Something that happened which may move the game to another screen.
#[derive(Debug, Clone, Copy, PartialEq, Eq, Structural)]
pub enum FlowEvent {
    /// The splash screen's timer ran out.
    SplashFinished,
    /// "START RACE" was pressed on the main menu.
    StartPressed,
    /// The loading screen's timer ran out.
    LoadingFinished,
    /// Level generation completed.
    LevelGenerated,
    /// Escape was pressed.
    EscapePressed,
    /// The player crossed the line on the final lap.
    PlayerFinished,
    /// "Main Menu" was pressed on the scoreboard.
    MainMenuPressed,
    /// "Continue" was pressed on the scoreboard.
    ContinuePressed,
    /// The post-race screen was entered.
    PostRaceEntered,
}

/// The screen the game starts on.
pub open spec fn spec_initial_state() -> GameState {
    GameState::Splash
}

/// The transition table of the screen flow; an event that does not apply to
/// the current screen leaves it unchanged.
pub open spec fn spec_next_state(state: GameState, event: FlowEvent) -> GameState {
    match (state, event) {
        (GameState::Splash, FlowEvent::SplashFinished) => GameState::MainMenu,
        (GameState::MainMenu, FlowEvent::StartPressed) => GameState::Loading,
        (GameState::Loading, FlowEvent::LoadingFinished) => GameState::GeneratingLevel,
        (GameState::GeneratingLevel, FlowEvent::LevelGenerated) => GameState::Racing,
        (GameState::Racing, FlowEvent::EscapePressed) => GameState::MainMenu,
        (GameState::Racing, FlowEvent::PlayerFinished) => GameState::Scoreboard,
        (GameState::Scoreboard, FlowEvent::MainMenuPressed) => GameState::MainMenu,
        (GameState::Scoreboard, FlowEvent::ContinuePressed) => GameState::PostRace,
        (GameState::PostRace, FlowEvent::PostRaceEntered) => GameState::GeneratingLevel,
        _ => state,
    }
}

/// The screen reached by feeding `events` in order, starting from `state`.
pub open spec fn spec_run(state: GameState, events: Seq<FlowEvent>) -> GameState
    decreases events.len(),
{
    if events.len() == 0 {
        state
    } else {
        spec_run(spec_next_state(state, events[0]), events.drop_first())
    }
}

impl GameState {
    /// The screen the game starts on.
    pub fn initial() -> (s: GameState)
        ensures
            s == spec_initial_state(),
    {
        GameState::Splash
    }

    /// The screen that follows `self` when `event` happens.
    pub fn next(self, event: FlowEvent) -> (s: GameState)
        ensures
            s == spec_next_state(self, event),
    {
        match (self, event) {
            (GameState::Splash, FlowEvent::SplashFinished) => GameState::MainMenu,
            (GameState::MainMenu, FlowEvent::StartPressed) => GameState::Loading,
            (GameState::Loading, FlowEvent::LoadingFinished) => GameState::GeneratingLevel,
            (GameState::GeneratingLevel, FlowEvent::LevelGenerated) => GameState::Racing,
            (GameState::Racing, FlowEvent::EscapePressed) => GameState::MainMenu,
            (GameState::Racing, FlowEvent::PlayerFinished) => GameState::Scoreboard,
            (GameState::Scoreboard, FlowEvent::MainMenuPressed) => GameState::MainMenu,
            (GameState::Scoreboard, FlowEvent::ContinuePressed) => GameState::PostRace,
            (GameState::PostRace, FlowEvent::PostRaceEntered) => GameState::GeneratingLevel,
            _ => self,
        }
    }

    /// Whether the race simulation (vehicles, AI, HUD) runs on this screen.
    pub fn is_racing(self) -> (b: bool)
        ensures
            b == (self == GameState::Racing),
    {
        match self {
            GameState::Racing => true,
            _ => false,
        }
    }
}

/// Feeds a list of events to the screen flow, one after the other.
pub fn run_events(state: GameState, events: &Vec<FlowEvent>) -> (s: GameState)
    ensures
        s == spec_run(state, events@),
{
    let mut cur = state;
    let mut i: usize = 0;
    proof {
        assert(events@.skip(0) =~= events@);
    }
    while i < events.len()
        invariant
            i <= events.len(),
            spec_run(cur, events@.skip(i as int)) == spec_run(state, events@),
        decreases events.len() - i,
    {
        proof {
            assert(events@.skip(i as int).drop_first() =~= events@.skip(i + 1));
        }
        cur = cur.next(events[i]);
        i = i + 1;
    }
    proof {
        assert(events@.skip(i as int).len() == 0);
    }
    cur
}

/// How a button reacts to the pointer.
#[derive(Debug, Clone, Copy, PartialEq, Eq, Structural)]
pub enum PointerState {
    Pressed,
    Hovered,
    Idle,
}

/// What a button does in response to the pointer.
#[derive(Debug, Clone, Copy, PartialEq, Eq, Structural)]
pub enum ButtonFeedback {
    /// The button's action fires.
    Activate,
    /// The button is drawn in its brighter hover colour.
    Highlight,
    /// The button is drawn in its normal colour.
    Normal,
}

/// A menu button fires when pressed, brightens while hovered and returns to
/// its normal colour otherwise.
pub fn button_feedback(pointer: PointerState) -> (f: ButtonFeedback)
    ensures
        pointer == PointerState::Pressed ==> f == ButtonFeedback::Activate,
        pointer == PointerState::Hovered ==> f == ButtonFeedback::Highlight,
        pointer == PointerState::Idle ==> f == ButtonFeedback::Normal,
{
    match pointer {
        PointerState::Pressed => ButtonFeedback::Activate,
        PointerState::Hovered => ButtonFeedback::Highlight,
        PointerState::Idle => ButtonFeedback::Normal,
    }
}

/// The two buttons of the scoreboard.
#[derive(Debug, Clone, Copy, PartialEq, Eq, Structural)]
pub enum ScoreboardButton {
    MainMenu,
    Continue,
}

/// The flow event a pressed scoreboard button raises.
pub fn scoreboard_event(button: ScoreboardButton) -> (e: FlowEvent)
    ensures
        button == ScoreboardButton::MainMenu ==> e == FlowEvent::MainMenuPressed,
        button == ScoreboardButton::Continue ==> e == FlowEvent::ContinuePressed,
{
    match button {
        ScoreboardButton::MainMenu => FlowEvent::MainMenuPressed,
        ScoreboardButton::Continue => FlowEvent::ContinuePressed,
    }
}

/// No event ever moves the game onto the game-over screen: nothing in the
/// flow leads there.
pub proof fn lemma_game_over_unreachable(state: GameState, events: Seq<FlowEvent>)
    requires
        state != GameState::GameOver,
    ensures
        spec_run(state, events) != GameState::GameOver,
    decreases events.len(),
{
    if events.len() > 0 {
        lemma_game_over_unreachable(spec_next_state(state, events[0]), events.drop_first());
    }
}

/// The events that take the game from `state` back into a race.
pub open spec fn spec_path_to_race(state: GameState) -> Seq<FlowEvent> {
    match state {
        GameState::Splash => seq![
            FlowEvent::SplashFinished,
            FlowEvent::StartPressed,
            FlowEvent::LoadingFinished,
            FlowEvent::LevelGenerated,
        ],
        GameState::MainMenu => seq![
            FlowEvent::StartPressed,
            FlowEvent::LoadingFinished,
            FlowEvent::LevelGenerated,
        ],
        GameState::Loading => seq![FlowEvent::LoadingFinished, FlowEvent::LevelGenerated],
        GameState::GeneratingLevel => seq![FlowEvent::LevelGenerated],
        GameState::Racing => seq![],
        GameState::Scoreboard => seq![
            FlowEvent::ContinuePressed,
            FlowEvent::PostRaceEntered,
            FlowEvent::LevelGenerated,
        ],
        GameState::PostRace => seq![FlowEvent::PostRaceEntered, FlowEvent::LevelGenerated],
        GameState::GameOver => seq![],
    }
}

/// No screen of the flow is a dead end: from every screen but game over (which
/// nothing reaches) some sequence of events leads into a race again. In
/// particular the post-race screen is not a dead end.
pub proof fn lemma_no_dead_end(state: GameState)
    requires
        state != GameState::GameOver,
    ensures
        exists|events: Seq<FlowEvent>| spec_run(state, events) == GameState::Racing,
{
    let events = spec_path_to_race(state);
    assert(spec_run(state, events) == GameState::Racing) by {
        reveal_with_fuel(spec_run, 5);
    }
}

/// Every race can be finished and left: finishing shows the scoreboard, and
/// from the scoreboard both buttons lead back into the flow (the main menu, or
/// a fresh level through the post-race screen).
pub proof fn lemma_race_round_trip()
    ensures
        spec_next_state(GameState::Racing, FlowEvent::PlayerFinished) == GameState::Scoreboard,
        spec_run(
            GameState::Scoreboard,
            seq![FlowEvent::ContinuePressed, FlowEvent::PostRaceEntered],
        ) == GameState::GeneratingLevel,
        spec_next_state(GameState::Scoreboard, FlowEvent::MainMenuPressed)
            == GameState::MainMenu,
{
    reveal_with_fuel(spec_run, 3);
}

/// Escape only matters during a race, where it returns to the main menu.
pub proof fn lemma_escape_only_leaves_race(state: GameState)
    ensures
        spec_next_state(state, FlowEvent::EscapePressed) == (if state == GameState::Racing {
            GameState::MainMenu
        } else {
            state
        }),
{
}

/// Every change of screen is one of the flow's nine moves, and each screen is
/// entered only from where the flow says: loading only from the main menu's
/// start button; level generation only from loading or the post-race screen;
/// a race only from level generation; the scoreboard only by finishing a race;
/// the post-race screen only by "Continue"; the main menu only from the
/// splash, a race (escape) or the scoreboard's "Main Menu". Nothing enters the
/// splash or game-over screens.
pub proof fn lemma_screens_entered_only_by_flow(state: GameState, event: FlowEvent)
    ensures
        ({
            let t = spec_next_state(state, event);
            &&& t == GameState::Loading && state != t ==> state == GameState::MainMenu && event
                == FlowEvent::StartPressed
            &&& t == GameState::GeneratingLevel && state != t ==> (state == GameState::Loading
                && event == FlowEvent::LoadingFinished) || (state == GameState::PostRace && event
                == FlowEvent::PostRaceEntered)
            &&& t == GameState::Racing && state != t ==> state == GameState::GeneratingLevel
                && event == FlowEvent::LevelGenerated
            &&& t == GameState::Scoreboard && state != t ==> state == GameState::Racing && event
                == FlowEvent::PlayerFinished
            &&& t == GameState::PostRace && state != t ==> state == GameState::Scoreboard && event
                == FlowEvent::ContinuePressed
            &&& t == GameState::MainMenu && state != t ==> (state == GameState::Splash && event
                == FlowEvent::SplashFinished) || (state == GameState::Racing && event
                == FlowEvent::EscapePressed) || (state == GameState::Scoreboard && event
                == FlowEvent::MainMenuPressed)
            &&& t == GameState::Splash ==> state == GameState::Splash
            &&& t == GameState::GameOver ==> state == GameState::GameOver
        }),
{
}

/// The flow's moves: splash to menu when its timer ends, menu to loading on
/// start, loading to level generation when its timer ends, generation to the
/// race, race to scoreboard on finishing or to the menu on escape, scoreboard
/// to menu or post-race by its buttons, post-race to level generation.
pub proof fn lemma_flow_moves()
    ensures
        spec_initial_state() == GameState::Splash,
        spec_next_state(GameState::Splash, FlowEvent::SplashFinished) == GameState::MainMenu,
        spec_next_state(GameState::MainMenu, FlowEvent::StartPressed) == GameState::Loading,
        spec_next_state(GameState::Loading, FlowEvent::LoadingFinished)
            == GameState::GeneratingLevel,
        spec_next_state(GameState::GeneratingLevel, FlowEvent::LevelGenerated)
            == GameState::Racing,
        spec_next_state(GameState::Racing, FlowEvent::PlayerFinished) == GameState::Scoreboard,
        spec_next_state(GameState::Racing, FlowEvent::EscapePressed) == GameState::MainMenu,
        spec_next_state(GameState::Scoreboard, FlowEvent::MainMenuPressed) == GameState::MainMenu,
        spec_next_state(GameState::Scoreboard, FlowEvent::ContinuePressed) == GameState::PostRace,
        spec_next_state(GameState::PostRace, FlowEvent::PostRaceEntered)
            == GameState::GeneratingLevel,
{
}

} // verus!
