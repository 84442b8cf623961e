use crate::game::GameAction;
use crate::game_over::GameOverAction;
use crate::menu::MainMenuAction;
use crate::options::OptionsAction;
use crate::pause::PauseAction;
use vstd::prelude::*;

verus! {

/// The screens of the game.
#[derive(Clone, Copy, Debug, PartialEq, Eq, Structural)]
pub enum Scene {
    MainMenu,
    Game,
    GameOver,
    Pause,
    Options,
}

/// What a screen's frame asked for.
#[derive(Clone, Copy, Debug, PartialEq, Eq, Structural)]
pub enum SceneEvent {
    Menu(MainMenuAction),
    Play(GameAction),
    Paused(PauseAction),
    Over(GameOverAction),
    Settings(OptionsAction),
}

/// What the program is to do after a frame.
#[derive(Clone, Copy, Debug, PartialEq, Eq, Structural)]
pub enum Request {
    Stay,
    /// Switch to the given screen.
    Switch(Scene),
    /// Read the save file and play it if that succeeds.
    LoadAndPlay,
    Quit,
}

/// The current screen and the screen the options return to.
#[derive(Clone, Copy, Debug)]
pub struct SceneFlow {
    pub scene: Scene,
    pub after_options: Scene,
}

/// The screen switches: `(after_options, request)` for an event on a
/// screen. The options remember where they were opened from and return
/// there.
pub open spec fn route(scene: Scene, after_options: Scene, event: SceneEvent) -> (Scene, Request) {
    match (scene, event) {
        (Scene::MainMenu, SceneEvent::Menu(a)) => match a {
            MainMenuAction::NewGame => (after_options, Request::Switch(Scene::Game)),
            MainMenuAction::Options => (Scene::MainMenu, Request::Switch(Scene::Options)),
            MainMenuAction::LoadGame => (after_options, Request::LoadAndPlay),
            MainMenuAction::Quit => (after_options, Request::Quit),
            MainMenuAction::Idle => (after_options, Request::Stay),
        },
        (Scene::Game, SceneEvent::Play(a)) => match a {
            GameAction::Pause => (after_options, Request::Switch(Scene::Pause)),
            GameAction::Options => (Scene::Game, Request::Switch(Scene::Options)),
            GameAction::GameOver => (after_options, Request::Switch(Scene::GameOver)),
            GameAction::Idle => (after_options, Request::Stay),
        },
        (Scene::Pause, SceneEvent::Paused(a)) => match a {
            PauseAction::Resume => (after_options, Request::Switch(Scene::Game)),
            PauseAction::Load => (after_options, Request::LoadAndPlay),
            PauseAction::Options => (Scene::Pause, Request::Switch(Scene::Options)),
            PauseAction::MainMenu => (after_options, Request::Switch(Scene::MainMenu)),
            PauseAction::Quit => (after_options, Request::Quit),
            PauseAction::Save | PauseAction::Idle => (after_options, Request::Stay),
        },
        (Scene::GameOver, SceneEvent::Over(a)) => match a {
            GameOverAction::Replay => (after_options, Request::Switch(Scene::Game)),
            GameOverAction::MainMenu => (after_options, Request::Switch(Scene::MainMenu)),
            GameOverAction::Quit => (after_options, Request::Quit),
            GameOverAction::Idle => (after_options, Request::Stay),
        },
        (Scene::Options, SceneEvent::Settings(a)) => match a {
            OptionsAction::Back(_, _, _) => (after_options, Request::Switch(after_options)),
            OptionsAction::Idle => (after_options, Request::Stay),
        },
        _ => (after_options, Request::Stay),
    }
}

impl SceneFlow {
    /// The game opens on the main menu.
    pub fn new() -> (f: Self)
        ensures
            f.scene == Scene::MainMenu,
            f.after_options == Scene::MainMenu,
    {
        SceneFlow { scene: Scene::MainMenu, after_options: Scene::MainMenu }
    }

    /// Handles a screen's request; a switch changes the current screen. An
    /// event from another screen than the current one changes nothing.
    pub fn step(&mut self, event: SceneEvent) -> (req: Request)
        ensures
            (final(self).after_options, req) == route(
                old(self).scene,
                old(self).after_options,
                event,
            ),
            final(self).scene == match req {
                Request::Switch(s) => s,
                _ => old(self).scene,
            },
    {
        let after = self.after_options;
        let (after, req) = match (self.scene, event) {
            (Scene::MainMenu, SceneEvent::Menu(a)) => match a {
                MainMenuAction::NewGame => (after, Request::Switch(Scene::Game)),
                MainMenuAction::Options => (Scene::MainMenu, Request::Switch(Scene::Options)),
                MainMenuAction::LoadGame => (after, Request::LoadAndPlay),
                MainMenuAction::Quit => (after, Request::Quit),
                MainMenuAction::Idle => (after, Request::Stay),
            },
            (Scene::Game, SceneEvent::Play(a)) => match a {
                GameAction::Pause => (after, Request::Switch(Scene::Pause)),
                GameAction::Options => (Scene::Game, Request::Switch(Scene::Options)),
                GameAction::GameOver => (after, Request::Switch(Scene::GameOver)),
                GameAction::Idle => (after, Request::Stay),
            },
            (Scene::Pause, SceneEvent::Paused(a)) => match a {
                PauseAction::Resume => (after, Request::Switch(Scene::Game)),
                PauseAction::Load => (after, Request::LoadAndPlay),
                PauseAction::Options => (Scene::Pause, Request::Switch(Scene::Options)),
                PauseAction::MainMenu => (after, Request::Switch(Scene::MainMenu)),
                PauseAction::Quit => (after, Request::Quit),
                PauseAction::Save | PauseAction::Idle => (after, Request::Stay),
            },
            (Scene::GameOver, SceneEvent::Over(a)) => match a {
                GameOverAction::Replay => (after, Request::Switch(Scene::Game)),
                GameOverAction::MainMenu => (after, Request::Switch(Scene::MainMenu)),
                GameOverAction::Quit => (after, Request::Quit),
                GameOverAction::Idle => (after, Request::Stay),
            },
            (Scene::Options, SceneEvent::Settings(a)) => match a {
                OptionsAction::Back(_, _, _) => (after, Request::Switch(after)),
                OptionsAction::Idle => (after, Request::Stay),
            },
            _ => (after, Request::Stay),
        };
        self.after_options = after;
        if let Request::Switch(s) = req {
            self.scene = s;
        }
        req
    }

    /// A save file was read and is now being played.
    pub fn enter_loaded_game(&mut self)
        ensures
            final(self).scene == Scene::Game,
            final(self).after_options == old(self).after_options,
    {
        self.scene = Scene::Game;
    }
}

/// Options return to where they were opened from: opening them from the
/// main menu, from play or from the pause menu and then leaving them comes
/// back to that same screen.
pub proof fn lemma_options_return_to_origin(
    origin: Scene,
    open: SceneEvent,
    after: Scene,
    master: u32,
    sfx: u32,
    music: u32,
)
    requires
        (origin == Scene::MainMenu && open == SceneEvent::Menu(MainMenuAction::Options)) || (
        origin == Scene::Game && open == SceneEvent::Play(GameAction::Options)) || (origin
            == Scene::Pause && open == SceneEvent::Paused(PauseAction::Options)),
    ensures
        ({
            let (after1, req1) = route(origin, after, open);
            let (after2, req2) = route(
                Scene::Options,
                after1,
                SceneEvent::Settings(OptionsAction::Back(master, sfx, music)),
            );
            req1 == Request::Switch(Scene::Options) && req2 == Request::Switch(origin)
        }),
{
}

/// Where each choice leads, from wherever the options were last opened:
/// pausing play and resuming comes back to play; a new game, a replay and
/// RESUME go to play; leaving for the main menu goes there; losing goes to
/// the game-over screen; LOAD from the main or pause menu reads the save;
/// QUIT quits from every menu; an idle frame or a save stays.
pub proof fn lemma_flow_routes(after: Scene)
    ensures
        route(Scene::Game, after, SceneEvent::Play(GameAction::Pause)).1 == Request::Switch(
            Scene::Pause,
        ),
        route(Scene::Pause, after, SceneEvent::Paused(PauseAction::Resume)).1 == Request::Switch(
            Scene::Game,
        ),
        route(
            Scene::Pause,
            route(Scene::Game, after, SceneEvent::Play(GameAction::Pause)).0,
            SceneEvent::Paused(PauseAction::Resume),
        ).1 == Request::Switch(Scene::Game),
        route(Scene::MainMenu, after, SceneEvent::Menu(MainMenuAction::NewGame)).1
            == Request::Switch(Scene::Game),
        route(Scene::GameOver, after, SceneEvent::Over(GameOverAction::Replay)).1
            == Request::Switch(Scene::Game),
        route(Scene::Game, after, SceneEvent::Play(GameAction::GameOver)).1 == Request::Switch(
            Scene::GameOver,
        ),
        route(Scene::Pause, after, SceneEvent::Paused(PauseAction::MainMenu)).1
            == Request::Switch(Scene::MainMenu),
        route(Scene::GameOver, after, SceneEvent::Over(GameOverAction::MainMenu)).1
            == Request::Switch(Scene::MainMenu),
        route(Scene::MainMenu, after, SceneEvent::Menu(MainMenuAction::LoadGame)).1
            == Request::LoadAndPlay,
        route(Scene::Pause, after, SceneEvent::Paused(PauseAction::Load)).1
            == Request::LoadAndPlay,
        route(Scene::MainMenu, after, SceneEvent::Menu(MainMenuAction::Quit)).1 == Request::Quit,
        route(Scene::Pause, after, SceneEvent::Paused(PauseAction::Quit)).1 == Request::Quit,
        route(Scene::GameOver, after, SceneEvent::Over(GameOverAction::Quit)).1 == Request::Quit,
        route(Scene::Pause, after, SceneEvent::Paused(PauseAction::Save)).1 == Request::Stay,
        route(Scene::MainMenu, after, SceneEvent::Menu(MainMenuAction::Idle)).1 == Request::Stay,
        route(Scene::Game, after, SceneEvent::Play(GameAction::Idle)).1 == Request::Stay,
        route(Scene::Pause, after, SceneEvent::Paused(PauseAction::Idle)).1 == Request::Stay,
        route(Scene::GameOver, after, SceneEvent::Over(GameOverAction::Idle)).1 == Request::Stay,
        route(Scene::Options, after, SceneEvent::Settings(OptionsAction::Idle)).1 == Request::Stay,
{
}

} // verus!
