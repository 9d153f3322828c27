use vstd::prelude::*;
use crate::hud::Message;

verus! {

/// The children a main scene expects, each under a fixed node name.
#[derive(Clone, Copy, Debug, PartialEq, Eq, Structural)]
pub enum MainSceneChild {
    HUD,
    SpawnEnemy,
    PathEnemy,
    StarterPosition,
    EnemyTimer,
    ScoreTimer,
    StarterTimer,
    Player,
    Background,
    Music,
    SoundDeath,
}

impl MainSceneChild {
    pub open spec fn spec_name(self) -> Seq<char> {
        match self {
            MainSceneChild::HUD => "HUD"@,
            MainSceneChild::SpawnEnemy => "SpawnEnemy"@,
            MainSceneChild::PathEnemy => "PathEnemy"@,
            MainSceneChild::StarterPosition => "StarterPosition"@,
            MainSceneChild::EnemyTimer => "EnemyTimer"@,
            MainSceneChild::ScoreTimer => "ScoreTimer"@,
            MainSceneChild::StarterTimer => "StarterTimer"@,
            MainSceneChild::Player => "Player"@,
            MainSceneChild::Background => "BG"@,
            MainSceneChild::Music => "Music"@,
            MainSceneChild::SoundDeath => "SoundDeath"@,
        }
    }

    /// The node name of this child.
    pub fn as_str(&self) -> (r: &'static str)
        ensures
            r@ == self.spec_name(),
    {
        match self {
            MainSceneChild::HUD => "HUD",
            MainSceneChild::SpawnEnemy => "SpawnEnemy",
            MainSceneChild::PathEnemy => "PathEnemy",
            MainSceneChild::StarterPosition => "StarterPosition",
            MainSceneChild::EnemyTimer => "EnemyTimer",
            MainSceneChild::ScoreTimer => "ScoreTimer",
            MainSceneChild::StarterTimer => "StarterTimer",
            MainSceneChild::Player => "Player",
            MainSceneChild::Background => "BG",
            MainSceneChild::Music => "Music",
            MainSceneChild::SoundDeath => "SoundDeath",
        }
    }
}

/// The node path, from the scene, of the point on the enemy path where
/// enemies are spawned: it hangs under the path itself.
pub fn spawn_point_path() -> (r: String)
    ensures
        r@ == MainSceneChild::PathEnemy.spec_name() + "/"@ + MainSceneChild::SpawnEnemy.spec_name(),
{
    let mut path = String::from_str(MainSceneChild::PathEnemy.as_str());
    path.append("/");
    path.append(MainSceneChild::SpawnEnemy.as_str());
    path
}

/// The three timers of the main scene.
#[derive(Clone, Copy, Debug, PartialEq, Eq, Structural)]
pub enum SceneTimer {
    /// Runs once at the start of a round, before enemies come.
    Starter,
    /// Each timeout adds a point.
    Score,
    /// Each timeout spawns an enemy.
    Enemy,
}

/// One thing the main scene asks of the engine, in the order given.
#[derive(Clone, Copy, Debug, PartialEq, Eq, Structural)]
pub enum SceneAction {
    /// Place the player at the starter position and show it.
    StartPlayer,
    StartTimer(SceneTimer),
    StopTimer(SceneTimer),
    /// Show a message on the HUD.
    ShowMessage(Message),
    /// Show this score on the HUD.
    UpdateScore(i64),
    PlayMusic,
    StopMusic,
    PlayDeathSound,
    /// Run the HUD's game-over sequence.
    RunGameOver,
    /// Spawn one enemy at a random point of the enemy path.
    SpawnEnemy,
}

/// The state of a round: the score so far.
#[derive(Clone, Copy, Debug, PartialEq, Eq, Structural)]
pub struct MainScene {
    pub score: i64,
}

impl MainScene {
    /// A scene before its first round.
    pub fn new() -> (r: MainScene)
        ensures
            r.score == 0,
    {
        MainScene { score: 0 }
    }

    /// The player was hit: the round stops, the music gives way to the death
    /// sound, and the HUD runs its game-over sequence.
    pub fn game_over(&self) -> (r: Vec<SceneAction>)
        ensures
            r@ == seq![
                SceneAction::StopTimer(SceneTimer::Score),
                SceneAction::StopTimer(SceneTimer::Enemy),
                SceneAction::StopMusic,
                SceneAction::PlayDeathSound,
                SceneAction::RunGameOver,
            ],
    {
        let mut r: Vec<SceneAction> = Vec::new();
        r.push(SceneAction::StopTimer(SceneTimer::Score));
        r.push(SceneAction::StopTimer(SceneTimer::Enemy));
        r.push(SceneAction::StopMusic);
        r.push(SceneAction::PlayDeathSound);
        r.push(SceneAction::RunGameOver);
        r
    }

    /// The starter timer ran out: enemies start coming and points start counting.
    pub fn on_starter_timer_timeout(&self) -> (r: Vec<SceneAction>)
        ensures
            r@ == seq![
                SceneAction::StartTimer(SceneTimer::Enemy),
                SceneAction::StartTimer(SceneTimer::Score),
            ],
    {
        let mut r: Vec<SceneAction> = Vec::new();
        r.push(SceneAction::StartTimer(SceneTimer::Enemy));
        r.push(SceneAction::StartTimer(SceneTimer::Score));
        r
    }

    /// The score timer ran out: one more point, shown on the HUD.
    pub fn on_score_timer_timeout(&mut self) -> (r: Vec<SceneAction>)
        requires
            old(self).score < i64::MAX,
        ensures
            final(self).score == old(self).score + 1,
            r@ == seq![SceneAction::UpdateScore(final(self).score)],
    {
        self.score = self.score + 1;
        let mut r: Vec<SceneAction> = Vec::new();
        r.push(SceneAction::UpdateScore(self.score));
        r
    }

    /// The enemy timer ran out: one more enemy.
    pub fn on_enemy_timer_timeout(&self) -> (r: Vec<SceneAction>)
        ensures
            r@ == seq![SceneAction::SpawnEnemy],
    {
        let mut r: Vec<SceneAction> = Vec::new();
        r.push(SceneAction::SpawnEnemy);
        r
    }

    /// The HUD asked for a new game: the score starts over, the player is
    /// placed, the starter timer runs and the music plays.
    pub fn new_game(&mut self) -> (r: Vec<SceneAction>)
        ensures
            final(self).score == 0,
            r@ == seq![
                SceneAction::StartPlayer,
                SceneAction::StartTimer(SceneTimer::Starter),
                SceneAction::ShowMessage(Message::GetReady),
                SceneAction::UpdateScore(0),
                SceneAction::PlayMusic,
            ],
    {
        self.score = 0;
        let mut r: Vec<SceneAction> = Vec::new();
        r.push(SceneAction::StartPlayer);
        r.push(SceneAction::StartTimer(SceneTimer::Starter));
        r.push(SceneAction::ShowMessage(Message::GetReady));
        r.push(SceneAction::UpdateScore(self.score));
        r.push(SceneAction::PlayMusic);
        r
    }
}

} // verus!
