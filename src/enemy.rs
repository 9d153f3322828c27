use vstd::prelude::*;

verus! {

/// The children an enemy expects, each under a fixed node name.
#[derive(Clone, Copy, Debug, PartialEq, Eq, Structural)]
pub enum EnemyChild {
    AnimatedSprite2D,
    CollisionShape2D,
    VisibleOnScreenNotifier2D,
}

impl EnemyChild {
    pub open spec fn spec_name(self) -> Seq<char> {
        match self {
            EnemyChild::AnimatedSprite2D => "AnimatedSprite2D"@,
            EnemyChild::CollisionShape2D => "CollisionShape2D"@,
            EnemyChild::VisibleOnScreenNotifier2D => "VisibleOnScreenNotifier2D"@,
        }
    }

    /// The node name of this child.
    pub fn as_str(&self) -> (r: &'static str)
        ensures
            r@ == self.spec_name(),
    {
        match self {
            EnemyChild::AnimatedSprite2D => "AnimatedSprite2D",
            EnemyChild::CollisionShape2D => "CollisionShape2D",
            EnemyChild::VisibleOnScreenNotifier2D => "VisibleOnScreenNotifier2D",
        }
    }
}

/// What an enemy does once its children are ready.
#[derive(Clone, Copy, Debug, PartialEq, Eq, Structural)]
pub enum EnemyStart {
    /// Play the animation at this index of the sprite's animation names.
    Play(usize),
    /// The sprite has no frames: report it as an error.
    ReportMissingFrames,
    /// The sprite has no frames, which is expected in the editor.
    Idle,
}

/// The speed range of an enemy, in pixels per second; its launch speed is
/// drawn from it, both ends included.
#[derive(Clone, Copy, Debug, PartialEq, Eq, Structural)]
pub struct EnemyBase {
    pub min_speed: i64,
    pub max_speed: i64,
}

impl EnemyBase {
    /// An enemy with the default speed range.
    pub fn new() -> (r: EnemyBase)
        ensures
            r.min_speed == 150,
            r.max_speed == 350,
    {
        EnemyBase { min_speed: 150, max_speed: 350 }
    }

    /// Picks what to do when the enemy is ready. `animation_count` is the
    /// number of animations of the sprite, `None` where it has no frames;
    /// `roll` is a random number whose remainder picks one of them;
    /// `in_editor` says whether the scene runs in the editor.
    pub fn choose_start(&self, animation_count: Option<usize>, roll: i64, in_editor: bool) -> (r:
        EnemyStart)
        requires
            animation_count != Some(0usize),
        ensures
            animation_count matches Some(n) ==> r == EnemyStart::Play(
                ((roll as usize) as nat % n as nat) as usize,
            ),
            animation_count is None && in_editor ==> r == EnemyStart::Idle,
            animation_count is None && !in_editor ==> r == EnemyStart::ReportMissingFrames,
    {
        match animation_count {
            Some(n) => EnemyStart::Play((roll as usize) % n),
            None => {
                if in_editor {
                    EnemyStart::Idle
                } else {
                    EnemyStart::ReportMissingFrames
                }
            },
        }
    }

    /// What to do when the enemy is ready, with the animation drawn from the
    /// engine's random number generator where the sprite has frames. The
    /// draw needs a running engine.
    pub fn ready(&self, animation_count: Option<usize>, in_editor: bool) -> (r: EnemyStart)
        requires
            animation_count != Some(0usize),
        ensures
            animation_count matches Some(n) ==> r matches EnemyStart::Play(i) && i < n,
            animation_count is None && in_editor ==> r == EnemyStart::Idle,
            animation_count is None && !in_editor ==> r == EnemyStart::ReportMissingFrames,
    {
        match animation_count {
            Some(_) => {
                let roll = random_int();
                self.choose_start(animation_count, roll, in_editor)
            },
            None => self.choose_start(animation_count, 0, in_editor),
        }
    }
}

/// Relies on `godot::global::randi`: a draw from the engine's global random
/// number generator. Nothing is assumed of the value drawn.
#[verifier::external_body]
fn random_int() -> (r: i64) {
    godot::global::randi()
}

} // verus!
