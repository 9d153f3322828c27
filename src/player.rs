use vstd::prelude::*;

verus! {

/// The children a player expects, each under a fixed node name.
#[derive(Clone, Copy, Debug, PartialEq, Eq, Structural)]
pub enum PlayerChild {
    AnimatedSprite2D,
    CollisionShape2D,
    /// The particle trail behind the player.
    Particles2D,
}

impl PlayerChild {
    pub open spec fn spec_name(self) -> Seq<char> {
        match self {
            PlayerChild::AnimatedSprite2D => "AnimatedSprite2D"@,
            PlayerChild::CollisionShape2D => "CollisionShape2D"@,
            PlayerChild::Particles2D => "Rastro"@,
        }
    }

    /// The node name of this child.
    pub fn as_str(&self) -> (r: &'static str)
        ensures
            r@ == self.spec_name(),
    {
        match self {
            PlayerChild::AnimatedSprite2D => "AnimatedSprite2D",
            PlayerChild::CollisionShape2D => "CollisionShape2D",
            PlayerChild::Particles2D => "Rastro",
        }
    }
}

/// The sign of one component of a velocity. On screen, a positive vertical
/// component points down.
#[derive(Clone, Copy, Debug, PartialEq, Eq, Structural)]
pub enum Sign {
    Negative,
    Zero,
    Positive,
}

/// The two animations of the player's sprite.
#[derive(Clone, Copy, Debug, PartialEq, Eq, Structural)]
pub enum PlayerAnimation {
    /// Walking sideways; drawn facing right.
    Right,
    /// Walking up or down; drawn facing up.
    Up,
}

impl PlayerAnimation {
    pub open spec fn spec_name(self) -> Seq<char> {
        match self {
            PlayerAnimation::Right => "right"@,
            PlayerAnimation::Up => "up"@,
        }
    }

    /// The animation's name in the sprite's frames.
    pub fn name(&self) -> (r: &'static str)
        ensures
            r@ == self.spec_name(),
    {
        match self {
            PlayerAnimation::Right => "right",
            PlayerAnimation::Up => "up",
        }
    }
}

/// How the sprite changes for one velocity. A `None` leaves that setting as
/// it was.
#[derive(Clone, Copy, Debug, PartialEq, Eq, Structural)]
pub struct AnimationUpdate {
    pub animation: Option<PlayerAnimation>,
    pub flip_h: Option<bool>,
    pub flip_v: Option<bool>,
    /// Whether the sprite plays and the trail emits; otherwise both stop.
    pub playing: bool,
}

/// What the player tells the scene.
#[derive(Clone, Copy, Debug, PartialEq, Eq, Structural)]
pub enum PlayerSignal {
    /// The player was hit by a body.
    Hit,
}

/// The state of the player: its speed in pixels per second, whether it is
/// shown, and whether its collision shape is switched off.
#[derive(Clone, Copy, Debug, PartialEq, Eq, Structural)]
pub struct PlayerBase {
    pub speed: i32,
    pub visible: bool,
    pub collision_disabled: bool,
}

impl PlayerBase {
    /// A player with the default speed, shown, with its collision on.
    pub fn new() -> (r: PlayerBase)
        ensures
            r.speed == 400,
            r.visible,
            !r.collision_disabled,
    {
        PlayerBase { speed: 400, visible: true, collision_disabled: false }
    }

    /// The player is ready: it hides until a round starts.
    pub fn ready(&mut self)
        ensures
            !final(self).visible,
            final(self).speed == old(self).speed,
            final(self).collision_disabled == old(self).collision_disabled,
    {
        self.visible = false;
    }

    /// A body entered the player: it hides, switches its collision off and
    /// reports the hit.
    pub fn on_player_body_entered(&mut self) -> (r: PlayerSignal)
        ensures
            !final(self).visible,
            final(self).collision_disabled,
            final(self).speed == old(self).speed,
            r == PlayerSignal::Hit,
    {
        self.visible = false;
        self.collision_disabled = true;
        PlayerSignal::Hit
    }

    /// A round starts: the player, placed at the start position, shows and
    /// switches its collision on.
    pub fn start(&mut self)
        ensures
            final(self).visible,
            !final(self).collision_disabled,
            final(self).speed == old(self).speed,
    {
        self.visible = true;
        self.collision_disabled = false;
    }

    /// The sprite's change for a velocity whose components have the signs
    /// `x` and `y`. Sideways motion shows the right-facing animation,
    /// mirrored when going left; vertical motion mirrors the sprite when going
    /// down, and shows the up animation when there is no sideways motion.
    /// Any motion plays the sprite and the trail; none stops them.
    pub fn update_animation(&self, x: Sign, y: Sign) -> (r: AnimationUpdate)
        ensures
            r.animation == (if x != Sign::Zero {
                Some(PlayerAnimation::Right)
            } else if y != Sign::Zero {
                Some(PlayerAnimation::Up)
            } else {
                None::<PlayerAnimation>
            }),
            r.flip_h == (if x != Sign::Zero {
                Some(x == Sign::Negative)
            } else {
                None::<bool>
            }),
            r.flip_v == (if y != Sign::Zero {
                Some(y == Sign::Positive)
            } else {
                None::<bool>
            }),
            r.playing == (x != Sign::Zero || y != Sign::Zero),
    {
        let moving_x = x != Sign::Zero;
        let mut animation: Option<PlayerAnimation> = None;
        let mut flip_h: Option<bool> = None;
        let mut flip_v: Option<bool> = None;
        if moving_x {
            animation = Some(PlayerAnimation::Right);
            flip_h = Some(x == Sign::Negative);
        }
        if y != Sign::Zero {
            flip_v = Some(y == Sign::Positive);
            if !moving_x {
                animation = Some(PlayerAnimation::Up);
            }
        }
        AnimationUpdate { animation, flip_h, flip_v, playing: moving_x || y != Sign::Zero }
    }
}

} // verus!
