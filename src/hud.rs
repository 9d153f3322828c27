use vstd::prelude::*;

verus! {

/// The character of a decimal digit `d` (`0 <= d < 10`).
pub open spec fn digit_char(d: int) -> char {
    if d == 0 {
        '0'
    } else if d == 1 {
        '1'
    } else if d == 2 {
        '2'
    } else if d == 3 {
        '3'
    } else if d == 4 {
        '4'
    } else if d == 5 {
        '5'
    } else if d == 6 {
        '6'
    } else if d == 7 {
        '7'
    } else if d == 8 {
        '8'
    } else {
        '9'
    }
}

/// The decimal digits of `n`, most significant first, without leading zeros.
pub open spec fn digits_of(n: nat) -> Seq<char>
    decreases n,
{
    if n < 10 {
        seq![digit_char(n as int)]
    } else {
        digits_of(n / 10).push(digit_char((n % 10) as int))
    }
}

/// The decimal text of an integer: a minus sign before the digits of a negative one.
pub open spec fn decimal_of(n: int) -> Seq<char> {
    if n < 0 {
        seq!['-'] + digits_of((-n) as nat)
    } else {
        digits_of(n as nat)
    }
}

fn digit_str(d: u64) -> (r: &'static str)
    requires
        d < 10,
    ensures
        r@ == seq![digit_char(d as int)],
{
    proof {
        reveal_strlit("0");
        reveal_strlit("1");
        reveal_strlit("2");
        reveal_strlit("3");
        reveal_strlit("4");
        reveal_strlit("5");
        reveal_strlit("6");
        reveal_strlit("7");
        reveal_strlit("8");
        reveal_strlit("9");
    }
    match d {
        0 => "0",
        1 => "1",
        2 => "2",
        3 => "3",
        4 => "4",
        5 => "5",
        6 => "6",
        7 => "7",
        8 => "8",
        _ => "9",
    }
}

fn digits_text(n: u64) -> (r: String)
    ensures
        r@ == digits_of(n as nat),
    decreases n,
{
    if n < 10 {
        String::from_str(digit_str(n))
    } else {
        let mut s = digits_text(n / 10);
        s.append(digit_str(n % 10));
        s
    }
}

/// The text the score label shows for `score`.
pub fn score_text(score: i64) -> (r: String)
    ensures
        r@ == decimal_of(score as int),
{
    if score < 0 {
        let magnitude: u64 = (-(score + 1)) as u64 + 1;
        let mut s = String::from_str("-");
        proof {
            reveal_strlit("-");
        }
        let digits = digits_text(magnitude);
        s.append(digits.as_str());
        s
    } else {
        digits_text(score as u64)
    }
}

/// The children a HUD expects, each under a fixed node name.
#[derive(Clone, Copy, Debug, PartialEq, Eq, Structural)]
pub enum HudChild {
    ScoreLabel,
    MessageLabel,
    MessageTimer,
    StartButton,
}

impl HudChild {
    pub open spec fn spec_name(self) -> Seq<char> {
        match self {
            HudChild::ScoreLabel => "ScoreLabel"@,
            HudChild::MessageLabel => "MessageLabel"@,
            HudChild::MessageTimer => "MessageTimer"@,
            HudChild::StartButton => "StartButton"@,
        }
    }

    /// The node name of this child.
    pub fn as_str(&self) -> (r: &'static str)
        ensures
            r@ == self.spec_name(),
    {
        match self {
            HudChild::ScoreLabel => "ScoreLabel",
            HudChild::MessageLabel => "MessageLabel",
            HudChild::MessageTimer => "MessageTimer",
            HudChild::StartButton => "StartButton",
        }
    }
}

/// The messages the game shows to the player.
#[derive(Clone, Copy, Debug, PartialEq, Eq, Structural)]
pub enum Message {
    /// Shown when a new round is about to begin.
    GetReady,
    /// Shown when the player was hit.
    GameOver,
    /// The title line, shown between rounds.
    Dodge,
}

impl Message {
    pub open spec fn spec_text(self) -> Seq<char> {
        match self {
            Message::GetReady => "Prepare-se"@,
            Message::GameOver => "Fim de Jogo!"@,
            Message::Dodge => "Desvie e sobreviva aos monstros!"@,
        }
    }

    /// The words of this message.
    pub fn text(&self) -> (r: &'static str)
        ensures
            r@ == self.spec_text(),
    {
        match self {
            Message::GetReady => "Prepare-se",
            Message::GameOver => "Fim de Jogo!",
            Message::Dodge => "Desvie e sobreviva aos monstros!",
        }
    }
}

/// How long the game-over sequence waits, after the title line comes back,
/// before it offers the start button again, in milliseconds.
pub const RESTART_DELAY_MS: u64 = 1000;

/// Work that a HUD event asks of the engine besides its new state.
#[derive(Clone, Copy, Debug, PartialEq, Eq, Structural)]
pub enum HudEffect {
    Nothing,
    /// Start the message timer; its timeout hides the message.
    StartMessageTimer,
    /// Emit the HUD's `start_game` signal.
    EmitStartGame,
}

/// What the game-over sequence waits for before its next stage.
#[derive(Clone, Copy, Debug, PartialEq, Eq, Structural)]
pub enum HudWait {
    /// The timeout of the message timer.
    MessageTimeout,
    /// A one-shot timer of `RESTART_DELAY_MS`.
    RestartDelay,
}

/// The stages of the game-over sequence, in order.
#[derive(Clone, Copy, Debug, PartialEq, Eq, Structural)]
pub enum GameOverStage {
    /// Show the game-over message.
    Announce,
    /// Bring the title line back.
    Title,
    /// Offer the start button.
    OfferRestart,
}

impl GameOverStage {
    pub open spec fn spec_next(self) -> Option<GameOverStage> {
        match self {
            GameOverStage::Announce => Some(GameOverStage::Title),
            GameOverStage::Title => Some(GameOverStage::OfferRestart),
            GameOverStage::OfferRestart => None,
        }
    }

    /// The stage that follows this one, if any.
    pub fn next(&self) -> (r: Option<GameOverStage>)
        ensures
            r == self.spec_next(),
    {
        match self {
            GameOverStage::Announce => Some(GameOverStage::Title),
            GameOverStage::Title => Some(GameOverStage::OfferRestart),
            GameOverStage::OfferRestart => None,
        }
    }
}

/// What one stage of the game-over sequence asks of the engine.
#[derive(Clone, Copy, Debug, PartialEq, Eq, Structural)]
pub struct GameOverStep {
    pub effect: HudEffect,
    /// What to wait for before the next stage; `None` after the last one.
    pub wait: Option<HudWait>,
}

/// The state the HUD shows: the two labels' texts, whether the message label
/// and the start button are visible.
#[derive(Clone, Debug)]
pub struct HUDBase {
    pub score_text: String,
    pub message_text: String,
    pub message_visible: bool,
    pub start_button_visible: bool,
}

impl HUDBase {
    /// Shows `text` in the message label; the message timer is then started.
    pub fn show_message(&mut self, text: &str) -> (r: HudEffect)
        ensures
            final(self).message_text@ == text@,
            final(self).message_visible,
            final(self).score_text@ == old(self).score_text@,
            final(self).start_button_visible == old(self).start_button_visible,
            r == HudEffect::StartMessageTimer,
    {
        self.message_text = String::from_str(text);
        self.message_visible = true;
        HudEffect::StartMessageTimer
    }

    /// Shows `score` in the score label.
    pub fn update_score(&mut self, score: i64)
        ensures
            final(self).score_text@ == decimal_of(score as int),
            final(self).message_text@ == old(self).message_text@,
            final(self).message_visible == old(self).message_visible,
            final(self).start_button_visible == old(self).start_button_visible,
    {
        self.score_text = score_text(score);
    }

    /// The start button was pressed: it hides, and the HUD asks for a new game.
    pub fn on_start_button_pressed(&mut self) -> (r: HudEffect)
        ensures
            !final(self).start_button_visible,
            final(self).score_text@ == old(self).score_text@,
            final(self).message_text@ == old(self).message_text@,
            final(self).message_visible == old(self).message_visible,
            r == HudEffect::EmitStartGame,
    {
        self.start_button_visible = false;
        HudEffect::EmitStartGame
    }

    /// The message timer ran out: the message hides.
    pub fn on_message_timer_timeout(&mut self)
        ensures
            !final(self).message_visible,
            final(self).score_text@ == old(self).score_text@,
            final(self).message_text@ == old(self).message_text@,
            final(self).start_button_visible == old(self).start_button_visible,
    {
        self.message_visible = false;
    }

    /// Runs one stage of the game-over sequence. The sequence announces the
    /// end of the round until the message timer runs out, brings the title
    /// line back, and after `RESTART_DELAY_MS` offers the start button.
    pub fn game_over(&mut self, stage: GameOverStage) -> (r: GameOverStep)
        ensures
            final(self).score_text@ == old(self).score_text@,
            stage == GameOverStage::Announce ==> {
                &&& final(self).message_text@ == Message::GameOver.spec_text()
                &&& final(self).message_visible
                &&& final(self).start_button_visible == old(self).start_button_visible
                &&& r == (GameOverStep {
                    effect: HudEffect::StartMessageTimer,
                    wait: Some(HudWait::MessageTimeout),
                })
            },
            stage == GameOverStage::Title ==> {
                &&& final(self).message_text@ == Message::Dodge.spec_text()
                &&& final(self).message_visible
                &&& final(self).start_button_visible == old(self).start_button_visible
                &&& r == (GameOverStep { effect: HudEffect::Nothing, wait: Some(HudWait::RestartDelay) })
            },
            stage == GameOverStage::OfferRestart ==> {
                &&& final(self).message_text@ == old(self).message_text@
                &&& final(self).message_visible == old(self).message_visible
                &&& final(self).start_button_visible
                &&& r == (GameOverStep { effect: HudEffect::Nothing, wait: None })
            },
    {
        match stage {
            GameOverStage::Announce => {
                let effect = self.show_message(Message::GameOver.text());
                GameOverStep { effect, wait: Some(HudWait::MessageTimeout) }
            },
            GameOverStage::Title => {
                self.message_text = String::from_str(Message::Dodge.text());
                self.message_visible = true;
                GameOverStep { effect: HudEffect::Nothing, wait: Some(HudWait::RestartDelay) }
            },
            GameOverStage::OfferRestart => {
                self.start_button_visible = true;
                GameOverStep { effect: HudEffect::Nothing, wait: None }
            },
        }
    }
}

} // verus!
