use dodge::hud::{
    score_text, GameOverStage, GameOverStep, HUDBase, HudChild, HudEffect, HudWait, Message,
    RESTART_DELAY_MS,
};

fn fresh_hud() -> HUDBase {
    HUDBase {
        score_text: String::from("0"),
        message_text: String::from("Desvie e sobreviva aos monstros!"),
        message_visible: true,
        start_button_visible: true,
    }
}

#[test]
fn score_text_of_zero_and_small_numbers() {
    assert_eq!(score_text(0), "0");
    assert_eq!(score_text(7), "7");
    assert_eq!(score_text(10), "10");
    assert_eq!(score_text(1234), "1234");
}

#[test]
fn score_text_of_negative_numbers() {
    assert_eq!(score_text(-1), "-1");
    assert_eq!(score_text(-907), "-907");
}

#[test]
fn score_text_of_the_extremes() {
    assert_eq!(score_text(i64::MAX), i64::MAX.to_string());
    assert_eq!(score_text(i64::MIN), i64::MIN.to_string());
}

#[test]
fn hud_child_names() {
    assert_eq!(HudChild::ScoreLabel.as_str(), "ScoreLabel");
    assert_eq!(HudChild::MessageLabel.as_str(), "MessageLabel");
    assert_eq!(HudChild::MessageTimer.as_str(), "MessageTimer");
    assert_eq!(HudChild::StartButton.as_str(), "StartButton");
}

#[test]
fn message_texts() {
    assert_eq!(Message::GetReady.text(), "Prepare-se");
    assert_eq!(Message::GameOver.text(), "Fim de Jogo!");
    assert_eq!(Message::Dodge.text(), "Desvie e sobreviva aos monstros!");
}

#[test]
fn show_message_sets_text_and_starts_timer() {
    let mut hud = fresh_hud();
    hud.message_visible = false;
    let effect = hud.show_message("Prepare-se");
    assert_eq!(effect, HudEffect::StartMessageTimer);
    assert_eq!(hud.message_text, "Prepare-se");
    assert!(hud.message_visible);
    assert_eq!(hud.score_text, "0");
    assert!(hud.start_button_visible);
}

#[test]
fn update_score_writes_the_label() {
    let mut hud = fresh_hud();
    hud.update_score(42);
    assert_eq!(hud.score_text, "42");
    assert_eq!(hud.message_text, "Desvie e sobreviva aos monstros!");
}

#[test]
fn start_button_hides_and_asks_for_a_game() {
    let mut hud = fresh_hud();
    assert_eq!(hud.on_start_button_pressed(), HudEffect::EmitStartGame);
    assert!(!hud.start_button_visible);
    assert!(hud.message_visible);
}

#[test]
fn message_timeout_hides_the_message() {
    let mut hud = fresh_hud();
    hud.on_message_timer_timeout();
    assert!(!hud.message_visible);
    assert_eq!(hud.message_text, "Desvie e sobreviva aos monstros!");
}

#[test]
fn game_over_sequence_runs_its_three_stages() {
    let mut hud = fresh_hud();
    hud.start_button_visible = false;
    hud.update_score(12);

    let first = hud.game_over(GameOverStage::Announce);
    assert_eq!(
        first,
        GameOverStep { effect: HudEffect::StartMessageTimer, wait: Some(HudWait::MessageTimeout) }
    );
    assert_eq!(hud.message_text, "Fim de Jogo!");
    assert!(hud.message_visible);
    assert!(!hud.start_button_visible);

    hud.on_message_timer_timeout();
    assert_eq!(GameOverStage::Announce.next(), Some(GameOverStage::Title));
    let second = hud.game_over(GameOverStage::Title);
    assert_eq!(second, GameOverStep { effect: HudEffect::Nothing, wait: Some(HudWait::RestartDelay) });
    assert_eq!(hud.message_text, "Desvie e sobreviva aos monstros!");
    assert!(hud.message_visible);
    assert!(!hud.start_button_visible);

    assert_eq!(GameOverStage::Title.next(), Some(GameOverStage::OfferRestart));
    let third = hud.game_over(GameOverStage::OfferRestart);
    assert_eq!(third, GameOverStep { effect: HudEffect::Nothing, wait: None });
    assert!(hud.start_button_visible);
    assert_eq!(GameOverStage::OfferRestart.next(), None);
    assert_eq!(hud.score_text, "12");
}

#[test]
fn restart_delay_is_one_second() {
    assert_eq!(RESTART_DELAY_MS, 1000);
}
