use lumberjack::game::MATURATION_SECONDS;
use lumberjack::records::INITIAL_GOLD;
use lumberjack::records::MAX_ENERGY;
use lumberjack::harvest;
use lumberjack::init_player;
use lumberjack::plant;
use lumberjack::update;
use lumberjack::ChopTree;
use lumberjack::GameErrorCode;
use lumberjack::Harvest;
use lumberjack::Identity;
use lumberjack::InitPlayer;
use lumberjack::Plant;
use lumberjack::PlayerData;
use lumberjack::Plot;
use lumberjack::SessionToken;

const OWNER: Identity = Identity(1, 2, 3, 4);
const DELEGATE: Identity = Identity(5, 6, 7, 8);
const STRANGER: Identity = Identity(9, 9, 9, 9);

fn blank_player() -> PlayerData {
    PlayerData {
        authority: Identity(0, 0, 0, 0),
        name: String::new(),
        level: 0,
        xp: 0,
        energy: 0,
        gold: 0,
        last_login: 0,
    }
}

fn blank_plot() -> Plot {
    Plot { human_type: String::new(), planted_at: 0 }
}

/// Record pair as `init_player` leaves it for `OWNER` at clock reading `now`.
fn initialized(now: i64) -> (PlayerData, Plot) {
    let mut ctx = InitPlayer { player: blank_player(), plot: blank_plot(), signer: OWNER };
    assert_eq!(init_player(&mut ctx, now), Ok(()));
    (ctx.player, ctx.plot)
}

#[test]
fn init_player_sets_every_field() {
    let (player, plot) = initialized(42);
    assert_eq!(player.authority, OWNER);
    assert_eq!(player.name, "");
    assert_eq!(player.level, 0);
    assert_eq!(player.xp, 0);
    assert_eq!(player.energy, MAX_ENERGY);
    assert_eq!(player.energy, 10);
    assert_eq!(player.gold, INITIAL_GOLD);
    assert_eq!(player.gold, 5);
    assert_eq!(player.last_login, 42);
    assert_eq!(plot.human_type, "");
    assert_eq!(plot.planted_at, 0);
}

#[test]
fn plant_peasant_on_empty_plot_succeeds() {
    let (player, plot) = initialized(0);
    let mut ctx = Plant { session_token: None, player, plot, signer: OWNER };
    let r = plant(&mut ctx, 100, "peasant".to_string());
    assert_eq!(r, Ok(()));
    assert_eq!(ctx.player.gold, 0);
    assert_eq!(ctx.plot.human_type, "peasant");
    assert_eq!(ctx.plot.planted_at, 100);
}

#[test]
fn plant_on_occupied_plot_fails_and_changes_nothing() {
    let (player, _) = initialized(0);
    let plot = Plot { human_type: "peasant".to_string(), planted_at: 50 };
    let mut ctx = Plant { session_token: None, player, plot, signer: OWNER };
    let r = plant(&mut ctx, 100, "breadmaker".to_string());
    assert_eq!(r, Err(GameErrorCode::NotReadyYet));
    assert_eq!(ctx.player.gold, 5);
    assert_eq!(ctx.plot.human_type, "peasant");
    assert_eq!(ctx.plot.planted_at, 50);
}

#[test]
fn plant_unknown_kind_fails_not_enough_gold() {
    let (player, plot) = initialized(0);
    let mut ctx = Plant { session_token: None, player, plot, signer: OWNER };
    let r = plant(&mut ctx, 100, "wizard".to_string());
    assert_eq!(r, Err(GameErrorCode::NotEnoughGold));
    assert_eq!(ctx.player.gold, 5);
    assert_eq!(ctx.plot.human_type, "");
}

#[test]
fn plant_blacksmith_on_initial_gold_fails_not_enough_gold() {
    let (player, plot) = initialized(0);
    let mut ctx = Plant { session_token: None, player, plot, signer: OWNER };
    let r = plant(&mut ctx, 100, "blacksmith".to_string());
    assert_eq!(r, Err(GameErrorCode::NotEnoughGold));
    assert_eq!(ctx.player.gold, 5);
    assert_eq!(ctx.plot.human_type, "");
}

#[test]
fn harvest_right_after_init_fails_not_enough_gold() {
    let (player, plot) = initialized(0);
    let mut ctx = Harvest { session_token: None, player, plot, signer: OWNER };
    let r = harvest(&mut ctx, 0);
    assert_eq!(r, Err(GameErrorCode::NotEnoughGold));
    assert_eq!(ctx.player.gold, 5);
}

#[test]
fn harvest_one_tick_early_fails_not_ready() {
    let (mut player, _) = initialized(0);
    player.gold = 0;
    let plot = Plot { human_type: "peasant".to_string(), planted_at: 100 };
    let mut ctx = Harvest { session_token: None, player, plot, signer: OWNER };
    let r = harvest(&mut ctx, 100 + MATURATION_SECONDS - 1);
    assert_eq!(r, Err(GameErrorCode::NotReadyYet));
    assert_eq!(ctx.player.gold, 0);
    assert_eq!(ctx.plot.human_type, "peasant");
}

#[test]
fn harvest_exactly_at_maturation_succeeds() {
    let (mut player, _) = initialized(0);
    player.gold = 0;
    let plot = Plot { human_type: "peasant".to_string(), planted_at: 100 };
    let mut ctx = Harvest { session_token: None, player, plot, signer: OWNER };
    let r = harvest(&mut ctx, 100 + MATURATION_SECONDS);
    assert_eq!(r, Ok(()));
    assert_eq!(ctx.player.gold, 10);
    assert_eq!(ctx.plot.human_type, "");
}

#[test]
fn harvest_credits_reward_and_clears_plot() {
    let mut player = blank_player();
    player.authority = OWNER;
    player.gold = 7;
    let plot = Plot { human_type: "beerbrewer".to_string(), planted_at: 0 };
    let mut ctx = Harvest { session_token: None, player, plot, signer: OWNER };
    let r = harvest(&mut ctx, 1000);
    assert_eq!(r, Ok(()));
    assert_eq!(ctx.player.gold, 67);
    assert_eq!(ctx.plot.human_type, "");
    assert_eq!(ctx.plot.planted_at, 0);
}

#[test]
fn plant_by_stranger_fails_wrong_authority() {
    let (player, plot) = initialized(0);
    let mut ctx = Plant { session_token: None, player, plot, signer: STRANGER };
    let r = plant(&mut ctx, 100, "peasant".to_string());
    assert_eq!(r, Err(GameErrorCode::WrongAuthority));
    assert_eq!(ctx.player.gold, 5);
    assert_eq!(ctx.plot.human_type, "");
}

#[test]
fn harvest_by_stranger_fails_wrong_authority() {
    let mut player = blank_player();
    player.authority = OWNER;
    let plot = Plot { human_type: "peasant".to_string(), planted_at: 0 };
    let mut ctx = Harvest { session_token: None, player, plot, signer: STRANGER };
    let r = harvest(&mut ctx, 1000);
    assert_eq!(r, Err(GameErrorCode::WrongAuthority));
    assert_eq!(ctx.player.gold, 0);
    assert_eq!(ctx.plot.human_type, "peasant");
}

#[test]
fn delegate_with_valid_token_can_plant() {
    let (player, plot) = initialized(0);
    let token = SessionToken { authority: OWNER, session_signer: DELEGATE, valid_until: 150 };
    let mut ctx = Plant { session_token: Some(token), player, plot, signer: DELEGATE };
    let r = plant(&mut ctx, 100, "peasant".to_string());
    assert_eq!(r, Ok(()));
    assert_eq!(ctx.player.gold, 0);
    assert_eq!(ctx.plot.human_type, "peasant");
}

#[test]
fn delegate_with_expired_token_fails_wrong_authority() {
    let (player, plot) = initialized(0);
    let token = SessionToken { authority: OWNER, session_signer: DELEGATE, valid_until: 99 };
    let mut ctx = Plant { session_token: Some(token), player, plot, signer: DELEGATE };
    let r = plant(&mut ctx, 100, "peasant".to_string());
    assert_eq!(r, Err(GameErrorCode::WrongAuthority));
    assert_eq!(ctx.player.gold, 5);
    assert_eq!(ctx.plot.human_type, "");
}

#[test]
fn token_naming_another_owner_fails_wrong_authority() {
    let (player, plot) = initialized(0);
    let token = SessionToken { authority: STRANGER, session_signer: DELEGATE, valid_until: 150 };
    let mut ctx = Plant { session_token: Some(token), player, plot, signer: DELEGATE };
    let r = plant(&mut ctx, 100, "peasant".to_string());
    assert_eq!(r, Err(GameErrorCode::WrongAuthority));
    assert_eq!(ctx.plot.human_type, "");
}

#[test]
fn update_is_a_noop_success() {
    let mut player = blank_player();
    player.authority = OWNER;
    let ctx = ChopTree { session_token: None, player, signer: OWNER };
    assert_eq!(update(&ctx), Ok(()));
}

#[test]
fn end_to_end_peasant_cycle() {
    let (player, plot) = initialized(0);
    assert_eq!(player.gold, 5);

    let mut plant_ctx = Plant { session_token: None, player, plot, signer: OWNER };
    assert_eq!(plant(&mut plant_ctx, 1000, "peasant".to_string()), Ok(()));
    assert_eq!(plant_ctx.player.gold, 0);
    assert_eq!(plant_ctx.plot.human_type, "peasant");
    assert_eq!(plant_ctx.plot.planted_at, 1000);

    let mut harvest_ctx = Harvest {
        session_token: None,
        player: plant_ctx.player,
        plot: plant_ctx.plot,
        signer: OWNER,
    };
    assert_eq!(harvest(&mut harvest_ctx, 1020), Ok(()));
    assert_eq!(harvest_ctx.player.gold, 10);
    assert_eq!(harvest_ctx.plot.human_type, "");
}

#[test]
fn error_messages_match_the_codes() {
    assert_eq!(GameErrorCode::NotEnoughEnergy.message(), "Not enough energy");
    assert_eq!(GameErrorCode::NotEnoughGold.message(), "Not enough gold");
    assert_eq!(GameErrorCode::NotReadyYet.message(), "Not ready for harvest yet");
    assert_eq!(GameErrorCode::NothingWasPlanted.message(), "Nothing was planted");
    assert_eq!(GameErrorCode::WrongAuthority.message(), "Wrong Authority");
}
