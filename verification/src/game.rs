//! The four game operations, each a verified transition on one player's
//! record pair.
//!
//! Every operation takes its account context (the record pair plus the
//! signing identity and, where delegation applies, an optional session
//! token) together with the clock reading it runs under, and either applies
//! its full effect or fails with a [`GameErrorCode`] and leaves both records
//! untouched. The spec functions [`plant_outcome`] and [`harvest_outcome`]
//! pin the exact result, error precedence included, for every input.

use crate::auth::Identity;
use crate::auth::SessionToken;
use crate::auth::authorize;
use crate::auth::spec_authorized;
use crate::errors::GameErrorCode;
use crate::pricing::MAX_REWARD;
use crate::pricing::cost_of;
use crate::pricing::kind_of;
use crate::pricing::lemma_known_kind_nonempty;
use crate::pricing::lemma_reward_bounded;
use crate::pricing::parse_kind;
use crate::pricing::reward_of;
use crate::pricing::spec_cost_of_name;
use crate::pricing::spec_reward_of_name;
use crate::records::INITIAL_GOLD;
use crate::records::MAX_ENERGY;
use crate::records::PlayerData;
use crate::records::Plot;
use vstd::prelude::*;

verus! {

/// Clock readings that must pass after planting before a harvest succeeds.
pub const MATURATION_SECONDS: i64 = 20;

/// Account context for [`init_player`]: the freshly allocated record pair
/// and the identity that requested it.
pub struct InitPlayer {
    /// The player record being created.
    pub player: PlayerData,
    /// The plot record being created.
    pub plot: Plot,
    /// The identity initializing (and thereafter owning) the records.
    pub signer: Identity,
}

/// Account context for [`update`]: the player record with its signer and
/// optional delegation token.
pub struct ChopTree {
    /// Delegation token, when a delegated signer acts for the owner.
    pub session_token: Option<SessionToken>,
    /// The player record.
    pub player: PlayerData,
    /// The identity signing the request.
    pub signer: Identity,
}

/// Account context for [`plant`].
pub struct Plant {
    /// Delegation token, when a delegated signer acts for the owner.
    pub session_token: Option<SessionToken>,
    /// The player record to debit.
    pub player: PlayerData,
    /// The plot record to occupy.
    pub plot: Plot,
    /// The identity signing the request.
    pub signer: Identity,
}

/// Account context for [`harvest`].
pub struct Harvest {
    /// Delegation token, when a delegated signer acts for the owner.
    pub session_token: Option<SessionToken>,
    /// The player record to credit.
    pub player: PlayerData,
    /// The plot record to clear.
    pub plot: Plot,
    /// The identity signing the request.
    pub signer: Identity,
}

/// What planting `kind` returns, given the caller's authorization, the
/// current occupant name and the player's gold. Checks apply in this order:
/// authority, occupancy, kind lookup, affordability.
pub open spec fn plant_outcome(
    authorized: bool,
    occupant: Seq<char>,
    gold: u64,
    kind: Seq<char>,
) -> Result<(), GameErrorCode> {
    if !authorized {
        Err(GameErrorCode::WrongAuthority)
    } else if occupant.len() > 0 {
        Err(GameErrorCode::NotReadyYet)
    } else if kind_of(kind) is None {
        Err(GameErrorCode::NotEnoughGold)
    } else if gold < spec_cost_of_name(kind) {
        Err(GameErrorCode::NotEnoughGold)
    } else {
        Ok(())
    }
}

/// What harvesting returns, given the caller's authorization, the occupant
/// name and the planting and current clock readings. Checks apply in this
/// order: authority, reward lookup (which also rejects the empty sentinel),
/// maturity, emptiness — the last being unreachable, since the lookup
/// already rejected every occupant outside the table.
pub open spec fn harvest_outcome(
    authorized: bool,
    occupant: Seq<char>,
    planted_at: i64,
    now: i64,
) -> Result<(), GameErrorCode> {
    if !authorized {
        Err(GameErrorCode::WrongAuthority)
    } else if kind_of(occupant) is None {
        Err(GameErrorCode::NotEnoughGold)
    } else if planted_at + MATURATION_SECONDS > now {
        Err(GameErrorCode::NotReadyYet)
    } else if occupant.len() == 0 {
        Err(GameErrorCode::NothingWasPlanted)
    } else {
        Ok(())
    }
}

/// Create a player's record pair: full energy, `INITIAL_GOLD` gold, the
/// signer as owner, the creation time as `last_login`, and an empty plot.
/// Whether a pair may be created at all (no duplicate records for this
/// identity) is the record store's concern, not checked here.
pub fn init_player(ctx: &mut InitPlayer, now: i64) -> (r: Result<(), GameErrorCode>)
    ensures
        r is Ok,
        final(ctx).player.authority == old(ctx).signer,
        final(ctx).player.name@ == Seq::<char>::empty(),
        final(ctx).player.level == 0,
        final(ctx).player.xp == 0,
        final(ctx).player.energy == MAX_ENERGY,
        final(ctx).player.gold == INITIAL_GOLD,
        final(ctx).player.last_login == now,
        final(ctx).plot.human_type@ == Seq::<char>::empty(),
        final(ctx).plot.planted_at == 0,
        final(ctx).signer == old(ctx).signer,
{
    ctx.player.authority = ctx.signer;
    ctx.player.name = String::new();
    ctx.player.level = 0;
    ctx.player.xp = 0;
    ctx.player.energy = MAX_ENERGY;
    ctx.player.gold = INITIAL_GOLD;
    ctx.player.last_login = now;
    ctx.plot.human_type = String::new();
    ctx.plot.planted_at = 0;
    Ok(())
}

/// Plant `human_type` on the plot: on success the plot takes the kind's name
/// and the current clock reading, and exactly its cost leaves the player's
/// gold. Any rejection leaves the whole context untouched.
pub fn plant(ctx: &mut Plant, now: i64, human_type: String) -> (r: Result<(), GameErrorCode>)
    ensures
        r == plant_outcome(
            spec_authorized(old(ctx).signer, old(ctx).player.authority, old(ctx).session_token, now),
            old(ctx).plot.human_type@,
            old(ctx).player.gold,
            human_type@,
        ),
        r is Ok ==> {
            &&& final(ctx).plot.human_type@ == human_type@
            &&& final(ctx).plot.planted_at == now
            &&& final(ctx).player.gold == old(ctx).player.gold - spec_cost_of_name(human_type@)
            &&& final(ctx).player.authority == old(ctx).player.authority
            &&& final(ctx).player.name == old(ctx).player.name
            &&& final(ctx).player.level == old(ctx).player.level
            &&& final(ctx).player.xp == old(ctx).player.xp
            &&& final(ctx).player.energy == old(ctx).player.energy
            &&& final(ctx).player.last_login == old(ctx).player.last_login
            &&& final(ctx).signer == old(ctx).signer
            &&& final(ctx).session_token == old(ctx).session_token
        },
        r is Err ==> *final(ctx) == *old(ctx),
{
    let authorized = authorize(ctx.signer, ctx.player.authority, &ctx.session_token, now);
    if !authorized {
        return Err(GameErrorCode::WrongAuthority);
    }
    if !ctx.plot.human_type.as_str().is_empty() {
        return Err(GameErrorCode::NotReadyYet);
    }
    let kind = match parse_kind(human_type.as_str()) {
        Some(k) => k,
        None => {
            return Err(GameErrorCode::NotEnoughGold);
        },
    };
    let cost = cost_of(kind);
    if ctx.player.gold < cost {
        return Err(GameErrorCode::NotEnoughGold);
    }
    ctx.plot.human_type = human_type;
    ctx.plot.planted_at = now;
    ctx.player.gold = ctx.player.gold - cost;
    Ok(())
}

/// Harvest the plot: on success the occupant's reward lands in the player's
/// gold and the plot returns to the empty sentinel (`planted_at` keeps its
/// stale reading, as the stored record always has). Any rejection leaves the
/// whole context untouched.
pub fn harvest(ctx: &mut Harvest, now: i64) -> (r: Result<(), GameErrorCode>)
    requires
        old(ctx).player.gold <= u64::MAX - MAX_REWARD,
        old(ctx).plot.planted_at <= i64::MAX - MATURATION_SECONDS,
    ensures
        r == harvest_outcome(
            spec_authorized(old(ctx).signer, old(ctx).player.authority, old(ctx).session_token, now),
            old(ctx).plot.human_type@,
            old(ctx).plot.planted_at,
            now,
        ),
        r is Ok ==> {
            &&& final(ctx).plot.human_type@ == Seq::<char>::empty()
            &&& final(ctx).plot.planted_at == old(ctx).plot.planted_at
            &&& final(ctx).player.gold == old(ctx).player.gold
                + spec_reward_of_name(old(ctx).plot.human_type@)
            &&& final(ctx).player.authority == old(ctx).player.authority
            &&& final(ctx).player.name == old(ctx).player.name
            &&& final(ctx).player.level == old(ctx).player.level
            &&& final(ctx).player.xp == old(ctx).player.xp
            &&& final(ctx).player.energy == old(ctx).player.energy
            &&& final(ctx).player.last_login == old(ctx).player.last_login
            &&& final(ctx).signer == old(ctx).signer
            &&& final(ctx).session_token == old(ctx).session_token
        },
        r is Err ==> *final(ctx) == *old(ctx),
{
    let authorized = authorize(ctx.signer, ctx.player.authority, &ctx.session_token, now);
    if !authorized {
        return Err(GameErrorCode::WrongAuthority);
    }
    let kind = match parse_kind(ctx.plot.human_type.as_str()) {
        Some(k) => k,
        None => {
            return Err(GameErrorCode::NotEnoughGold);
        },
    };
    let reward = reward_of(kind);
    if ctx.plot.planted_at + MATURATION_SECONDS > now {
        return Err(GameErrorCode::NotReadyYet);
    }
    if ctx.plot.human_type.as_str().is_empty() {
        return Err(GameErrorCode::NothingWasPlanted);
    }
    ctx.plot.human_type = String::new();
    proof {
        lemma_reward_bounded(kind);
    }
    ctx.player.gold = ctx.player.gold + reward;
    Ok(())
}

/// Reserved no-op transition for a future per-tick regeneration mechanic. It
/// validates nothing beyond taking the account pairing, mutates nothing, and
/// always succeeds.
pub fn update(_ctx: &ChopTree) -> (r: Result<(), GameErrorCode>)
    ensures
        r is Ok,
{
    Ok(())
}

/// Harvesting a freshly initialized (empty) plot always fails: the empty
/// sentinel is outside the pricing table, so an authorized caller gets
/// `NotEnoughGold`, and anyone else `WrongAuthority`.
pub proof fn lemma_harvest_after_init_fails(
    authorized: bool,
    occupant: Seq<char>,
    planted_at: i64,
    now: i64,
)
    requires
        occupant.len() == 0,
    ensures
        harvest_outcome(authorized, occupant, planted_at, now) == Err::<(), GameErrorCode>(
            if authorized {
                GameErrorCode::NotEnoughGold
            } else {
                GameErrorCode::WrongAuthority
            },
        ),
{
    crate::pricing::lemma_empty_names_no_kind(occupant);
}

/// The harvest boundary: with a recognized occupant and an authorized
/// caller, harvesting fails `NotReadyYet` strictly before
/// `planted_at + MATURATION_SECONDS` and succeeds from that reading on.
pub proof fn lemma_harvest_boundary(occupant: Seq<char>, planted_at: i64, now: i64)
    requires
        kind_of(occupant) is Some,
    ensures
        planted_at + MATURATION_SECONDS > now ==> harvest_outcome(true, occupant, planted_at, now)
            == Err::<(), GameErrorCode>(GameErrorCode::NotReadyYet),
        now >= planted_at + MATURATION_SECONDS ==> harvest_outcome(true, occupant, planted_at, now)
            == Ok::<(), GameErrorCode>(()),
{
    lemma_known_kind_nonempty(occupant);
}

/// A caller that is neither the record owner nor a valid delegate is
/// rejected with `WrongAuthority`, whatever the records hold and whatever it
/// asks. That a rejected operation mutates nothing is part of the `ensures`
/// of [`plant`] and [`harvest`].
pub proof fn lemma_unauthorized_rejected(
    signer: Identity,
    owner: Identity,
    token: Option<SessionToken>,
    now: i64,
    occupant: Seq<char>,
    gold: u64,
    kind: Seq<char>,
    planted_at: i64,
)
    requires
        !spec_authorized(signer, owner, token, now),
    ensures
        plant_outcome(spec_authorized(signer, owner, token, now), occupant, gold, kind) == Err::<(), GameErrorCode>(
            GameErrorCode::WrongAuthority,
        ),
        harvest_outcome(spec_authorized(signer, owner, token, now), occupant, planted_at, now)
            == Err::<(), GameErrorCode>(GameErrorCode::WrongAuthority),
{
}

} // verus!
