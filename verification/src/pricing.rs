//! The pricing table: the closed set of plantable kinds, what each costs to
//! plant and what it pays when harvested, and the lookup from a kind's name.

use vstd::prelude::*;

verus! {

/// The five plantable human kinds.
#[derive(Clone, Copy, PartialEq, Eq, Structural, Debug)]
pub enum HumanType {
    Peasant,
    Breadmaker,
    Beerbrewer,
    Blacksmith,
    Solanadev,
}

/// Largest reward in the table; bounds the credit a single harvest applies.
pub const MAX_REWARD: u64 = 500;

/// Gold debited when a kind is planted.
pub open spec fn spec_cost(k: HumanType) -> u64 {
    match k {
        HumanType::Peasant => 5,
        HumanType::Breadmaker => 10,
        HumanType::Beerbrewer => 30,
        HumanType::Blacksmith => 50,
        HumanType::Solanadev => 250,
    }
}

/// Gold credited when a kind is harvested.
pub open spec fn spec_reward(k: HumanType) -> u64 {
    match k {
        HumanType::Peasant => 10,
        HumanType::Breadmaker => 20,
        HumanType::Beerbrewer => 60,
        HumanType::Blacksmith => 100,
        HumanType::Solanadev => 500,
    }
}

/// Which kind, if any, a name denotes. The empty string is the "nothing
/// planted" sentinel and, like every other string outside the table, denotes
/// no kind.
pub open spec fn kind_of(s: Seq<char>) -> Option<HumanType> {
    if s == "peasant"@ {
        Some(HumanType::Peasant)
    } else if s == "breadmaker"@ {
        Some(HumanType::Breadmaker)
    } else if s == "beerbrewer"@ {
        Some(HumanType::Beerbrewer)
    } else if s == "blacksmith"@ {
        Some(HumanType::Blacksmith)
    } else if s == "solanadev"@ {
        Some(HumanType::Solanadev)
    } else {
        None
    }
}

/// Cost of the kind a name denotes; zero when it denotes none.
pub open spec fn spec_cost_of_name(s: Seq<char>) -> u64 {
    match kind_of(s) {
        Some(k) => spec_cost(k),
        None => 0,
    }
}

/// Reward of the kind a name denotes; zero when it denotes none.
pub open spec fn spec_reward_of_name(s: Seq<char>) -> u64 {
    match kind_of(s) {
        Some(k) => spec_reward(k),
        None => 0,
    }
}

/// Executable lookup of the kind a name denotes.
pub fn parse_kind(s: &str) -> (r: Option<HumanType>)
    ensures
        r == kind_of(s@),
{
    let name = s.to_owned();
    if name == "peasant".to_owned() {
        Some(HumanType::Peasant)
    } else if name == "breadmaker".to_owned() {
        Some(HumanType::Breadmaker)
    } else if name == "beerbrewer".to_owned() {
        Some(HumanType::Beerbrewer)
    } else if name == "blacksmith".to_owned() {
        Some(HumanType::Blacksmith)
    } else if name == "solanadev".to_owned() {
        Some(HumanType::Solanadev)
    } else {
        None
    }
}

/// Executable pricing table: what planting a kind costs.
pub fn cost_of(k: HumanType) -> (c: u64)
    ensures
        c == spec_cost(k),
{
    match k {
        HumanType::Peasant => 5,
        HumanType::Breadmaker => 10,
        HumanType::Beerbrewer => 30,
        HumanType::Blacksmith => 50,
        HumanType::Solanadev => 250,
    }
}

/// Executable pricing table: what harvesting a kind pays.
pub fn reward_of(k: HumanType) -> (r: u64)
    ensures
        r == spec_reward(k),
{
    match k {
        HumanType::Peasant => 10,
        HumanType::Breadmaker => 20,
        HumanType::Beerbrewer => 60,
        HumanType::Blacksmith => 100,
        HumanType::Solanadev => 500,
    }
}

/// Every kind's harvest reward strictly exceeds its plant cost: a full
/// plant-and-harvest cycle always turns a profit.
pub proof fn lemma_reward_exceeds_cost(k: HumanType)
    ensures
        spec_reward(k) > spec_cost(k),
{
}

/// No reward in the table exceeds `MAX_REWARD`.
pub proof fn lemma_reward_bounded(k: HumanType)
    ensures
        spec_reward(k) <= MAX_REWARD,
{
}

/// A name that denotes a kind is never the empty "nothing planted" sentinel.
pub proof fn lemma_known_kind_nonempty(s: Seq<char>)
    requires
        kind_of(s) is Some,
    ensures
        s.len() > 0,
{
    reveal_strlit("peasant");
    reveal_strlit("breadmaker");
    reveal_strlit("beerbrewer");
    reveal_strlit("blacksmith");
    reveal_strlit("solanadev");
}

/// The empty "nothing planted" sentinel denotes no kind.
pub proof fn lemma_empty_names_no_kind(s: Seq<char>)
    requires
        s.len() == 0,
    ensures
        kind_of(s) is None,
{
    if kind_of(s) is Some {
        lemma_known_kind_nonempty(s);
    }
}

} // verus!
