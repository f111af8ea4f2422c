//! The card catalog: a fixed table of every known card, keyed by its
//! kebab-case name, with name-based resolution.
use vstd::prelude::*;

use crate::convert::{
    is_lower_char, lemma_capitalize_identifier_round_trip, spec_capitalized, spec_lower_seq,
    spec_remove_char,
};
use crate::util::{is_kebab_case, spec_is_kebab_case, str_eq};

verus! {

/// How many cards the catalog holds.
pub const NUM_CARDS: usize = 121;

/// The mathematical content of a `Card`.
pub struct CardView {
    pub name: Seq<char>,
    pub badge_name: Seq<char>,
    pub id: int,
}

#[derive(Debug)]
pub struct Card {
    /// The card's name.
    pub name: String,

    /// The card's mastery badge name.
    pub badge_name: String,

    /// The card's in-game ID.
    pub id: i64,
}

impl View for Card {
    type V = CardView;

    open spec fn view(&self) -> CardView {
        CardView { name: self.name@, badge_name: self.badge_name@, id: self.id as int }
    }
}

impl Card {
    /// Returns a card with the given name badge name and ID.
    pub fn new(name: &str, badge_name: &str, id: i64) -> (c: Card)
        ensures
            c@ == (CardView { name: name@, badge_name: badge_name@, id: id as int }),
    {
        Card { name: name.to_owned(), badge_name: badge_name.to_owned(), id }
    }

    /// Matches the given card name to a card.
    ///
    /// Returns an error if the name is not kebab-case or if it isn't a card.
    pub fn from_name(name: &str) -> (r: Result<Card, String>)
        ensures
            match r {
                Ok(c) => spec_is_kebab_case(name@) && spec_card_for(name@) == Some(c@),
                Err(e) => if !spec_is_kebab_case(name@) {
                    e@ == "The card name \""@ + name@ + "\" is not kebab-case"@
                } else {
                    spec_card_for(name@) is None && e@ == "Unknown card name: \""@ + name@
                        + "\""@
                },
            },
    {
        // Make sure the name is kebab case before doing mass string comparisons.
        if !is_kebab_case(name) {
            let mut e = String::new();
            e.append("The card name \"");
            e.append(name);
            e.append("\" is not kebab-case");
            return Err(e);
        }
        if let Some(c) = troop_card_a(name) {
            return Ok(c);
        }
        if let Some(c) = troop_card_b(name) {
            return Ok(c);
        }
        if let Some(c) = troop_card_c(name) {
            return Ok(c);
        }
        if let Some(c) = building_card(name) {
            return Ok(c);
        }
        if let Some(c) = spell_card(name) {
            return Ok(c);
        }
        let mut e = String::new();
        e.append("Unknown card name: \"");
        e.append(name);
        e.append("\"");
        Err(e)
    }
}

/// Law: where a catalog entry is regular — its display name is the
/// capitalized form of its key, and its badge identifier is `Mastery`
/// followed by the name with its spaces removed — the badge carries exactly
/// the key's letters: lowercasing what follows `Mastery` gives the key with
/// its hyphens removed.
///
/// The catalog also holds entries that are not regular (`guards`, `sparky`
/// and others carry badges that do not derive from their display names); for
/// those the stored badge identifier is the single source of truth and no
/// derivation holds, which is why regularity stands here as a premise rather
/// than a proved fact of every entry.
pub proof fn lemma_regular_entry_badge(key: Seq<char>, c: CardView)
    requires
        spec_card_for(key) == Some(c),
        forall|i: int| 0 <= i < key.len() ==> is_lower_char(#[trigger] key[i]) || key[i] == '-',
        c.name == spec_capitalized(key),
        c.badge_name == "Mastery"@ + spec_remove_char(c.name, ' '),
    ensures
        spec_lower_seq(c.badge_name.skip("Mastery"@.len() as int)) == spec_remove_char(key, '-'),
{
    lemma_capitalize_identifier_round_trip(key);
    assert(c.badge_name.skip("Mastery"@.len() as int) =~= spec_remove_char(c.name, ' '));
}

/// The catalog entry for a key, if any.
pub open spec fn spec_card_for(key: Seq<char>) -> Option<CardView> {
    if spec_troop_card_a(key) is Some {
        spec_troop_card_a(key)
    } else if spec_troop_card_b(key) is Some {
        spec_troop_card_b(key)
    } else if spec_troop_card_c(key) is Some {
        spec_troop_card_c(key)
    } else if spec_building_card(key) is Some {
        spec_building_card(key)
    } else {
        spec_spell_card(key)
    }
}

pub open spec fn spec_troop_card_a(key: Seq<char>) -> Option<CardView> {
    if key == "knight"@ {
        Some(CardView { name: "Knight"@, badge_name: "MasteryKnight"@, id: 26000000 })
    } else if key == "archers"@ {
        Some(CardView { name: "Archers"@, badge_name: "MasteryArchers"@, id: 26000001 })
    } else if key == "goblins"@ {
        Some(CardView { name: "Goblins"@, badge_name: "MasteryGoblins"@, id: 26000002 })
    } else if key == "giant"@ {
        Some(CardView { name: "Giant"@, badge_name: "MasteryGiant"@, id: 26000003 })
    } else if key == "pekka"@ {
        Some(CardView { name: "P.E.K.K.A"@, badge_name: "MasteryPekka"@, id: 26000004 })
    } else if key == "minions"@ {
        Some(CardView { name: "Minions"@, badge_name: "MasteryMinions"@, id: 26000005 })
    } else if key == "balloon"@ {
        Some(CardView { name: "Balloon"@, badge_name: "MasteryBalloon"@, id: 26000006 })
    } else if key == "witch"@ {
        Some(CardView { name: "Witch"@, badge_name: "MasteryWitch"@, id: 26000007 })
    } else if key == "barbarians"@ {
        Some(CardView { name: "Barbarians"@, badge_name: "MasteryBarbarians"@, id: 26000008 })
    } else if key == "golem"@ {
        Some(CardView { name: "Golem"@, badge_name: "MasteryGolem"@, id: 26000009 })
    } else if key == "skeletons"@ {
        Some(CardView { name: "Skeletons"@, badge_name: "MasterySkeletons"@, id: 26000010 })
    } else if key == "valkyrie"@ {
        Some(CardView { name: "Valkyrie"@, badge_name: "MasteryValkyrie"@, id: 26000011 })
    } else if key == "skeleton-army"@ {
        Some(CardView { name: "Skeleton Army"@, badge_name: "MasterySkeletonArmy"@, id: 26000012 })
    } else if key == "bomber"@ {
        Some(CardView { name: "Bomber"@, badge_name: "MasteryBomber"@, id: 26000013 })
    } else if key == "musketeer"@ {
        Some(CardView { name: "Musketeer"@, badge_name: "MasteryMusketeer"@, id: 26000014 })
    } else if key == "baby-dragon"@ {
        Some(CardView { name: "Baby Dragon"@, badge_name: "MasteryBabyDragon"@, id: 26000015 })
    } else if key == "prince"@ {
        Some(CardView { name: "Prince"@, badge_name: "MasteryPrince"@, id: 26000016 })
    } else if key == "wizard"@ {
        Some(CardView { name: "Wizard"@, badge_name: "MasteryWizard"@, id: 26000017 })
    } else if key == "mini-pekka"@ {
        Some(CardView { name: "Mini P.E.K.K.A"@, badge_name: "MasteryMiniPekka"@, id: 26000018 })
    } else if key == "spear-goblins"@ {
        Some(CardView { name: "Spear Goblins"@, badge_name: "MasterySpearGoblins"@, id: 26000019 })
    } else if key == "giant-skeleton"@ {
        Some(CardView { name: "Giant Skeleton"@, badge_name: "MasteryGiantSkeleton"@, id: 26000020 })
    } else if key == "hog-rider"@ {
        Some(CardView { name: "Hog Rider"@, badge_name: "MasteryHogRider"@, id: 26000021 })
    } else if key == "minion-horde"@ {
        Some(CardView { name: "Minion Horde"@, badge_name: "MasteryMinionHorde"@, id: 26000022 })
    } else if key == "ice-wizard"@ {
        Some(CardView { name: "Ice Wizard"@, badge_name: "MasteryIceWizard"@, id: 26000023 })
    } else if key == "royal-giant"@ {
        Some(CardView { name: "Royal Giant"@, badge_name: "MasteryRoyalGiant"@, id: 26000024 })
    } else if key == "guards"@ {
        Some(CardView { name: "Guards"@, badge_name: "MasterySkeletonWarriors"@, id: 26000025 })
    } else if key == "princess"@ {
        Some(CardView { name: "Princess"@, badge_name: "MasteryPrincess"@, id: 26000026 })
    } else if key == "dark-prince"@ {
        Some(CardView { name: "Dark Prince"@, badge_name: "MasteryDarkPrince"@, id: 26000027 })
    } else if key == "three-musketeers"@ {
        Some(CardView { name: "Three Musketeers"@, badge_name: "MasteryThreeMusketeers"@, id: 26000028 })
    } else {
        None
    }
}

pub open spec fn spec_troop_card_b(key: Seq<char>) -> Option<CardView> {
    if key == "lava-hound"@ {
        Some(CardView { name: "Lava Hound"@, badge_name: "MasteryLavaHound"@, id: 26000029 })
    } else if key == "ice-spirit"@ {
        Some(CardView { name: "Ice Spirit"@, badge_name: "MasteryIceSpirits"@, id: 26000030 })
    } else if key == "fire-spirit"@ {
        Some(CardView { name: "Fire Spirit"@, badge_name: "MasteryFireSpirit"@, id: 26000031 })
    } else if key == "miner"@ {
        Some(CardView { name: "Miner"@, badge_name: "MasteryMiner"@, id: 26000032 })
    } else if key == "sparky"@ {
        Some(CardView { name: "Sparky"@, badge_name: "MasteryZapMachine"@, id: 26000033 })
    } else if key == "bowler"@ {
        Some(CardView { name: "Bowler"@, badge_name: "MasteryBowler"@, id: 26000034 })
    } else if key == "lumberjack"@ {
        Some(CardView { name: "Lumberjack"@, badge_name: "MasteryRageBarbarian"@, id: 26000035 })
    } else if key == "battle-ram"@ {
        Some(CardView { name: "Battle Ram"@, badge_name: "MasteryBattleRam"@, id: 26000036 })
    } else if key == "inferno-dragon"@ {
        Some(CardView { name: "Inferno Dragon"@, badge_name: "MasteryInfernoDragon"@, id: 26000037 })
    } else if key == "ice-golem"@ {
        Some(CardView { name: "Ice Golem"@, badge_name: "MasteryIceGolemite"@, id: 26000038 })
    } else if key == "mega-minion"@ {
        Some(CardView { name: "Mega Minion"@, badge_name: "MasteryMegaMinion"@, id: 26000039 })
    } else if key == "dart-goblin"@ {
        Some(CardView { name: "Dart Goblin"@, badge_name: "MasteryBlowdartGoblin"@, id: 26000040 })
    } else if key == "goblin-gang"@ {
        Some(CardView { name: "Goblin Gang"@, badge_name: "MasteryGoblinGang"@, id: 26000041 })
    } else if key == "electro-wizard"@ {
        Some(CardView { name: "Electro Wizard"@, badge_name: "MasteryElectroWizard"@, id: 26000042 })
    } else if key == "elite-barbarians"@ {
        Some(CardView { name: "Elite Barbarians"@, badge_name: "MasteryAngryBarbarians"@, id: 26000043 })
    } else if key == "hunter"@ {
        Some(CardView { name: "Hunter"@, badge_name: "MasteryHunter"@, id: 26000044 })
    } else if key == "executioner"@ {
        Some(CardView { name: "Executioner"@, badge_name: "MasteryAxeMan"@, id: 26000045 })
    } else if key == "bandit"@ {
        Some(CardView { name: "Bandit"@, badge_name: "MasteryAssassin"@, id: 26000046 })
    } else if key == "royal-recruits"@ {
        Some(CardView { name: "Royal Recruits"@, badge_name: "MasteryRoyalRecruits"@, id: 26000047 })
    } else if key == "night-witch"@ {
        Some(CardView { name: "Night Witch"@, badge_name: "MasteryDarkWitch"@, id: 26000048 })
    } else if key == "bats"@ {
        Some(CardView { name: "Bats"@, badge_name: "MasteryBats"@, id: 26000049 })
    } else if key == "royal-ghost"@ {
        Some(CardView { name: "Royal Ghost"@, badge_name: "MasteryGhost"@, id: 26000050 })
    } else if key == "ram-rider"@ {
        Some(CardView { name: "Ram Rider"@, badge_name: "MasteryRamRider"@, id: 26000051 })
    } else if key == "zappies"@ {
        Some(CardView { name: "Zappies"@, badge_name: "MasteryMiniSparkys"@, id: 26000052 })
    } else if key == "rascals"@ {
        Some(CardView { name: "Rascals"@, badge_name: "MasteryRascals"@, id: 26000053 })
    } else if key == "cannon-cart"@ {
        Some(CardView { name: "Cannon Cart"@, badge_name: "MasteryMovingCannon"@, id: 26000054 })
    } else if key == "mega-knight"@ {
        Some(CardView { name: "Mega Knight"@, badge_name: "MasteryMegaKnight"@, id: 26000055 })
    } else if key == "skeleton-barrel"@ {
        Some(CardView { name: "Skeleton Barrel"@, badge_name: "MasterySkeletonBalloon"@, id: 26000056 })
    } else {
        None
    }
}

pub open spec fn spec_troop_card_c(key: Seq<char>) -> Option<CardView> {
    if key == "flying-machine"@ {
        Some(CardView { name: "Flying Machine"@, badge_name: "MasteryDartBarrell"@, id: 26000057 })
    } else if key == "wall-breakers"@ {
        Some(CardView { name: "Wall Breakers"@, badge_name: "MasteryWallBreakers"@, id: 26000058 })
    } else if key == "royal-hogs"@ {
        Some(CardView { name: "Royal Hogs"@, badge_name: "MasteryRoyalHogs"@, id: 26000059 })
    } else if key == "goblin-giant"@ {
        Some(CardView { name: "Goblin Giant"@, badge_name: "MasteryGoblinGiant"@, id: 26000060 })
    } else if key == "fisherman"@ {
        Some(CardView { name: "Fisherman"@, badge_name: "MasteryFisherman"@, id: 26000061 })
    } else if key == "magic-archer"@ {
        Some(CardView { name: "Magic Archer"@, badge_name: "MasteryEliteArcher"@, id: 26000062 })
    } else if key == "electro-dragon"@ {
        Some(CardView { name: "Electro Dragon"@, badge_name: "MasteryElectroDragon"@, id: 26000063 })
    } else if key == "firecracker"@ {
        Some(CardView { name: "Firecracker"@, badge_name: "MasteryFirecracker"@, id: 26000064 })
    } else if key == "mighty-miner"@ {
        Some(CardView { name: "Mighty Miner"@, badge_name: "MasteryMightyMiner"@, id: 26000065 })
    } else if key == "elixir-golem"@ {
        Some(CardView { name: "Elixir Golem"@, badge_name: "MasteryElixirGolem"@, id: 26000067 })
    } else if key == "battle-healer"@ {
        Some(CardView { name: "Battle Healer"@, badge_name: "MasteryBattleHealer"@, id: 26000068 })
    } else if key == "skeleton-king"@ {
        Some(CardView { name: "Skeleton King"@, badge_name: "MasterySkeletonKing"@, id: 26000069 })
    } else if key == "archer-queen"@ {
        Some(CardView { name: "Archer Queen"@, badge_name: "MasteryArcherQueen"@, id: 26000072 })
    } else if key == "golden-knight"@ {
        Some(CardView { name: "Golden Knight"@, badge_name: "MasteryGoldenKnight"@, id: 26000074 })
    } else if key == "monk"@ {
        Some(CardView { name: "Monk"@, badge_name: "MasteryMonk"@, id: 26000077 })
    } else if key == "skeleton-dragons"@ {
        Some(CardView { name: "Skeleton Dragons"@, badge_name: "MasterySkeletonDragons"@, id: 26000080 })
    } else if key == "mother-witch"@ {
        Some(CardView { name: "Mother Witch"@, badge_name: "MasteryWitchMother"@, id: 26000083 })
    } else if key == "electro-spirit"@ {
        Some(CardView { name: "Electro Spirit"@, badge_name: "MasteryElectroSpirit"@, id: 26000084 })
    } else if key == "electro-giant"@ {
        Some(CardView { name: "Electro Giant"@, badge_name: "MasteryElectroGiant"@, id: 26000085 })
    } else if key == "phoenix"@ {
        Some(CardView { name: "Phoenix"@, badge_name: "MasteryPhoenix"@, id: 26000087 })
    } else if key == "little-prince"@ {
        Some(CardView { name: "Little Prince"@, badge_name: "MasteryLittlePrince"@, id: 26000093 })
    } else if key == "goblin-demolisher"@ {
        Some(CardView { name: "Goblin Demolisher"@, badge_name: "MasteryGoblinDemolisher"@, id: 26000095 })
    } else if key == "goblin-machine"@ {
        Some(CardView { name: "Goblin Machine"@, badge_name: "MasteryGoblinMachine"@, id: 26000096 })
    } else if key == "suspicious-bush"@ {
        Some(CardView { name: "Suspicious Bush"@, badge_name: "MasterySuspiciousBush"@, id: 26000097 })
    } else if key == "goblinstein"@ {
        Some(CardView { name: "Goblinstein"@, badge_name: "MasteryGoblinstein"@, id: 26000099 })
    } else if key == "rune-giant"@ {
        Some(CardView { name: "Rune Giant"@, badge_name: "MasteryGiantBuffer"@, id: 26000101 })
    } else if key == "berserker"@ {
        Some(CardView { name: "Berserker"@, badge_name: "MasteryBerserker"@, id: 26000102 })
    } else if key == "boss-bandit"@ {
        Some(CardView { name: "Boss Bandit"@, badge_name: "MasteryBossBandit"@, id: 26000103 })
    } else {
        None
    }
}

pub open spec fn spec_building_card(key: Seq<char>) -> Option<CardView> {
    if key == "cannon"@ {
        Some(CardView { name: "Cannon"@, badge_name: "MasteryCannon"@, id: 27000000 })
    } else if key == "goblin-hut"@ {
        Some(CardView { name: "Goblin Hut"@, badge_name: "MasteryGoblinHut"@, id: 27000001 })
    } else if key == "mortar"@ {
        Some(CardView { name: "Mortar"@, badge_name: "MasteryMortar"@, id: 27000002 })
    } else if key == "inferno-tower"@ {
        Some(CardView { name: "Inferno Tower"@, badge_name: "MasteryInfernoTower"@, id: 27000003 })
    } else if key == "bomb-tower"@ {
        Some(CardView { name: "Bomb Tower"@, badge_name: "MasteryBombTower"@, id: 27000004 })
    } else if key == "barbarian-hut"@ {
        Some(CardView { name: "Barbarian Hut"@, badge_name: "MasteryBarbarianHut"@, id: 27000005 })
    } else if key == "tesla"@ {
        Some(CardView { name: "Tesla"@, badge_name: "MasteryTesla"@, id: 27000006 })
    } else if key == "elixir-collector"@ {
        Some(CardView { name: "Elixir Collector"@, badge_name: "MasteryElixir Collector"@, id: 27000007 })
    } else if key == "x-bow"@ {
        Some(CardView { name: "X-Bow"@, badge_name: "MasteryXBow"@, id: 27000008 })
    } else if key == "tombstone"@ {
        Some(CardView { name: "Tombstone"@, badge_name: "MasteryTombstone"@, id: 27000009 })
    } else if key == "furnace"@ {
        Some(CardView { name: "Furnace"@, badge_name: "MasteryFirespiritHut"@, id: 27000010 })
    } else if key == "goblin-cage"@ {
        Some(CardView { name: "Goblin Cage"@, badge_name: "MasteryGoblinCage"@, id: 27000012 })
    } else if key == "goblin-drill"@ {
        Some(CardView { name: "Goblin Drill"@, badge_name: "MasteryGoblinDrill"@, id: 27000013 })
    } else {
        None
    }
}

pub open spec fn spec_spell_card(key: Seq<char>) -> Option<CardView> {
    if key == "fireball"@ {
        Some(CardView { name: "Fireball"@, badge_name: "MasteryFireball"@, id: 28000000 })
    } else if key == "arrows"@ {
        Some(CardView { name: "Arrows"@, badge_name: "MasteryArrows"@, id: 28000001 })
    } else if key == "rage"@ {
        Some(CardView { name: "Rage"@, badge_name: "MasteryRage"@, id: 28000002 })
    } else if key == "rocket"@ {
        Some(CardView { name: "Rocket"@, badge_name: "MasteryRocket"@, id: 28000003 })
    } else if key == "goblin-barrel"@ {
        Some(CardView { name: "Goblin Barrel"@, badge_name: "MasteryGoblinBarrel"@, id: 28000004 })
    } else if key == "freeze"@ {
        Some(CardView { name: "Freeze"@, badge_name: "MasteryFreeze"@, id: 28000005 })
    } else if key == "mirror"@ {
        Some(CardView { name: "Mirror"@, badge_name: "MasteryMirror"@, id: 28000006 })
    } else if key == "lightning"@ {
        Some(CardView { name: "Lightning"@, badge_name: "MasteryLightning"@, id: 28000007 })
    } else if key == "zap"@ {
        Some(CardView { name: "Zap"@, badge_name: "MasteryZap"@, id: 28000008 })
    } else if key == "poison"@ {
        Some(CardView { name: "Poison"@, badge_name: "MasteryPoison"@, id: 28000009 })
    } else if key == "graveyard"@ {
        Some(CardView { name: "Graveyard"@, badge_name: "MasteryGraveyard"@, id: 28000010 })
    } else if key == "the-log"@ {
        Some(CardView { name: "The Log"@, badge_name: "MasteryTheLog"@, id: 28000011 })
    } else if key == "tornado"@ {
        Some(CardView { name: "Tornado"@, badge_name: "MasteryTornado"@, id: 28000012 })
    } else if key == "clone"@ {
        Some(CardView { name: "Clone"@, badge_name: "MasteryClone"@, id: 28000013 })
    } else if key == "earthquake"@ {
        Some(CardView { name: "Earthquake"@, badge_name: "MasteryEarthquake"@, id: 28000014 })
    } else if key == "barbarian-barrel"@ {
        Some(CardView { name: "Barbarian Barrel"@, badge_name: "MasteryBarbLog"@, id: 28000015 })
    } else if key == "heal-spirit"@ {
        Some(CardView { name: "Heal Spirit"@, badge_name: "MasteryHeal"@, id: 28000016 })
    } else if key == "giant-snowball"@ {
        Some(CardView { name: "Giant Snowball"@, badge_name: "MasterySnowball"@, id: 28000017 })
    } else if key == "royal-delivery"@ {
        Some(CardView { name: "Royal Delivery"@, badge_name: "MasteryRoyalDelivery"@, id: 28000018 })
    } else if key == "void"@ {
        Some(CardView { name: "Void"@, badge_name: "MasteryDarkMagic"@, id: 28000023 })
    } else if key == "goblin-curse"@ {
        Some(CardView { name: "Goblin Curse"@, badge_name: "MasteryGoblinCurse"@, id: 28000024 })
    } else if key == "spirit-empress"@ {
        Some(CardView { name: "Spirit Empress"@, badge_name: "MasteryMergeMaiden"@, id: 28000025 })
    } else if key == "vines"@ {
        Some(CardView { name: "Vines"@, badge_name: "MasteryVines"@, id: 28000026 })
    } else {
        None
    }
}

fn troop_card_a(name: &str) -> (r: Option<Card>)
    ensures
        match r {
            Some(c) => spec_troop_card_a(name@) == Some(c@),
            None => spec_troop_card_a(name@) is None,
        },
{
    if str_eq(name, "knight") {
        return Some(Card::new("Knight", "MasteryKnight", 26000000));
    }
    if str_eq(name, "archers") {
        return Some(Card::new("Archers", "MasteryArchers", 26000001));
    }
    if str_eq(name, "goblins") {
        return Some(Card::new("Goblins", "MasteryGoblins", 26000002));
    }
    if str_eq(name, "giant") {
        return Some(Card::new("Giant", "MasteryGiant", 26000003));
    }
    if str_eq(name, "pekka") {
        return Some(Card::new("P.E.K.K.A", "MasteryPekka", 26000004));
    }
    if str_eq(name, "minions") {
        return Some(Card::new("Minions", "MasteryMinions", 26000005));
    }
    if str_eq(name, "balloon") {
        return Some(Card::new("Balloon", "MasteryBalloon", 26000006));
    }
    if str_eq(name, "witch") {
        return Some(Card::new("Witch", "MasteryWitch", 26000007));
    }
    if str_eq(name, "barbarians") {
        return Some(Card::new("Barbarians", "MasteryBarbarians", 26000008));
    }
    if str_eq(name, "golem") {
        return Some(Card::new("Golem", "MasteryGolem", 26000009));
    }
    if str_eq(name, "skeletons") {
        return Some(Card::new("Skeletons", "MasterySkeletons", 26000010));
    }
    if str_eq(name, "valkyrie") {
        return Some(Card::new("Valkyrie", "MasteryValkyrie", 26000011));
    }
    if str_eq(name, "skeleton-army") {
        return Some(Card::new("Skeleton Army", "MasterySkeletonArmy", 26000012));
    }
    if str_eq(name, "bomber") {
        return Some(Card::new("Bomber", "MasteryBomber", 26000013));
    }
    if str_eq(name, "musketeer") {
        return Some(Card::new("Musketeer", "MasteryMusketeer", 26000014));
    }
    if str_eq(name, "baby-dragon") {
        return Some(Card::new("Baby Dragon", "MasteryBabyDragon", 26000015));
    }
    if str_eq(name, "prince") {
        return Some(Card::new("Prince", "MasteryPrince", 26000016));
    }
    if str_eq(name, "wizard") {
        return Some(Card::new("Wizard", "MasteryWizard", 26000017));
    }
    if str_eq(name, "mini-pekka") {
        return Some(Card::new("Mini P.E.K.K.A", "MasteryMiniPekka", 26000018));
    }
    if str_eq(name, "spear-goblins") {
        return Some(Card::new("Spear Goblins", "MasterySpearGoblins", 26000019));
    }
    if str_eq(name, "giant-skeleton") {
        return Some(Card::new("Giant Skeleton", "MasteryGiantSkeleton", 26000020));
    }
    if str_eq(name, "hog-rider") {
        return Some(Card::new("Hog Rider", "MasteryHogRider", 26000021));
    }
    if str_eq(name, "minion-horde") {
        return Some(Card::new("Minion Horde", "MasteryMinionHorde", 26000022));
    }
    if str_eq(name, "ice-wizard") {
        return Some(Card::new("Ice Wizard", "MasteryIceWizard", 26000023));
    }
    if str_eq(name, "royal-giant") {
        return Some(Card::new("Royal Giant", "MasteryRoyalGiant", 26000024));
    }
    if str_eq(name, "guards") {
        return Some(Card::new("Guards", "MasterySkeletonWarriors", 26000025));
    }
    if str_eq(name, "princess") {
        return Some(Card::new("Princess", "MasteryPrincess", 26000026));
    }
    if str_eq(name, "dark-prince") {
        return Some(Card::new("Dark Prince", "MasteryDarkPrince", 26000027));
    }
    if str_eq(name, "three-musketeers") {
        return Some(Card::new("Three Musketeers", "MasteryThreeMusketeers", 26000028));
    }
    None
}

fn troop_card_b(name: &str) -> (r: Option<Card>)
    ensures
        match r {
            Some(c) => spec_troop_card_b(name@) == Some(c@),
            None => spec_troop_card_b(name@) is None,
        },
{
    if str_eq(name, "lava-hound") {
        return Some(Card::new("Lava Hound", "MasteryLavaHound", 26000029));
    }
    if str_eq(name, "ice-spirit") {
        return Some(Card::new("Ice Spirit", "MasteryIceSpirits", 26000030));
    }
    if str_eq(name, "fire-spirit") {
        return Some(Card::new("Fire Spirit", "MasteryFireSpirit", 26000031));
    }
    if str_eq(name, "miner") {
        return Some(Card::new("Miner", "MasteryMiner", 26000032));
    }
    if str_eq(name, "sparky") {
        return Some(Card::new("Sparky", "MasteryZapMachine", 26000033));
    }
    if str_eq(name, "bowler") {
        return Some(Card::new("Bowler", "MasteryBowler", 26000034));
    }
    if str_eq(name, "lumberjack") {
        return Some(Card::new("Lumberjack", "MasteryRageBarbarian", 26000035));
    }
    if str_eq(name, "battle-ram") {
        return Some(Card::new("Battle Ram", "MasteryBattleRam", 26000036));
    }
    if str_eq(name, "inferno-dragon") {
        return Some(Card::new("Inferno Dragon", "MasteryInfernoDragon", 26000037));
    }
    if str_eq(name, "ice-golem") {
        return Some(Card::new("Ice Golem", "MasteryIceGolemite", 26000038));
    }
    if str_eq(name, "mega-minion") {
        return Some(Card::new("Mega Minion", "MasteryMegaMinion", 26000039));
    }
    if str_eq(name, "dart-goblin") {
        return Some(Card::new("Dart Goblin", "MasteryBlowdartGoblin", 26000040));
    }
    if str_eq(name, "goblin-gang") {
        return Some(Card::new("Goblin Gang", "MasteryGoblinGang", 26000041));
    }
    if str_eq(name, "electro-wizard") {
        return Some(Card::new("Electro Wizard", "MasteryElectroWizard", 26000042));
    }
    if str_eq(name, "elite-barbarians") {
        return Some(Card::new("Elite Barbarians", "MasteryAngryBarbarians", 26000043));
    }
    if str_eq(name, "hunter") {
        return Some(Card::new("Hunter", "MasteryHunter", 26000044));
    }
    if str_eq(name, "executioner") {
        return Some(Card::new("Executioner", "MasteryAxeMan", 26000045));
    }
    if str_eq(name, "bandit") {
        return Some(Card::new("Bandit", "MasteryAssassin", 26000046));
    }
    if str_eq(name, "royal-recruits") {
        return Some(Card::new("Royal Recruits", "MasteryRoyalRecruits", 26000047));
    }
    if str_eq(name, "night-witch") {
        return Some(Card::new("Night Witch", "MasteryDarkWitch", 26000048));
    }
    if str_eq(name, "bats") {
        return Some(Card::new("Bats", "MasteryBats", 26000049));
    }
    if str_eq(name, "royal-ghost") {
        return Some(Card::new("Royal Ghost", "MasteryGhost", 26000050));
    }
    if str_eq(name, "ram-rider") {
        return Some(Card::new("Ram Rider", "MasteryRamRider", 26000051));
    }
    if str_eq(name, "zappies") {
        return Some(Card::new("Zappies", "MasteryMiniSparkys", 26000052));
    }
    if str_eq(name, "rascals") {
        return Some(Card::new("Rascals", "MasteryRascals", 26000053));
    }
    if str_eq(name, "cannon-cart") {
        return Some(Card::new("Cannon Cart", "MasteryMovingCannon", 26000054));
    }
    if str_eq(name, "mega-knight") {
        return Some(Card::new("Mega Knight", "MasteryMegaKnight", 26000055));
    }
    if str_eq(name, "skeleton-barrel") {
        return Some(Card::new("Skeleton Barrel", "MasterySkeletonBalloon", 26000056));
    }
    None
}

fn troop_card_c(name: &str) -> (r: Option<Card>)
    ensures
        match r {
            Some(c) => spec_troop_card_c(name@) == Some(c@),
            None => spec_troop_card_c(name@) is None,
        },
{
    if str_eq(name, "flying-machine") {
        return Some(Card::new("Flying Machine", "MasteryDartBarrell", 26000057));
    }
    if str_eq(name, "wall-breakers") {
        return Some(Card::new("Wall Breakers", "MasteryWallBreakers", 26000058));
    }
    if str_eq(name, "royal-hogs") {
        return Some(Card::new("Royal Hogs", "MasteryRoyalHogs", 26000059));
    }
    if str_eq(name, "goblin-giant") {
        return Some(Card::new("Goblin Giant", "MasteryGoblinGiant", 26000060));
    }
    if str_eq(name, "fisherman") {
        return Some(Card::new("Fisherman", "MasteryFisherman", 26000061));
    }
    if str_eq(name, "magic-archer") {
        return Some(Card::new("Magic Archer", "MasteryEliteArcher", 26000062));
    }
    if str_eq(name, "electro-dragon") {
        return Some(Card::new("Electro Dragon", "MasteryElectroDragon", 26000063));
    }
    if str_eq(name, "firecracker") {
        return Some(Card::new("Firecracker", "MasteryFirecracker", 26000064));
    }
    if str_eq(name, "mighty-miner") {
        return Some(Card::new("Mighty Miner", "MasteryMightyMiner", 26000065));
    }
    if str_eq(name, "elixir-golem") {
        return Some(Card::new("Elixir Golem", "MasteryElixirGolem", 26000067));
    }
    if str_eq(name, "battle-healer") {
        return Some(Card::new("Battle Healer", "MasteryBattleHealer", 26000068));
    }
    if str_eq(name, "skeleton-king") {
        return Some(Card::new("Skeleton King", "MasterySkeletonKing", 26000069));
    }
    if str_eq(name, "archer-queen") {
        return Some(Card::new("Archer Queen", "MasteryArcherQueen", 26000072));
    }
    if str_eq(name, "golden-knight") {
        return Some(Card::new("Golden Knight", "MasteryGoldenKnight", 26000074));
    }
    if str_eq(name, "monk") {
        return Some(Card::new("Monk", "MasteryMonk", 26000077));
    }
    if str_eq(name, "skeleton-dragons") {
        return Some(Card::new("Skeleton Dragons", "MasterySkeletonDragons", 26000080));
    }
    if str_eq(name, "mother-witch") {
        return Some(Card::new("Mother Witch", "MasteryWitchMother", 26000083));
    }
    if str_eq(name, "electro-spirit") {
        return Some(Card::new("Electro Spirit", "MasteryElectroSpirit", 26000084));
    }
    if str_eq(name, "electro-giant") {
        return Some(Card::new("Electro Giant", "MasteryElectroGiant", 26000085));
    }
    if str_eq(name, "phoenix") {
        return Some(Card::new("Phoenix", "MasteryPhoenix", 26000087));
    }
    if str_eq(name, "little-prince") {
        return Some(Card::new("Little Prince", "MasteryLittlePrince", 26000093));
    }
    if str_eq(name, "goblin-demolisher") {
        return Some(Card::new("Goblin Demolisher", "MasteryGoblinDemolisher", 26000095));
    }
    if str_eq(name, "goblin-machine") {
        return Some(Card::new("Goblin Machine", "MasteryGoblinMachine", 26000096));
    }
    if str_eq(name, "suspicious-bush") {
        return Some(Card::new("Suspicious Bush", "MasterySuspiciousBush", 26000097));
    }
    if str_eq(name, "goblinstein") {
        return Some(Card::new("Goblinstein", "MasteryGoblinstein", 26000099));
    }
    if str_eq(name, "rune-giant") {
        return Some(Card::new("Rune Giant", "MasteryGiantBuffer", 26000101));
    }
    if str_eq(name, "berserker") {
        return Some(Card::new("Berserker", "MasteryBerserker", 26000102));
    }
    if str_eq(name, "boss-bandit") {
        return Some(Card::new("Boss Bandit", "MasteryBossBandit", 26000103));
    }
    None
}

fn building_card(name: &str) -> (r: Option<Card>)
    ensures
        match r {
            Some(c) => spec_building_card(name@) == Some(c@),
            None => spec_building_card(name@) is None,
        },
{
    if str_eq(name, "cannon") {
        return Some(Card::new("Cannon", "MasteryCannon", 27000000));
    }
    if str_eq(name, "goblin-hut") {
        return Some(Card::new("Goblin Hut", "MasteryGoblinHut", 27000001));
    }
    if str_eq(name, "mortar") {
        return Some(Card::new("Mortar", "MasteryMortar", 27000002));
    }
    if str_eq(name, "inferno-tower") {
        return Some(Card::new("Inferno Tower", "MasteryInfernoTower", 27000003));
    }
    if str_eq(name, "bomb-tower") {
        return Some(Card::new("Bomb Tower", "MasteryBombTower", 27000004));
    }
    if str_eq(name, "barbarian-hut") {
        return Some(Card::new("Barbarian Hut", "MasteryBarbarianHut", 27000005));
    }
    if str_eq(name, "tesla") {
        return Some(Card::new("Tesla", "MasteryTesla", 27000006));
    }
    if str_eq(name, "elixir-collector") {
        return Some(Card::new("Elixir Collector", "MasteryElixir Collector", 27000007));
    }
    if str_eq(name, "x-bow") {
        return Some(Card::new("X-Bow", "MasteryXBow", 27000008));
    }
    if str_eq(name, "tombstone") {
        return Some(Card::new("Tombstone", "MasteryTombstone", 27000009));
    }
    if str_eq(name, "furnace") {
        return Some(Card::new("Furnace", "MasteryFirespiritHut", 27000010));
    }
    if str_eq(name, "goblin-cage") {
        return Some(Card::new("Goblin Cage", "MasteryGoblinCage", 27000012));
    }
    if str_eq(name, "goblin-drill") {
        return Some(Card::new("Goblin Drill", "MasteryGoblinDrill", 27000013));
    }
    None
}

fn spell_card(name: &str) -> (r: Option<Card>)
    ensures
        match r {
            Some(c) => spec_spell_card(name@) == Some(c@),
            None => spec_spell_card(name@) is None,
        },
{
    if str_eq(name, "fireball") {
        return Some(Card::new("Fireball", "MasteryFireball", 28000000));
    }
    if str_eq(name, "arrows") {
        return Some(Card::new("Arrows", "MasteryArrows", 28000001));
    }
    if str_eq(name, "rage") {
        return Some(Card::new("Rage", "MasteryRage", 28000002));
    }
    if str_eq(name, "rocket") {
        return Some(Card::new("Rocket", "MasteryRocket", 28000003));
    }
    if str_eq(name, "goblin-barrel") {
        return Some(Card::new("Goblin Barrel", "MasteryGoblinBarrel", 28000004));
    }
    if str_eq(name, "freeze") {
        return Some(Card::new("Freeze", "MasteryFreeze", 28000005));
    }
    if str_eq(name, "mirror") {
        return Some(Card::new("Mirror", "MasteryMirror", 28000006));
    }
    if str_eq(name, "lightning") {
        return Some(Card::new("Lightning", "MasteryLightning", 28000007));
    }
    if str_eq(name, "zap") {
        return Some(Card::new("Zap", "MasteryZap", 28000008));
    }
    if str_eq(name, "poison") {
        return Some(Card::new("Poison", "MasteryPoison", 28000009));
    }
    if str_eq(name, "graveyard") {
        return Some(Card::new("Graveyard", "MasteryGraveyard", 28000010));
    }
    if str_eq(name, "the-log") {
        return Some(Card::new("The Log", "MasteryTheLog", 28000011));
    }
    if str_eq(name, "tornado") {
        return Some(Card::new("Tornado", "MasteryTornado", 28000012));
    }
    if str_eq(name, "clone") {
        return Some(Card::new("Clone", "MasteryClone", 28000013));
    }
    if str_eq(name, "earthquake") {
        return Some(Card::new("Earthquake", "MasteryEarthquake", 28000014));
    }
    if str_eq(name, "barbarian-barrel") {
        return Some(Card::new("Barbarian Barrel", "MasteryBarbLog", 28000015));
    }
    if str_eq(name, "heal-spirit") {
        return Some(Card::new("Heal Spirit", "MasteryHeal", 28000016));
    }
    if str_eq(name, "giant-snowball") {
        return Some(Card::new("Giant Snowball", "MasterySnowball", 28000017));
    }
    if str_eq(name, "royal-delivery") {
        return Some(Card::new("Royal Delivery", "MasteryRoyalDelivery", 28000018));
    }
    if str_eq(name, "void") {
        return Some(Card::new("Void", "MasteryDarkMagic", 28000023));
    }
    if str_eq(name, "goblin-curse") {
        return Some(Card::new("Goblin Curse", "MasteryGoblinCurse", 28000024));
    }
    if str_eq(name, "spirit-empress") {
        return Some(Card::new("Spirit Empress", "MasteryMergeMaiden", 28000025));
    }
    if str_eq(name, "vines") {
        return Some(Card::new("Vines", "MasteryVines", 28000026));
    }
    None
}
} // verus!
