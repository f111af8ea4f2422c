use parse_royale::cards::{Card, NUM_CARDS};
use parse_royale::convert::{capitalized_to_identifier, kebab_to_capitalized};

#[test]
fn resolves_mega_minion() {
    let card = Card::from_name("mega-minion").unwrap();
    assert_eq!(card.name, "Mega Minion");
    assert_eq!(card.badge_name, "MasteryMegaMinion");
    assert_eq!(card.id, 26000039);
}

#[test]
fn resolves_first_and_last_entries() {
    let knight = Card::from_name("knight").unwrap();
    assert_eq!(knight.name, "Knight");
    assert_eq!(knight.id, 26000000);
    let vines = Card::from_name("vines").unwrap();
    assert_eq!(vines.name, "Vines");
    assert_eq!(vines.badge_name, "MasteryVines");
    assert_eq!(vines.id, 28000026);
}

#[test]
fn resolves_building_and_spell() {
    let xbow = Card::from_name("x-bow").unwrap();
    assert_eq!(xbow.name, "X-Bow");
    assert_eq!(xbow.badge_name, "MasteryXBow");
    assert_eq!(xbow.id, 27000008);
    let log = Card::from_name("the-log").unwrap();
    assert_eq!(log.name, "The Log");
    assert_eq!(log.badge_name, "MasteryTheLog");
    assert_eq!(log.id, 28000011);
}

#[test]
fn badge_names_are_authoritative_not_derived() {
    // These badge identifiers do not follow from the display names; the
    // catalog is the single source of truth for them.
    assert_eq!(Card::from_name("guards").unwrap().badge_name, "MasterySkeletonWarriors");
    assert_eq!(Card::from_name("mother-witch").unwrap().badge_name, "MasteryWitchMother");
    assert_eq!(Card::from_name("sparky").unwrap().badge_name, "MasteryZapMachine");
    assert_eq!(Card::from_name("lumberjack").unwrap().badge_name, "MasteryRageBarbarian");
    assert_eq!(Card::from_name("spirit-empress").unwrap().badge_name, "MasteryMergeMaiden");
}

#[test]
fn regular_badge_derives_from_key() {
    // For a regular entry the badge identifier is exactly "Mastery" plus
    // the capitalized key with its spaces removed.
    for key in ["mega-minion", "hog-rider", "knight", "three-musketeers"] {
        let card = Card::from_name(key).unwrap();
        let capitalized = kebab_to_capitalized(key).unwrap();
        assert_eq!(card.name, capitalized);
        let identifier = capitalized_to_identifier(&capitalized).unwrap();
        assert_eq!(card.badge_name, format!("Mastery{identifier}"));
    }
}

#[test]
fn elixir_collector_badge_keeps_its_space() {
    let card = Card::from_name("elixir-collector").unwrap();
    assert_eq!(card.badge_name, "MasteryElixir Collector");
}

#[test]
fn unknown_card_fails_with_unknown_error() {
    let err = Card::from_name("not-a-card").unwrap_err();
    assert_eq!(err, "Unknown card name: \"not-a-card\"");
}

#[test]
fn non_kebab_name_fails_with_format_error() {
    let err = Card::from_name("Not-Kebab").unwrap_err();
    assert_eq!(err, "The card name \"Not-Kebab\" is not kebab-case");
}

#[test]
fn card_new_copies_its_arguments() {
    let card = Card::new("Knight", "MasteryKnight", 26000000);
    assert_eq!(card.name, "Knight");
    assert_eq!(card.badge_name, "MasteryKnight");
    assert_eq!(card.id, 26000000);
}

#[test]
fn num_cards_counts_the_catalog() {
    assert_eq!(NUM_CARDS, 121);
    // Every key listed resolves, and the count matches the catalog.
    let keys = [
        "knight", "archers", "goblins", "giant", "pekka", "minions", "balloon", "witch",
        "barbarians", "golem", "skeletons", "valkyrie", "skeleton-army", "bomber", "musketeer",
        "baby-dragon", "prince", "wizard", "mini-pekka", "spear-goblins", "giant-skeleton",
        "hog-rider", "minion-horde", "ice-wizard", "royal-giant", "guards", "princess",
        "dark-prince", "three-musketeers", "lava-hound", "ice-spirit", "fire-spirit", "miner",
        "sparky", "bowler", "lumberjack", "battle-ram", "inferno-dragon", "ice-golem",
        "mega-minion", "dart-goblin", "goblin-gang", "electro-wizard", "elite-barbarians",
        "hunter", "executioner", "bandit", "royal-recruits", "night-witch", "bats",
        "royal-ghost", "ram-rider", "zappies", "rascals", "cannon-cart", "mega-knight",
        "skeleton-barrel", "flying-machine", "wall-breakers", "royal-hogs", "goblin-giant",
        "fisherman", "magic-archer", "electro-dragon", "firecracker", "mighty-miner",
        "elixir-golem", "battle-healer", "skeleton-king", "archer-queen", "golden-knight",
        "monk", "skeleton-dragons", "mother-witch", "electro-spirit", "electro-giant",
        "phoenix", "little-prince", "goblin-demolisher", "goblin-machine", "suspicious-bush",
        "goblinstein", "rune-giant", "berserker", "boss-bandit", "cannon", "goblin-hut",
        "mortar", "inferno-tower", "bomb-tower", "barbarian-hut", "tesla", "elixir-collector",
        "x-bow", "tombstone", "furnace", "goblin-cage", "goblin-drill", "fireball", "arrows",
        "rage", "rocket", "goblin-barrel", "freeze", "mirror", "lightning", "zap", "poison",
        "graveyard", "the-log", "tornado", "clone", "earthquake", "barbarian-barrel",
        "heal-spirit", "giant-snowball", "royal-delivery", "void", "goblin-curse",
        "spirit-empress", "vines",
    ];
    assert_eq!(keys.len(), NUM_CARDS);
    for key in keys {
        assert!(Card::from_name(key).is_ok(), "{key} should resolve");
    }
}
