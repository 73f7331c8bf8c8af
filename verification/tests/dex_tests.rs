use gen4_smogon_tracker::Format;
use gen4_smogon_tracker::dex::{
    choose_strategy, is_recorded_tier, is_strategy_recordable, move_line_of, moves_text_of, roster,
    set_row, DexMove, DexPokemon, MoveSet, RosterEntry, SetRow, Strategy,
};

fn s(x: &str) -> String {
    x.to_string()
}

fn entry(name: &str, formats: &[&str], standard: &str) -> DexPokemon {
    DexPokemon { name: s(name), formats: formats.iter().map(|f| s(f)).collect(), is_non_standard: s(standard) }
}

fn mv(name: &str, ty: Option<&str>) -> DexMove {
    DexMove { move_name: s(name), move_type: ty.map(s) }
}

fn move_set(name: &str, slots: Vec<Vec<DexMove>>) -> MoveSet {
    MoveSet {
        name: s(name),
        items: vec![s("Life Orb"), s("Choice Band")],
        abilities: vec![s("Rough Skin")],
        natures: vec![s("Jolly")],
        ev_configs: s("252 Atk / 4 SpD / 252 Spe | 4 HP / 252 Atk / 252 Spe"),
        iv_configs: s(""),
        move_slots: slots,
        tera_types: vec![],
    }
}

fn strategy(format: &str, sets: Vec<MoveSet>) -> Strategy {
    Strategy { format: s(format), move_sets: sets }
}

#[test]
fn roster_keeps_standard_with_tiers() {
    let list = vec![
        entry("Garchomp", &["OU", "UU"], "Standard"),
        entry("Pikachu", &[], "Standard"),
        entry("Pichu-Spiky-eared", &["LC"], "Past"),
        entry("Mew", &["UU"], "Standard"),
    ];
    let r = roster(&list);
    assert_eq!(
        r,
        vec![
            RosterEntry { name: s("Garchomp"), main_format: s("OU") },
            RosterEntry { name: s("Mew"), main_format: s("UU") },
        ]
    );
    assert!(roster(&vec![]).is_empty());
}

#[test]
fn recorded_tiers() {
    for t in ["OU", "UU", "NU", "RU", "PU", "Uber"] {
        assert!(is_recorded_tier(t));
    }
    for t in ["LC", "NFE", "UUBL", "ZU", "ou", ""] {
        assert!(!is_recorded_tier(t));
    }
}

#[test]
fn choose_prefers_best_tier_and_last_of_ties() {
    let strats = vec![
        strategy("UU", vec![]),
        strategy("OU", vec![]),
        strategy("LC", vec![]),
        strategy("OU", vec![]),
        strategy("Uber", vec![]),
    ];
    assert_eq!(choose_strategy(&strats), Some(3));
    let strats = vec![strategy("LC", vec![]), strategy("NFE", vec![])];
    assert_eq!(choose_strategy(&strats), None);
    assert_eq!(choose_strategy(&vec![]), None);
    let strats = vec![strategy("Uber", vec![]), strategy("PU", vec![]), strategy("NU", vec![])];
    assert_eq!(choose_strategy(&strats), Some(2));
}

#[test]
fn choose_matches_stable_sort_last() {
    let tiers = ["UU", "OU", "PU", "OU", "Uber", "LC", "RU", "NU"];
    let strats: Vec<Strategy> = tiers.iter().map(|t| strategy(t, vec![])).collect();
    let mut kept: Vec<(usize, &Strategy)> =
        strats.iter().enumerate().filter(|(_, st)| is_recorded_tier(&st.format)).collect();
    kept.sort_by(|a, b| Format::from(a.1.format.as_str()).cmp(&Format::from(b.1.format.as_str())));
    assert_eq!(choose_strategy(&strats), kept.last().map(|(i, _)| *i));
}

#[test]
fn move_lines_and_text() {
    assert_eq!(move_line_of(&mv("Earthquake", None)), "- Earthquake");
    assert_eq!(move_line_of(&mv("Hidden Power", Some("Fire"))), "- Hidden Power Fire");
    let slots = vec![
        vec![mv("Swords Dance", None), mv("Stealth Rock", None)],
        vec![mv("Earthquake", None)],
        vec![mv("Hidden Power", Some("Ice"))],
    ];
    assert_eq!(moves_text_of(&slots), "- Swords Dance\n- Earthquake\n- Hidden Power Ice");
    assert_eq!(moves_text_of(&vec![]), "");
}

#[test]
fn recordable_strategies() {
    assert!(!is_strategy_recordable(&strategy("OU", vec![])));
    assert!(is_strategy_recordable(&strategy("OU", vec![move_set("A", vec![vec![mv("X", None)]])])));
    assert!(!is_strategy_recordable(&strategy("OU", vec![move_set("A", vec![vec![mv("X", None)], vec![]])])));
    assert!(is_strategy_recordable(&strategy("OU", vec![move_set("A", vec![])])));
}

#[test]
fn row_from_first_set() {
    let e = RosterEntry { name: s("Garchomp"), main_format: s("OU") };
    let st = strategy(
        "UU",
        vec![
            move_set("Swords Dance", vec![vec![mv("Swords Dance", None)], vec![mv("Earthquake", None), mv("Dig", None)]]),
            move_set("Other", vec![]),
        ],
    );
    let row = set_row(&e, &st);
    assert_eq!(
        row,
        SetRow {
            pokemon: s("Garchomp"),
            main_format: s("OU"),
            set_format: s("UU"),
            set_name: s("Swords Dance"),
            item: s("Life Orb"),
            ability: s("Rough Skin"),
            nature: s("Jolly"),
            evs: s("252 Atk / 4 SpD / 252 Spe"),
            ivs: s(""),
            moves: s("- Swords Dance\n- Earthquake"),
            tera_type: s(""),
        }
    );
    assert_eq!(row.duplicate(), row);
    assert_eq!(SetRow::empty().pokemon, "");
}
