use gen4_smogon_tracker::dex::{DexMove, DexPokemon, MoveSet, Strategy};
use gen4_smogon_tracker::generation::Generation;
use gen4_smogon_tracker::pokemon::InitializationMessage;
use gen4_smogon_tracker::sql;
use gen4_smogon_tracker::sync::{Recorded, SyncAction, SyncEvent, SyncJob, SyncMode, SyncStage};

fn s(x: &str) -> String {
    x.to_string()
}

fn dex(name: &str) -> DexPokemon {
    DexPokemon { name: s(name), formats: vec![s("OU")], is_non_standard: s("Standard") }
}

fn strat(format: &str) -> Strategy {
    Strategy {
        format: s(format),
        move_sets: vec![MoveSet {
            name: s("Set"),
            items: vec![],
            abilities: vec![],
            natures: vec![],
            ev_configs: s(""),
            iv_configs: s(""),
            move_slots: vec![vec![DexMove { move_name: s("Tackle"), move_type: None }]],
            tera_types: vec![],
        }],
    }
}

/// Runs a job, answering lookups with `sets` and table questions with `recorded`;
/// returns the actions taken.
fn run(
    mode: SyncMode,
    names: &[&str],
    sets: impl Fn(&str) -> Option<Vec<Strategy>>,
    recorded: impl Fn(&str) -> Recorded,
) -> Vec<SyncAction> {
    let mut job = SyncJob::new(mode, Generation::DiamondPearl);
    let mut taken = Vec::new();
    for _ in 0..1000 {
        let action = job.action();
        let event = match &action {
            SyncAction::FetchRoster => SyncEvent::Roster(names.iter().map(|n| dex(n)).collect()),
            SyncAction::FetchSets(slug) => SyncEvent::Sets(sets(slug)),
            SyncAction::LookUp(q) => SyncEvent::Looked(recorded(q)),
            SyncAction::Done => {
                taken.push(action);
                return taken;
            }
            _ => SyncEvent::Done,
        };
        assert!(job.accepts(&event));
        job.advance(event);
        taken.push(action);
    }
    panic!("the job did not finish");
}

fn messages(actions: &[SyncAction]) -> Vec<InitializationMessage> {
    actions
        .iter()
        .filter_map(|a| if let SyncAction::Announce(m) = a { Some(*m) } else { None })
        .collect()
}

#[test]
fn initialize_runs_through() {
    let names = ["Garchomp", "Mr. Mime", "Mew", "Pikachu", "Zapdos", "Lati@s", "Tyranitar"];
    let actions = run(
        SyncMode::Initialize,
        &names,
        |slug| if slug == "pikachu" { None } else if slug == "mew" { Some(vec![strat("LC")]) } else { Some(vec![strat("OU")]) },
        |_| Recorded::Missing,
    );
    assert_eq!(actions[0], SyncAction::Execute(sql::drop_table_sql(Generation::DiamondPearl)));
    assert_eq!(actions[1], SyncAction::ExecuteOrFail(sql::create_table_sql(Generation::DiamondPearl)));
    assert_eq!(actions[2], SyncAction::FetchRoster);
    let msgs = messages(&actions);
    assert_eq!(msgs[0], InitializationMessage::Total(7));
    assert_eq!(msgs.iter().filter(|m| **m == InitializationMessage::Progress).count(), 7);
    assert_eq!(*msgs.last().unwrap(), InitializationMessage::End);
    let writes = actions.iter().filter(|a| matches!(a, SyncAction::Write(..))).count();
    assert_eq!(writes, 5);
    let pauses: Vec<&SyncAction> = actions.iter().filter(|a| matches!(a, SyncAction::Sleep(_))).collect();
    assert_eq!(pauses, vec![&SyncAction::Sleep(2), &SyncAction::Sleep(2)]);
    assert!(actions.contains(&SyncAction::FetchSets(s("mr-mime"))));
    assert!(!actions.iter().any(|a| matches!(a, SyncAction::LookUp(_))));
}

#[test]
fn update_skips_unchanged_and_replaces_changed() {
    let actions = run(
        SyncMode::Update,
        &["Garchomp", "Mew", "Zapdos"],
        |_| Some(vec![strat("UU")]),
        |q| {
            if q.contains("'Garchomp'") {
                Recorded::Found(s("OU"), s("UU"))
            } else if q.contains("'Mew'") {
                Recorded::Found(s("OU"), s("OU"))
            } else {
                Recorded::Unreadable
            }
        },
    );
    assert!(!actions.iter().any(|a| matches!(a, SyncAction::Execute(_) | SyncAction::ExecuteOrFail(_))));
    let writes: Vec<&SyncAction> = actions.iter().filter(|a| matches!(a, SyncAction::Write(..))).collect();
    assert_eq!(writes.len(), 1);
    if let SyncAction::Write(q, row) = writes[0] {
        assert_eq!(*q, sql::replace_set_sql(Generation::DiamondPearl, "Mew"));
        assert_eq!(row.pokemon, "Mew");
        assert_eq!(row.set_format, "UU");
    }
    let msgs = messages(&actions);
    assert_eq!(
        msgs,
        vec![
            InitializationMessage::Total(3),
            InitializationMessage::Progress,
            InitializationMessage::Progress,
            InitializationMessage::Progress,
            InitializationMessage::End
        ]
    );
}

#[test]
fn update_inserts_missing() {
    let actions = run(SyncMode::Update, &["Mew"], |_| Some(vec![strat("OU")]), |_| Recorded::Missing);
    assert!(actions.iter().any(|a| matches!(a, SyncAction::Write(q, _) if *q == sql::insert_set_sql(Generation::DiamondPearl))));
}

#[test]
fn empty_roster_ends_without_pause() {
    let actions = run(SyncMode::Update, &[], |_| None, |_| Recorded::Missing);
    assert_eq!(
        actions,
        vec![
            SyncAction::FetchRoster,
            SyncAction::Announce(InitializationMessage::Total(0)),
            SyncAction::Announce(InitializationMessage::End),
            SyncAction::Done
        ]
    );
}

#[test]
fn set_without_moves_is_refused() {
    let mut job = SyncJob::new(SyncMode::Initialize, Generation::XY);
    job.advance(SyncEvent::Done);
    job.advance(SyncEvent::Done);
    job.advance(SyncEvent::Roster(vec![dex("Mew")]));
    job.advance(SyncEvent::Done);
    assert_eq!(job.stage(), SyncStage::FetchSets);
    let empty = SyncEvent::Sets(Some(vec![Strategy { format: s("OU"), move_sets: vec![] }]));
    assert!(!job.accepts(&empty));
    let unused = SyncEvent::Sets(Some(vec![Strategy { format: s("LC"), move_sets: vec![] }]));
    assert!(job.accepts(&unused));
    job.advance(SyncEvent::Done);
    assert_eq!(job.stage(), SyncStage::FetchSets);
}
