//! The decisions of a database refresh: which request to make next, and what
//! to do with each answer. The caller performs each request and hands back
//! what came of it.

use vstd::prelude::*;
use crate::dex::{
    choose_strategy, is_chosen_strategy, is_strategy_recordable, lemma_chosen_unique, roster,
    roster_of, roster_view, row_of, set_row, strategy_recordable, DexPokemon, RosterEntry, SetRow,
    SetRowView, Strategy, empty_row,
};
use crate::generation::Generation;
use crate::names::{dex_slug, dex_slug_of};
use crate::pokemon::InitializationMessage;
use crate::sql::{
    create_table_sql, create_table_statement, drop_table_sql, drop_table_statement, insert_set_sql,
    insert_set_statement, recorded_formats_sql, recorded_formats_statement, replace_set_sql,
    replace_set_statement,
};
use crate::text::same_text;

verus! {

/// How many Pokémon are looked up between two pauses.
pub const BATCH_SIZE: usize = 5;

/// How long each pause lasts, in seconds.
pub const PAUSE_SECONDS: u64 = 2;

/// Whether a refresh builds the table anew or brings an existing one up to date.
#[derive(Copy, Clone, Debug, PartialEq, Eq, Structural)]
pub enum SyncMode {
    /// Drop and recreate the table, then record every Pokémon's set.
    Initialize,
    /// Keep the table; record the sets that are new or changed.
    Update,
}

/// Where a refresh stands.
#[derive(Copy, Clone, Debug, PartialEq, Eq, Structural)]
pub enum SyncStage {
    DropTable,
    CreateTable,
    FetchRoster,
    AnnounceTotal,
    FetchSets,
    LookUp,
    Insert,
    Replace,
    ReportProgress,
    Pause,
    AnnounceEnd,
    Finished,
}

/// What the table holds of the Pokémon being handled.
#[derive(Clone, Debug, PartialEq, Eq)]
pub enum Recorded {
    /// The question could not be asked.
    Unreadable,
    /// No row answered.
    Missing,
    /// The main tier and set tier recorded.
    Found(String, String),
}

/// What came of the last request.
#[derive(Clone, Debug, PartialEq, Eq)]
pub enum SyncEvent {
    /// The request was carried out; its outcome does not matter.
    Done,
    /// The overview of the generation.
    Roster(Vec<DexPokemon>),
    /// The strategies of the Pokémon being handled, or `None` where the
    /// lookup failed.
    Sets(Option<Vec<Strategy>>),
    /// What the table holds of the Pokémon being handled.
    Looked(Recorded),
}

/// The next request of a refresh.
#[derive(Clone, Debug, PartialEq, Eq)]
pub enum SyncAction {
    /// Run the statement; its outcome does not matter.
    Execute(String),
    /// Run the statement; the refresh cannot go on if it fails.
    ExecuteOrFail(String),
    /// Fetch the overview of the generation.
    FetchRoster,
    /// Send the message.
    Announce(InitializationMessage),
    /// Fetch the strategies of the Pokémon listed under this name.
    FetchSets(String),
    /// Ask the table with this statement.
    LookUp(String),
    /// Run the statement with the row's eleven fields bound in order.
    Write(String, SetRow),
    /// Wait this many seconds.
    Sleep(u64),
    /// Nothing is left to do.
    Done,
}

/// The characters of a request.
pub enum SyncActionView {
    Execute(Seq<char>),
    ExecuteOrFail(Seq<char>),
    FetchRoster,
    Announce(InitializationMessage),
    FetchSets(Seq<char>),
    LookUp(Seq<char>),
    Write(Seq<char>, SetRowView),
    Sleep(u64),
    Done,
}

impl View for SyncAction {
    type V = SyncActionView;

    open spec fn view(&self) -> SyncActionView {
        match self {
            SyncAction::Execute(s) => SyncActionView::Execute(s@),
            SyncAction::ExecuteOrFail(s) => SyncActionView::ExecuteOrFail(s@),
            SyncAction::FetchRoster => SyncActionView::FetchRoster,
            SyncAction::Announce(m) => SyncActionView::Announce(*m),
            SyncAction::FetchSets(s) => SyncActionView::FetchSets(s@),
            SyncAction::LookUp(s) => SyncActionView::LookUp(s@),
            SyncAction::Write(s, row) => SyncActionView::Write(s@, row@),
            SyncAction::Sleep(n) => SyncActionView::Sleep(*n),
            SyncAction::Done => SyncActionView::Done,
        }
    }
}

/// A refresh of one generation's table.
pub struct SyncJob {
    mode: SyncMode,
    gen: Generation,
    stage: SyncStage,
    roster: Vec<RosterEntry>,
    next: usize,
    row: SetRow,
}

/// The state of a refresh: the Pokémon to handle (name, main tier), how many
/// are handled, and the row prepared for the one being handled.
pub struct SyncView {
    pub mode: SyncMode,
    pub gen: Generation,
    pub stage: SyncStage,
    pub roster: Seq<(Seq<char>, Seq<char>)>,
    pub next: nat,
    pub row: SetRowView,
}

impl View for SyncJob {
    type V = SyncView;

    closed spec fn view(&self) -> SyncView {
        SyncView {
            mode: self.mode,
            gen: self.gen,
            stage: self.stage,
            roster: roster_view(self.roster@),
            next: self.next as nat,
            row: self.row@,
        }
    }
}

/// The state in which a refresh begins.
pub open spec fn initial(mode: SyncMode, gen: Generation) -> SyncView {
    SyncView {
        mode: mode,
        gen: gen,
        stage: if mode == SyncMode::Initialize {
            SyncStage::DropTable
        } else {
            SyncStage::FetchRoster
        },
        roster: Seq::empty(),
        next: 0,
        row: empty_row(),
    }
}

/// Whether the prepared row is that of the Pokémon being handled.
pub open spec fn row_is_current(v: SyncView) -> bool {
    &&& v.row.pokemon == v.roster[v.next as int].0
    &&& v.row.main_format == v.roster[v.next as int].1
}

/// The states a refresh can be in.
pub open spec fn wf(v: SyncView) -> bool {
    &&& v.next <= v.roster.len()
    &&& v.roster.len() <= usize::MAX
    &&& match v.stage {
        SyncStage::DropTable | SyncStage::CreateTable => v.mode == SyncMode::Initialize
            && v.roster.len() == 0,
        SyncStage::FetchRoster => v.roster.len() == 0,
        SyncStage::AnnounceTotal => v.next == 0,
        SyncStage::FetchSets | SyncStage::ReportProgress => v.next < v.roster.len(),
        SyncStage::LookUp | SyncStage::Replace => v.mode == SyncMode::Update && v.next
            < v.roster.len() && row_is_current(v),
        SyncStage::Insert => v.next < v.roster.len() && row_is_current(v),
        SyncStage::Pause => v.next > 0 && (v.next % (BATCH_SIZE as nat) == 0 || v.next
            == v.roster.len()),
        SyncStage::AnnounceEnd | SyncStage::Finished => v.next == v.roster.len(),
    }
}

/// Whether the chosen strategy among `strats`, if any, can be recorded.
pub open spec fn chosen_recordable(strats: Seq<Strategy>) -> bool {
    forall|i: int| is_chosen_strategy(strats, i) ==> strategy_recordable(#[trigger] strats[i])
}

/// Whether a refresh can take the answer: it cannot where the strategy whose
/// set would be recorded has no set, or a move slot with no move.
pub open spec fn accepts(v: SyncView, e: SyncEvent) -> bool {
    match e {
        SyncEvent::Sets(Some(strats)) => v.stage != SyncStage::FetchSets || chosen_recordable(
            strats@,
        ),
        _ => true,
    }
}

/// The next request of a refresh in state `v`.
pub open spec fn action_of(v: SyncView) -> SyncActionView {
    match v.stage {
        SyncStage::DropTable => SyncActionView::Execute(drop_table_statement(v.gen)),
        SyncStage::CreateTable => SyncActionView::ExecuteOrFail(create_table_statement(v.gen)),
        SyncStage::FetchRoster => SyncActionView::FetchRoster,
        SyncStage::AnnounceTotal => SyncActionView::Announce(
            InitializationMessage::Total(v.roster.len() as usize),
        ),
        SyncStage::FetchSets => SyncActionView::FetchSets(dex_slug_of(v.roster[v.next as int].0)),
        SyncStage::LookUp => SyncActionView::LookUp(
            recorded_formats_statement(v.gen, v.roster[v.next as int].0),
        ),
        SyncStage::Insert => SyncActionView::Write(insert_set_statement(v.gen), v.row),
        SyncStage::Replace => SyncActionView::Write(
            replace_set_statement(v.gen, v.roster[v.next as int].0),
            v.row,
        ),
        SyncStage::ReportProgress => SyncActionView::Announce(InitializationMessage::Progress),
        SyncStage::Pause => SyncActionView::Sleep(PAUSE_SECONDS),
        SyncStage::AnnounceEnd => SyncActionView::Announce(InitializationMessage::End),
        SyncStage::Finished => SyncActionView::Done,
    }
}

/// The same state at another stage.
pub open spec fn at_stage(v: SyncView, stage: SyncStage) -> SyncView {
    SyncView { stage: stage, ..v }
}

/// What a refresh does with the strategies of the Pokémon being handled.
pub open spec fn after_sets(v: SyncView, strats: Seq<Strategy>) -> SyncView {
    if exists|i: int| is_chosen_strategy(strats, i) {
        let i = choose|i: int| is_chosen_strategy(strats, i);
        SyncView {
            stage: if v.mode == SyncMode::Initialize {
                SyncStage::Insert
            } else {
                SyncStage::LookUp
            },
            row: row_of(v.roster[v.next as int].0, v.roster[v.next as int].1, strats[i]),
            ..v
        }
    } else {
        at_stage(v, SyncStage::ReportProgress)
    }
}

/// The state of a refresh in state `v` once the answer `e` came; an answer
/// that does not fit the request leaves the state as it is.
pub open spec fn after(v: SyncView, e: SyncEvent) -> SyncView {
    match (v.stage, e) {
        (SyncStage::DropTable, SyncEvent::Done) => at_stage(v, SyncStage::CreateTable),
        (SyncStage::CreateTable, SyncEvent::Done) => at_stage(v, SyncStage::FetchRoster),
        (SyncStage::FetchRoster, SyncEvent::Roster(list)) => SyncView {
            stage: SyncStage::AnnounceTotal,
            roster: roster_of(list@),
            next: 0,
            ..v
        },
        (SyncStage::AnnounceTotal, SyncEvent::Done) => if v.roster.len() == 0 {
            at_stage(v, SyncStage::AnnounceEnd)
        } else {
            at_stage(v, SyncStage::FetchSets)
        },
        (SyncStage::FetchSets, SyncEvent::Sets(found)) => match found {
            Some(strats) => after_sets(v, strats@),
            None => at_stage(v, SyncStage::ReportProgress),
        },
        (SyncStage::LookUp, SyncEvent::Looked(rec)) => match rec {
            Recorded::Unreadable => at_stage(v, SyncStage::ReportProgress),
            Recorded::Missing => at_stage(v, SyncStage::Insert),
            Recorded::Found(main, set) => if main@ == v.row.main_format && set@
                == v.row.set_format {
                at_stage(v, SyncStage::ReportProgress)
            } else {
                at_stage(v, SyncStage::Replace)
            },
        },
        (SyncStage::Insert, SyncEvent::Done) => at_stage(v, SyncStage::ReportProgress),
        (SyncStage::Replace, SyncEvent::Done) => at_stage(v, SyncStage::ReportProgress),
        (SyncStage::ReportProgress, SyncEvent::Done) => SyncView {
            stage: if (v.next + 1) % (BATCH_SIZE as nat) == 0 || v.next + 1 == v.roster.len() {
                SyncStage::Pause
            } else {
                SyncStage::FetchSets
            },
            next: v.next + 1,
            ..v
        },
        (SyncStage::Pause, SyncEvent::Done) => if v.next < v.roster.len() {
            at_stage(v, SyncStage::FetchSets)
        } else {
            at_stage(v, SyncStage::AnnounceEnd)
        },
        (SyncStage::AnnounceEnd, SyncEvent::Done) => at_stage(v, SyncStage::Finished),
        _ => v,
    }
}

impl SyncJob {
    /// The states a refresh can be in.
    pub closed spec fn wf(&self) -> bool {
        &&& wf(self@)
        &&& self.roster@.len() <= usize::MAX
    }

    /// A refresh is in a state it can be in.
    pub proof fn lemma_job_wf(&self)
        requires
            self.wf(),
        ensures
            wf(self@),
    {
    }

    /// A refresh of the table of `gen`.
    pub fn new(mode: SyncMode, gen: Generation) -> (r: SyncJob)
        ensures
            r.wf(),
            r@ == initial(mode, gen),
    {
        let r = SyncJob {
            mode,
            gen,
            stage: match mode {
                SyncMode::Initialize => SyncStage::DropTable,
                SyncMode::Update => SyncStage::FetchRoster,
            },
            roster: Vec::new(),
            next: 0,
            row: SetRow::empty(),
        };
        assert(roster_view(r.roster@) =~= Seq::empty());
        r
    }

    /// The stage the refresh is at.
    pub fn stage(&self) -> (r: SyncStage)
        ensures
            r == self@.stage,
    {
        self.stage
    }

    /// The next request.
    pub fn action(&self) -> (r: SyncAction)
        requires
            self.wf(),
        ensures
            r@ == action_of(self@),
    {
        match self.stage {
            SyncStage::DropTable => SyncAction::Execute(drop_table_sql(self.gen)),
            SyncStage::CreateTable => SyncAction::ExecuteOrFail(create_table_sql(self.gen)),
            SyncStage::FetchRoster => SyncAction::FetchRoster,
            SyncStage::AnnounceTotal => SyncAction::Announce(
                InitializationMessage::Total(self.roster.len()),
            ),
            SyncStage::FetchSets => SyncAction::FetchSets(
                dex_slug(self.roster[self.next].name.as_str()),
            ),
            SyncStage::LookUp => SyncAction::LookUp(
                recorded_formats_sql(self.gen, self.roster[self.next].name.as_str()),
            ),
            SyncStage::Insert => SyncAction::Write(insert_set_sql(self.gen), self.row.duplicate()),
            SyncStage::Replace => SyncAction::Write(
                replace_set_sql(self.gen, self.roster[self.next].name.as_str()),
                self.row.duplicate(),
            ),
            SyncStage::ReportProgress => SyncAction::Announce(InitializationMessage::Progress),
            SyncStage::Pause => SyncAction::Sleep(PAUSE_SECONDS),
            SyncStage::AnnounceEnd => SyncAction::Announce(InitializationMessage::End),
            SyncStage::Finished => SyncAction::Done,
        }
    }

    /// Whether the refresh can take the answer `e`.
    pub fn accepts(&self, e: &SyncEvent) -> (r: bool)
        ensures
            r == accepts(self@, *e),
    {
        match e {
            SyncEvent::Sets(Some(strats)) => {
                if self.stage != SyncStage::FetchSets {
                    return true;
                }
                match choose_strategy(strats) {
                    Some(i) => {
                        let ok = is_strategy_recordable(&strats[i]);
                        proof {
                            assert forall|j: int| is_chosen_strategy(strats@, j) implies
                                #[trigger] strategy_recordable(strats@[j]) == ok by {
                                lemma_chosen_unique(strats@, i as int, j);
                            }
                            if !ok {
                                assert(!strategy_recordable(strats@[i as int]));
                            }
                        }
                        ok
                    },
                    None => true,
                }
            },
            _ => true,
        }
    }

    /// Takes the answer to the last request.
    pub fn advance(&mut self, e: SyncEvent)
        requires
            old(self).wf(),
            accepts(old(self)@, e),
        ensures
            final(self).wf(),
            final(self)@ == after(old(self)@, e),
    {
        let ghost v = self@;
        match (self.stage, e) {
            (SyncStage::DropTable, SyncEvent::Done) => {
                self.stage = SyncStage::CreateTable;
            },
            (SyncStage::CreateTable, SyncEvent::Done) => {
                self.stage = SyncStage::FetchRoster;
            },
            (SyncStage::FetchRoster, SyncEvent::Roster(list)) => {
                self.roster = roster(&list);
                // the length of a Vec fits in a usize
                let _count = self.roster.len();
                assert(roster_view(self.roster@).len() == self.roster@.len());
                self.next = 0;
                self.stage = SyncStage::AnnounceTotal;
            },
            (SyncStage::AnnounceTotal, SyncEvent::Done) => {
                if self.roster.len() == 0 {
                    self.stage = SyncStage::AnnounceEnd;
                } else {
                    self.stage = SyncStage::FetchSets;
                }
            },
            (SyncStage::FetchSets, SyncEvent::Sets(found)) => {
                match found {
                    Some(strats) => {
                        match choose_strategy(&strats) {
                            Some(i) => {
                                proof {
                                    let c = choose|c: int| is_chosen_strategy(strats@, c);
                                    lemma_chosen_unique(strats@, i as int, c);
                                    assert(strategy_recordable(strats@[i as int]));
                                }
                                self.row = set_row(&self.roster[self.next], &strats[i]);
                                self.stage = match self.mode {
                                    SyncMode::Initialize => SyncStage::Insert,
                                    SyncMode::Update => SyncStage::LookUp,
                                };
                            },
                            None => {
                                self.stage = SyncStage::ReportProgress;
                            },
                        }
                    },
                    None => {
                        self.stage = SyncStage::ReportProgress;
                    },
                }
            },
            (SyncStage::LookUp, SyncEvent::Looked(rec)) => {
                match rec {
                    Recorded::Unreadable => {
                        self.stage = SyncStage::ReportProgress;
                    },
                    Recorded::Missing => {
                        self.stage = SyncStage::Insert;
                    },
                    Recorded::Found(main, set) => {
                        if same_text(main.as_str(), self.row.main_format.as_str()) && same_text(
                            set.as_str(),
                            self.row.set_format.as_str(),
                        ) {
                            self.stage = SyncStage::ReportProgress;
                        } else {
                            self.stage = SyncStage::Replace;
                        }
                    },
                }
            },
            (SyncStage::Insert, SyncEvent::Done) => {
                self.stage = SyncStage::ReportProgress;
            },
            (SyncStage::Replace, SyncEvent::Done) => {
                self.stage = SyncStage::ReportProgress;
            },
            (SyncStage::ReportProgress, SyncEvent::Done) => {
                self.next = self.next + 1;
                if self.next % BATCH_SIZE == 0 || self.next == self.roster.len() {
                    self.stage = SyncStage::Pause;
                } else {
                    self.stage = SyncStage::FetchSets;
                }
            },
            (SyncStage::Pause, SyncEvent::Done) => {
                if self.next < self.roster.len() {
                    self.stage = SyncStage::FetchSets;
                } else {
                    self.stage = SyncStage::AnnounceEnd;
                }
            },
            (SyncStage::AnnounceEnd, SyncEvent::Done) => {
                self.stage = SyncStage::Finished;
            },
            _ => {},
        }
    }
}


/// A refresh begins in a state it can be in.
pub proof fn lemma_initial_wf(mode: SyncMode, gen: Generation)
    ensures
        wf(initial(mode, gen)),
{
}

/// Every answer a refresh takes leads to a state it can be in.
pub proof fn lemma_after_keeps_wf(v: SyncView, e: SyncEvent)
    requires
        wf(v),
        accepts(v, e),
        e matches SyncEvent::Roster(list) ==> list@.len() <= usize::MAX,
    ensures
        wf(after(v, e)),
{
    match (v.stage, e) {
        (SyncStage::FetchRoster, SyncEvent::Roster(list)) => {
            lemma_roster_bounded(list@);
        },
        _ => {},
    }
}

/// The overview lists no more Pokémon to look up than it has entries.
proof fn lemma_roster_bounded(entries: Seq<DexPokemon>)
    ensures
        roster_of(entries).len() <= entries.len(),
    decreases entries.len(),
{
    if entries.len() > 0 {
        lemma_roster_bounded(entries.drop_last());
    }
}

/// The count of handled Pokémon grows only when a `Progress` message was
/// sent, and then by one.
pub proof fn lemma_progress_counts(v: SyncView, e: SyncEvent)
    requires
        wf(v),
    ensures
        after(v, e).next == v.next + if action_of(v) == SyncActionView::Announce(
            InitializationMessage::Progress,
        ) && e == SyncEvent::Done {
            1nat
        } else {
            0nat
        },
{
}

/// `Total` announces the number of Pokémon that will be handled, before any is.
pub proof fn lemma_total_is_roster(v: SyncView, k: usize)
    requires
        wf(v),
        action_of(v) == SyncActionView::Announce(InitializationMessage::Total(k)),
    ensures
        k == v.roster.len(),
        v.next == 0,
{
}

/// `Progress` is sent only for a Pokémon not yet counted.
pub proof fn lemma_progress_within_total(v: SyncView)
    requires
        wf(v),
        action_of(v) == SyncActionView::Announce(InitializationMessage::Progress),
    ensures
        v.next < v.roster.len(),
{
}

/// `End` is sent only once every Pokémon announced in `Total` is handled.
pub proof fn lemma_end_after_all(v: SyncView)
    requires
        wf(v),
        action_of(v) == SyncActionView::Announce(InitializationMessage::End),
    ensures
        v.next == v.roster.len(),
{
}

/// An update never drops or recreates the table.
pub proof fn lemma_update_keeps_table(v: SyncView)
    requires
        wf(v),
        v.mode == SyncMode::Update,
    ensures
        !(action_of(v) is Execute),
        !(action_of(v) is ExecuteOrFail),
{
}

/// An initialization drops the table, then creates it, before anything else.
pub proof fn lemma_initialize_starts_afresh(gen: Generation)
    ensures
        action_of(initial(SyncMode::Initialize, gen)) == SyncActionView::Execute(
            drop_table_statement(gen),
        ),
        action_of(after(initial(SyncMode::Initialize, gen), SyncEvent::Done))
            == SyncActionView::ExecuteOrFail(create_table_statement(gen)),
{
}

/// A set whose tiers are recorded as they are is not written again.
pub proof fn lemma_unchanged_set_kept(v: SyncView, main: String, set: String)
    requires
        wf(v),
        v.stage == SyncStage::LookUp,
        main@ == v.row.main_format,
        set@ == v.row.set_format,
    ensures
        action_of(after(v, SyncEvent::Looked(Recorded::Found(main, set))))
            == SyncActionView::Announce(InitializationMessage::Progress),
{
}

/// Each write carries the row of the Pokémon being handled.
pub proof fn lemma_write_is_current(v: SyncView, sql: Seq<char>, row: SetRowView)
    requires
        wf(v),
        action_of(v) == SyncActionView::Write(sql, row),
    ensures
        row.pokemon == v.roster[v.next as int].0,
        row.main_format == v.roster[v.next as int].1,
{
}


/// The state a refresh reaches from `v` through the answers `es`.
pub open spec fn run(v: SyncView, es: Seq<SyncEvent>) -> SyncView
    decreases es.len(),
{
    if es.len() == 0 {
        v
    } else {
        after(run(v, es.drop_last()), es.last())
    }
}

/// The messages a refresh sends on its way from `v` through the answers `es`.
pub open spec fn announced(v: SyncView, es: Seq<SyncEvent>) -> Seq<InitializationMessage>
    decreases es.len(),
{
    if es.len() == 0 {
        Seq::empty()
    } else {
        announced(v, es.drop_last()) + match action_of(run(v, es.drop_last())) {
            SyncActionView::Announce(m) => seq![m],
            _ => Seq::empty(),
        }
    }
}

/// Whether each answer of `es` is one the refresh takes, a sent message is
/// answered `Done`, and an overview lists no more entries than a `Vec` holds.
pub open spec fn valid_run(v: SyncView, es: Seq<SyncEvent>) -> bool
    decreases es.len(),
{
    if es.len() == 0 {
        true
    } else {
        let u = run(v, es.drop_last());
        let e = es.last();
        &&& valid_run(v, es.drop_last())
        &&& accepts(u, e)
        &&& (action_of(u) is Announce ==> e == SyncEvent::Done)
        &&& (e matches SyncEvent::Roster(list) ==> list@.len() <= usize::MAX)
    }
}

/// `k` progress messages.
pub open spec fn progress_messages(k: nat) -> Seq<InitializationMessage> {
    Seq::new(k, |i: int| InitializationMessage::Progress)
}

/// The messages a refresh has sent by the time it is in state `u`.
pub open spec fn sent_so_far(u: SyncView) -> Seq<InitializationMessage> {
    match u.stage {
        SyncStage::DropTable | SyncStage::CreateTable | SyncStage::FetchRoster
        | SyncStage::AnnounceTotal => Seq::empty(),
        SyncStage::Finished => seq![InitializationMessage::Total(u.roster.len() as usize)]
            + progress_messages(u.next) + seq![InitializationMessage::End],
        _ => seq![InitializationMessage::Total(u.roster.len() as usize)] + progress_messages(
            u.next,
        ),
    }
}

/// Along a valid run from a state with nothing sent, the refresh stays in
/// states it can be in and has sent what `sent_so_far` says.
proof fn lemma_run_sends(v: SyncView, es: Seq<SyncEvent>)
    requires
        wf(v),
        sent_so_far(v) == Seq::<InitializationMessage>::empty(),
        valid_run(v, es),
    ensures
        wf(run(v, es)),
        announced(v, es) == sent_so_far(run(v, es)),
    decreases es.len(),
{
    if es.len() > 0 {
        let prev = es.drop_last();
        let e = es.last();
        lemma_run_sends(v, prev);
        let u = run(v, prev);
        lemma_after_keeps_wf(u, e);
        let w = after(u, e);
        let n = u.roster.len() as usize;
        match u.stage {
            SyncStage::AnnounceTotal => {
                assert(progress_messages(0) =~= Seq::<InitializationMessage>::empty());
                assert(announced(v, es) =~= sent_so_far(w));
            },
            SyncStage::ReportProgress => {
                assert(progress_messages(u.next) + seq![InitializationMessage::Progress]
                    =~= progress_messages(u.next + 1));
                assert(announced(v, es) =~= sent_so_far(w));
            },
            SyncStage::AnnounceEnd => {
                assert(announced(v, es) =~= sent_so_far(w));
            },
            _ => {
                assert(announced(v, es) =~= sent_so_far(w));
            },
        }
    }
}

/// A refresh that runs to its end sends `Total` with the number of Pokémon
/// to handle, then one `Progress` for each, then `End`, and nothing else.
pub proof fn lemma_finished_run_messages(mode: SyncMode, gen: Generation, es: Seq<SyncEvent>)
    requires
        valid_run(initial(mode, gen), es),
        run(initial(mode, gen), es).stage == SyncStage::Finished,
    ensures
        announced(initial(mode, gen), es) == seq![
            InitializationMessage::Total(run(initial(mode, gen), es).roster.len() as usize),
        ] + progress_messages(run(initial(mode, gen), es).roster.len()) + seq![
            InitializationMessage::End,
        ],
        run(initial(mode, gen), es).roster.len() <= usize::MAX,
{
    lemma_run_sends(initial(mode, gen), es);
}


/// Whether the answer `e` is of the kind that the request of state `v` asks
/// for.
pub open spec fn fits(v: SyncView, e: SyncEvent) -> bool {
    match v.stage {
        SyncStage::FetchRoster => e is Roster,
        SyncStage::FetchSets => e is Sets,
        SyncStage::LookUp => e is Looked,
        _ => e == SyncEvent::Done,
    }
}

/// How many requests at most remain before the overview is fetched.
pub open spec fn steps_before_roster(v: SyncView) -> nat {
    match v.stage {
        SyncStage::DropTable => 3,
        SyncStage::CreateTable => 2,
        SyncStage::FetchRoster => 1,
        _ => 0,
    }
}

/// A bound on the requests that remain once the overview is known.
pub open spec fn steps_after_roster(v: SyncView) -> nat {
    let within: nat = match v.stage {
        SyncStage::AnnounceTotal => 7,
        SyncStage::Pause => 6,
        SyncStage::FetchSets => 5,
        SyncStage::LookUp => 4,
        SyncStage::Insert | SyncStage::Replace => 3,
        SyncStage::ReportProgress => 2,
        SyncStage::AnnounceEnd => 1,
        _ => 0,
    };
    ((v.roster.len() - v.next) * 8 + within) as nat
}

/// Each answer of the kind asked for brings an unfinished refresh closer to
/// its end: fewer requests remain before the overview is fetched, or as many
/// and fewer after it. So every run with fitting answers reaches `Finished`.
pub proof fn lemma_fitting_answer_progresses(v: SyncView, e: SyncEvent)
    requires
        wf(v),
        accepts(v, e),
        fits(v, e),
        v.stage != SyncStage::Finished,
    ensures
        steps_before_roster(after(v, e)) < steps_before_roster(v) || (steps_before_roster(
            after(v, e),
        ) == steps_before_roster(v) && steps_after_roster(after(v, e)) < steps_after_roster(v)),
{
}


/// A set whose recorded main tier or set tier differs from the prepared row's
/// is written again: the next request replaces the row of the Pokémon being
/// handled with the prepared one.
pub proof fn lemma_changed_set_replaced(v: SyncView, main: String, set: String)
    requires
        wf(v),
        v.stage == SyncStage::LookUp,
        main@ != v.row.main_format || set@ != v.row.set_format,
    ensures
        action_of(after(v, SyncEvent::Looked(Recorded::Found(main, set))))
            == SyncActionView::Write(replace_set_statement(v.gen, v.roster[v.next as int].0), v.row),
{
}

/// A set the table does not hold is added: the next request inserts the
/// prepared row.
pub proof fn lemma_missing_set_inserted(v: SyncView)
    requires
        wf(v),
        v.stage == SyncStage::LookUp,
    ensures
        action_of(after(v, SyncEvent::Looked(Recorded::Missing))) == SyncActionView::Write(
            insert_set_statement(v.gen),
            v.row,
        ),
{
}

/// A Pokémon the table cannot be asked about is not written: the next request
/// reports progress.
pub proof fn lemma_unreadable_skipped(v: SyncView)
    requires
        wf(v),
        v.stage == SyncStage::LookUp,
    ensures
        action_of(after(v, SyncEvent::Looked(Recorded::Unreadable))) == SyncActionView::Announce(
            InitializationMessage::Progress,
        ),
{
}

} // verus!
