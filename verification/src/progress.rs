//! What the tier overview of a generation shows while its table is built.

use vstd::prelude::*;
use crate::generation::Generation;
use crate::pokemon::InitializationMessage;
use crate::sync::{
    announced, initial, lemma_finished_run_messages, run, valid_run, SyncEvent, SyncMode, SyncStage,
};

verus! {

/// Whether the table is there, whether a refresh runs, and how far it got.
#[derive(Copy, Clone, Debug, PartialEq, Eq, Structural)]
pub struct IndexingStatus {
    pub loaded: bool,
    pub initializing: bool,
    pub total: usize,
    pub progress: usize,
}

/// The status once a message came.
pub open spec fn received(s: IndexingStatus, msg: InitializationMessage) -> IndexingStatus {
    match msg {
        InitializationMessage::Total(n) => IndexingStatus { total: n, ..s },
        InitializationMessage::Progress => IndexingStatus { progress: (s.progress + 1) as usize, ..s },
        InitializationMessage::End => IndexingStatus { loaded: true, initializing: false, ..s },
    }
}

/// The status once the messages came, in order.
pub open spec fn received_all(s: IndexingStatus, msgs: Seq<InitializationMessage>) -> IndexingStatus
    decreases msgs.len(),
{
    if msgs.len() == 0 {
        s
    } else {
        received(received_all(s, msgs.drop_last()), msgs.last())
    }
}

/// The messages of a refresh that handles `n` Pokémon.
pub open spec fn refresh_messages(n: nat) -> Seq<InitializationMessage> {
    seq![InitializationMessage::Total(n as usize)] + Seq::new(
        n,
        |i: int| InitializationMessage::Progress,
    ) + seq![InitializationMessage::End]
}

impl IndexingStatus {
    /// The status before any refresh: no count, no refresh running.
    pub fn new(loaded: bool) -> (r: IndexingStatus)
        ensures
            r == (IndexingStatus { loaded: loaded, initializing: false, total: 0, progress: 0 }),
    {
        IndexingStatus { loaded, initializing: false, total: 0, progress: 0 }
    }

    /// Takes a message of the running refresh; returns whether the list of
    /// tiers must be read again (when the refresh is over).
    pub fn receive(&mut self, msg: InitializationMessage) -> (reload: bool)
        requires
            msg == InitializationMessage::Progress ==> old(self).progress < usize::MAX,
        ensures
            *final(self) == received(*old(self), msg),
            reload == (msg == InitializationMessage::End),
    {
        match msg {
            InitializationMessage::Total(n) => {
                self.total = n;
                false
            },
            InitializationMessage::Progress => {
                self.progress = self.progress + 1;
                false
            },
            InitializationMessage::End => {
                self.loaded = true;
                self.initializing = false;
                true
            },
        }
    }

    /// A request to build the table: returns whether a refresh is to start,
    /// which is when none runs; a refresh runs afterwards either way.
    pub fn begin_initialize(&mut self) -> (start: bool)
        ensures
            start == !old(self).initializing,
            *final(self) == (IndexingStatus { initializing: true, ..*old(self) }),
    {
        let start = !self.initializing;
        self.initializing = true;
        start
    }

    /// A request to bring the table up to date: the tiers are hidden, and a
    /// refresh is to start when none runs; a refresh runs afterwards either way.
    pub fn begin_update(&mut self) -> (start: bool)
        ensures
            start == !old(self).initializing,
            *final(self) == (IndexingStatus { loaded: false, initializing: true, ..*old(self) }),
    {
        self.loaded = false;
        let start = !self.initializing;
        self.initializing = true;
        start
    }
}

/// `n` progress messages raise the count by `n`.
proof fn lemma_progress_adds(s: IndexingStatus, n: nat)
    requires
        s.progress + n <= usize::MAX,
    ensures
        received_all(s, Seq::new(n, |i: int| InitializationMessage::Progress))
            == (IndexingStatus { progress: (s.progress + n) as usize, ..s }),
    decreases n,
{
    if n > 0 {
        let msgs = Seq::new(n, |i: int| InitializationMessage::Progress);
        assert(msgs.drop_last() =~= Seq::new((n - 1) as nat, |i: int| InitializationMessage::Progress));
        lemma_progress_adds(s, (n - 1) as nat);
    }
}

/// Messages received in two runs are the messages received in one.
proof fn lemma_received_concat(s: IndexingStatus, a: Seq<InitializationMessage>, b: Seq<InitializationMessage>)
    ensures
        received_all(s, a + b) == received_all(received_all(s, a), b),
    decreases b.len(),
{
    if b.len() == 0 {
        assert(a + b =~= a);
    } else {
        assert((a + b).drop_last() =~= a + b.drop_last());
        lemma_received_concat(s, a, b.drop_last());
    }
}

/// After the messages of a whole refresh of `n` Pokémon, begun with no count,
/// the overview shows `n` of `n`, shows the tiers, and no refresh runs.
pub proof fn lemma_refresh_completes(s: IndexingStatus, n: nat)
    requires
        s.progress == 0,
        n <= usize::MAX,
    ensures
        received_all(s, refresh_messages(n)) == (IndexingStatus {
            loaded: true,
            initializing: false,
            total: n as usize,
            progress: n as usize,
        }),
{
    let first = seq![InitializationMessage::Total(n as usize)];
    let middle = Seq::new(n, |i: int| InitializationMessage::Progress);
    let last = seq![InitializationMessage::End];
    assert(refresh_messages(n) == first + middle + last);
    lemma_received_concat(s, first + middle, last);
    lemma_received_concat(s, first, middle);
    assert(first.drop_last() =~= Seq::<InitializationMessage>::empty());
    assert(received_all(s, first.drop_last()) == s);
    assert(first.last() == InitializationMessage::Total(n as usize));
    let counted = received_all(s, first);
    assert(counted == IndexingStatus { total: n as usize, ..s });
    lemma_progress_adds(counted, n);
    let progressed = received_all(counted, middle);
    assert(last.drop_last() =~= Seq::<InitializationMessage>::empty());
    assert(received_all(progressed, last.drop_last()) == progressed);
    assert(last.last() == InitializationMessage::End);
}


/// Once a refresh ran to its end, the overview, begun with no count, shows
/// every Pokémon handled out of the number announced, shows the tiers, and
/// no refresh runs.
pub proof fn lemma_finished_refresh_shown(
    s: IndexingStatus,
    mode: SyncMode,
    gen: Generation,
    es: Seq<SyncEvent>,
)
    requires
        s.progress == 0,
        valid_run(initial(mode, gen), es),
        run(initial(mode, gen), es).stage == SyncStage::Finished,
    ensures
        received_all(s, announced(initial(mode, gen), es)) == (IndexingStatus {
            loaded: true,
            initializing: false,
            total: run(initial(mode, gen), es).roster.len() as usize,
            progress: run(initial(mode, gen), es).roster.len() as usize,
        }),
{
    let n = run(initial(mode, gen), es).roster.len();
    lemma_finished_run_messages(mode, gen, es);
    assert(announced(initial(mode, gen), es) =~= refresh_messages(n));
    lemma_refresh_completes(s, n);
}

} // verus!
