//! What the strategy dex tells of Pokémon and their sets, and the set that is
//! recorded for each Pokémon.

use vstd::prelude::*;
use crate::format::{format_named, rank, Format};
use crate::text::{leading_field, leading_field_of, same_text};

verus! {

/// A Pokémon as the dex's overview of a generation lists it.
#[derive(Clone, Debug, PartialEq, Eq)]
pub struct DexPokemon {
    pub name: String,
    /// The tiers the Pokémon is in, its main tier first.
    pub formats: Vec<String>,
    /// "Standard" for Pokémon of the standard games.
    pub is_non_standard: String,
}

/// A Pokémon to look up, with its main tier.
#[derive(Clone, Debug, PartialEq, Eq)]
pub struct RosterEntry {
    pub name: String,
    pub main_format: String,
}

impl View for RosterEntry {
    type V = (Seq<char>, Seq<char>);

    open spec fn view(&self) -> (Seq<char>, Seq<char>) {
        (self.name@, self.main_format@)
    }
}

/// One move of a move slot, with the type it is used with, if any.
#[derive(Clone, Debug, PartialEq, Eq)]
pub struct DexMove {
    pub move_name: String,
    pub move_type: Option<String>,
}

/// A set of a strategy.
#[derive(Clone, Debug, PartialEq, Eq)]
pub struct MoveSet {
    pub name: String,
    pub items: Vec<String>,
    pub abilities: Vec<String>,
    pub natures: Vec<String>,
    /// The set's EV spreads, as the dex shows them (separated by " | ").
    pub ev_configs: String,
    /// The set's IV spreads, as the dex shows them (separated by " | ").
    pub iv_configs: String,
    /// The moves of each slot, the preferred move first.
    pub move_slots: Vec<Vec<DexMove>>,
    pub tera_types: Vec<String>,
}

/// A strategy of a Pokémon in one tier.
#[derive(Clone, Debug, PartialEq, Eq)]
pub struct Strategy {
    pub format: String,
    pub move_sets: Vec<MoveSet>,
}

/// The set recorded for a Pokémon: one row of a generation's table.
#[derive(Clone, Debug, PartialEq, Eq)]
pub struct SetRow {
    pub pokemon: String,
    pub main_format: String,
    pub set_format: String,
    pub set_name: String,
    pub item: String,
    pub ability: String,
    pub nature: String,
    pub evs: String,
    pub ivs: String,
    pub moves: String,
    pub tera_type: String,
}

/// The characters of each field of a `SetRow`.
pub struct SetRowView {
    pub pokemon: Seq<char>,
    pub main_format: Seq<char>,
    pub set_format: Seq<char>,
    pub set_name: Seq<char>,
    pub item: Seq<char>,
    pub ability: Seq<char>,
    pub nature: Seq<char>,
    pub evs: Seq<char>,
    pub ivs: Seq<char>,
    pub moves: Seq<char>,
    pub tera_type: Seq<char>,
}

impl View for SetRow {
    type V = SetRowView;

    open spec fn view(&self) -> SetRowView {
        SetRowView {
            pokemon: self.pokemon@,
            main_format: self.main_format@,
            set_format: self.set_format@,
            set_name: self.set_name@,
            item: self.item@,
            ability: self.ability@,
            nature: self.nature@,
            evs: self.evs@,
            ivs: self.ivs@,
            moves: self.moves@,
            tera_type: self.tera_type@,
        }
    }
}

/// Whether the overview's entry is looked up: it is a standard Pokémon with
/// at least one tier.
pub open spec fn is_listed(e: DexPokemon) -> bool {
    e.formats@.len() > 0 && e.is_non_standard@ == "Standard"@
}

/// The Pokémon to look up, in the overview's order, each with its first tier.
pub open spec fn roster_of(entries: Seq<DexPokemon>) -> Seq<(Seq<char>, Seq<char>)>
    decreases entries.len(),
{
    if entries.len() == 0 {
        Seq::empty()
    } else {
        let e = entries.last();
        roster_of(entries.drop_last()) + if is_listed(e) {
            seq![(e.name@, e.formats@[0]@)]
        } else {
            Seq::empty()
        }
    }
}

/// The characters of each roster entry.
pub open spec fn roster_view(r: Seq<RosterEntry>) -> Seq<(Seq<char>, Seq<char>)> {
    r.map_values(|x: RosterEntry| x@)
}

/// The Pokémon to look up, in the overview's order, each with its first tier.
pub fn roster(entries: &Vec<DexPokemon>) -> (r: Vec<RosterEntry>)
    ensures
        roster_view(r@) == roster_of(entries@),
{
    let mut r: Vec<RosterEntry> = Vec::new();
    let n = entries.len();
    let mut i: usize = 0;
    while i < n
        invariant
            n == entries@.len(),
            i <= n,
            roster_view(r@) == roster_of(entries@.take(i as int)),
        decreases n - i,
    {
        let e = &entries[i];
        assert(entries@.take(i + 1).drop_last() =~= entries@.take(i as int));
        assert(entries@.take(i + 1).last() == *e);
        let ghost before = r@;
        if e.formats.len() > 0 && same_text(e.is_non_standard.as_str(), "Standard") {
            r.push(RosterEntry { name: e.name.clone(), main_format: e.formats[0].clone() });
            assert(roster_view(r@) =~= roster_view(before) + seq![(e.name@, e.formats@[0]@)]);
        } else {
            assert(roster_view(r@) =~= roster_view(before) + Seq::<(Seq<char>, Seq<char>)>::empty());
        }
        i = i + 1;
    }
    assert(entries@.take(n as int) =~= entries@);
    r
}

/// Whether a strategy's tier is one whose sets are recorded.
pub open spec fn recorded_tier(s: Seq<char>) -> bool {
    s == "OU"@ || s == "UU"@ || s == "NU"@ || s == "RU"@ || s == "PU"@ || s == "Uber"@
}

/// The preference of a strategy, by its tier.
pub open spec fn strategy_rank(s: Strategy) -> nat {
    rank(format_named(s.format@))
}

/// Whether strategy `i` is the one whose set is recorded: among the strategies
/// of recorded tiers, the last of those in the most preferred tier (the last
/// one after a stable sort by tier).
pub open spec fn is_chosen_strategy(strats: Seq<Strategy>, i: int) -> bool {
    &&& 0 <= i < strats.len()
    &&& recorded_tier(strats[i].format@)
    &&& forall|j: int|
        0 <= j < strats.len() && recorded_tier(#[trigger] strats[j].format@) ==> strategy_rank(
            strats[j],
        ) <= strategy_rank(strats[i])
    &&& forall|j: int|
        i < j < strats.len() && recorded_tier(#[trigger] strats[j].format@) ==> strategy_rank(
            strats[j],
        ) < strategy_rank(strats[i])
}

/// At most one strategy is the chosen one.
pub proof fn lemma_chosen_unique(strats: Seq<Strategy>, i: int, j: int)
    requires
        is_chosen_strategy(strats, i),
        is_chosen_strategy(strats, j),
    ensures
        i == j,
{
    if i < j {
        assert(recorded_tier(strats[j].format@));
    } else if j < i {
        assert(recorded_tier(strats[i].format@));
    }
}

/// Whether a tier's sets are recorded.
pub fn is_recorded_tier(s: &str) -> (r: bool)
    ensures
        r == recorded_tier(s@),
{
    same_text(s, "OU") || same_text(s, "UU") || same_text(s, "NU") || same_text(s, "RU")
        || same_text(s, "PU") || same_text(s, "Uber")
}

/// The strategy whose set is recorded, or `None` when no strategy is of a
/// recorded tier.
pub fn choose_strategy(strats: &Vec<Strategy>) -> (r: Option<usize>)
    ensures
        r is None <==> forall|j: int|
            0 <= j < strats@.len() ==> !recorded_tier(#[trigger] strats@[j].format@),
        r matches Some(i) ==> is_chosen_strategy(strats@, i as int),
{
    let n = strats.len();
    let mut best: Option<usize> = None;
    let mut best_rank: u8 = 0;
    let mut j: usize = 0;
    while j < n
        invariant
            n == strats@.len(),
            j <= n,
            best is None ==> forall|k: int|
                0 <= k < j ==> !recorded_tier(#[trigger] strats@[k].format@),
            best matches Some(b) ==> {
                &&& b < j
                &&& recorded_tier(strats@[b as int].format@)
                &&& best_rank == strategy_rank(strats@[b as int])
                &&& forall|k: int|
                    0 <= k < j && recorded_tier(#[trigger] strats@[k].format@) ==> strategy_rank(
                        strats@[k],
                    ) <= best_rank
                &&& forall|k: int|
                    b < k < j && recorded_tier(#[trigger] strats@[k].format@) ==> strategy_rank(
                        strats@[k],
                    ) < best_rank
            },
        decreases n - j,
    {
        let s = &strats[j];
        if is_recorded_tier(s.format.as_str()) {
            let r = Format::from_name(s.format.as_str()).rank();
            match best {
                None => {
                    best = Some(j);
                    best_rank = r;
                },
                Some(b) => {
                    if r >= best_rank {
                        best = Some(j);
                        best_rank = r;
                    }
                },
            }
        }
        j = j + 1;
    }
    best
}

/// The first element, or nothing.
pub open spec fn first_or_empty(v: Seq<String>) -> Seq<char> {
    if v.len() > 0 {
        v[0]@
    } else {
        Seq::empty()
    }
}

/// The line that shows a move.
pub open spec fn move_line(m: DexMove) -> Seq<char> {
    match m.move_type {
        Some(t) => "- "@ + m.move_name@ + " "@ + t@,
        None => "- "@ + m.move_name@,
    }
}

/// Lines joined by newlines.
pub open spec fn joined_lines(lines: Seq<Seq<char>>) -> Seq<char>
    decreases lines.len(),
{
    if lines.len() == 0 {
        Seq::empty()
    } else if lines.len() == 1 {
        lines[0]
    } else {
        joined_lines(lines.drop_last()) + "\n"@ + lines.last()
    }
}

/// The preferred move of each slot, one line each.
pub open spec fn moves_text(slots: Seq<Vec<DexMove>>) -> Seq<char> {
    joined_lines(slots.map_values(|slot: Vec<DexMove>| move_line(slot@[0])))
}

/// Whether a set can be recorded: every move slot offers a move.
pub open spec fn set_recordable(ms: MoveSet) -> bool {
    forall|i: int| 0 <= i < ms.move_slots@.len() ==> (#[trigger] ms.move_slots@[i])@.len() > 0
}

/// Whether a strategy's set can be recorded: it has a set, and its first set
/// can be recorded.
pub open spec fn strategy_recordable(s: Strategy) -> bool {
    s.move_sets@.len() > 0 && set_recordable(s.move_sets@[0])
}

/// The row recorded for a Pokémon (its name and main tier) from its chosen
/// strategy's first set.
pub open spec fn row_of(name: Seq<char>, main_format: Seq<char>, s: Strategy) -> SetRowView {
    let ms = s.move_sets@[0];
    SetRowView {
        pokemon: name,
        main_format: main_format,
        set_format: s.format@,
        set_name: ms.name@,
        item: first_or_empty(ms.items@),
        ability: first_or_empty(ms.abilities@),
        nature: first_or_empty(ms.natures@),
        evs: leading_field(ms.ev_configs@),
        ivs: leading_field(ms.iv_configs@),
        moves: moves_text(ms.move_slots@),
        tera_type: first_or_empty(ms.tera_types@),
    }
}

/// The first element, or an empty string.
fn first_or_default(v: &Vec<String>) -> (r: String)
    ensures
        r@ == first_or_empty(v@),
{
    if v.len() > 0 {
        v[0].clone()
    } else {
        String::new()
    }
}

/// The line that shows a move.
pub fn move_line_of(m: &DexMove) -> (r: String)
    ensures
        r@ == move_line(*m),
{
    let mut line = String::from_str("- ");
    line.append(m.move_name.as_str());
    match &m.move_type {
        Some(t) => {
            line.append(" ");
            line.append(t.as_str());
        },
        None => {},
    }
    line
}

/// The preferred move of each slot, one line each.
pub fn moves_text_of(slots: &Vec<Vec<DexMove>>) -> (r: String)
    requires
        forall|i: int| 0 <= i < slots@.len() ==> (#[trigger] slots@[i])@.len() > 0,
    ensures
        r@ == moves_text(slots@),
{
    let ghost lines = slots@.map_values(|slot: Vec<DexMove>| move_line(slot@[0]));
    let n = slots.len();
    let mut r = String::new();
    let mut i: usize = 0;
    while i < n
        invariant
            n == slots@.len(),
            i <= n,
            lines == slots@.map_values(|slot: Vec<DexMove>| move_line(slot@[0])),
            forall|k: int| 0 <= k < slots@.len() ==> (#[trigger] slots@[k])@.len() > 0,
            r@ == joined_lines(lines.take(i as int)),
        decreases n - i,
    {
        let line = move_line_of(&slots[i][0]);
        assert(lines.take(i + 1).drop_last() =~= lines.take(i as int));
        assert(lines.take(i + 1).last() == line@);
        if i > 0 {
            r.append("\n");
        } else {
            assert(lines.take(1) =~= seq![line@]);
        }
        r.append(line.as_str());
        i = i + 1;
    }
    assert(lines.take(n as int) =~= lines);
    r
}

/// Whether a strategy's set can be recorded.
pub fn is_strategy_recordable(s: &Strategy) -> (r: bool)
    ensures
        r == strategy_recordable(*s),
{
    if s.move_sets.len() == 0 {
        return false;
    }
    let slots = &s.move_sets[0].move_slots;
    let n = slots.len();
    let mut i: usize = 0;
    while i < n
        invariant
            n == slots@.len(),
            i <= n,
            slots == s.move_sets@[0].move_slots,
            forall|k: int| 0 <= k < i ==> (#[trigger] slots@[k])@.len() > 0,
        decreases n - i,
    {
        if slots[i].len() == 0 {
            return false;
        }
        i = i + 1;
    }
    true
}

impl SetRow {
    /// A row with every field empty.
    pub fn empty() -> (r: SetRow)
        ensures
            r@ == empty_row(),
    {
        SetRow {
            pokemon: String::new(),
            main_format: String::new(),
            set_format: String::new(),
            set_name: String::new(),
            item: String::new(),
            ability: String::new(),
            nature: String::new(),
            evs: String::new(),
            ivs: String::new(),
            moves: String::new(),
            tera_type: String::new(),
        }
    }

    /// A copy of the row.
    pub fn duplicate(&self) -> (r: SetRow)
        ensures
            r@ == self@,
    {
        SetRow {
            pokemon: self.pokemon.clone(),
            main_format: self.main_format.clone(),
            set_format: self.set_format.clone(),
            set_name: self.set_name.clone(),
            item: self.item.clone(),
            ability: self.ability.clone(),
            nature: self.nature.clone(),
            evs: self.evs.clone(),
            ivs: self.ivs.clone(),
            moves: self.moves.clone(),
            tera_type: self.tera_type.clone(),
        }
    }
}

/// A row with every field empty.
pub open spec fn empty_row() -> SetRowView {
    SetRowView {
        pokemon: Seq::empty(),
        main_format: Seq::empty(),
        set_format: Seq::empty(),
        set_name: Seq::empty(),
        item: Seq::empty(),
        ability: Seq::empty(),
        nature: Seq::empty(),
        evs: Seq::empty(),
        ivs: Seq::empty(),
        moves: Seq::empty(),
        tera_type: Seq::empty(),
    }
}

/// The row recorded for a Pokémon from its chosen strategy's first set.
pub fn set_row(entry: &RosterEntry, s: &Strategy) -> (r: SetRow)
    requires
        strategy_recordable(*s),
    ensures
        r@ == row_of(entry.name@, entry.main_format@, *s),
{
    let ms = &s.move_sets[0];
    SetRow {
        pokemon: entry.name.clone(),
        main_format: entry.main_format.clone(),
        set_format: s.format.clone(),
        set_name: ms.name.clone(),
        item: first_or_default(&ms.items),
        ability: first_or_default(&ms.abilities),
        nature: first_or_default(&ms.natures),
        evs: leading_field_of(ms.ev_configs.as_str()),
        ivs: leading_field_of(ms.iv_configs.as_str()),
        moves: moves_text_of(&ms.move_slots),
        tera_type: first_or_default(&ms.tera_types),
    }
}


/// An empty overview gives no Pokémon to look up.
pub proof fn lemma_roster_empty()
    ensures
        roster_of(Seq::empty()) == Seq::<(Seq<char>, Seq<char>)>::empty(),
{
}

/// A standard Pokémon with at least one tier is looked up after those before
/// it, with its first tier as main tier, whatever that tier is.
pub proof fn lemma_roster_keeps_standard(entries: Seq<DexPokemon>, e: DexPokemon)
    requires
        e.formats@.len() > 0,
        e.is_non_standard@ == "Standard"@,
    ensures
        roster_of(entries.push(e)) == roster_of(entries).push((e.name@, e.formats@[0]@)),
{
    assert(entries.push(e).drop_last() =~= entries);
    assert(roster_of(entries) + seq![(e.name@, e.formats@[0]@)] =~= roster_of(entries).push(
        (e.name@, e.formats@[0]@),
    ));
}

/// A Pokémon with no tier, or not standard, is not looked up.
pub proof fn lemma_roster_skips_others(entries: Seq<DexPokemon>, e: DexPokemon)
    requires
        e.formats@.len() == 0 || e.is_non_standard@ != "Standard"@,
    ensures
        roster_of(entries.push(e)) == roster_of(entries),
{
    assert(entries.push(e).drop_last() =~= entries);
    assert(roster_of(entries) + Seq::<(Seq<char>, Seq<char>)>::empty() =~= roster_of(entries));
}

/// No lines join to nothing.
pub proof fn lemma_joined_empty()
    ensures
        joined_lines(Seq::empty()) == Seq::<char>::empty(),
{
}

/// One line joins to itself.
pub proof fn lemma_joined_single(l: Seq<char>)
    ensures
        joined_lines(seq![l]) == l,
{
}

/// Each further line is appended after a newline.
pub proof fn lemma_joined_push(ls: Seq<Seq<char>>, l: Seq<char>)
    requires
        ls.len() > 0,
    ensures
        joined_lines(ls.push(l)) == joined_lines(ls) + "\n"@ + l,
{
    assert(ls.push(l).drop_last() =~= ls);
}

/// The moves text of one slot is the line of its preferred move.
pub proof fn lemma_moves_text_single(slot: Vec<DexMove>)
    ensures
        moves_text(seq![slot]) == move_line(slot@[0]),
{
    assert(seq![slot].map_values(|s: Vec<DexMove>| move_line(s@[0])) =~= seq![move_line(slot@[0])]);
}

/// Each further slot adds, after a newline, the line of its preferred move.
pub proof fn lemma_moves_text_push(slots: Seq<Vec<DexMove>>, slot: Vec<DexMove>)
    requires
        slots.len() > 0,
    ensures
        moves_text(slots.push(slot)) == moves_text(slots) + "\n"@ + move_line(slot@[0]),
{
    let f = |s: Vec<DexMove>| move_line(s@[0]);
    assert(slots.push(slot).map_values(f) =~= slots.map_values(f).push(move_line(slot@[0])));
    lemma_joined_push(slots.map_values(f), move_line(slot@[0]));
}

} // verus!
