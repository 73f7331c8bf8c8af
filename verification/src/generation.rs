//! Game generations and the tables that hold their sets.

use vstd::prelude::*;

verus! {

/// A generation of the games, newest first.
#[derive(Copy, Clone, Debug, PartialEq, Eq, Structural, Hash)]
pub enum Generation {
    ScarletViolet,
    SwordShield,
    SunMoon,
    XY,
    BlackWhite,
    DiamondPearl,
    RubySapphire,
    GoldSilver,
    RedBlue,
}

/// The number of a generation (Red/Blue is the first).
pub open spec fn generation_number(gen: Generation) -> nat {
    match gen {
        Generation::ScarletViolet => 9,
        Generation::SwordShield => 8,
        Generation::SunMoon => 7,
        Generation::XY => 6,
        Generation::BlackWhite => 5,
        Generation::DiamondPearl => 4,
        Generation::RubySapphire => 3,
        Generation::GoldSilver => 2,
        Generation::RedBlue => 1,
    }
}

/// The name of the table that holds a generation's sets.
pub open spec fn table_name(gen: Generation) -> Seq<char> {
    match gen {
        Generation::ScarletViolet => "gen9"@,
        Generation::SwordShield => "gen8"@,
        Generation::SunMoon => "gen7"@,
        Generation::XY => "gen6"@,
        Generation::BlackWhite => "gen5"@,
        Generation::DiamondPearl => "gen4"@,
        Generation::RubySapphire => "gen3"@,
        Generation::GoldSilver => "gen2"@,
        Generation::RedBlue => "gen1"@,
    }
}

/// The name of the table that holds a generation's sets.
pub fn get_table_name(gen: Generation) -> (r: &'static str)
    ensures
        r@ == table_name(gen),
{
    match gen {
        Generation::ScarletViolet => "gen9",
        Generation::SwordShield => "gen8",
        Generation::SunMoon => "gen7",
        Generation::XY => "gen6",
        Generation::BlackWhite => "gen5",
        Generation::DiamondPearl => "gen4",
        Generation::RubySapphire => "gen3",
        Generation::GoldSilver => "gen2",
        Generation::RedBlue => "gen1",
    }
}

/// The table of a generation is "gen" followed by the generation's number.
pub proof fn lemma_table_name_spells_number(gen: Generation)
    ensures
        table_name(gen).len() == 4,
        table_name(gen).take(3) == "gen"@,
        table_name(gen)[3] == (('0' as nat) + generation_number(gen)) as char,
{
    reveal_strlit("gen");
    reveal_strlit("gen1");
    reveal_strlit("gen2");
    reveal_strlit("gen3");
    reveal_strlit("gen4");
    reveal_strlit("gen5");
    reveal_strlit("gen6");
    reveal_strlit("gen7");
    reveal_strlit("gen8");
    reveal_strlit("gen9");
    assert(table_name(gen).take(3) =~= "gen"@);
}

/// Each generation has a table of its own.
pub proof fn lemma_tables_distinct(a: Generation, b: Generation)
    requires
        a != b,
    ensures
        table_name(a) != table_name(b),
{
    lemma_table_name_spells_number(a);
    lemma_table_name_spells_number(b);
    assert(table_name(a)[3] != table_name(b)[3]);
}

} // verus!
