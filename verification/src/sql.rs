//! The statements sent to the set database, one table per generation.

use vstd::prelude::*;
use crate::generation::{get_table_name, table_name, Generation};

verus! {

/// `before`, the generation's table name, then `after`.
fn around_table(before: &str, gen: Generation, after: &str) -> (r: String)
    ensures
        r@ == before@ + table_name(gen) + after@,
{
    let mut r = String::from_str(before);
    r.append(get_table_name(gen));
    r.append(after);
    r
}

/// Removes a generation's table.
pub open spec fn drop_table_statement(gen: Generation) -> Seq<char> {
    "drop table "@ + table_name(gen) + ";"@
}

/// Removes a generation's table.
pub fn drop_table_sql(gen: Generation) -> (r: String)
    ensures
        r@ == drop_table_statement(gen),
{
    around_table("drop table ", gen, ";")
}

/// Creates a generation's table.
pub open spec fn create_table_statement(gen: Generation) -> Seq<char> {
    "\n    create table "@ + table_name(gen) + " (\n    id          integer primary key,\n    pokemon     varchar(20),\n    main_format varchar(4),\n    set_format  varchar(4),\n    set_name    text,\n    item        text,\n    ability     text,\n    nature      text,\n    evs         text,\n    ivs         text,\n    moves       text,\n    tera_type   text,\n    complete    boolean default false\n);"@
}

/// Creates a generation's table.
pub fn create_table_sql(gen: Generation) -> (r: String)
    ensures
        r@ == create_table_statement(gen),
{
    around_table("\n    create table ", gen, " (\n    id          integer primary key,\n    pokemon     varchar(20),\n    main_format varchar(4),\n    set_format  varchar(4),\n    set_name    text,\n    item        text,\n    ability     text,\n    nature      text,\n    evs         text,\n    ivs         text,\n    moves       text,\n    tera_type   text,\n    complete    boolean default false\n);")
}

/// Adds a set; its eleven fields are bound to ?1 .. ?11 in the order of `SetRow`.
pub open spec fn insert_set_statement(gen: Generation) -> Seq<char> {
    "INSERT INTO "@ + table_name(gen) + " (pokemon, main_format, set_format, set_name, item, ability, nature, evs, ivs, moves, tera_type)\n                    VALUES (?1, ?2, ?3, ?4, ?5, ?6, ?7, ?8, ?9, ?10, ?11)"@
}

/// Adds a set; its eleven fields are bound to ?1 .. ?11 in the order of `SetRow`.
pub fn insert_set_sql(gen: Generation) -> (r: String)
    ensures
        r@ == insert_set_statement(gen),
{
    around_table("INSERT INTO ", gen, " (pokemon, main_format, set_format, set_name, item, ability, nature, evs, ivs, moves, tera_type)\n                    VALUES (?1, ?2, ?3, ?4, ?5, ?6, ?7, ?8, ?9, ?10, ?11)")
}

/// Lists id, name and completion of the Pokémon of the main tier bound to ?.
pub open spec fn pokemon_list_statement(gen: Generation) -> Seq<char> {
    "SELECT id, pokemon, complete from "@ + table_name(gen) + " where main_format = ?"@
}

/// Lists id, name and completion of the Pokémon of the main tier bound to ?.
pub fn pokemon_list_sql(gen: Generation) -> (r: String)
    ensures
        r@ == pokemon_list_statement(gen),
{
    around_table("SELECT id, pokemon, complete from ", gen, " where main_format = ?")
}

/// Lists the main tiers of a generation.
pub open spec fn formats_statement(gen: Generation) -> Seq<char> {
    "SELECT main_format from "@ + table_name(gen) + " group by main_format"@
}

/// Lists the main tiers of a generation.
pub fn formats_sql(gen: Generation) -> (r: String)
    ensures
        r@ == formats_statement(gen),
{
    around_table("SELECT main_format from ", gen, " group by main_format")
}

/// Reads the row of the id bound to ?.
pub open spec fn pokemon_by_id_statement(gen: Generation) -> Seq<char> {
    "SELECT * from "@ + table_name(gen) + " where id = ?"@
}

/// Reads the row of the id bound to ?.
pub fn pokemon_by_id_sql(gen: Generation) -> (r: String)
    ensures
        r@ == pokemon_by_id_statement(gen),
{
    around_table("SELECT * from ", gen, " where id = ?")
}

/// Marks the set of the id bound to ? as done.
pub open spec fn set_complete_statement(gen: Generation) -> Seq<char> {
    "UPDATE "@ + table_name(gen) + " SET complete = true WHERE id = ?"@
}

/// Marks the set of the id bound to ? as done.
pub fn set_complete_sql(gen: Generation) -> (r: String)
    ensures
        r@ == set_complete_statement(gen),
{
    around_table("UPDATE ", gen, " SET complete = true WHERE id = ?")
}

/// Marks the set of the id bound to ? as not done.
pub open spec fn set_incomplete_statement(gen: Generation) -> Seq<char> {
    "UPDATE "@ + table_name(gen) + " SET complete = false WHERE id = ?"@
}

/// Marks the set of the id bound to ? as not done.
pub fn set_incomplete_sql(gen: Generation) -> (r: String)
    ensures
        r@ == set_incomplete_statement(gen),
{
    around_table("UPDATE ", gen, " SET complete = false WHERE id = ?")
}

/// Counts the rows of a table; it fails where the table does not exist.
pub open spec fn table_exists_statement(gen: Generation) -> Seq<char> {
    "SELECT COUNT(*) from "@ + table_name(gen) + ""@
}

/// Counts the rows of a table; it fails where the table does not exist.
pub fn table_exists_sql(gen: Generation) -> (r: String)
    ensures
        r@ == table_exists_statement(gen),
{
    around_table("SELECT COUNT(*) from ", gen, "")
}

/// Reads the main and set tier recorded for a Pokémon, named in the text.
pub open spec fn recorded_formats_statement(gen: Generation, pokemon: Seq<char>) -> Seq<char> {
    "SELECT main_format, set_format FROM "@ + table_name(gen) + " where pokemon = '"@ + pokemon + "'"@
}

/// Reads the main and set tier recorded for a Pokémon, named in the text.
pub fn recorded_formats_sql(gen: Generation, pokemon: &str) -> (r: String)
    ensures
        r@ == recorded_formats_statement(gen, pokemon@),
{
    let mut r = around_table("SELECT main_format, set_format FROM ", gen, " where pokemon = '");
    r.append(pokemon);
    r.append("'");
    r
}

/// Replaces the set of a Pokémon, named in the text; the eleven fields are
/// bound to ?1 .. ?11 in the order of `SetRow`, and the set is marked not done.
pub open spec fn replace_set_statement(gen: Generation, pokemon: Seq<char>) -> Seq<char> {
    "UPDATE "@ + table_name(gen) + " (pokemon = ?1, main_format = ?2, set_format = ?3, set_name = ?4, item = ?5, ability = ?6, nature = ?7, evs = ?8, ivs = ?9, moves = ?10, tera_type = ?11, complete = false) where pokemon = "@ + pokemon
}

/// Replaces the set of a Pokémon, named in the text.
pub fn replace_set_sql(gen: Generation, pokemon: &str) -> (r: String)
    ensures
        r@ == replace_set_statement(gen, pokemon@),
{
    let mut r = around_table("UPDATE ", gen, " (pokemon = ?1, main_format = ?2, set_format = ?3, set_name = ?4, item = ?5, ability = ?6, nature = ?7, evs = ?8, ivs = ?9, moves = ?10, tera_type = ?11, complete = false) where pokemon = ");
    r.append(pokemon);
    r
}

} // verus!
