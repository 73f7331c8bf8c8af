use gen4_smogon_tracker::generation::{get_table_name, Generation};
use gen4_smogon_tracker::sql;

#[test]
fn table_names() {
    assert_eq!(get_table_name(Generation::ScarletViolet), "gen9");
    assert_eq!(get_table_name(Generation::SwordShield), "gen8");
    assert_eq!(get_table_name(Generation::SunMoon), "gen7");
    assert_eq!(get_table_name(Generation::XY), "gen6");
    assert_eq!(get_table_name(Generation::BlackWhite), "gen5");
    assert_eq!(get_table_name(Generation::DiamondPearl), "gen4");
    assert_eq!(get_table_name(Generation::RubySapphire), "gen3");
    assert_eq!(get_table_name(Generation::GoldSilver), "gen2");
    assert_eq!(get_table_name(Generation::RedBlue), "gen1");
}

#[test]
fn tables_are_distinct() {
    let all = [
        Generation::ScarletViolet,
        Generation::SwordShield,
        Generation::SunMoon,
        Generation::XY,
        Generation::BlackWhite,
        Generation::DiamondPearl,
        Generation::RubySapphire,
        Generation::GoldSilver,
        Generation::RedBlue,
    ];
    for a in all {
        for b in all {
            assert_eq!(a == b, get_table_name(a) == get_table_name(b));
        }
    }
}

#[test]
fn statements_name_the_table() {
    let g = Generation::DiamondPearl;
    assert_eq!(sql::drop_table_sql(g), "drop table gen4;");
    assert_eq!(
        sql::create_table_sql(g),
        "\n    create table gen4 (\n    id          integer primary key,\n    pokemon     varchar(20),\n    main_format varchar(4),\n    set_format  varchar(4),\n    set_name    text,\n    item        text,\n    ability     text,\n    nature      text,\n    evs         text,\n    ivs         text,\n    moves       text,\n    tera_type   text,\n    complete    boolean default false\n);"
    );
    assert_eq!(
        sql::insert_set_sql(g),
        "INSERT INTO gen4 (pokemon, main_format, set_format, set_name, item, ability, nature, evs, ivs, moves, tera_type)\n                    VALUES (?1, ?2, ?3, ?4, ?5, ?6, ?7, ?8, ?9, ?10, ?11)"
    );
    assert_eq!(
        sql::pokemon_list_sql(g),
        "SELECT id, pokemon, complete from gen4 where main_format = ?"
    );
    assert_eq!(sql::formats_sql(g), "SELECT main_format from gen4 group by main_format");
    assert_eq!(sql::pokemon_by_id_sql(g), "SELECT * from gen4 where id = ?");
    assert_eq!(sql::set_complete_sql(g), "UPDATE gen4 SET complete = true WHERE id = ?");
    assert_eq!(sql::set_incomplete_sql(g), "UPDATE gen4 SET complete = false WHERE id = ?");
    assert_eq!(sql::table_exists_sql(Generation::RedBlue), "SELECT COUNT(*) from gen1");
    assert_eq!(
        sql::recorded_formats_sql(Generation::ScarletViolet, "Great Tusk"),
        "SELECT main_format, set_format FROM gen9 where pokemon = 'Great Tusk'"
    );
    assert_eq!(
        sql::replace_set_sql(Generation::ScarletViolet, "Great Tusk"),
        "UPDATE gen9 (pokemon = ?1, main_format = ?2, set_format = ?3, set_name = ?4, item = ?5, ability = ?6, nature = ?7, evs = ?8, ivs = ?9, moves = ?10, tera_type = ?11, complete = false) where pokemon = Great Tusk"
    );
}
