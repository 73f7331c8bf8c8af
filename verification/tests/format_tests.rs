use gen4_smogon_tracker::format::Format;

const ALL: [Format; 12] = [
    Format::Unranked,
    Format::Uber,
    Format::NFE,
    Format::LC,
    Format::NUBL,
    Format::RUBL,
    Format::UUBL,
    Format::PU,
    Format::NU,
    Format::RU,
    Format::UU,
    Format::OU,
];

#[test]
fn format_from_each_name() {
    assert_eq!(Format::from("OU"), Format::OU);
    assert_eq!(Format::from("NU"), Format::NU);
    assert_eq!(Format::from("RU"), Format::RU);
    assert_eq!(Format::from("UU"), Format::UU);
    assert_eq!(Format::from("PU"), Format::PU);
    assert_eq!(Format::from("Uber"), Format::Uber);
    assert_eq!(Format::from("UUBL"), Format::UUBL);
    assert_eq!(Format::from("NUBL"), Format::NUBL);
    assert_eq!(Format::from("RUBL"), Format::RUBL);
    assert_eq!(Format::from("NFE"), Format::NFE);
    assert_eq!(Format::from("LC"), Format::LC);
}

#[test]
fn format_from_unknown_text() {
    assert_eq!(Format::from(""), Format::Unranked);
    assert_eq!(Format::from("ou"), Format::Unranked);
    assert_eq!(Format::from("OU "), Format::Unranked);
    assert_eq!(Format::from("ZU"), Format::Unranked);
    assert_eq!(Format::from("None"), Format::Unranked);
}

#[test]
fn format_names() {
    let names: Vec<String> = ALL.iter().map(|f| f.to_string()).collect();
    assert_eq!(
        names,
        vec!["None", "Uber", "NFE", "LC", "NUBL", "RUBL", "UUBL", "PU", "NU", "RU", "UU", "OU"]
    );
}

#[test]
fn format_name_reads_back() {
    for f in ALL {
        assert_eq!(Format::from(f.to_string().as_str()), f);
    }
}

#[test]
fn format_rank_follows_order() {
    for (i, f) in ALL.iter().enumerate() {
        assert_eq!(f.rank() as usize, i);
    }
    for a in ALL {
        for b in ALL {
            assert_eq!(a < b, a.rank() < b.rank());
        }
    }
}

#[test]
fn format_from_name_matches_from() {
    for s in ["OU", "LC", "x", "Uber"] {
        assert_eq!(Format::from_name(s), Format::from(s));
    }
}
