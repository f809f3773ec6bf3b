use soil_sensor_toolbox::{SoilType, SoilTypeModel};

#[test]
fn compact_identifiers() {
    let expected = [
        "sand",
        "loamysanda",
        "loamysandb",
        "sandyloama",
        "sandyloamb",
        "loam",
        "siltloam",
        "peat",
        "water",
        "universal",
        "sandtms1",
        "loamysandtms1",
        "siltloamtms1",
    ];
    assert_eq!(SoilType::ALL.len(), expected.len());
    for (soil, name) in SoilType::ALL.iter().zip(expected.iter()) {
        assert_eq!(soil.as_str(), *name);
    }
}

#[test]
fn display_names() {
    assert_eq!(SoilType::Sand.display_name(), "Sand");
    assert_eq!(SoilType::LoamySandA.display_name(), "Loamy Sand A");
    assert_eq!(SoilType::SiltLoam.display_name(), "Silt Loam");
    assert_eq!(SoilType::SiltLoamTMS1.display_name(), "Silt Loam TMS1");
}

#[test]
fn all_types_are_distinct() {
    for (i, a) in SoilType::ALL.iter().enumerate() {
        for b in SoilType::ALL.iter().skip(i + 1) {
            assert_ne!(a, b);
            assert_ne!(a.as_str(), b.as_str());
        }
    }
}

#[test]
fn spelling_lookup_accepts_both_lower_case_forms() {
    assert_eq!(SoilType::from_spelling("siltloam"), Some(SoilType::SiltLoam));
    assert_eq!(SoilType::from_spelling("silt loam"), Some(SoilType::SiltLoam));
    assert_eq!(SoilType::from_spelling("loamy sand tms1"), Some(SoilType::LoamySandTMS1));
    assert_eq!(SoilType::from_spelling("sandyloamb"), Some(SoilType::SandyLoamB));
}

#[test]
fn spelling_lookup_rejects_other_text() {
    assert_eq!(SoilType::from_spelling(""), None);
    assert_eq!(SoilType::from_spelling("clay"), None);
    assert_eq!(SoilType::from_spelling("Silt Loam"), None);
    assert_eq!(SoilType::from_spelling("silt  loam"), None);
    assert_eq!(SoilType::from_spelling("sand "), None);
}

#[test]
fn every_identifier_resolves_to_its_type() {
    for soil in SoilType::ALL.iter() {
        assert_eq!(SoilType::from_spelling(soil.as_str()), Some(*soil));
        let model = SoilTypeModel::try_from(soil.display_name()).unwrap();
        assert_eq!(model.id, *soil);
    }
}

#[test]
fn model_from_soil_type() {
    let m = SoilTypeModel::from(SoilType::LoamySandB);
    assert_eq!(m.id, SoilType::LoamySandB);
    assert_eq!(m.name, "Loamy Sand B");
    assert_eq!(m.machine_name, "loamysandb");
    let m = SoilTypeModel::from(SoilType::SandTMS1);
    assert_eq!(m.name, "Sand TMS1");
    assert_eq!(m.machine_name, "sandtms1");
}

#[test]
fn name_resolution_ignores_letter_case() {
    let a = SoilTypeModel::try_from("Silt Loam").unwrap();
    let b = SoilTypeModel::try_from("siltloam").unwrap();
    let c = SoilTypeModel::try_from("SILT LOAM").unwrap();
    assert_eq!(a.id, SoilType::SiltLoam);
    assert_eq!(b.id, SoilType::SiltLoam);
    assert_eq!(c.id, SoilType::SiltLoam);
    assert_eq!(c.name, "Silt Loam");
    assert_eq!(c.machine_name, "siltloam");
}

#[test]
fn upper_case_identifier_resolves() {
    let m = SoilTypeModel::try_from("UNIVERSAL").unwrap();
    assert_eq!(m.id, SoilType::Universal);
    let m = SoilTypeModel::try_from("PeAt").unwrap();
    assert_eq!(m.id, SoilType::Peat);
}

#[test]
fn unknown_name_is_reported() {
    let err = SoilTypeModel::try_from("clay").unwrap_err();
    assert_eq!(err, "Unknown soil type: clay");
    assert!(err.contains("clay"));
    let err = SoilTypeModel::try_from("Sand Loam").unwrap_err();
    assert_eq!(err, "Unknown soil type: Sand Loam");
    let err = SoilTypeModel::try_from("").unwrap_err();
    assert_eq!(err, "Unknown soil type: ");
}
