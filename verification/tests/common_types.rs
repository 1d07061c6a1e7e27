use eml_nl::common::{
    CountryNameCode, ElectionTree, ElectionTreeRegion, RegionCategory,
    UnknownRegionCategoryError,
};

#[test]
fn region_category_round_trip() {
    let all = [
        RegionCategory::DEELGEMEENTE,
        RegionCategory::GEMEENTE,
        RegionCategory::KIESKRING,
        RegionCategory::PROVINCIE,
        RegionCategory::PROVINCIAAL_KIESKRING,
        RegionCategory::PROVINCIAAL_STEMBUREAU,
        RegionCategory::STAAT,
        RegionCategory::STEMBUREAU,
        RegionCategory::WATERSCHAP,
        RegionCategory::WATERSCHAP_KIESKRING,
        RegionCategory::WATERSCHAP_GEMEENTE,
    ];
    for c in all {
        assert_eq!(RegionCategory::from_eml_value(c.to_eml_value()), Ok(c));
        assert_eq!(RegionCategory::parse_from_str(&c.to_raw_value()), Ok(c));
    }
    assert_eq!(
        RegionCategory::WATERSCHAP_GEMEENTE.to_eml_value(),
        "WATERSCHAP_GEMEENTE"
    );
    assert_eq!(
        RegionCategory::from_eml_value("PROVINCIAAL_STEMBUREAU"),
        Ok(RegionCategory::PROVINCIAAL_STEMBUREAU)
    );
}

#[test]
fn region_category_rejects_unknown() {
    assert_eq!(
        RegionCategory::from_eml_value("gemeente"),
        Err(UnknownRegionCategoryError("gemeente".to_string()))
    );
    assert_eq!(
        RegionCategory::parse_from_str(""),
        Err(UnknownRegionCategoryError(String::new()))
    );
}

#[test]
fn country_name_code_new() {
    let c = CountryNameCode::new("NL".to_string());
    assert_eq!(c.value, "NL");
    assert_eq!(c.scheme, None);
    assert_eq!(c.code, None);
}

#[test]
fn election_tree_new_and_from() {
    let tree = ElectionTree::new(vec![ElectionTreeRegion {}, ElectionTreeRegion {}]);
    assert_eq!(tree.regions.len(), 2);
    let tree: ElectionTree = vec![ElectionTreeRegion {}].into();
    assert_eq!(tree.regions.len(), 1);
    assert_eq!(ElectionTree::from(Vec::new()).regions.len(), 0);
}
