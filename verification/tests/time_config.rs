use time_config::{InvalidTimeTypeValue, TimeConfig, TimeType};

#[test]
fn ordinal_round_trip_all_variants() {
    let variants = [
        TimeType::Unix,
        TimeType::Delta,
        TimeType::Memcache,
        TimeType::Sentinel,
    ];
    for t in variants {
        assert_eq!(TimeType::from_ordinal(t.ordinal()), Ok(t));
    }
}

#[test]
fn token_round_trip_all_variants() {
    let variants = [
        TimeType::Unix,
        TimeType::Delta,
        TimeType::Memcache,
        TimeType::Sentinel,
    ];
    for t in variants {
        assert_eq!(TimeType::from_token(t.token()), Ok(t));
    }
}

#[test]
fn ordinals_are_stable() {
    assert_eq!(TimeType::Unix.ordinal(), 0);
    assert_eq!(TimeType::Delta.ordinal(), 1);
    assert_eq!(TimeType::Memcache.ordinal(), 2);
    assert_eq!(TimeType::Sentinel.ordinal(), 3);
}

#[test]
fn tokens_are_stable() {
    assert_eq!(TimeType::Unix.token(), "Unix");
    assert_eq!(TimeType::Delta.token(), "Delta");
    assert_eq!(TimeType::Memcache.token(), "Memcache");
    assert_eq!(TimeType::Sentinel.token(), "Sentinel");
}

#[test]
fn default_construction_yields_unix() {
    let config = TimeConfig::default();
    assert_eq!(config.time_type(), TimeType::Unix);
}

#[test]
fn omitted_field_yields_unix() {
    let config = TimeConfig::from_document_field(None);
    assert_eq!(config.time_type(), TimeType::Unix);
}

#[test]
fn explicit_delta_yields_delta() {
    assert_eq!(TimeType::from_ordinal(1), Ok(TimeType::Delta));
    let config = TimeConfig::from_document_field(Some(TimeType::Delta));
    assert_eq!(config.time_type(), TimeType::Delta);
}

#[test]
fn every_supplied_value_is_kept() {
    let variants = [
        TimeType::Unix,
        TimeType::Delta,
        TimeType::Memcache,
        TimeType::Sentinel,
    ];
    for t in variants {
        let config = TimeConfig::from_document_field(Some(t));
        assert_eq!(config.time_type(), t);
    }
}

#[test]
fn out_of_range_ordinal_is_rejected() {
    assert_eq!(TimeType::from_ordinal(4), Err(InvalidTimeTypeValue));
    assert_eq!(TimeType::from_ordinal(7), Err(InvalidTimeTypeValue));
    assert_eq!(TimeType::from_ordinal(255), Err(InvalidTimeTypeValue));
}

#[test]
fn unrecognized_token_is_rejected() {
    assert_eq!(TimeType::from_token(""), Err(InvalidTimeTypeValue));
    assert_eq!(TimeType::from_token("unix"), Err(InvalidTimeTypeValue));
    assert_eq!(TimeType::from_token("Unixx"), Err(InvalidTimeTypeValue));
    assert_eq!(TimeType::from_token("Sentinal"), Err(InvalidTimeTypeValue));
}

#[test]
fn default_paths_do_not_diverge() {
    let by_default = TimeConfig::default();
    let by_omitted_field = TimeConfig::from_document_field(None);
    assert_eq!(by_default.time_type(), by_omitted_field.time_type());
}
