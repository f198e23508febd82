use gdal_traits::country::{Country, CountryError};
use gdal_traits::dataset::DatasetLayer;
use gdal_traits::feature::{
    feature_outcomes, outcomes_from_indices, resolve_index, Feature, FeatureTrait, FieldResult,
    Layer,
};
use gdal_traits::value::{Date, DateTime, FieldValue, Geometry};
use gdal_traits::GdalTraitError;

fn s(t: &str) -> String {
    t.to_string()
}

fn country_schema() -> Vec<String> {
    vec![s("NAME"), s("ISO_A2"), s("ISO_A3"), s("POP_EST"), s("POP_YEAR")]
}

fn country_feature(
    fid: u64,
    name: &str,
    a2: Option<&str>,
    a3: &str,
    pop: f64,
    year: i32,
) -> Feature {
    Feature {
        fid: Some(fid),
        geometry: Some(Geometry { data: vec![1, 2, 3] }),
        field_names: country_schema(),
        field_values: vec![
            Some(FieldValue::StringValue(s(name))),
            a2.map(|x| FieldValue::StringValue(s(x))),
            Some(FieldValue::StringValue(s(a3))),
            Some(FieldValue::RealValue(pop.to_bits())),
            Some(FieldValue::IntegerValue(year)),
        ],
    }
}

#[test]
fn test_from_dataset() {}

#[test]
fn test_from_feature() {
    let feature = country_feature(110, "Sweden", Some("SE"), "SWE", 10285453.0, 2019);
    let country = Country::from_feature(&feature).unwrap();
    assert_eq!(
        country,
        Country {
            name: s("Sweden"),
            iso_a2: Some(s("SE")),
            iso_a3: s("SWE"),
            pop_est: 10285453.0f64.to_bits(),
            pop_year: 2019,
            geom: Geometry { data: vec![1, 2, 3] },
        }
    );
}

#[test]
fn test_from_layer() {
    let mut features: Vec<Feature> = Vec::new();
    for i in 0u64..143u64 {
        if i == 110 {
            features.push(country_feature(i, "Sweden", Some("SE"), "SWE", 10285453.0, 2019));
        } else if i == 142 {
            features.push(country_feature(i, "Denmark", Some("DK"), "DNK", 5818553.0, 2019));
        } else {
            let name = format!("Country {}", i);
            features.push(country_feature(i, &name, None, "XXX", 1000.0, 2019));
        }
    }
    let layer = Layer { field_names: country_schema(), features };
    let countries = Country::from_layer(&layer).unwrap();
    assert_eq!(countries.len(), 143);
    assert_eq!(
        countries.get(110),
        Some(&Country {
            name: s("Sweden"),
            iso_a2: Some(s("SE")),
            iso_a3: s("SWE"),
            pop_est: 10285453.0f64.to_bits(),
            pop_year: 2019,
            geom: Geometry { data: vec![1, 2, 3] },
        })
    );
    assert_eq!(
        countries.get(142),
        Some(&Country {
            name: s("Denmark"),
            iso_a2: Some(s("DK")),
            iso_a3: s("DNK"),
            pop_est: 5818553.0f64.to_bits(),
            pop_year: 2019,
            geom: Geometry { data: vec![1, 2, 3] },
        })
    );
}

#[test]
fn required_value_is_returned() {
    let o = FieldResult::Value(FieldValue::IntegerValue(7));
    assert_eq!(o.into_res(), Ok(FieldValue::IntegerValue(7)));
}

#[test]
fn required_null_is_null_field() {
    assert_eq!(FieldResult::Null.into_res(), Err(GdalTraitError::NullField));
}

#[test]
fn required_error_propagates() {
    let e = GdalTraitError::GdalError(s("driver fault"));
    assert_eq!(
        FieldResult::Error(e).into_res(),
        Err(GdalTraitError::GdalError(s("driver fault")))
    );
}

#[test]
fn optional_null_is_none() {
    assert_eq!(FieldResult::Null.into_opt_res(), Ok(None));
    assert_eq!(FieldResult::Null.try_into_real_opt(), Ok(None));
    assert_eq!(FieldResult::Null.try_into_string_opt(), Ok(None));
}

#[test]
fn optional_error_still_fails() {
    let e = GdalTraitError::GdalError(s("driver fault"));
    assert_eq!(
        FieldResult::Error(e).try_into_real_opt(),
        Err(GdalTraitError::GdalError(s("driver fault")))
    );
}

#[test]
fn mismatch_fails_required_and_optional() {
    let o = FieldResult::Value(FieldValue::StringValue(s("SE")));
    assert_eq!(o.clone().try_into_string(), Ok(s("SE")));
    assert_eq!(
        o.clone().try_into_int(),
        Err(GdalTraitError::InvalidFieldValue(s(
            "expected IntegerValue, found StringValue"
        )))
    );
    assert_eq!(
        o.try_into_int_opt(),
        Err(GdalTraitError::InvalidFieldValue(s(
            "expected IntegerValue, found StringValue"
        )))
    );
}

#[test]
fn scalar_and_list_conversions() {
    let d = Date { year: 2019, month: 5, day: 1 };
    assert_eq!(
        FieldResult::Value(FieldValue::DateValue(d)).try_into_date(),
        Ok(Date { year: 2019, month: 5, day: 1 })
    );
    let dt = DateTime { date: d, hour: 12, minute: 30, second: 9, offset_seconds: 3600 };
    assert_eq!(FieldResult::Value(FieldValue::DateTimeValue(dt)).try_into_date_time(), Ok(dt));
    assert_eq!(
        FieldResult::Value(FieldValue::Integer64Value(1 << 40)).try_into_int64(),
        Ok(1 << 40)
    );
    assert_eq!(
        FieldResult::Value(FieldValue::IntegerListValue(vec![1, 2, 3])).try_into_int_list(),
        Ok(vec![1, 2, 3])
    );
    assert_eq!(
        FieldResult::Value(FieldValue::Integer64ListValue(vec![4, 5])).try_into_int64_list(),
        Ok(vec![4, 5])
    );
    assert_eq!(
        FieldResult::Value(FieldValue::StringListValue(vec![s("a"), s("b")]))
            .try_into_string_list(),
        Ok(vec![s("a"), s("b")])
    );
    assert_eq!(
        FieldResult::Value(FieldValue::RealValue(2.5f64.to_bits())).try_into_real(),
        Ok(2.5f64.to_bits())
    );
    assert_eq!(
        FieldResult::Value(FieldValue::RealListValue(vec![1.5f64.to_bits()]))
            .try_into_real_list(),
        Ok(vec![1.5f64.to_bits()])
    );
}

#[test]
fn resolution_failure_is_stable_across_batch() {
    let schema = vec![s("NAME")];
    let indices = vec![resolve_index(&schema, &s("POP"))];
    let f1 = Feature {
        fid: Some(0),
        geometry: None,
        field_names: vec![s("NAME")],
        field_values: vec![Some(FieldValue::StringValue(s("Sweden")))],
    };
    let f2 = Feature {
        fid: Some(1),
        geometry: None,
        field_names: vec![s("NAME")],
        field_values: vec![Some(FieldValue::StringValue(s("Denmark")))],
    };
    let o1 = outcomes_from_indices(&f1, &indices);
    let o2 = outcomes_from_indices(&f2, &indices);
    let expected = FieldResult::Error(GdalTraitError::GdalError(s("no field named POP")));
    assert_eq!(o1[0], expected);
    assert_eq!(o2[0], expected);
}

fn two_field_feature(name: &str, pop: Option<FieldValue>) -> Feature {
    Feature {
        fid: None,
        geometry: None,
        field_names: vec![s("NAME"), s("POP")],
        field_values: vec![Some(FieldValue::StringValue(s(name))), pop],
    }
}

#[test]
fn required_and_optional_population() {
    let declared = vec![s("NAME"), s("POP")];
    let r0 = two_field_feature("Sweden", Some(FieldValue::RealValue(10285453.0f64.to_bits())));
    let r1 = two_field_feature("Denmark", None);
    let r2 = Feature {
        fid: None,
        geometry: None,
        field_names: vec![s("NAME")],
        field_values: vec![Some(FieldValue::StringValue(s("Nowhere")))],
    };

    let o0 = feature_outcomes(&r0, &declared);
    let o1 = feature_outcomes(&r1, &declared);
    let o2 = feature_outcomes(&r2, &declared);

    // With POP required: record 0 succeeds, record 1 is a null violation.
    assert_eq!(o0[1].clone().try_into_real(), Ok(10285453.0f64.to_bits()));
    assert_eq!(o1[1].clone().try_into_real(), Err(GdalTraitError::NullField));

    // With POP optional: record 1 succeeds with None, while record 2 still
    // fails, because a resolution failure is not a null.
    assert_eq!(o1[1].clone().try_into_real_opt(), Ok(None));
    assert_eq!(
        o2[1].clone().try_into_real_opt(),
        Err(GdalTraitError::GdalError(s("no field named POP")))
    );
}

#[test]
fn batch_aborts_on_first_constructor_error() {
    let mut denmark = country_feature(1, "Denmark", Some("DK"), "DNK", 5818553.0, 2019);
    denmark.field_values[3] = None;
    let layer = Layer {
        field_names: country_schema(),
        features: vec![
            country_feature(0, "Sweden", Some("SE"), "SWE", 10285453.0, 2019),
            denmark,
            country_feature(2, "Norway", Some("NO"), "NOR", 5347896.0, 2019),
        ],
    };
    assert_eq!(
        Country::from_layer(&layer),
        Err(CountryError::GdalTraitError(GdalTraitError::NullField))
    );
}

#[test]
fn batch_preserves_source_order() {
    let layer = Layer {
        field_names: country_schema(),
        features: vec![
            country_feature(0, "Sweden", Some("SE"), "SWE", 10285453.0, 2019),
            country_feature(1, "Denmark", Some("DK"), "DNK", 5818553.0, 2019),
            country_feature(2, "Norway", Some("NO"), "NOR", 5347896.0, 2019),
        ],
    };
    let countries = Country::from_layer(&layer).unwrap();
    let names: Vec<String> = countries.iter().map(|c| c.name.clone()).collect();
    assert_eq!(names, vec![s("Sweden"), s("Denmark"), s("Norway")]);
}

#[test]
fn missing_geometry_is_the_consumer_error() {
    let mut feature = country_feature(0, "Sweden", Some("SE"), "SWE", 10285453.0, 2019);
    feature.geometry = None;
    assert_eq!(Country::from_feature(&feature), Err(CountryError::NoGeometry));
}

#[test]
fn optional_field_null_decodes_to_none() {
    let feature = country_feature(0, "Sweden", None, "SWE", 10285453.0, 2019);
    let country = Country::from_feature(&feature).unwrap();
    assert_eq!(country.iso_a2, None);
}

#[test]
fn fetch_past_end_is_a_source_error() {
    let feature = Feature {
        fid: None,
        geometry: None,
        field_names: vec![s("NAME"), s("POP")],
        field_values: vec![Some(FieldValue::StringValue(s("Sweden")))],
    };
    assert_eq!(
        feature.field(1),
        Err(GdalTraitError::GdalError(s("field index out of range")))
    );
    assert_eq!(feature.field_index(&s("POP")), Ok(1));
}

#[test]
fn dataset_layer_forms() {
    let by_name = DatasetLayer::Name(s("countries"));
    let by_index = DatasetLayer::Index(0);
    assert!(matches!(by_name, DatasetLayer::Name(_)));
    assert!(matches!(by_index, DatasetLayer::Index(0)));
}

#[test]
fn wrap_fetch_results() {
    assert_eq!(
        FieldResult::from(Ok(Some(FieldValue::IntegerValue(3)))),
        FieldResult::Value(FieldValue::IntegerValue(3))
    );
    assert_eq!(FieldResult::from(Ok(None)), FieldResult::Null);
    assert_eq!(
        FieldResult::from(Err(GdalTraitError::GdalError(s("driver fault")))),
        FieldResult::Error(GdalTraitError::GdalError(s("driver fault")))
    );
}
