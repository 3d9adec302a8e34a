use monte::decode::{coerce, decode, decode_json, decode_row, decode_rows, DecodeError};
use monte::fetch::{Encoding, RawPayload};
use monte::number::{has_exact_double, MANTISSA_LIMIT};
use monte::record::{Cell, Record};
use monte::schema::{Field, FieldType, Schema};
use monte::source::{classify, project, read_payload, read_rows, RawCell};
use monte::table::{materialize, ColumnData};
use serde_json::{Number, Value};

fn id_and_age() -> Schema {
    Schema::new(vec![
        Field::new("id", FieldType::Integer, false),
        Field::new("age", FieldType::Integer, true),
    ])
    .unwrap()
}

fn one_field(name: &str, kind: FieldType, nullable: bool) -> Schema {
    Schema::new(vec![Field::new(name, kind, nullable)]).unwrap()
}

fn json(text: &str) -> RawPayload {
    RawPayload { encoding: Encoding::Json, body: text.to_string() }
}

fn integer(value: i128) -> RawCell {
    RawCell::Integer { value, bits: (value as f64).to_bits() }
}

#[test]
fn two_rows_with_a_null_become_two_columns() {
    let schema = id_and_age();
    let payload = json("[{\"id\":1,\"age\":30},{\"id\":2,\"age\":null}]");
    let records = decode(&payload, &schema).unwrap();
    assert_eq!(
        records,
        vec![
            Record { cells: vec![Cell::Integer(1), Cell::Integer(30)] },
            Record { cells: vec![Cell::Integer(2), Cell::Missing] },
        ]
    );
    let table = materialize(&records, &schema);
    assert_eq!(table.row_count(), 2);
    assert_eq!(table.column_count(), 2);
    assert_eq!(table.columns()[0].name, "id");
    assert_eq!(table.columns()[0].data, ColumnData::Integer(vec![Some(1), Some(2)]));
    assert_eq!(table.columns()[1].name, "age");
    assert_eq!(table.columns()[1].data, ColumnData::Integer(vec![Some(30), None]));
}

#[test]
fn an_omitted_nullable_field_is_missing() {
    let schema = id_and_age();
    let records = decode(&json("[{\"id\":1}]"), &schema).unwrap();
    assert_eq!(records, vec![Record { cells: vec![Cell::Integer(1), Cell::Missing] }]);
    let table = materialize(&records, &schema);
    assert_eq!(table.row_count(), 1);
    assert_eq!(table.column("age").unwrap().cell(0), Some(Cell::Missing));
}

#[test]
fn an_omitted_required_field_refuses_the_payload() {
    let schema = id_and_age();
    assert_eq!(
        decode(&json("[{\"age\":5}]"), &schema),
        Err(DecodeError::MissingRequiredField("id".to_string(), 1))
    );
}

#[test]
fn a_payload_and_its_text_decode_alike() {
    let schema = id_and_age();
    for text in ["[]", "[{\"id\":1}]", "[{\"age\":1}]", "[{\"id\":\"1\"}]", "{", "7"] {
        assert_eq!(decode(&json(text), &schema), decode_json(text, &schema));
    }
}

#[test]
fn decoded_records_conform_to_the_schema() {
    let schema = id_and_age();
    let payload = json("[{\"id\":1},{\"id\":2,\"age\":3},{\"age\":null,\"id\":4}]");
    let records = decode(&payload, &schema).unwrap();
    assert_eq!(records.len(), 3);
    for record in &records {
        assert!(record.conforms_to(&schema));
    }
}

#[test]
fn a_null_required_field_refuses_the_payload() {
    let schema = id_and_age();
    assert_eq!(
        decode_json("[{\"id\":1},{\"id\":null,\"age\":4}]", &schema),
        Err(DecodeError::MissingRequiredField("id".to_string(), 2))
    );
}

#[test]
fn a_missing_value_is_never_zero() {
    let schema = id_and_age();
    let records = decode_json("[{\"id\":0,\"age\":0},{\"id\":7}]", &schema).unwrap();
    let table = materialize(&records, &schema);
    let age = table.column("age").unwrap();
    assert_eq!(age.cell(0), Some(Cell::Integer(0)));
    assert_eq!(age.cell(1), Some(Cell::Missing));
    assert_ne!(age.cell(1), Some(Cell::Integer(0)));
}

#[test]
fn table_has_one_row_per_record_and_one_column_per_field() {
    let schema = Schema::new(vec![
        Field::new("c", FieldType::Text, true),
        Field::new("a", FieldType::Integer, true),
        Field::new("b", FieldType::Float, true),
    ])
    .unwrap();
    let payload = "[{\"a\":1,\"b\":0.5,\"c\":\"x\"},{\"a\":2},{\"c\":\"z\"},{}]";
    let records = decode_json(payload, &schema).unwrap();
    assert_eq!(records.len(), 4);
    let table = materialize(&records, &schema);
    assert_eq!(table.row_count(), 4);
    assert_eq!(table.column_count(), 3);
    let names: Vec<&str> = table.columns().iter().map(|column| column.name.as_str()).collect();
    assert_eq!(names, vec!["c", "a", "b"]);
    assert_eq!(table.columns()[0].kind(), FieldType::Text);
    assert_eq!(table.columns()[1].kind(), FieldType::Integer);
    assert_eq!(table.columns()[2].kind(), FieldType::Float);
    for column in table.columns() {
        assert_eq!(column.len(), 4);
    }
}

#[test]
fn rows_keep_the_order_of_the_payload() {
    let schema = one_field("id", FieldType::Integer, false);
    let records = decode_json("[{\"id\":3},{\"id\":1},{\"id\":2},{\"id\":1}]", &schema).unwrap();
    let table = materialize(&records, &schema);
    assert_eq!(
        table.columns()[0].data,
        ColumnData::Integer(vec![Some(3), Some(1), Some(2), Some(1)])
    );
}

#[test]
fn an_empty_array_gives_no_records() {
    let schema = id_and_age();
    assert_eq!(decode_json("[]", &schema), Ok(vec![]));
    assert_eq!(decode_json(" [ ] ", &schema), Ok(vec![]));
}

#[test]
fn text_that_is_not_json_is_malformed() {
    let schema = id_and_age();
    assert_eq!(decode_json("", &schema), Err(DecodeError::MalformedPayload));
    assert_eq!(decode_json("[{\"id\":1}", &schema), Err(DecodeError::MalformedPayload));
    assert_eq!(decode_json("[{\"id\":1}] trailing", &schema), Err(DecodeError::MalformedPayload));
    assert_eq!(decode_json("id,age\n1,30\n", &schema), Err(DecodeError::MalformedPayload));
}

#[test]
fn a_document_that_is_no_array_is_malformed() {
    let schema = id_and_age();
    assert_eq!(decode_json("{\"id\":1}", &schema), Err(DecodeError::MalformedPayload));
    assert_eq!(decode_json("null", &schema), Err(DecodeError::MalformedPayload));
    assert_eq!(decode_json("17", &schema), Err(DecodeError::MalformedPayload));
    assert_eq!(decode_json("\"rows\"", &schema), Err(DecodeError::MalformedPayload));
}

#[test]
fn a_row_that_is_no_object_is_malformed() {
    let schema = id_and_age();
    assert_eq!(decode_json("[{\"id\":1},[2,3]]", &schema), Err(DecodeError::MalformedPayload));
    assert_eq!(decode_json("[1]", &schema), Err(DecodeError::MalformedPayload));
    assert_eq!(decode_json("[null]", &schema), Err(DecodeError::MalformedPayload));
}

#[test]
fn a_malformed_row_outweighs_an_earlier_refusal() {
    let schema = id_and_age();
    assert_eq!(decode_json("[{\"age\":1},7]", &schema), Err(DecodeError::MalformedPayload));
}

#[test]
fn a_string_under_an_integer_field_is_a_violation() {
    let schema = id_and_age();
    assert_eq!(
        decode_json("[{\"id\":1,\"age\":\"thirty\"}]", &schema),
        Err(DecodeError::SchemaViolation(
            "age".to_string(),
            1,
            RawCell::Text("thirty".to_string())
        ))
    );
}

#[test]
fn a_fraction_under_an_integer_field_is_a_violation() {
    let schema = id_and_age();
    assert_eq!(
        decode_json("[{\"id\":1,\"age\":30.5}]", &schema),
        Err(DecodeError::SchemaViolation(
            "age".to_string(),
            1,
            RawCell::Float { bits: 30.5f64.to_bits() }
        ))
    );
    assert_eq!(
        decode_json("[{\"id\":1.0}]", &schema),
        Err(DecodeError::SchemaViolation(
            "id".to_string(),
            1,
            RawCell::Float { bits: 1.0f64.to_bits() }
        ))
    );
}

#[test]
fn other_values_are_violations_with_their_text() {
    let schema = id_and_age();
    assert_eq!(
        decode_json("[{\"id\":1,\"age\":[1, 2]}]", &schema),
        Err(DecodeError::SchemaViolation(
            "age".to_string(),
            1,
            RawCell::Other("[1,2]".to_string())
        ))
    );
    assert_eq!(
        decode_json("[{\"id\":true}]", &schema),
        Err(DecodeError::SchemaViolation("id".to_string(), 1, RawCell::Other("true".to_string())))
    );
    assert_eq!(
        decode_json("[{\"id\":2},{\"id\":{\"n\": \"3\"}}]", &schema),
        Err(DecodeError::SchemaViolation(
            "id".to_string(),
            2,
            RawCell::Other("{\"n\":\"3\"}".to_string())
        ))
    );
}

#[test]
fn an_integer_beyond_the_range_is_a_violation() {
    let schema = id_and_age();
    assert_eq!(
        decode_json("[{\"id\":9223372036854775807}]", &schema),
        Ok(vec![Record { cells: vec![Cell::Integer(i64::MAX), Cell::Missing] }])
    );
    assert_eq!(
        decode_json("[{\"id\":-9223372036854775808}]", &schema),
        Ok(vec![Record { cells: vec![Cell::Integer(i64::MIN), Cell::Missing] }])
    );
    assert_eq!(
        decode_json("[{\"id\":9223372036854775808}]", &schema),
        Err(DecodeError::SchemaViolation("id".to_string(), 1, integer(9223372036854775808)))
    );
    assert_eq!(
        decode_json("[{\"id\":1},{\"id\":18446744073709551615}]", &schema),
        Err(DecodeError::SchemaViolation(
            "id".to_string(),
            2,
            RawCell::Integer {
                value: 18446744073709551615,
                bits: 18446744073709551616.0f64.to_bits()
            }
        ))
    );
}

#[test]
fn the_first_refusal_in_row_order_is_reported() {
    let schema = id_and_age();
    assert_eq!(
        decode_json("[{\"id\":1},{\"id\":2,\"age\":\"x\"},{\"age\":3}]", &schema),
        Err(DecodeError::SchemaViolation("age".to_string(), 2, RawCell::Text("x".to_string())))
    );
    assert_eq!(
        decode_json("[{\"id\":1},{\"age\":\"x\"},{\"id\":\"y\"}]", &schema),
        Err(DecodeError::MissingRequiredField("id".to_string(), 2))
    );
}

#[test]
fn the_first_refusal_in_field_order_is_reported() {
    let schema = Schema::new(vec![
        Field::new("age", FieldType::Integer, true),
        Field::new("id", FieldType::Integer, false),
    ])
    .unwrap();
    assert_eq!(
        decode_json("[{\"age\":\"x\"}]", &schema),
        Err(DecodeError::SchemaViolation("age".to_string(), 1, RawCell::Text("x".to_string())))
    );
}

#[test]
fn fields_that_the_schema_does_not_declare_are_passed_over() {
    let schema = id_and_age();
    assert_eq!(
        decode_json("[{\"weight\":80,\"id\":1,\"age\":2,\"name\":\"n\"}]", &schema),
        Ok(vec![Record { cells: vec![Cell::Integer(1), Cell::Integer(2)] }])
    );
}

#[test]
fn floats_are_kept_as_the_bits_of_their_double() {
    let schema = one_field("mass", FieldType::Float, true);
    let text = "[{\"mass\":33.6},{\"mass\":-0.0},{\"mass\":1e-3},{\"mass\":null}]";
    let records = decode_json(text, &schema).unwrap();
    assert_eq!(
        records,
        vec![
            Record { cells: vec![Cell::Float(33.6f64.to_bits())] },
            Record { cells: vec![Cell::Float((-0.0f64).to_bits())] },
            Record { cells: vec![Cell::Float(0.001f64.to_bits())] },
            Record { cells: vec![Cell::Missing] },
        ]
    );
    let table = materialize(&records, &schema);
    assert_eq!(
        table.columns()[0].data,
        ColumnData::Float(vec![
            Some(0x4040_CCCC_CCCC_CCCD),
            Some(0x8000_0000_0000_0000),
            Some(0x3F50_624D_D2F1_A9FC),
            None
        ])
    );
}

#[test]
fn an_integer_literal_may_stand_for_a_float() {
    let schema = one_field("mass", FieldType::Float, false);
    assert_eq!(
        decode_json("[{\"mass\":33},{\"mass\":-2}]", &schema),
        Ok(vec![
            Record { cells: vec![Cell::Float(33.0f64.to_bits())] },
            Record { cells: vec![Cell::Float((-2.0f64).to_bits())] },
        ])
    );
}

#[test]
fn an_integer_with_no_exact_double_is_a_violation_under_a_float_field() {
    let schema = one_field("mass", FieldType::Float, false);
    assert_eq!(
        decode_json("[{\"mass\":9007199254740992},{\"mass\":-9007199254740992}]", &schema),
        Ok(vec![
            Record { cells: vec![Cell::Float(9007199254740992.0f64.to_bits())] },
            Record { cells: vec![Cell::Float((-9007199254740992.0f64).to_bits())] },
        ])
    );
    assert_eq!(
        decode_json("[{\"mass\":9007199254740993}]", &schema),
        Err(DecodeError::SchemaViolation("mass".to_string(), 1, integer(9007199254740993)))
    );
    assert_eq!(
        decode_json("[{\"mass\":-9007199254740993}]", &schema),
        Err(DecodeError::SchemaViolation("mass".to_string(), 1, integer(-9007199254740993)))
    );
    assert_eq!(
        decode_json("[{\"mass\":9223372036854775807}]", &schema),
        Err(DecodeError::SchemaViolation("mass".to_string(), 1, integer(i64::MAX as i128)))
    );
}

#[test]
fn a_large_integer_that_is_a_double_may_stand_for_a_float() {
    let schema = one_field("mass", FieldType::Float, false);
    assert_eq!(
        decode_json(
            "[{\"mass\":9007199254740994},{\"mass\":1152921504606846976},\
             {\"mass\":-9223372036854775808},{\"mass\":9223372036854775808}]",
            &schema
        ),
        Ok(vec![
            Record { cells: vec![Cell::Float(0x4340_0000_0000_0001)] },
            Record { cells: vec![Cell::Float(0x43B0_0000_0000_0000)] },
            Record { cells: vec![Cell::Float(0xC3E0_0000_0000_0000)] },
            Record { cells: vec![Cell::Float(0x43E0_0000_0000_0000)] },
        ])
    );
    assert_eq!(
        decode_json("[{\"mass\":18446744073709551615}]", &schema),
        Err(DecodeError::SchemaViolation(
            "mass".to_string(),
            1,
            RawCell::Integer {
                value: 18446744073709551615,
                bits: 18446744073709551616.0f64.to_bits()
            }
        ))
    );
}

#[test]
fn the_integers_that_are_doubles_have_at_most_53_significant_bits() {
    assert_eq!(MANTISSA_LIMIT, 1u128 << 53);
    for value in [0i128, 1, -1, 2, 3, 1000, -77, (1 << 53) - 1, 1 << 53, -(1 << 53)] {
        assert!(has_exact_double(value));
    }
    assert!(!has_exact_double((1 << 53) + 1));
    assert!(has_exact_double((1 << 53) + 2));
    assert!(!has_exact_double((1 << 54) + 2));
    assert!(has_exact_double((1 << 54) + 4));
    assert!(has_exact_double(1 << 62));
    assert!(has_exact_double(((1 << 53) - 1) << 10));
    assert!(!has_exact_double((((1 << 53) - 1) << 10) + 1));
    assert!(has_exact_double(i64::MIN as i128));
    assert!(!has_exact_double(i64::MIN as i128 + 1));
    assert!(!has_exact_double(i64::MAX as i128));
    assert!(has_exact_double(1 << 63));
    assert!(!has_exact_double(u64::MAX as i128));
    assert!(has_exact_double(1 << 100));
    assert!(has_exact_double(i128::MIN));
    assert!(!has_exact_double(i128::MAX));
    let samples: [i128; 8] = [
        (1 << 53) + 1,
        (1 << 54) + 2,
        i64::MAX as i128,
        i64::MIN as i128 + 1,
        1 << 62,
        1 << 53,
        1 << 63,
        u64::MAX as i128,
    ];
    for value in samples {
        assert_eq!(has_exact_double(value), (value as f64) as i128 == value);
    }
}

#[test]
fn numbers_that_are_read_as_doubles_are_no_integers() {
    let schema = id_and_age();
    assert_eq!(
        decode_json("[{\"id\":-0}]", &schema),
        Err(DecodeError::SchemaViolation(
            "id".to_string(),
            1,
            RawCell::Float { bits: (-0.0f64).to_bits() }
        ))
    );
    assert_eq!(
        decode_json("[{\"id\":1e2}]", &schema),
        Err(DecodeError::SchemaViolation(
            "id".to_string(),
            1,
            RawCell::Float { bits: 100.0f64.to_bits() }
        ))
    );
    assert_eq!(
        decode_json("[{\"id\":18446744073709551616}]", &schema),
        Err(DecodeError::SchemaViolation(
            "id".to_string(),
            1,
            RawCell::Float { bits: 18446744073709551616.0f64.to_bits() }
        ))
    );
}

#[test]
fn text_is_kept_as_it_is_written() {
    let schema = one_field("class", FieldType::Text, true);
    let text = "[{\"class\":\"tested_positive\"},{\"class\":\"\"},{\"class\":\"a\\\"b\\u00e9\"}]";
    assert_eq!(
        decode_json(text, &schema),
        Ok(vec![
            Record { cells: vec![Cell::Text("tested_positive".to_string())] },
            Record { cells: vec![Cell::Text(String::new())] },
            Record { cells: vec![Cell::Text("a\"b\u{e9}".to_string())] },
        ])
    );
    assert_eq!(
        decode_json("[{\"class\":1}]", &schema),
        Err(DecodeError::SchemaViolation("class".to_string(), 1, integer(1)))
    );
}

#[test]
fn an_empty_string_is_a_value_and_not_missing() {
    let schema = one_field("class", FieldType::Text, false);
    assert_eq!(
        decode_json("[{\"class\":\"\"}]", &schema),
        Ok(vec![Record { cells: vec![Cell::Text(String::new())] }])
    );
}

#[test]
fn read_payload_projects_each_row_onto_the_schema() {
    let schema = id_and_age();
    let text = "[{\"age\":null,\"id\":4,\"x\":1},{\"age\":2.5},{\"id\":\"a\",\"age\":false}]";
    assert_eq!(
        read_payload(text, &schema),
        Some(vec![
            vec![integer(4), RawCell::Null],
            vec![RawCell::Absent, RawCell::Float { bits: 2.5f64.to_bits() }],
            vec![RawCell::Text("a".to_string()), RawCell::Other("false".to_string())],
        ])
    );
    assert_eq!(read_payload("[{}, 3]", &schema), None);
    assert_eq!(read_payload("{}", &schema), None);
    assert_eq!(read_payload("[", &schema), None);
}

#[test]
fn coerce_follows_the_type_and_the_nullability_of_the_field() {
    let required = Field::new("n", FieldType::Integer, false);
    let nullable = Field::new("n", FieldType::Integer, true);
    let float = Field::new("f", FieldType::Float, true);
    let text = Field::new("t", FieldType::Text, true);
    assert_eq!(coerce(&integer(5), &required, 1), Ok(Cell::Integer(5)));
    assert_eq!(coerce(&RawCell::Null, &nullable, 1), Ok(Cell::Missing));
    assert_eq!(coerce(&RawCell::Absent, &nullable, 1), Ok(Cell::Missing));
    assert_eq!(
        coerce(&RawCell::Null, &required, 9),
        Err(DecodeError::MissingRequiredField("n".to_string(), 9))
    );
    assert_eq!(
        coerce(&RawCell::Absent, &required, 3),
        Err(DecodeError::MissingRequiredField("n".to_string(), 3))
    );
    assert_eq!(coerce(&RawCell::Float { bits: 7 }, &float, 1), Ok(Cell::Float(7)));
    assert_eq!(coerce(&RawCell::Integer { value: 2, bits: 99 }, &float, 1), Ok(Cell::Float(99)));
    assert_eq!(
        coerce(&RawCell::Integer { value: 1 << 70, bits: 5 }, &required, 2),
        Err(DecodeError::SchemaViolation(
            "n".to_string(),
            2,
            RawCell::Integer { value: 1 << 70, bits: 5 }
        ))
    );
    let large = RawCell::Integer { value: 1 << 70, bits: 5 };
    assert_eq!(coerce(&large, &float, 2), Ok(Cell::Float(5)));
    assert_eq!(
        coerce(&RawCell::Float { bits: 7 }, &text, 4),
        Err(DecodeError::SchemaViolation("t".to_string(), 4, RawCell::Float { bits: 7 }))
    );
    assert_eq!(coerce(&RawCell::Text("a".to_string()), &text, 1), Ok(Cell::Text("a".to_string())));
    assert_eq!(
        coerce(&RawCell::Text("a".to_string()), &float, 2),
        Err(DecodeError::SchemaViolation("f".to_string(), 2, RawCell::Text("a".to_string())))
    );
    assert_eq!(
        coerce(&RawCell::Other("[]".to_string()), &text, 2),
        Err(DecodeError::SchemaViolation("t".to_string(), 2, RawCell::Other("[]".to_string())))
    );
}

#[test]
fn decode_row_treats_a_short_row_as_lacking_its_last_fields() {
    let schema = id_and_age();
    assert_eq!(
        decode_row(&vec![integer(1)], &schema, 1),
        Ok(Record { cells: vec![Cell::Integer(1), Cell::Missing] })
    );
    assert_eq!(
        decode_row(&vec![], &schema, 6),
        Err(DecodeError::MissingRequiredField("id".to_string(), 6))
    );
    assert_eq!(
        decode_row(&vec![integer(1), integer(2), integer(3)], &schema, 1),
        Ok(Record { cells: vec![Cell::Integer(1), Cell::Integer(2)] })
    );
}

#[test]
fn decode_rows_counts_rows_from_one() {
    let schema = id_and_age();
    let rows = vec![
        vec![integer(1), RawCell::Null],
        vec![integer(2), RawCell::Absent],
        vec![RawCell::Null, integer(3)],
    ];
    assert_eq!(
        decode_rows(&rows, &schema),
        Err(DecodeError::MissingRequiredField("id".to_string(), 3))
    );
    assert_eq!(
        decode_rows(&rows[..2].to_vec(), &schema),
        Ok(vec![
            Record { cells: vec![Cell::Integer(1), Cell::Missing] },
            Record { cells: vec![Cell::Integer(2), Cell::Missing] },
        ])
    );
}

#[test]
fn decoding_is_all_or_nothing() {
    let schema = id_and_age();
    let outcome = decode_json("[{\"id\":1},{\"id\":2},{\"id\":\"three\"}]", &schema);
    assert!(outcome.is_err());
    assert_eq!(
        outcome,
        Err(DecodeError::SchemaViolation("id".to_string(), 3, RawCell::Text("three".to_string())))
    );
}

#[test]
fn classify_tells_the_values_of_json_apart() {
    assert_eq!(classify(&Value::Null), RawCell::Null);
    assert_eq!(classify(&Value::from(-3)), integer(-3));
    assert_eq!(classify(&Value::from(u64::MAX)), integer(u64::MAX as i128));
    assert_eq!(classify(&Value::from(i64::MIN)), integer(i64::MIN as i128));
    assert_eq!(
        classify(&Value::Number(Number::from_f64(2.5).unwrap())),
        RawCell::Float { bits: 2.5f64.to_bits() }
    );
    assert_eq!(classify(&Value::from("seven")), RawCell::Text("seven".to_string()));
    assert_eq!(classify(&Value::Bool(false)), RawCell::Other("false".to_string()));
    assert_eq!(
        classify(&Value::Array(vec![Value::Null, Value::from("a")])),
        RawCell::Other("[null,\"a\"]".to_string())
    );
    let mut members = serde_json::Map::new();
    members.insert("k".to_string(), Value::from(1));
    assert_eq!(classify(&Value::Object(members)), RawCell::Other("{\"k\":1}".to_string()));
}

#[test]
fn project_looks_each_field_up_by_its_name() {
    let schema = id_and_age();
    let mut members = serde_json::Map::new();
    members.insert("age".to_string(), Value::from(41));
    members.insert("extra".to_string(), Value::from("x"));
    members.insert("id".to_string(), Value::Null);
    assert_eq!(project(&Value::Object(members), &schema), vec![RawCell::Null, integer(41)]);
    assert_eq!(
        project(&Value::Object(serde_json::Map::new()), &schema),
        vec![RawCell::Absent, RawCell::Absent]
    );
    assert_eq!(project(&Value::from(3), &schema), vec![RawCell::Absent, RawCell::Absent]);
    assert_eq!(project(&Value::Null, &Schema::new(vec![]).unwrap()), Vec::<RawCell>::new());
}

#[test]
fn read_rows_takes_an_array_of_objects_and_nothing_else() {
    let schema = id_and_age();
    let mut first = serde_json::Map::new();
    first.insert("id".to_string(), Value::from(1));
    let mut second = serde_json::Map::new();
    second.insert("id".to_string(), Value::from(2));
    second.insert("age".to_string(), Value::from("old"));
    let document = Value::Array(vec![Value::Object(first.clone()), Value::Object(second)]);
    assert_eq!(
        read_rows(&document, &schema),
        Some(vec![
            vec![integer(1), RawCell::Absent],
            vec![integer(2), RawCell::Text("old".to_string())],
        ])
    );
    assert_eq!(read_rows(&Value::Array(vec![]), &schema), Some(vec![]));
    assert_eq!(read_rows(&Value::Object(first.clone()), &schema), None);
    assert_eq!(
        read_rows(&Value::Array(vec![Value::Object(first), Value::Array(vec![])]), &schema),
        None
    );
    assert_eq!(read_rows(&Value::Null, &schema), None);
}

#[test]
fn a_key_that_occurs_twice_has_its_last_value() {
    let schema = id_and_age();
    assert_eq!(
        decode_json("[{\"id\":1,\"id\":2,\"age\":\"x\",\"age\":3}]", &schema),
        Ok(vec![Record { cells: vec![Cell::Integer(2), Cell::Integer(3)] }])
    );
}

#[test]
fn field_names_are_compared_character_by_character() {
    let schema = Schema::new(vec![
        Field::new("\u{e5}lder", FieldType::Integer, false),
        Field::new("Id", FieldType::Integer, true),
        Field::new("", FieldType::Text, true),
    ])
    .unwrap();
    assert_eq!(
        decode_json("[{\"\\u00e5lder\":30,\"id\":1,\"\":\"blank\"}]", &schema),
        Ok(vec![Record {
            cells: vec![Cell::Integer(30), Cell::Missing, Cell::Text("blank".to_string())]
        }])
    );
    assert_eq!(
        decode_json("[{\"alder\":30}]", &schema),
        Err(DecodeError::MissingRequiredField("\u{e5}lder".to_string(), 1))
    );
}

#[test]
fn a_long_payload_is_decoded_row_for_row() {
    let mut text = String::from("[");
    for index in 0..20_000 {
        if index > 0 {
            text.push(',');
        }
        if index % 3 == 0 {
            text.push_str(&format!("{{\"id\":{}}}", index));
        } else {
            text.push_str(&format!("{{\"id\":{},\"age\":{}}}", index, index % 90));
        }
    }
    text.push(']');
    let schema = id_and_age();
    let records = decode_json(&text, &schema).unwrap();
    assert_eq!(records.len(), 20_000);
    let table = materialize(&records, &schema);
    assert_eq!(table.row_count(), 20_000);
    assert_eq!(table.row(0), Some(vec![Cell::Integer(0), Cell::Missing]));
    assert_eq!(table.row(19_999), Some(vec![Cell::Integer(19_999), Cell::Integer(19)]));
    assert_eq!(table.column("age").unwrap().cell(6), Some(Cell::Missing));
    text.insert_str(text.len() - 1, ",{\"id\":null}");
    assert_eq!(
        decode_json(&text, &schema),
        Err(DecodeError::MissingRequiredField("id".to_string(), 20_001))
    );
}
