use rosmqttbridge::document::{Member, Value};
use rosmqttbridge::inbound::{
    CommandFault, ConversionError, EntryFault, MSpinCommand, MSpinCommands, SchemaViolation,
    SpinCommandHelper, SpinCommandsHelper, ValidationError, MQTT2ROSData,
};
use rosmqttbridge::number::Number;

fn document_from_json(json: &serde_json::Value) -> Value {
    match json {
        serde_json::Value::Null => Value::Null,
        serde_json::Value::Bool(b) => Value::Bool(*b),
        serde_json::Value::Number(n) => match n.as_i64() {
            Some(i) => Value::Number(Number::Integer(i)),
            None => Value::Number(Number::Real(n.as_f64().expect("a number").to_bits())),
        },
        serde_json::Value::String(s) => Value::Text(s.clone()),
        serde_json::Value::Array(items) => {
            Value::List(items.iter().map(document_from_json).collect())
        }
        serde_json::Value::Object(members) => Value::Record(
            members
                .iter()
                .map(|(name, value)| Member { name: name.clone(), value: document_from_json(value) })
                .collect(),
        ),
    }
}

fn read_payload(payload: &str) -> Option<Value> {
    serde_json::from_str::<serde_json::Value>(payload).ok().map(|json| document_from_json(&json))
}

fn decode_text(payload: &str) -> Result<MQTT2ROSData, ValidationError> {
    MQTT2ROSData::decode(read_payload(payload).as_ref())
}

fn violation(payload: &str) -> SchemaViolation {
    match decode_text(payload) {
        Err(ValidationError::SchemaViolation(v)) => v,
        other => panic!("expected a schema violation for {}, got {:?}", payload, other),
    }
}

fn conversion_error(payload: &str) -> ConversionError {
    match decode_text(payload) {
        Err(ValidationError::ConversionError(e)) => e,
        other => panic!("expected a conversion error for {}, got {:?}", payload, other),
    }
}

fn float(x: f64) -> Number {
    Number::Real(x.to_bits())
}

fn field(name: &str, value: Value) -> Member {
    Member { name: name.to_string(), value }
}

fn entry(omega: Number, duration: Number) -> Value {
    Value::Record(vec![field("omega", Value::Number(omega)), field("duration", Value::Number(duration))])
}

fn payload_of(commands: Vec<Value>, period: Number) -> Value {
    Value::Record(vec![field("commands", Value::List(commands)), field("period", Value::Number(period))])
}

#[test]
fn decode_rejects_extra_fields() {
    let payload = r#"{"commands":[{"omega":1.0,"duration":2.0}],"period":0.5,"extra":true}"#;
    assert_eq!(violation(payload), SchemaViolation::UnknownField { position: 2 });
}

#[test]
fn decode_rejects_missing_fields() {
    let payload = r#"{"commands":[{"omega":1.0,"duration":2.0}]}"#;
    assert_eq!(violation(payload), SchemaViolation::MissingPeriod);
}

#[test]
fn decode_rejects_empty_commands() {
    let payload = r#"{"commands":[],"period":0.5}"#;
    assert_eq!(violation(payload), SchemaViolation::NoCommands);
}

#[test]
fn decode_accepts_minimal_valid_payload() {
    let payload = r#"{"commands":[{"omega":0.5,"duration":1.0}],"period":1.0}"#;
    assert_eq!(
        decode_text(payload),
        Ok(MQTT2ROSData::SpinCommands(MSpinCommands {
            commands: vec![MSpinCommand { omega: float(0.5), duration: float(1.0) }],
            period: float(1.0),
        }))
    );
}

#[test]
fn decode_keeps_the_order_of_the_commands() {
    let payload = r#"{"period":2,"commands":[{"omega":-0.25,"duration":0},{"duration":3.5,"omega":4},{"omega":1e-3,"duration":1e3}]}"#;
    assert_eq!(
        decode_text(payload),
        Ok(MQTT2ROSData::SpinCommands(MSpinCommands {
            commands: vec![
                MSpinCommand { omega: float(-0.25), duration: Number::Integer(0) },
                MSpinCommand { omega: Number::Integer(4), duration: float(3.5) },
                MSpinCommand { omega: float(0.001), duration: float(1000.0) },
            ],
            period: Number::Integer(2),
        }))
    );
}

#[test]
fn decode_rejects_what_is_not_a_document() {
    for payload in ["", "{", "not json", r#"{"commands":[{"omega":1.0,"duration":2.0}],"period":0.5"#] {
        assert_eq!(violation(payload), SchemaViolation::NoDocument, "{}", payload);
    }
    assert_eq!(
        MQTT2ROSData::decode(None),
        Err(ValidationError::SchemaViolation(SchemaViolation::NoDocument))
    );
}

#[test]
fn decode_rejects_what_is_not_a_record() {
    for payload in ["null", "true", "1.5", r#""commands""#, "[]", r#"[{"commands":[],"period":1}]"#] {
        assert_eq!(violation(payload), SchemaViolation::NotARecord, "{}", payload);
    }
}

#[test]
fn decode_rejects_an_empty_record() {
    assert_eq!(violation("{}"), SchemaViolation::MissingCommands);
}

#[test]
fn decode_rejects_missing_commands() {
    assert_eq!(violation(r#"{"period":0.5}"#), SchemaViolation::MissingCommands);
}

#[test]
fn decode_reports_the_first_unknown_field() {
    assert_eq!(
        violation(r#"{"speed":1,"commands":[{"omega":1.0,"duration":2.0}],"period":0.5,"extra":true}"#),
        SchemaViolation::UnknownField { position: 0 }
    );
    assert_eq!(violation(r#"{"extra":true}"#), SchemaViolation::UnknownField { position: 0 });
    assert_eq!(violation(r#"{"Commands":[],"period":1}"#), SchemaViolation::UnknownField { position: 0 });
    assert_eq!(violation(r#"{"period":1,"period ":1}"#), SchemaViolation::UnknownField { position: 1 });
}

#[test]
fn decode_rejects_a_repeated_field() {
    let doc = Value::Record(vec![
        field("period", Value::Number(float(1.0))),
        field("commands", Value::List(vec![entry(float(0.5), float(1.0))])),
        field("period", Value::Number(float(2.0))),
    ]);
    assert_eq!(
        MQTT2ROSData::deserialize(&doc),
        Err(ValidationError::SchemaViolation(SchemaViolation::RepeatedField { position: 2 }))
    );
    let twice = Value::Record(vec![
        field("commands", Value::List(vec![])),
        field("commands", Value::List(vec![])),
    ]);
    assert_eq!(
        MQTT2ROSData::deserialize(&twice),
        Err(ValidationError::SchemaViolation(SchemaViolation::RepeatedField { position: 1 }))
    );
}

#[test]
fn decode_rejects_commands_that_are_not_a_list() {
    for payload in [
        r#"{"commands":{"omega":1.0,"duration":2.0},"period":0.5}"#,
        r#"{"commands":"spin","period":0.5}"#,
        r#"{"commands":null,"period":0.5}"#,
        r#"{"commands":3,"period":0.5}"#,
    ] {
        assert_eq!(violation(payload), SchemaViolation::CommandsNotAList, "{}", payload);
    }
}

#[test]
fn decode_names_the_entry_that_is_wrong() {
    let cases = [
        (r#"{"commands":[1.0],"period":0.5}"#, 0, EntryFault::NotARecord),
        (r#"{"commands":[{"omega":1,"duration":2},[1,2]],"period":0.5}"#, 1, EntryFault::NotARecord),
        (
            r#"{"commands":[{"omega":1,"duration":2},{"omega":1,"duration":2,"extra":0}],"period":0.5}"#,
            1,
            EntryFault::UnknownField { position: 2 },
        ),
        (r#"{"commands":[{"speed":1,"duration":2}],"period":0.5}"#, 0, EntryFault::UnknownField { position: 0 }),
        (r#"{"commands":[{"duration":2}],"period":0.5}"#, 0, EntryFault::MissingOmega),
        (r#"{"commands":[{}],"period":0.5}"#, 0, EntryFault::MissingOmega),
        (
            r#"{"commands":[{"omega":1,"duration":2},{"omega":1,"duration":2},{"omega":1}],"period":0.5}"#,
            2,
            EntryFault::MissingDuration,
        ),
        (r#"{"commands":[{"omega":"1.0","duration":2.0}],"period":0.5}"#, 0, EntryFault::OmegaNotNumeric),
        (r#"{"commands":[{"omega":null,"duration":"x"}],"period":0.5}"#, 0, EntryFault::OmegaNotNumeric),
        (r#"{"commands":[{"omega":1.0,"duration":"2.0"}],"period":0.5}"#, 0, EntryFault::DurationNotNumeric),
        (r#"{"commands":[{"omega":1.0,"duration":[2.0]}],"period":0.5}"#, 0, EntryFault::DurationNotNumeric),
    ];
    for (payload, index, fault) in cases {
        assert_eq!(violation(payload), SchemaViolation::Entry { index, fault }, "{}", payload);
    }
}

#[test]
fn decode_rejects_a_repeated_field_in_an_entry() {
    let doc = payload_of(
        vec![
            entry(float(1.0), float(1.0)),
            Value::Record(vec![
                field("omega", Value::Number(float(1.0))),
                field("omega", Value::Number(float(2.0))),
                field("duration", Value::Number(float(2.0))),
            ]),
        ],
        float(1.0),
    );
    assert_eq!(
        MQTT2ROSData::deserialize(&doc),
        Err(ValidationError::SchemaViolation(SchemaViolation::Entry {
            index: 1,
            fault: EntryFault::RepeatedField { position: 1 },
        }))
    );
}

#[test]
fn decode_rejects_a_period_that_is_not_a_number() {
    for payload in [
        r#"{"commands":[{"omega":1.0,"duration":2.0}],"period":"0.5"}"#,
        r#"{"commands":[{"omega":1.0,"duration":2.0}],"period":null}"#,
        r#"{"commands":[{"omega":1.0,"duration":2.0}],"period":[0.5]}"#,
        r#"{"commands":[{"omega":1.0,"duration":2.0}],"period":true}"#,
    ] {
        assert_eq!(violation(payload), SchemaViolation::PeriodNotNumeric, "{}", payload);
    }
}

#[test]
fn a_wrong_entry_is_reported_before_a_wrong_period() {
    assert_eq!(
        violation(r#"{"commands":[{"omega":1.0}],"period":"0.5"}"#),
        SchemaViolation::Entry { index: 0, fault: EntryFault::MissingDuration }
    );
}

#[test]
fn a_wrong_shape_is_reported_before_a_wrong_number() {
    assert_eq!(
        violation(r#"{"commands":[{"omega":1.0,"duration":-2.0}],"period":"0.5"}"#),
        SchemaViolation::PeriodNotNumeric
    );
}

#[test]
fn decode_rejects_a_negative_duration() {
    assert_eq!(
        conversion_error(r#"{"commands":[{"omega":1.0,"duration":2.0},{"omega":1.0,"duration":-0.5}],"period":0.5}"#),
        ConversionError::Command { index: 1, fault: CommandFault::DurationNegative }
    );
    assert_eq!(
        conversion_error(r#"{"commands":[{"omega":1.0,"duration":-1}],"period":0.5}"#),
        ConversionError::Command { index: 0, fault: CommandFault::DurationNegative }
    );
}

#[test]
fn decode_rejects_a_period_that_is_not_above_zero() {
    for payload in [
        r#"{"commands":[{"omega":1.0,"duration":2.0}],"period":0.0}"#,
        r#"{"commands":[{"omega":1.0,"duration":2.0}],"period":0}"#,
        r#"{"commands":[{"omega":1.0,"duration":2.0}],"period":-0.0}"#,
        r#"{"commands":[{"omega":1.0,"duration":2.0}],"period":-0.5}"#,
        r#"{"commands":[{"omega":1.0,"duration":2.0}],"period":-3}"#,
    ] {
        assert_eq!(conversion_error(payload), ConversionError::PeriodNotPositive, "{}", payload);
    }
}

#[test]
fn decode_rejects_numbers_that_are_not_finite() {
    let nan = float(f64::NAN);
    let inf = float(f64::INFINITY);
    let one = float(1.0);
    let conversion = |doc: &Value| match MQTT2ROSData::deserialize(doc) {
        Err(ValidationError::ConversionError(e)) => e,
        other => panic!("expected a conversion error, got {:?}", other),
    };
    assert_eq!(
        conversion(&payload_of(vec![entry(one, one), entry(nan, one)], one)),
        ConversionError::Command { index: 1, fault: CommandFault::OmegaNotFinite }
    );
    assert_eq!(
        conversion(&payload_of(vec![entry(float(f64::NEG_INFINITY), nan)], one)),
        ConversionError::Command { index: 0, fault: CommandFault::OmegaNotFinite }
    );
    assert_eq!(
        conversion(&payload_of(vec![entry(one, inf)], one)),
        ConversionError::Command { index: 0, fault: CommandFault::DurationNotFinite }
    );
    assert_eq!(
        conversion(&payload_of(vec![entry(one, float(f64::NEG_INFINITY))], one)),
        ConversionError::Command { index: 0, fault: CommandFault::DurationNotFinite }
    );
    assert_eq!(conversion(&payload_of(vec![entry(one, one)], inf)), ConversionError::PeriodNotFinite);
    assert_eq!(conversion(&payload_of(vec![entry(one, one)], nan)), ConversionError::PeriodNotFinite);
}

#[test]
fn a_wrong_command_is_reported_before_a_wrong_period() {
    let doc = payload_of(vec![entry(float(1.0), float(-1.0))], float(0.0));
    assert_eq!(
        MQTT2ROSData::deserialize(&doc),
        Err(ValidationError::ConversionError(ConversionError::Command {
            index: 0,
            fault: CommandFault::DurationNegative,
        }))
    );
}

#[test]
fn decode_accepts_zero_duration_and_negative_omega() {
    let doc = payload_of(vec![entry(float(-3.0), float(0.0)), entry(float(0.0), float(-0.0))], float(5e-324));
    assert_eq!(
        MQTT2ROSData::deserialize(&doc),
        Ok(MQTT2ROSData::SpinCommands(MSpinCommands {
            commands: vec![
                MSpinCommand { omega: float(-3.0), duration: float(0.0) },
                MSpinCommand { omega: float(0.0), duration: float(-0.0) },
            ],
            period: float(5e-324),
        }))
    );
}

#[test]
fn entry_is_read_in_either_order_of_its_fields() {
    let swapped = Value::Record(vec![
        field("duration", Value::Number(float(2.0))),
        field("omega", Value::Number(float(1.0))),
    ]);
    let expected = Ok(SpinCommandHelper { omega: float(1.0), duration: float(2.0) });
    assert_eq!(SpinCommandHelper::deserialize(&swapped), expected);
    assert_eq!(SpinCommandHelper::deserialize(&entry(float(1.0), float(2.0))), expected);
    assert_eq!(SpinCommandHelper::deserialize(&Value::Null), Err(EntryFault::NotARecord));
}

#[test]
fn schema_check_does_not_judge_the_numbers() {
    let doc = payload_of(vec![entry(float(f64::NAN), float(-1.0))], float(-2.0));
    let helper = SpinCommandsHelper::deserialize(&doc).expect("right shape");
    assert_eq!(
        helper,
        SpinCommandsHelper {
            commands: vec![SpinCommandHelper { omega: float(f64::NAN), duration: float(-1.0) }],
            period: float(-2.0),
        }
    );
    assert_eq!(
        MSpinCommands::try_from(helper),
        Err(ConversionError::Command { index: 0, fault: CommandFault::OmegaNotFinite })
    );
}

#[test]
fn conversion_keeps_every_number() {
    let helper = SpinCommandsHelper {
        commands: vec![
            SpinCommandHelper { omega: float(0.5), duration: float(1.0) },
            SpinCommandHelper { omega: Number::Integer(-7), duration: Number::Integer(9) },
        ],
        period: float(0.25),
    };
    assert_eq!(
        MSpinCommands::try_from(helper),
        Ok(MSpinCommands {
            commands: vec![
                MSpinCommand { omega: float(0.5), duration: float(1.0) },
                MSpinCommand { omega: Number::Integer(-7), duration: Number::Integer(9) },
            ],
            period: float(0.25),
        })
    );
}

#[test]
fn conversion_of_no_commands_judges_the_period_alone() {
    let empty = |period: Number| SpinCommandsHelper { commands: vec![], period };
    assert_eq!(
        MSpinCommands::try_from(empty(float(1.0))),
        Ok(MSpinCommands { commands: vec![], period: float(1.0) })
    );
    assert_eq!(MSpinCommands::try_from(empty(float(0.0))), Err(ConversionError::PeriodNotPositive));
}

#[test]
fn a_rejected_payload_does_not_change_what_the_next_one_gives() {
    let good = r#"{"commands":[{"omega":0.5,"duration":1.0}],"period":1.0}"#;
    let bad = r#"{"commands":[{"omega":0.5,"duration":1.0}],"period":1.0,"extra":true}"#;
    let before = decode_text(good);
    assert!(decode_text(bad).is_err());
    assert_eq!(decode_text(good), before);
    assert!(before.is_ok());
}
