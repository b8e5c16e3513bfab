use regex_capture::{
    CaptureSet, ConversionError, ExtractionError, FieldSpec, Kind, NumberFault, Reason, Record,
    StructSpec, Value,
};
use std::cell::{Cell, RefCell};

#[derive(Clone, Debug, PartialEq)]
enum Gender {
    Male,
    Female,
}

fn gender_parser(s: &str) -> Result<Gender, String> {
    match s {
        "male" => Ok(Gender::Male),
        "female" => Ok(Gender::Female),
        _ => Err("invalid gender".to_string()),
    }
}

type GenderParser = fn(&str) -> Result<Gender, String>;

fn person(pattern: &str) -> StructSpec<Gender, GenderParser> {
    StructSpec::new(
        "Person",
        pattern,
        vec![
            FieldSpec::parsed("name", Kind::Text),
            FieldSpec::parsed("age", Kind::Unsigned),
            FieldSpec::custom("gender", gender_parser as GenderParser),
        ],
    )
    .unwrap()
}

const STRICT: &str = r"name=(?P<name>.+?), age=(?P<age>\d+), gender=(?P<gender>male|female)";

const LOOSE: &str = r"name=(?P<name>.+?), age=(?P<age>\w*), gender=(?P<gender>\w*)";

fn option_u32(src: &str) -> Result<Option<u32>, String> {
    if src.trim().is_empty() {
        return Ok(None);
    }
    match src.parse::<u32>() {
        Ok(val) => Ok(Some(val)),
        Err(_) => Err(format!("Failed to convert {} to interger", src)),
    }
}

type OptionParser = fn(&str) -> Result<Option<u32>, String>;

#[test]
fn a_matching_input_gives_every_field_converted() {
    let record = person(STRICT).parse("name=Chihaya Anon, age=15, gender=female").unwrap();
    assert_eq!(record.struct_name(), "Person");
    assert_eq!(record.len(), 3);
    assert_eq!(record.get("name"), Some(&Value::Text("Chihaya Anon".to_string())));
    assert_eq!(record.get("age"), Some(&Value::Unsigned(15)));
    assert_eq!(record.get("gender"), Some(&Value::Custom(Gender::Female)));
    assert_eq!(record.get("height"), None);
    assert_eq!(record.value_at(0), Some(&Value::Text("Chihaya Anon".to_string())));
    assert_eq!(record.value_at(1), Some(&Value::Unsigned(15)));
    assert_eq!(record.value_at(2), Some(&Value::Custom(Gender::Female)));
    assert_eq!(record.value_at(3), None);
    assert_eq!(
        record.into_values(),
        vec![
            Value::Text("Chihaya Anon".to_string()),
            Value::Unsigned(15),
            Value::Custom(Gender::Female)
        ]
    );
}

#[test]
fn the_pattern_may_match_inside_the_input() {
    let record = person(STRICT).parse(">> name=Rana, age=14, gender=female <<").unwrap();
    assert_eq!(record.get("name"), Some(&Value::Text("Rana".to_string())));
    assert_eq!(record.get("age"), Some(&Value::Unsigned(14)));
}

#[test]
fn an_input_that_does_not_match_gives_no_match() {
    let spec = person(STRICT);
    let expected = Err(ExtractionError::NoMatch { struct_name: "Person".to_string() });
    assert_eq!(spec.parse("nothing of the kind"), expected);
    assert_eq!(spec.parse(""), expected);
    assert_eq!(spec.parse("name=Chihaya Anon, age=abc, gender=female"), expected);
    assert_eq!(spec.parse("name=Chihaya Anon, age=15, gender=other"), expected);
    assert_eq!(spec.parse("name=Chihaya Anon, age=15"), expected);
}

#[test]
fn a_field_that_cannot_be_parsed_is_named_with_its_text() {
    let result = person(LOOSE).parse("name=Chihaya Anon, age=abc, gender=female");
    assert_eq!(
        result,
        Err(ExtractionError::FieldFailed {
            struct_name: "Person".to_string(),
            field_name: "age".to_string(),
            cause: ConversionError {
                field: "age".to_string(),
                raw: "abc".to_string(),
                reason: Reason::Number(NumberFault::InvalidDigit),
            },
        })
    );
}

#[test]
fn an_empty_capture_fails_a_number_as_empty() {
    let result = person(LOOSE).parse("name=Chihaya Anon, age=, gender=female");
    assert_eq!(
        result,
        Err(ExtractionError::FieldFailed {
            struct_name: "Person".to_string(),
            field_name: "age".to_string(),
            cause: ConversionError {
                field: "age".to_string(),
                raw: String::new(),
                reason: Reason::Number(NumberFault::Empty),
            },
        })
    );
}

#[test]
fn a_number_out_of_range_fails_its_field() {
    let result = person(LOOSE).parse("name=Chihaya Anon, age=4294967296, gender=female");
    assert_eq!(
        result,
        Err(ExtractionError::FieldFailed {
            struct_name: "Person".to_string(),
            field_name: "age".to_string(),
            cause: ConversionError {
                field: "age".to_string(),
                raw: "4294967296".to_string(),
                reason: Reason::Number(NumberFault::TooLarge),
            },
        })
    );
}

#[test]
fn a_custom_converter_that_refuses_is_named_with_its_message() {
    let result = person(LOOSE).parse("name=Chihaya Anon, age=15, gender=other");
    assert_eq!(
        result,
        Err(ExtractionError::FieldFailed {
            struct_name: "Person".to_string(),
            field_name: "gender".to_string(),
            cause: ConversionError {
                field: "gender".to_string(),
                raw: "other".to_string(),
                reason: Reason::Rejected("invalid gender".to_string()),
            },
        })
    );
}

#[test]
fn the_first_failing_field_is_the_one_reported() {
    let result = person(LOOSE).parse("name=Chihaya Anon, age=abc, gender=other");
    match result {
        Err(ExtractionError::FieldFailed { field_name, .. }) => assert_eq!(field_name, "age"),
        _ => panic!("the age was converted"),
    }
}

#[test]
fn no_converter_runs_after_the_first_failure() {
    let calls = Cell::new(0);
    let counting = |raw: &str| {
        calls.set(calls.get() + 1);
        gender_parser(raw)
    };
    let spec = StructSpec::new(
        "Person",
        LOOSE,
        vec![
            FieldSpec::parsed("name", Kind::Text),
            FieldSpec::parsed("age", Kind::Unsigned),
            FieldSpec::custom("gender", counting),
        ],
    )
    .unwrap();
    assert!(spec.parse("name=Chihaya Anon, age=abc, gender=female").is_err());
    assert_eq!(calls.get(), 0);
    assert!(spec.parse("name=Chihaya Anon, age=15, gender=female").is_ok());
    assert_eq!(calls.get(), 1);
    assert!(spec.parse("no match at all").is_err());
    assert_eq!(calls.get(), 1);
}

#[test]
fn fields_are_converted_in_the_order_of_declaration() {
    let seen = RefCell::new(Vec::new());
    let noting = |raw: &str| -> Result<u32, String> {
        seen.borrow_mut().push(raw.to_string());
        Ok(0)
    };
    let spec = StructSpec::new(
        "Triple",
        r"(?P<c>\d),(?P<a>\d),(?P<b>\d)",
        vec![
            FieldSpec::custom("a", &noting),
            FieldSpec::custom("b", &noting),
            FieldSpec::custom("c", &noting),
        ],
    )
    .unwrap();
    assert!(spec.parse("1,2,3").is_ok());
    assert_eq!(*seen.borrow(), vec!["2".to_string(), "3".to_string(), "1".to_string()]);
}

fn port_name() -> StructSpec<Option<u32>, OptionParser> {
    StructSpec::new(
        "PortName",
        r"(?P<port_type>\S*GE)((?P<chassis>\d+)\/)?(?P<slot>\d+)\/(?P<card>\d+)\/(?P<panel_id>\d+)(:(?P<split>\d+))?",
        vec![
            FieldSpec::parsed("port_type", Kind::Text),
            FieldSpec::custom("chassis", option_u32 as OptionParser),
            FieldSpec::parsed("slot", Kind::Unsigned),
            FieldSpec::parsed("card", Kind::Unsigned),
            FieldSpec::parsed("panel_id", Kind::Unsigned),
            FieldSpec::custom("split", option_u32 as OptionParser),
        ],
    )
    .unwrap()
}

#[test]
fn an_optional_group_that_took_part_gives_its_value() {
    let record = port_name().parse("100GE1/7/0/14:3").unwrap();
    assert_eq!(record.get("split"), Some(&Value::Custom(Some(3))));
    assert_eq!(record.get("chassis"), Some(&Value::Custom(Some(1))));
}

#[test]
fn an_optional_group_that_took_no_part_gives_an_absent_value() {
    let record = port_name().parse("GE1/0/14").unwrap();
    assert_eq!(record.get("split"), Some(&Value::Custom(None)));
    assert_eq!(record.get("chassis"), Some(&Value::Custom(None)));
    assert_eq!(record.get("slot"), Some(&Value::Unsigned(1)));
}

#[test]
fn a_converter_is_handed_the_empty_text_for_an_absent_group() {
    let seen = RefCell::new(Vec::new());
    let noting = |raw: &str| -> Result<u32, String> {
        seen.borrow_mut().push(raw.to_string());
        Ok(raw.len() as u32)
    };
    let spec = StructSpec::new(
        "Port",
        r"(?P<slot>\d+)(:(?P<split>\d+))?",
        vec![FieldSpec::parsed("slot", Kind::Unsigned), FieldSpec::custom("split", noting)],
    )
    .unwrap();
    let record = spec.parse("14").unwrap();
    assert_eq!(record.get("split"), Some(&Value::Custom(0)));
    let record = spec.parse("14:345").unwrap();
    assert_eq!(record.get("split"), Some(&Value::Custom(3)));
    assert_eq!(*seen.borrow(), vec![String::new(), "345".to_string()]);
}

#[test]
fn a_parsed_field_fails_on_an_absent_group() {
    let spec: StructSpec<(), fn(&str) -> Result<(), String>> = StructSpec::new(
        "Port",
        r"(?P<slot>\d+)(:(?P<split>\d+))?",
        vec![FieldSpec::parsed("slot", Kind::Unsigned), FieldSpec::parsed("split", Kind::Unsigned)],
    )
    .unwrap();
    assert_eq!(
        spec.parse("14"),
        Err(ExtractionError::FieldFailed {
            struct_name: "Port".to_string(),
            field_name: "split".to_string(),
            cause: ConversionError {
                field: "split".to_string(),
                raw: String::new(),
                reason: Reason::Number(NumberFault::Empty),
            },
        })
    );
}

#[test]
fn a_text_field_is_empty_for_an_absent_group() {
    let spec: StructSpec<(), fn(&str) -> Result<(), String>> = StructSpec::new(
        "Port",
        r"(?P<slot>\d+)(:(?P<split>\d+))?",
        vec![FieldSpec::parsed("slot", Kind::Unsigned), FieldSpec::parsed("split", Kind::Text)],
    )
    .unwrap();
    let record = spec.parse("14").unwrap();
    assert_eq!(record.get("split"), Some(&Value::Text(String::new())));
}

#[test]
fn an_optional_field_without_a_group_is_always_handed_the_empty_text() {
    let spec = StructSpec::new(
        "Port",
        r"(?P<slot>\d+)",
        vec![
            FieldSpec::parsed("slot", Kind::Unsigned),
            FieldSpec::optional("split", option_u32 as OptionParser),
        ],
    )
    .unwrap();
    let record = spec.parse("14").unwrap();
    assert_eq!(record.get("slot"), Some(&Value::Unsigned(14)));
    assert_eq!(record.get("split"), Some(&Value::Custom(None)));
}

#[test]
fn every_kind_of_field_is_read() {
    let spec: StructSpec<(), fn(&str) -> Result<(), String>> = StructSpec::new(
        "Reading",
        r"(?P<sensor>\w+)=(?P<celsius>[-+]?\d+) ok=(?P<ok>\w+) n=(?P<n>\d+)",
        vec![
            FieldSpec::parsed("sensor", Kind::Text),
            FieldSpec::parsed("celsius", Kind::Signed),
            FieldSpec::parsed("ok", Kind::Flag),
            FieldSpec::parsed("n", Kind::Unsigned),
        ],
    )
    .unwrap();
    let record = spec.parse("probe=-12 ok=true n=3").unwrap();
    assert_eq!(
        record.into_values(),
        vec![
            Value::Text("probe".to_string()),
            Value::Signed(-12),
            Value::Flag(true),
            Value::Unsigned(3)
        ]
    );
    assert_eq!(
        spec.parse("probe=+12 ok=yes n=3"),
        Err(ExtractionError::FieldFailed {
            struct_name: "Reading".to_string(),
            field_name: "ok".to_string(),
            cause: ConversionError {
                field: "ok".to_string(),
                raw: "yes".to_string(),
                reason: Reason::NotBoolean,
            },
        })
    );
}

#[test]
fn extracting_again_gives_the_same_result() {
    let spec = person(LOOSE);
    for input in [
        "name=Chihaya Anon, age=15, gender=female",
        "name=Chihaya Anon, age=abc, gender=female",
        "name=Chihaya Anon, age=15, gender=other",
        "no match",
    ] {
        let first = spec.parse(input);
        let second = spec.parse(input);
        let third = spec.parse(input);
        assert_eq!(first, second);
        assert_eq!(second, third);
    }
}

#[test]
fn extractions_do_not_affect_each_other() {
    let spec = person(LOOSE);
    let before = spec.parse("name=Chihaya Anon, age=15, gender=female");
    assert!(spec.parse("name=Rana, age=abc, gender=female").is_err());
    assert!(spec.parse("no match").is_err());
    assert_eq!(spec.parse("name=Chihaya Anon, age=15, gender=female"), before);
}

#[test]
fn assemble_converts_from_given_groups() {
    let spec = person(STRICT);
    let mut groups = CaptureSet::new();
    groups.insert("gender", "male");
    groups.insert("age", "16");
    groups.insert("name", "Taki");
    groups.insert("unused", "x");
    let record = spec.assemble(&groups).unwrap();
    assert_eq!(
        record.into_values(),
        vec![Value::Text("Taki".to_string()), Value::Unsigned(16), Value::Custom(Gender::Male)]
    );
}

#[test]
fn assemble_reads_a_missing_group_as_empty() {
    let spec = person(STRICT);
    let mut groups = CaptureSet::new();
    groups.insert("name", "Taki");
    groups.insert("gender", "male");
    assert_eq!(
        spec.assemble(&groups),
        Err(ExtractionError::FieldFailed {
            struct_name: "Person".to_string(),
            field_name: "age".to_string(),
            cause: ConversionError {
                field: "age".to_string(),
                raw: String::new(),
                reason: Reason::Number(NumberFault::Empty),
            },
        })
    );
}

#[test]
fn a_field_converts_on_its_own() {
    let age: FieldSpec<Gender, GenderParser> = FieldSpec::parsed("age", Kind::Unsigned);
    assert_eq!(age.convert("15"), Ok(Value::Unsigned(15)));
    assert_eq!(
        age.convert("x"),
        Err(ConversionError {
            field: "age".to_string(),
            raw: "x".to_string(),
            reason: Reason::Number(NumberFault::InvalidDigit),
        })
    );
    let gender: FieldSpec<Gender, GenderParser> =
        FieldSpec::custom("gender", gender_parser as GenderParser);
    assert_eq!(gender.convert("male"), Ok(Value::Custom(Gender::Male)));
    assert_eq!(
        gender.convert(""),
        Err(ConversionError {
            field: "gender".to_string(),
            raw: String::new(),
            reason: Reason::Rejected("invalid gender".to_string()),
        })
    );
}

#[test]
fn a_record_pairs_names_with_values() {
    let record: Record<()> = Record::new(
        "Pair".to_string(),
        vec!["a".to_string(), "b".to_string(), "a".to_string()],
        vec![Value::Unsigned(1), Value::Unsigned(2), Value::Unsigned(3)],
    )
    .unwrap();
    assert_eq!(record.len(), 3);
    assert_eq!(record.get("a"), Some(&Value::Unsigned(1)));
    assert_eq!(record.get("b"), Some(&Value::Unsigned(2)));
    assert_eq!(record.get("c"), None);
    let unpaired: Option<Record<()>> =
        Record::new("Pair".to_string(), vec!["a".to_string()], Vec::new());
    assert_eq!(unpaired, None);
}
