//! The decode contract on concrete JSON documents.

use edmunds::codec::{
    decode_make, decode_makes_response, decode_model, decode_style, decode_styles_response,
};
use edmunds::json::{parse_json_value, DecodeError};
use edmunds::models::{Attribute, Equipment, Make, Model, State, Style, Submodel};

/// A basic-view make document with nine models, none carrying a
/// `years` key.
fn make_basic_json() -> String {
    let mut models = String::new();
    let names = ["ILX", "MDX", "NSX", "RDX", "RLX", "TLX", "TSX", "ZDX", "RL"];
    for (i, name) in names.iter().enumerate() {
        if i > 0 {
            models.push(',');
        }
        models.push_str(&format!(
            "{{\"id\":\"Acura_{n}\",\"name\":\"{n}\",\"niceName\":\"{l}\"}}",
            n = name,
            l = name.to_lowercase()
        ));
    }
    format!(
        "{{\"id\":200002038,\"name\":\"Acura\",\"niceName\":\"acura\",\"models\":[{}]}}",
        models
    )
}

#[test]
fn deserialize_make() {
    let input = make_basic_json();

    let expected = Make {
        id: 200002038,
        name: "Acura".to_string(),
        nice_name: "acura".to_string(),
        models: vec![],
    };

    let value = parse_json_value(input.as_bytes()).unwrap();
    let make: Make = decode_make(&value).unwrap();

    assert_eq!(expected.id, make.id);
    assert_eq!(expected.nice_name, make.nice_name);
    assert_eq!(expected.name, make.name);
    assert_eq!(9, make.models.len());

    // Each nested model carries its own id, name and nice name.
    assert_eq!("Acura_ILX", make.models[0].id);
    assert_eq!("ILX", make.models[0].name);
    assert_eq!("ilx", make.models[0].nice_name);
    assert_eq!("Acura_RL", make.models[8].id);

    // The absent `years` key on each model decodes to an empty
    // sequence — not to a failure.
    for model in &make.models {
        assert_eq!(0, model.years.len());
    }
}

#[test]
fn deserialize_model() {
    let input = "{\"id\":\"Acura_ILX\",\"name\":\"ILX\",\"niceName\":\"ilx\",\"years\":[\
                 {\"id\":100531353,\"year\":2014},\
                 {\"id\":200471908,\"year\":2015},\
                 {\"id\":200701415,\"year\":2016}]}";

    let expected = Model {
        id: "Acura_ILX".to_string(),
        name: "ILX".to_string(),
        nice_name: "ilx".to_string(),
        years: vec![],
    };

    let value = parse_json_value(input.as_bytes()).unwrap();
    let model: Model = decode_model(&value).unwrap();

    assert_eq!(expected.id, model.id);
    assert_eq!(expected.nice_name, model.nice_name);
    assert_eq!(expected.name, model.name);
    assert_eq!(3, model.years.len());
    assert_eq!(2014, model.years[0].year);
    // Styles are absent in the basic view: an empty sequence.
    assert_eq!(0, model.years[0].styles.len());
}

#[test]
fn minimal_style_decodes_with_defaults() {
    let input = "{\"id\":7,\"name\":\"Base\",\"trim\":\"base\",\
                 \"submodel\":{\"modelName\":\"ILX\",\"niceName\":\"ilx\"},\
                 \"unknownFutureField\":{\"nested\":true}}";
    let value = parse_json_value(input.as_bytes()).unwrap();
    let style: Style = decode_style(&value).unwrap();
    assert_eq!(7, style.id);
    assert_eq!("Base", style.name);
    // Optional fields absent: the explicit absent marker.
    assert!(style.engine.is_none());
    assert!(style.price.is_none());
    assert!(style.mpg.is_none());
    // Defaulted sequences absent: empty, not a failure.
    assert_eq!(0, style.options.len());
    assert_eq!(0, style.colors.len());
    assert_eq!(0, style.squish_vins.len());
    assert_eq!(0, style.equipment.len());
    // The submodel decoded, optional parts absent.
    assert_eq!("ILX", style.submodel.model_name);
    assert!(style.submodel.body.is_none());
}

#[test]
fn null_optional_field_is_absent_marker() {
    let input = "{\"id\":7,\"name\":\"Base\",\"trim\":\"base\",\
                 \"submodel\":{\"modelName\":\"ILX\",\"niceName\":\"ilx\"},\
                 \"drivenWheels\":null,\"engine\":null}";
    let value = parse_json_value(input.as_bytes()).unwrap();
    let style = decode_style(&value).unwrap();
    assert!(style.driven_wheels.is_none());
    assert!(style.engine.is_none());
}

#[test]
fn required_field_missing_fails_whole_decode() {
    // No `trim`: the entire style decode fails; nothing partial.
    let input = "{\"id\":7,\"name\":\"Base\",\
                 \"submodel\":{\"modelName\":\"ILX\",\"niceName\":\"ilx\"}}";
    let value = parse_json_value(input.as_bytes()).unwrap();
    assert!(matches!(decode_style(&value), Err(DecodeError::Schema)));
}

#[test]
fn bad_element_fails_whole_entity() {
    // The second year lacks its `year` field, so the model fails.
    let input = "{\"id\":\"X\",\"name\":\"X\",\"niceName\":\"x\",\"years\":[\
                 {\"id\":1,\"year\":2014},{\"id\":2}]}";
    let value = parse_json_value(input.as_bytes()).unwrap();
    assert!(matches!(decode_model(&value), Err(DecodeError::Schema)));
}

#[test]
fn malformed_json_is_a_syntax_error() {
    assert!(matches!(
        decode_makes_response(b"this is not json"),
        Err(DecodeError::Syntax)
    ));
}

#[test]
fn wrong_envelope_is_a_schema_error() {
    assert!(matches!(decode_makes_response(b"{}"), Err(DecodeError::Schema)));
    assert!(matches!(decode_styles_response(b"{\"styles\":7}"), Err(DecodeError::Schema)));
}

#[test]
fn redundant_count_in_envelope_is_tolerated() {
    // A schema revision carries a count beside the list; the list's
    // own length is the source of truth.
    let body = "{\"makesCount\":99,\"makes\":[\
                {\"id\":1,\"name\":\"A\",\"niceName\":\"a\",\"models\":[]}]}";
    let makes = decode_makes_response(body.as_bytes()).unwrap();
    assert_eq!(1, makes.len());
}

fn equipment_with(attrs: Vec<(&str, &str)>) -> Equipment {
    Equipment {
        id: "E1".to_string(),
        name: "SEATS".to_string(),
        equipment_type: "OTHER".to_string(),
        availability: "STANDARD".to_string(),
        attributes: attrs
            .into_iter()
            .map(|(n, v)| Attribute { name: n.to_string(), value: v.to_string() })
            .collect(),
    }
}

#[test]
fn typed_attribute_lookup_absent_and_unparsable() {
    let e = equipment_with(vec![("SEATS", "4"), ("HEATED", "true"), ("KIND", "leather")]);

    // Present and parsable.
    assert_eq!(e.get_attr::<u64>("SEATS"), Ok(Some(4)));
    assert_eq!(e.get_attr::<u32>("SEATS"), Ok(Some(4)));
    assert_eq!(e.get_attr::<bool>("HEATED"), Ok(Some(true)));
    assert_eq!(e.get_attr::<String>("KIND"), Ok(Some("leather".to_string())));

    // A name not present: the absent marker, not an error.
    assert_eq!(e.get_attr::<u64>("MISSING"), Ok(None));

    // Present but unparsable as the requested type: an error, never a
    // silent default.
    assert!(e.get_attr::<u64>("KIND").is_err());
    assert!(e.get_attr::<bool>("SEATS").is_err());
}

#[test]
fn get_equipment_finds_first_by_name() {
    let style = Style {
        id: 1,
        name: "S".to_string(),
        trim: "base".to_string(),
        submodel: Submodel {
            body: None,
            fuel: None,
            model_name: "M".to_string(),
            nice_name: "m".to_string(),
            tuner: None,
        },
        driven_wheels: None,
        num_of_doors: None,
        engine: None,
        transmission: None,
        options: vec![],
        colors: vec![],
        manufacturer_code: None,
        price: None,
        categories: None,
        squish_vins: vec![],
        mpg: None,
        equipment: vec![equipment_with(vec![("SEATS", "4")])],
    };
    // The lookup goes by the equipment feature's own name.
    let hit = style.get_equipment("SEATS").expect("scripted feature");
    assert_eq!("E1", hit.id);
    assert!(style.get_equipment("NOPE").is_none());
}

#[test]
fn state_values_cover_the_filter() {
    // The three market-status filters exist and are distinct.
    assert_ne!(State::New, State::Used);
    assert_ne!(State::Used, State::Future);
}
