//! Encoding a decoded entity back to JSON and decoding again yields an
//! equal entity, for every entity type that supports both directions.

use edmunds::codec::{
    decode_attribute, decode_car_option, decode_categories, decode_color, decode_color_chips,
    decode_color_detail, decode_engine, decode_equipment, decode_fabric_type, decode_make,
    decode_mpg, decode_price, decode_rpm, decode_submodel, decode_transmission, decode_valve,
    encode_attribute, encode_car_option, encode_categories, encode_color, encode_color_chips,
    encode_color_detail, encode_engine, encode_equipment, encode_fabric_type, encode_make,
    encode_mpg, encode_price, encode_rpm, encode_submodel, encode_transmission, encode_valve,
};
use edmunds::models::{
    Attribute, CarOption, CarOptionDetail, Categories, Color, ColorChips, ColorDetail,
    ColorOption, Engine, Equipment, FabricType, Make, Model, Price, Style, Submodel, Transmission,
    Valve, Year, MPG, RPM,
};

#[test]
fn mpg_round_trip() {
    let original = MPG { highway: 34, city: 24 };
    let encoded = encode_mpg(&original);
    assert_eq!(original, decode_mpg(&encoded).unwrap());
}

#[test]
fn rpm_round_trip() {
    let both = RPM { horsepower: Some(6500), torque: Some(4500) };
    assert_eq!(both, decode_rpm(&encode_rpm(&both)).unwrap());
    let neither = RPM { horsepower: None, torque: None };
    assert_eq!(neither, decode_rpm(&encode_rpm(&neither)).unwrap());
}

#[test]
fn valve_round_trip() {
    let v = Valve { timing: Some("VARIABLE".to_string()), gear: None };
    assert_eq!(v, decode_valve(&encode_valve(&v)).unwrap());
}

#[test]
fn attribute_round_trip() {
    let a = Attribute { name: "COUNT".to_string(), value: "4".to_string() };
    assert_eq!(a, decode_attribute(&encode_attribute(&a)).unwrap());
}

#[test]
fn fabric_type_round_trip() {
    let f = FabricType { name: "SEAT".to_string(), value: "Leather".to_string() };
    assert_eq!(f, decode_fabric_type(&encode_fabric_type(&f)).unwrap());
}

#[test]
fn color_detail_round_trip() {
    let c = ColorDetail { r: 255, g: 128, b: 0, hex: "FF8000".to_string() };
    assert_eq!(c, decode_color_detail(&encode_color_detail(&c)).unwrap());
}

#[test]
fn color_chips_round_trip() {
    let chips = ColorChips {
        primary: Some(ColorDetail { r: 10, g: 20, b: 30, hex: "0A141E".to_string() }),
        secondary: None,
    };
    assert_eq!(chips, decode_color_chips(&encode_color_chips(&chips)).unwrap());
}

#[test]
fn submodel_round_trip() {
    let s = Submodel {
        body: Some("Coupe".to_string()),
        fuel: None,
        model_name: "4C".to_string(),
        nice_name: "4c".to_string(),
        tuner: None,
    };
    assert_eq!(s, decode_submodel(&encode_submodel(&s)).unwrap());
}

#[test]
fn transmission_round_trip() {
    let t = Transmission {
        id: "T1".to_string(),
        name: "6MT".to_string(),
        equipment_type: "TRANSMISSION".to_string(),
        automatic_type: None,
        transmission_type: "MANUAL".to_string(),
        number_of_speeds: "6".to_string(),
    };
    assert_eq!(t, decode_transmission(&encode_transmission(&t)).unwrap());
}

#[test]
fn engine_round_trip() {
    let e = Engine {
        id: "200424371".to_string(),
        name: "Engine".to_string(),
        equipment_type: "ENGINE".to_string(),
        cylinder: Some(4),
        displacement: Some(1742),
        configuration: Some("inline".to_string()),
        fuel_type: Some("premium unleaded (required)".to_string()),
        horsepower: Some(237),
        torque: Some(258),
        total_valves: Some(16),
        manufacturer_engine_code: None,
        engine_type: "gas".to_string(),
        code: "4ICTG1.7".to_string(),
        compressor_type: "turbocharger".to_string(),
        rpm: Some(RPM { horsepower: Some(6000), torque: Some(2200) }),
        valve: Some(Valve { timing: Some("variable valve timing".to_string()), gear: None }),
    };
    assert_eq!(e, decode_engine(&encode_engine(&e)).unwrap());
}

#[test]
fn price_round_trip() {
    let p = Price {
        base_msrp: 53900,
        base_invoice: Some(51200),
        delivery_charges: None,
        used_tmv_retail: None,
        used_private_party: None,
        used_trade_in: Some(40000),
        estimate_tmv: false,
        tmv_recommended_rating: None,
    };
    assert_eq!(p, decode_price(&encode_price(&p)).unwrap());
}

#[test]
fn categories_round_trip() {
    let c = Categories {
        market: "Performance".to_string(),
        epa_class: None,
        vehicle_size: "Compact".to_string(),
        crossover: None,
        primary_body_type: "Car".to_string(),
        vehicle_style: "Coupe".to_string(),
        vehicle_type: "Car".to_string(),
        manufacturer_cab_type: None,
    };
    assert_eq!(c, decode_categories(&encode_categories(&c)).unwrap());
}

#[test]
fn car_option_round_trip() {
    let o = CarOption {
        category: "Package".to_string(),
        options: vec![CarOptionDetail {
            id: "O1".to_string(),
            name: "Convenience Package".to_string(),
            description: Some("A bundle".to_string()),
            equipment_type: "OPTION".to_string(),
            price: Some(Price {
                base_msrp: 1800,
                base_invoice: None,
                delivery_charges: None,
                used_tmv_retail: None,
                used_private_party: None,
                used_trade_in: None,
                estimate_tmv: true,
                tmv_recommended_rating: None,
            }),
            manufacture_option_name: None,
            manufacture_option_code: Some("CP1".to_string()),
        }],
    };
    assert_eq!(o, decode_car_option(&encode_car_option(&o)).unwrap());
}

#[test]
fn color_round_trip() {
    let c = Color {
        category: "Exterior".to_string(),
        options: vec![ColorOption {
            id: "C1".to_string(),
            name: "Rosso".to_string(),
            equipment_type: "COLOR_EXTERIOR".to_string(),
            price: None,
            manufacture_option_name: "Rosso Alfa".to_string(),
            manufacture_option_code: "RA".to_string(),
            color_chips: Some(ColorChips {
                primary: Some(ColorDetail { r: 172, g: 25, b: 28, hex: "AC191C".to_string() }),
                secondary: None,
            }),
            fabric_types: vec![FabricType {
                name: "seat".to_string(),
                value: "leather".to_string(),
            }],
        }],
    };
    assert_eq!(c, decode_color(&encode_color(&c)).unwrap());
}

#[test]
fn make_round_trip() {
    // A whole make tree: models, years and a minimal style.
    let style = Style {
        id: 101412677,
        name: "Base".to_string(),
        trim: "base".to_string(),
        submodel: Submodel {
            body: Some("Coupe".to_string()),
            fuel: None,
            model_name: "4C".to_string(),
            nice_name: "4c".to_string(),
            tuner: None,
        },
        driven_wheels: Some("rear wheel drive".to_string()),
        num_of_doors: Some("2".to_string()),
        engine: None,
        transmission: None,
        options: vec![],
        colors: vec![],
        manufacturer_code: None,
        price: None,
        categories: None,
        squish_vins: vec!["ZARBA5A5".to_string()],
        mpg: Some(MPG { highway: 34, city: 24 }),
        equipment: vec![],
    };
    let make = Make {
        id: 200000001,
        name: "Alfa Romeo".to_string(),
        nice_name: "alfa-romeo".to_string(),
        models: vec![Model {
            id: "Alfa_Romeo_4C".to_string(),
            name: "4C".to_string(),
            nice_name: "4c".to_string(),
            years: vec![Year { id: 200471909, year: 2015, styles: vec![style] }],
        }],
    };
    assert_eq!(make, decode_make(&encode_make(&make)).unwrap());
}

#[test]
fn equipment_round_trip() {
    let e = Equipment {
        id: "E1".to_string(),
        name: "SEATS".to_string(),
        equipment_type: "OTHER".to_string(),
        availability: "STANDARD".to_string(),
        attributes: vec![
            Attribute { name: "COUNT".to_string(), value: "4".to_string() },
            Attribute { name: "HEATED".to_string(), value: "true".to_string() },
        ],
    };
    assert_eq!(e, decode_equipment(&encode_equipment(&e)).unwrap());
}
