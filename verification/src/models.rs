//! The typed vehicle-catalog schema.
//!
//! Every entity here is built solely by decoding a JSON response (see
//! `codec`) and never mutated afterwards. Optional fields are explicit:
//! an absent marker is `None`, never a defaulted sentinel; sequences
//! with a declared default decode to an empty sequence when their key
//! is absent.

use vstd::prelude::*;
use vstd::string::StringExecFns;
use crate::digits::spec_parse_u64;
use crate::digits::parse_u64_dec;

verus! {

/// A vehicle manufacturer, with its product lines.
#[derive(Debug, Clone, PartialEq)]
pub struct Make {
    pub id: u32,
    pub name: String,
    pub nice_name: String,
    pub models: Vec<Model>,
}

/// One product line of a make, with its model years.
#[derive(Debug, Clone, PartialEq)]
pub struct Model {
    pub id: String,
    pub name: String,
    pub nice_name: String,
    pub years: Vec<Year>,
}

/// One model year; styles are absent in basic views.
#[derive(Debug, Clone, PartialEq)]
pub struct Year {
    pub id: u32,
    pub year: u16,
    pub styles: Vec<Style>,
}

/// A specific trim/configuration: the richest entity, most fields
/// optional because basic and full views return different subsets.
#[derive(Debug, Clone, PartialEq)]
pub struct Style {
    pub id: u32,
    pub name: String,
    pub trim: String,
    pub submodel: Submodel,
    pub driven_wheels: Option<String>,
    pub num_of_doors: Option<String>,
    pub engine: Option<Engine>,
    pub transmission: Option<Transmission>,
    pub options: Vec<CarOption>,
    pub colors: Vec<Color>,
    pub manufacturer_code: Option<String>,
    pub price: Option<Price>,
    pub categories: Option<Categories>,
    pub squish_vins: Vec<String>,
    pub mpg: Option<MPG>,
    pub equipment: Vec<Equipment>,
}

/// Fuel economy, highway and city.
#[derive(Debug, Clone, PartialEq)]
pub struct MPG {
    pub highway: u32,
    pub city: u32,
}

/// Market classification of a style.
#[derive(Debug, Clone, PartialEq)]
pub struct Categories {
    pub market: String,
    pub epa_class: Option<String>,
    pub vehicle_size: String,
    pub crossover: Option<String>,
    pub primary_body_type: String,
    pub vehicle_style: String,
    pub vehicle_type: String,
    pub manufacturer_cab_type: Option<String>,
}

/// Body/fuel sub-classification of a style.
#[derive(Debug, Clone, PartialEq)]
pub struct Submodel {
    pub body: Option<String>,
    pub fuel: Option<String>,
    pub model_name: String,
    pub nice_name: String,
    pub tuner: Option<String>,
}

/// A pricing snapshot; only the base MSRP is always present.
#[derive(Debug, Clone, PartialEq)]
pub struct Price {
    pub base_msrp: u32,
    pub base_invoice: Option<u32>,
    pub delivery_charges: Option<u32>,
    pub used_tmv_retail: Option<u32>,
    pub used_private_party: Option<u32>,
    pub used_trade_in: Option<u32>,
    pub estimate_tmv: bool,
    pub tmv_recommended_rating: Option<u32>,
}

/// Engine specs. The catalog's non-integral specs (compression ratio,
/// size in litres) are outside this model; everything the consumers
/// read is here as plain integers and strings.
#[derive(Debug, Clone, PartialEq)]
pub struct Engine {
    pub id: String,
    pub name: String,
    pub equipment_type: String,
    pub cylinder: Option<u8>,
    pub displacement: Option<u16>,
    pub configuration: Option<String>,
    pub fuel_type: Option<String>,
    pub horsepower: Option<u16>,
    pub torque: Option<u16>,
    pub total_valves: Option<u8>,
    pub manufacturer_engine_code: Option<String>,
    pub engine_type: String,
    pub code: String,
    pub compressor_type: String,
    pub rpm: Option<RPM>,
    pub valve: Option<Valve>,
}

/// Engine speeds at which peak horsepower and torque occur.
#[derive(Debug, Clone, PartialEq)]
pub struct RPM {
    pub horsepower: Option<u32>,
    pub torque: Option<u32>,
}

/// Valve timing and gear detail of an engine.
#[derive(Debug, Clone, PartialEq)]
pub struct Valve {
    pub timing: Option<String>,
    pub gear: Option<String>,
}

/// Transmission specs.
#[derive(Debug, Clone, PartialEq)]
pub struct Transmission {
    pub id: String,
    pub name: String,
    pub equipment_type: String,
    pub automatic_type: Option<String>,
    pub transmission_type: String,
    pub number_of_speeds: String,
}

/// A factory option category with its options.
#[derive(Debug, Clone, PartialEq)]
pub struct CarOption {
    pub category: String,
    pub options: Vec<CarOptionDetail>,
}

/// One factory option.
#[derive(Debug, Clone, PartialEq)]
pub struct CarOptionDetail {
    pub id: String,
    pub name: String,
    pub description: Option<String>,
    pub equipment_type: String,
    pub price: Option<Price>,
    pub manufacture_option_name: Option<String>,
    pub manufacture_option_code: Option<String>,
}

/// A color category with its options.
#[derive(Debug, Clone, PartialEq)]
pub struct Color {
    pub category: String,
    pub options: Vec<ColorOption>,
}

/// One color option.
#[derive(Debug, Clone, PartialEq)]
pub struct ColorOption {
    pub id: String,
    pub name: String,
    pub equipment_type: String,
    pub price: Option<Price>,
    pub manufacture_option_name: String,
    pub manufacture_option_code: String,
    pub color_chips: Option<ColorChips>,
    pub fabric_types: Vec<FabricType>,
}

/// A color chip: RGB components and hex code.
#[derive(Debug, Clone, PartialEq)]
pub struct ColorDetail {
    pub r: u16,
    pub g: u16,
    pub b: u16,
    pub hex: String,
}

/// Primary and secondary color chips of a color option.
#[derive(Debug, Clone, PartialEq)]
pub struct ColorChips {
    pub primary: Option<ColorDetail>,
    pub secondary: Option<ColorDetail>,
}

/// A fabric type name/value pair.
#[derive(Debug, Clone, PartialEq)]
pub struct FabricType {
    pub name: String,
    pub value: String,
}

/// A named equipment feature with its attribute list.
#[derive(Debug, Clone, PartialEq)]
pub struct Equipment {
    pub id: String,
    pub name: String,
    pub equipment_type: String,
    pub availability: String,
    pub attributes: Vec<Attribute>,
}

/// One name/value attribute of an equipment feature.
#[derive(Debug, Clone, PartialEq)]
pub struct Attribute {
    pub name: String,
    pub value: String,
}

/// The market-status filter of a query.
#[derive(Debug, Clone, Copy, PartialEq, Eq, Structural)]
pub enum State {
    New,
    Used,
    Future,
}

/// The response-richness filter of a query. (The catalog calls this the
/// "view"; the name here steps aside for the Verus `View` trait.)
#[derive(Debug, Clone, Copy, PartialEq, Eq, Structural)]
pub enum ViewMode {
    Basic,
    Full,
}

/// The first attribute with the given name, if any.
pub open spec fn find_attr(attrs: Seq<Attribute>, name: Seq<char>) -> Option<Attribute>
    decreases attrs.len(),
{
    if attrs.len() == 0 {
        None
    } else if attrs[0].name@ == name {
        Some(attrs[0])
    } else {
        find_attr(attrs.skip(1), name)
    }
}

/// The first equipment entry with the given name, if any.
pub open spec fn find_equipment(es: Seq<Equipment>, name: Seq<char>) -> Option<Equipment>
    decreases es.len(),
{
    if es.len() == 0 {
        None
    } else if es[0].name@ == name {
        Some(es[0])
    } else {
        find_equipment(es.skip(1), name)
    }
}

/// An attribute was present but its stored value does not parse as the
/// requested type. Never silently replaced by a default.
#[derive(Debug, Clone, Copy, PartialEq, Eq, Structural)]
pub struct AttrParseError;

/// A primitive type an equipment attribute's string value can be read
/// as. `spec_can_parse` says which strings parse; `spec_parsed` relates
/// a string to the value it parses to.
pub trait AttrValue: Sized {
    spec fn spec_can_parse(s: Seq<char>) -> bool;

    spec fn spec_parsed(s: Seq<char>, v: Self) -> bool;

    fn parse_attr(s: &str) -> (r: Option<Self>)
        ensures
            r is Some <==> Self::spec_can_parse(s@),
            r matches Some(v) ==> Self::spec_parsed(s@, v),
    ;
}

impl AttrValue for u64 {
    open spec fn spec_can_parse(s: Seq<char>) -> bool {
        spec_parse_u64(s) is Some
    }

    open spec fn spec_parsed(s: Seq<char>, v: u64) -> bool {
        spec_parse_u64(s) == Some(v)
    }

    fn parse_attr(s: &str) -> (r: Option<u64>) {
        parse_u64_dec(s)
    }
}

impl AttrValue for u32 {
    open spec fn spec_can_parse(s: Seq<char>) -> bool {
        match spec_parse_u64(s) {
            Some(n) => n <= u32::MAX,
            None => false,
        }
    }

    open spec fn spec_parsed(s: Seq<char>, v: u32) -> bool {
        spec_parse_u64(s) == Some(v as u64)
    }

    fn parse_attr(s: &str) -> (r: Option<u32>) {
        match parse_u64_dec(s) {
            Some(n) => {
                if n <= u32::MAX as u64 {
                    Some(n as u32)
                } else {
                    None
                }
            },
            None => None,
        }
    }
}

impl AttrValue for bool {
    open spec fn spec_can_parse(s: Seq<char>) -> bool {
        s == "true"@ || s == "false"@
    }

    open spec fn spec_parsed(s: Seq<char>, v: bool) -> bool {
        if v {
            s == "true"@
        } else {
            s == "false"@
        }
    }

    fn parse_attr(s: &str) -> (r: Option<bool>) {
        if str_eq(s, "true") {
            Some(true)
        } else if str_eq(s, "false") {
            Some(false)
        } else {
            None
        }
    }
}

impl AttrValue for String {
    open spec fn spec_can_parse(s: Seq<char>) -> bool {
        true
    }

    open spec fn spec_parsed(s: Seq<char>, v: String) -> bool {
        v@ == s
    }

    fn parse_attr(s: &str) -> (r: Option<String>) {
        Some(s.to_owned())
    }
}

/// Whether two string slices hold the same characters.
pub fn str_eq(a: &str, b: &str) -> (r: bool)
    ensures
        r == (a@ == b@),
{
    let a_owned = a.to_owned();
    let b_owned = b.to_owned();
    a_owned == b_owned
}

impl Equipment {
    /// Look an attribute up by name and parse its string value as `T`.
    /// A missing name is the explicit absent marker; a present value
    /// that does not parse is an error, never a silent default.
    pub fn get_attr<T: AttrValue>(&self, name: &str) -> (r: Result<Option<T>, AttrParseError>)
        ensures
            match find_attr(self.attributes@, name@) {
                None => r == Ok::<Option<T>, AttrParseError>(None),
                Some(a) => {
                    &&& (r is Err <==> !T::spec_can_parse(a.value@))
                    &&& (r matches Ok(o) ==> o matches Some(v) && T::spec_parsed(a.value@, v))
                },
            },
    {
        let name_owned = name.to_owned();
        let n = self.attributes.len();
        let mut i: usize = 0;
        proof {
            assert(self.attributes@.skip(0) =~= self.attributes@);
        }
        while i < n
            invariant
                i <= n,
                n == self.attributes@.len(),
                name_owned@ == name@,
                find_attr(self.attributes@, name@) == find_attr(
                    self.attributes@.skip(i as int),
                    name@,
                ),
            decreases n - i,
        {
            let attr = &self.attributes[i];
            if attr.name == name_owned {
                match T::parse_attr(attr.value.as_str()) {
                    Some(v) => {
                        return Ok(Some(v));
                    },
                    None => {
                        return Err(AttrParseError);
                    },
                }
            }
            proof {
                assert(self.attributes@.skip(i as int).skip(1) =~= self.attributes@.skip(i + 1));
            }
            i = i + 1;
        }
        Ok(None)
    }
}

impl Style {
    /// The first equipment feature with the given name, if any.
    pub fn get_equipment<'a>(&'a self, name: &str) -> (r: Option<&'a Equipment>)
        ensures
            match find_equipment(self.equipment@, name@) {
                None => r is None,
                Some(e) => r matches Some(x) && *x == e,
            },
    {
        let name_owned = name.to_owned();
        let n = self.equipment.len();
        let mut i: usize = 0;
        proof {
            assert(self.equipment@.skip(0) =~= self.equipment@);
        }
        while i < n
            invariant
                i <= n,
                n == self.equipment@.len(),
                name_owned@ == name@,
                find_equipment(self.equipment@, name@) == find_equipment(
                    self.equipment@.skip(i as int),
                    name@,
                ),
            decreases n - i,
        {
            let e = &self.equipment[i];
            if e.name == name_owned {
                return Some(e);
            }
            proof {
                assert(self.equipment@.skip(i as int).skip(1) =~= self.equipment@.skip(i + 1));
            }
            i = i + 1;
        }
        None
    }
}

} // verus!
