//! The decode contract: from a parsed JSON tree to typed entities.
//!
//! Every decoder states, over the spec-level tree (`json::JsonV`),
//! exactly when it succeeds and what entity it builds. The rules are
//! uniform: a required field must be present with the right type; an
//! optional field decodes to the absent marker when missing or null; a
//! sequence field with a declared default decodes to the empty sequence
//! when missing; unknown fields never fail a decode; and any element of
//! a present sequence failing fails the whole entity — no partially
//! populated entity is ever returned.

use vstd::prelude::*;
use vstd::string::StringExecFns;
use crate::json::{
    get_field, lemma_pairs_to_map_lookup, mk_arr, mk_bool, mk_null, mk_obj, mk_str, mk_u64,
    parse_value, parsed_json, val_as_array, val_as_bool, val_as_str, val_as_u64, val_is_null,
    value_view, DecodeError, JsonV,
};
use crate::models::{
    Attribute, CarOption, CarOptionDetail, Categories, Color, ColorChips, ColorDetail, ColorOption,
    Engine, Equipment, FabricType, Make, Model, Price, Style, Submodel, Transmission, Valve, Year,
    MPG, RPM,
};

verus! {

broadcast use vstd::std_specs::control_flow::group_control_flow_axioms;

// ---------------------------------------------------------------------
// Spec-level field access
// ---------------------------------------------------------------------
/// The value of a field of an object, if the tree is an object holding it.
pub open spec fn j_field(j: JsonV, name: Seq<char>) -> Option<JsonV> {
    match j {
        JsonV::Obj(m) => if m.contains_key(name) {
            Some(m[name])
        } else {
            None
        },
        _ => None,
    }
}

/// A required unsigned field's value, when present as a u64 number.
pub open spec fn fld_u64(j: JsonV, name: Seq<char>) -> Option<u64> {
    match j_field(j, name) {
        Some(JsonV::Num(o)) => o,
        _ => None,
    }
}

/// Whether a required unsigned field is present and within `max`.
pub open spec fn fld_uint_ok(j: JsonV, name: Seq<char>, max: u64) -> bool {
    match fld_u64(j, name) {
        Some(n) => n <= max,
        None => false,
    }
}

/// An optional unsigned field: fine when absent, null, or a number
/// within `max`.
pub open spec fn ofld_uint_ok(j: JsonV, name: Seq<char>, max: u64) -> bool {
    match j_field(j, name) {
        None => true,
        Some(x) => x is Null || (x matches JsonV::Num(Some(n)) && n <= max),
    }
}

/// A required string field's characters.
pub open spec fn fld_str(j: JsonV, name: Seq<char>) -> Option<Seq<char>> {
    match j_field(j, name) {
        Some(JsonV::Str(s)) => Some(s),
        _ => None,
    }
}

/// An optional string field: fine when absent, null, or a string.
pub open spec fn ofld_str_ok(j: JsonV, name: Seq<char>) -> bool {
    match j_field(j, name) {
        None => true,
        Some(x) => x is Null || x is Str,
    }
}

/// A required boolean field's value.
pub open spec fn fld_bool(j: JsonV, name: Seq<char>) -> Option<bool> {
    match j_field(j, name) {
        Some(JsonV::Bool(b)) => Some(b),
        _ => None,
    }
}

/// A required sequence field's elements.
pub open spec fn fld_arr(j: JsonV, name: Seq<char>) -> Option<Seq<JsonV>> {
    match j_field(j, name) {
        Some(JsonV::Arr(s)) => Some(s),
        _ => None,
    }
}

/// A sequence field with a declared default: the empty sequence when
/// the key is absent, the elements when present as an array, and a
/// decode failure otherwise (a null sequence is not accepted).
pub open spec fn dfld_arr(j: JsonV, name: Seq<char>) -> Option<Seq<JsonV>> {
    match j_field(j, name) {
        None => Some(Seq::empty()),
        Some(JsonV::Arr(s)) => Some(s),
        Some(_) => None,
    }
}

/// Every element of the sequence decodes as one Attribute node.
pub open spec fn attribute_list_can(s: Seq<JsonV>) -> bool {
    forall|i: int| 0 <= i < s.len() ==> attribute_can(#[trigger] s[i])
}

/// The decoded Attribute elements match the tree's elements one for one.
pub open spec fn attribute_list_matches(xs: Seq<Attribute>, s: Seq<JsonV>) -> bool {
    xs.len() == s.len() && (forall|i: int|
        0 <= i < s.len() ==> attribute_matches(#[trigger] xs[i], #[trigger] s[i]))
}

/// Every element of the sequence decodes as one FabricType node.
pub open spec fn fabric_type_list_can(s: Seq<JsonV>) -> bool {
    forall|i: int| 0 <= i < s.len() ==> fabric_type_can(#[trigger] s[i])
}

/// The decoded FabricType elements match the tree's elements one for one.
pub open spec fn fabric_type_list_matches(xs: Seq<FabricType>, s: Seq<JsonV>) -> bool {
    xs.len() == s.len() && (forall|i: int|
        0 <= i < s.len() ==> fabric_type_matches(#[trigger] xs[i], #[trigger] s[i]))
}

/// Every element of the sequence decodes as one ColorOption node.
pub open spec fn color_option_list_can(s: Seq<JsonV>) -> bool {
    forall|i: int| 0 <= i < s.len() ==> color_option_can(#[trigger] s[i])
}

/// The decoded ColorOption elements match the tree's elements one for one.
pub open spec fn color_option_list_matches(xs: Seq<ColorOption>, s: Seq<JsonV>) -> bool {
    xs.len() == s.len() && (forall|i: int|
        0 <= i < s.len() ==> color_option_matches(#[trigger] xs[i], #[trigger] s[i]))
}

/// Every element of the sequence decodes as one Color node.
pub open spec fn color_list_can(s: Seq<JsonV>) -> bool {
    forall|i: int| 0 <= i < s.len() ==> color_can(#[trigger] s[i])
}

/// The decoded Color elements match the tree's elements one for one.
pub open spec fn color_list_matches(xs: Seq<Color>, s: Seq<JsonV>) -> bool {
    xs.len() == s.len() && (forall|i: int|
        0 <= i < s.len() ==> color_matches(#[trigger] xs[i], #[trigger] s[i]))
}

/// Every element of the sequence decodes as one CarOptionDetail node.
pub open spec fn car_option_detail_list_can(s: Seq<JsonV>) -> bool {
    forall|i: int| 0 <= i < s.len() ==> car_option_detail_can(#[trigger] s[i])
}

/// The decoded CarOptionDetail elements match the tree's elements one for one.
pub open spec fn car_option_detail_list_matches(xs: Seq<CarOptionDetail>, s: Seq<JsonV>) -> bool {
    xs.len() == s.len() && (forall|i: int|
        0 <= i < s.len() ==> car_option_detail_matches(#[trigger] xs[i], #[trigger] s[i]))
}

/// Every element of the sequence decodes as one CarOption node.
pub open spec fn car_option_list_can(s: Seq<JsonV>) -> bool {
    forall|i: int| 0 <= i < s.len() ==> car_option_can(#[trigger] s[i])
}

/// The decoded CarOption elements match the tree's elements one for one.
pub open spec fn car_option_list_matches(xs: Seq<CarOption>, s: Seq<JsonV>) -> bool {
    xs.len() == s.len() && (forall|i: int|
        0 <= i < s.len() ==> car_option_matches(#[trigger] xs[i], #[trigger] s[i]))
}

/// Every element of the sequence decodes as one Equipment node.
pub open spec fn equipment_list_can(s: Seq<JsonV>) -> bool {
    forall|i: int| 0 <= i < s.len() ==> equipment_can(#[trigger] s[i])
}

/// The decoded Equipment elements match the tree's elements one for one.
pub open spec fn equipment_list_matches(xs: Seq<Equipment>, s: Seq<JsonV>) -> bool {
    xs.len() == s.len() && (forall|i: int|
        0 <= i < s.len() ==> equipment_matches(#[trigger] xs[i], #[trigger] s[i]))
}

/// Every element of the sequence decodes as one Style node.
pub open spec fn style_list_can(s: Seq<JsonV>) -> bool {
    forall|i: int| 0 <= i < s.len() ==> style_can(#[trigger] s[i])
}

/// The decoded Style elements match the tree's elements one for one.
pub open spec fn style_list_matches(xs: Seq<Style>, s: Seq<JsonV>) -> bool {
    xs.len() == s.len() && (forall|i: int|
        0 <= i < s.len() ==> style_matches(#[trigger] xs[i], #[trigger] s[i]))
}

/// Every element of the sequence decodes as one Year node.
pub open spec fn year_list_can(s: Seq<JsonV>) -> bool {
    forall|i: int| 0 <= i < s.len() ==> year_can(#[trigger] s[i])
}

/// The decoded Year elements match the tree's elements one for one.
pub open spec fn year_list_matches(xs: Seq<Year>, s: Seq<JsonV>) -> bool {
    xs.len() == s.len() && (forall|i: int|
        0 <= i < s.len() ==> year_matches(#[trigger] xs[i], #[trigger] s[i]))
}

/// Every element of the sequence decodes as one Model node.
pub open spec fn model_list_can(s: Seq<JsonV>) -> bool {
    forall|i: int| 0 <= i < s.len() ==> model_can(#[trigger] s[i])
}

/// The decoded Model elements match the tree's elements one for one.
pub open spec fn model_list_matches(xs: Seq<Model>, s: Seq<JsonV>) -> bool {
    xs.len() == s.len() && (forall|i: int|
        0 <= i < s.len() ==> model_matches(#[trigger] xs[i], #[trigger] s[i]))
}

/// Every element of the sequence decodes as one Make node.
pub open spec fn make_list_can(s: Seq<JsonV>) -> bool {
    forall|i: int| 0 <= i < s.len() ==> make_can(#[trigger] s[i])
}

/// The decoded Make elements match the tree's elements one for one.
pub open spec fn make_list_matches(xs: Seq<Make>, s: Seq<JsonV>) -> bool {
    xs.len() == s.len() && (forall|i: int|
        0 <= i < s.len() ==> make_matches(#[trigger] xs[i], #[trigger] s[i]))
}

/// Every element of the sequence is a string node.
pub open spec fn str_list_can(s: Seq<JsonV>) -> bool {
    forall|i: int| 0 <= i < s.len() ==> (#[trigger] s[i]) is Str
}

/// The decoded strings match the tree's elements one for one.
pub open spec fn str_list_matches(xs: Seq<String>, s: Seq<JsonV>) -> bool {
    xs.len() == s.len() && (forall|i: int|
        0 <= i < s.len() ==> #[trigger] s[i] == JsonV::Str(#[trigger] xs[i]@))
}

/// An optional Price field: fine when absent, null, or decodable.
pub open spec fn opt_price_ok(j: JsonV, name: Seq<char>) -> bool {
    match j_field(j, name) {
        None => true,
        Some(x) => x is Null || price_can(x),
    }
}

/// How an optional Price field decodes: the absent marker for a missing
/// or null key, the decoded entity otherwise.
pub open spec fn opt_price_matches(o: Option<Price>, j: JsonV, name: Seq<char>) -> bool {
    match j_field(j, name) {
        None => o is None,
        Some(x) => if x is Null {
            o is None
        } else {
            o matches Some(e) && price_matches(e, x)
        },
    }
}

/// An optional Engine field: fine when absent, null, or decodable.
pub open spec fn opt_engine_ok(j: JsonV, name: Seq<char>) -> bool {
    match j_field(j, name) {
        None => true,
        Some(x) => x is Null || engine_can(x),
    }
}

/// How an optional Engine field decodes: the absent marker for a missing
/// or null key, the decoded entity otherwise.
pub open spec fn opt_engine_matches(o: Option<Engine>, j: JsonV, name: Seq<char>) -> bool {
    match j_field(j, name) {
        None => o is None,
        Some(x) => if x is Null {
            o is None
        } else {
            o matches Some(e) && engine_matches(e, x)
        },
    }
}

/// An optional Transmission field: fine when absent, null, or decodable.
pub open spec fn opt_transmission_ok(j: JsonV, name: Seq<char>) -> bool {
    match j_field(j, name) {
        None => true,
        Some(x) => x is Null || transmission_can(x),
    }
}

/// How an optional Transmission field decodes: the absent marker for a missing
/// or null key, the decoded entity otherwise.
pub open spec fn opt_transmission_matches(o: Option<Transmission>, j: JsonV, name: Seq<char>) -> bool {
    match j_field(j, name) {
        None => o is None,
        Some(x) => if x is Null {
            o is None
        } else {
            o matches Some(e) && transmission_matches(e, x)
        },
    }
}

/// An optional Categories field: fine when absent, null, or decodable.
pub open spec fn opt_categories_ok(j: JsonV, name: Seq<char>) -> bool {
    match j_field(j, name) {
        None => true,
        Some(x) => x is Null || categories_can(x),
    }
}

/// How an optional Categories field decodes: the absent marker for a missing
/// or null key, the decoded entity otherwise.
pub open spec fn opt_categories_matches(o: Option<Categories>, j: JsonV, name: Seq<char>) -> bool {
    match j_field(j, name) {
        None => o is None,
        Some(x) => if x is Null {
            o is None
        } else {
            o matches Some(e) && categories_matches(e, x)
        },
    }
}

/// An optional MPG field: fine when absent, null, or decodable.
pub open spec fn opt_mpg_ok(j: JsonV, name: Seq<char>) -> bool {
    match j_field(j, name) {
        None => true,
        Some(x) => x is Null || mpg_can(x),
    }
}

/// How an optional MPG field decodes: the absent marker for a missing
/// or null key, the decoded entity otherwise.
pub open spec fn opt_mpg_matches(o: Option<MPG>, j: JsonV, name: Seq<char>) -> bool {
    match j_field(j, name) {
        None => o is None,
        Some(x) => if x is Null {
            o is None
        } else {
            o matches Some(e) && mpg_matches(e, x)
        },
    }
}

/// An optional RPM field: fine when absent, null, or decodable.
pub open spec fn opt_rpm_ok(j: JsonV, name: Seq<char>) -> bool {
    match j_field(j, name) {
        None => true,
        Some(x) => x is Null || rpm_can(x),
    }
}

/// How an optional RPM field decodes: the absent marker for a missing
/// or null key, the decoded entity otherwise.
pub open spec fn opt_rpm_matches(o: Option<RPM>, j: JsonV, name: Seq<char>) -> bool {
    match j_field(j, name) {
        None => o is None,
        Some(x) => if x is Null {
            o is None
        } else {
            o matches Some(e) && rpm_matches(e, x)
        },
    }
}

/// An optional Valve field: fine when absent, null, or decodable.
pub open spec fn opt_valve_ok(j: JsonV, name: Seq<char>) -> bool {
    match j_field(j, name) {
        None => true,
        Some(x) => x is Null || valve_can(x),
    }
}

/// How an optional Valve field decodes: the absent marker for a missing
/// or null key, the decoded entity otherwise.
pub open spec fn opt_valve_matches(o: Option<Valve>, j: JsonV, name: Seq<char>) -> bool {
    match j_field(j, name) {
        None => o is None,
        Some(x) => if x is Null {
            o is None
        } else {
            o matches Some(e) && valve_matches(e, x)
        },
    }
}

/// An optional ColorDetail field: fine when absent, null, or decodable.
pub open spec fn opt_color_detail_ok(j: JsonV, name: Seq<char>) -> bool {
    match j_field(j, name) {
        None => true,
        Some(x) => x is Null || color_detail_can(x),
    }
}

/// How an optional ColorDetail field decodes: the absent marker for a missing
/// or null key, the decoded entity otherwise.
pub open spec fn opt_color_detail_matches(o: Option<ColorDetail>, j: JsonV, name: Seq<char>) -> bool {
    match j_field(j, name) {
        None => o is None,
        Some(x) => if x is Null {
            o is None
        } else {
            o matches Some(e) && color_detail_matches(e, x)
        },
    }
}

/// An optional ColorChips field: fine when absent, null, or decodable.
pub open spec fn opt_color_chips_ok(j: JsonV, name: Seq<char>) -> bool {
    match j_field(j, name) {
        None => true,
        Some(x) => x is Null || color_chips_can(x),
    }
}

/// How an optional ColorChips field decodes: the absent marker for a missing
/// or null key, the decoded entity otherwise.
pub open spec fn opt_color_chips_matches(o: Option<ColorChips>, j: JsonV, name: Seq<char>) -> bool {
    match j_field(j, name) {
        None => o is None,
        Some(x) => if x is Null {
            o is None
        } else {
            o matches Some(e) && color_chips_matches(e, x)
        },
    }
}

// ---------------------------------------------------------------------
// Executable field helpers
// ---------------------------------------------------------------------
/// The u64 value of a field, if it is a number with one.
fn f_u64(v: &serde_json::Value, name: &str) -> (r: Option<u64>)
    ensures
        r == fld_u64(value_view(*v), name@),
{
    match get_field(v, name) {
        Some(x) => val_as_u64(x),
        None => None,
    }
}

/// A required u32 field.
fn f_req_u32(v: &serde_json::Value, name: &str) -> (r: Result<u32, DecodeError>)
    ensures
        r matches Err(e) ==> e == DecodeError::Schema,
        r is Ok <==> fld_uint_ok(value_view(*v), name@, u32::MAX as u64),
        r matches Ok(n) ==> fld_u64(value_view(*v), name@) == Some(n as u64),
{
    match f_u64(v, name) {
        Some(n) => {
            if n <= u32::MAX as u64 {
                Ok(n as u32)
            } else {
                Err(DecodeError::Schema)
            }
        },
        None => Err(DecodeError::Schema),
    }
}

/// A required u16 field.
fn f_req_u16(v: &serde_json::Value, name: &str) -> (r: Result<u16, DecodeError>)
    ensures
        r matches Err(e) ==> e == DecodeError::Schema,
        r is Ok <==> fld_uint_ok(value_view(*v), name@, u16::MAX as u64),
        r matches Ok(n) ==> fld_u64(value_view(*v), name@) == Some(n as u64),
{
    match f_u64(v, name) {
        Some(n) => {
            if n <= u16::MAX as u64 {
                Ok(n as u16)
            } else {
                Err(DecodeError::Schema)
            }
        },
        None => Err(DecodeError::Schema),
    }
}

/// An optional u32 field.
fn f_opt_u32(v: &serde_json::Value, name: &str) -> (r: Result<Option<u32>, DecodeError>)
    ensures
        r matches Err(e) ==> e == DecodeError::Schema,
        r is Ok <==> ofld_uint_ok(value_view(*v), name@, u32::MAX as u64),
        r matches Ok(o) ==> (match j_field(value_view(*v), name@) {
            None => o is None,
            Some(x) => if x is Null {
                o is None
            } else {
                o matches Some(n) && x == JsonV::Num(Some(n as u64))
            },
        }),
{
    match get_field(v, name) {
        None => Ok(None),
        Some(x) => {
            if val_is_null(x) {
                Ok(None)
            } else {
                match val_as_u64(x) {
                    Some(n) => {
                        if n <= u32::MAX as u64 {
                            Ok(Some(n as u32))
                        } else {
                            Err(DecodeError::Schema)
                        }
                    },
                    None => Err(DecodeError::Schema),
                }
            }
        },
    }
}

/// An optional u16 field.
fn f_opt_u16(v: &serde_json::Value, name: &str) -> (r: Result<Option<u16>, DecodeError>)
    ensures
        r matches Err(e) ==> e == DecodeError::Schema,
        r is Ok <==> ofld_uint_ok(value_view(*v), name@, u16::MAX as u64),
        r matches Ok(o) ==> (match j_field(value_view(*v), name@) {
            None => o is None,
            Some(x) => if x is Null {
                o is None
            } else {
                o matches Some(n) && x == JsonV::Num(Some(n as u64))
            },
        }),
{
    match get_field(v, name) {
        None => Ok(None),
        Some(x) => {
            if val_is_null(x) {
                Ok(None)
            } else {
                match val_as_u64(x) {
                    Some(n) => {
                        if n <= u16::MAX as u64 {
                            Ok(Some(n as u16))
                        } else {
                            Err(DecodeError::Schema)
                        }
                    },
                    None => Err(DecodeError::Schema),
                }
            }
        },
    }
}

/// An optional u8 field.
fn f_opt_u8(v: &serde_json::Value, name: &str) -> (r: Result<Option<u8>, DecodeError>)
    ensures
        r matches Err(e) ==> e == DecodeError::Schema,
        r is Ok <==> ofld_uint_ok(value_view(*v), name@, u8::MAX as u64),
        r matches Ok(o) ==> (match j_field(value_view(*v), name@) {
            None => o is None,
            Some(x) => if x is Null {
                o is None
            } else {
                o matches Some(n) && x == JsonV::Num(Some(n as u64))
            },
        }),
{
    match get_field(v, name) {
        None => Ok(None),
        Some(x) => {
            if val_is_null(x) {
                Ok(None)
            } else {
                match val_as_u64(x) {
                    Some(n) => {
                        if n <= u8::MAX as u64 {
                            Ok(Some(n as u8))
                        } else {
                            Err(DecodeError::Schema)
                        }
                    },
                    None => Err(DecodeError::Schema),
                }
            }
        },
    }
}

/// A required string field.
fn f_req_string(v: &serde_json::Value, name: &str) -> (r: Result<String, DecodeError>)
    ensures
        r matches Err(e) ==> e == DecodeError::Schema,
        r is Ok <==> fld_str(value_view(*v), name@) is Some,
        r matches Ok(s) ==> fld_str(value_view(*v), name@) == Some(s@),
{
    match get_field(v, name) {
        Some(x) => {
            match val_as_str(x) {
                Some(s) => Ok(s.to_owned()),
                None => Err(DecodeError::Schema),
            }
        },
        None => Err(DecodeError::Schema),
    }
}

/// An optional string field.
fn f_opt_string(v: &serde_json::Value, name: &str) -> (r: Result<Option<String>, DecodeError>)
    ensures
        r matches Err(e) ==> e == DecodeError::Schema,
        r is Ok <==> ofld_str_ok(value_view(*v), name@),
        r matches Ok(o) ==> (match j_field(value_view(*v), name@) {
            None => o is None,
            Some(x) => if x is Null {
                o is None
            } else {
                o matches Some(s) && x == JsonV::Str(s@)
            },
        }),
{
    match get_field(v, name) {
        None => Ok(None),
        Some(x) => {
            if val_is_null(x) {
                Ok(None)
            } else {
                match val_as_str(x) {
                    Some(s) => Ok(Some(s.to_owned())),
                    None => Err(DecodeError::Schema),
                }
            }
        },
    }
}

/// A required boolean field.
fn f_req_bool(v: &serde_json::Value, name: &str) -> (r: Result<bool, DecodeError>)
    ensures
        r matches Err(e) ==> e == DecodeError::Schema,
        r is Ok <==> fld_bool(value_view(*v), name@) is Some,
        r matches Ok(b) ==> fld_bool(value_view(*v), name@) == Some(b),
{
    match get_field(v, name) {
        Some(x) => {
            match val_as_bool(x) {
                Some(b) => Ok(b),
                None => Err(DecodeError::Schema),
            }
        },
        None => Err(DecodeError::Schema),
    }
}

/// A required sequence field, handed back as the underlying vector.
fn f_req_arr<'a>(v: &'a serde_json::Value, name: &str) -> (r: Result<
    &'a Vec<serde_json::Value>,
    DecodeError,
>)
    ensures
        r matches Err(e) ==> e == DecodeError::Schema,
        r is Ok <==> fld_arr(value_view(*v), name@) is Some,
        r matches Ok(a) ==> (fld_arr(value_view(*v), name@) matches Some(s) && a@.len() == s.len()
            && (forall|i: int| 0 <= i < s.len() ==> value_view(a@[i]) == s[i])),
{
    match get_field(v, name) {
        Some(x) => {
            match val_as_array(x) {
                Some(a) => Ok(a),
                None => Err(DecodeError::Schema),
            }
        },
        None => Err(DecodeError::Schema),
    }
}

/// A defaulted sequence field: `None` stands for the absent key (and
/// so for the empty sequence); a present key must be an array.
fn f_dft_arr<'a>(v: &'a serde_json::Value, name: &str) -> (r: Result<
    Option<&'a Vec<serde_json::Value>>,
    DecodeError,
>)
    ensures
        r matches Err(e) ==> e == DecodeError::Schema,
        r is Ok <==> dfld_arr(value_view(*v), name@) is Some,
        r matches Ok(o) ==> (match o {
            None => j_field(value_view(*v), name@) is None && dfld_arr(value_view(*v), name@)
                == Some(Seq::<JsonV>::empty()),
            Some(a) => dfld_arr(value_view(*v), name@) matches Some(s) && a@.len() == s.len() && (
            forall|i: int| 0 <= i < s.len() ==> value_view(a@[i]) == s[i]),
        }),
{
    match get_field(v, name) {
        None => Ok(None),
        Some(x) => {
            match val_as_array(x) {
                Some(a) => Ok(Some(a)),
                None => Err(DecodeError::Schema),
            }
        },
    }
}

// ---------------------------------------------------------------------
// Leaf entities
// ---------------------------------------------------------------------
/// When a fuel-economy node decodes.
pub open spec fn mpg_can(j: JsonV) -> bool {
    &&& fld_uint_ok(j, "highway"@, u32::MAX as u64)
    &&& fld_uint_ok(j, "city"@, u32::MAX as u64)
}

/// The fuel-economy entity a node decodes to.
pub open spec fn mpg_matches(x: MPG, j: JsonV) -> bool {
    &&& fld_u64(j, "highway"@) == Some(x.highway as u64)
    &&& fld_u64(j, "city"@) == Some(x.city as u64)
}

pub fn decode_mpg(v: &serde_json::Value) -> (r: Result<MPG, DecodeError>)
    ensures
        r is Ok <==> mpg_can(value_view(*v)),
        r matches Ok(x) ==> mpg_matches(x, value_view(*v)),
        r matches Err(e) ==> e == DecodeError::Schema,
{
    let highway = f_req_u32(v, "highway")?;
    let city = f_req_u32(v, "city")?;
    Ok(MPG { highway, city })
}

/// When an engine-speed node decodes.
pub open spec fn rpm_can(j: JsonV) -> bool {
    &&& ofld_uint_ok(j, "horsepower"@, u32::MAX as u64)
    &&& ofld_uint_ok(j, "torque"@, u32::MAX as u64)
}

/// The engine-speed entity a node decodes to.
pub open spec fn rpm_matches(x: RPM, j: JsonV) -> bool {
    &&& opt_u64_match(widen32(x.horsepower), j, "horsepower"@)
    &&& opt_u64_match(widen32(x.torque), j, "torque"@)
}

/// An optional u32 widened to the u64 the JSON field holds.
pub open spec fn widen32(o: Option<u32>) -> Option<u64> {
    match o {
        Some(n) => Some(n as u64),
        None => None,
    }
}

/// An optional u16 widened to the u64 the JSON field holds.
pub open spec fn widen16(o: Option<u16>) -> Option<u64> {
    match o {
        Some(n) => Some(n as u64),
        None => None,
    }
}

/// An optional u8 widened to the u64 the JSON field holds.
pub open spec fn widen8(o: Option<u8>) -> Option<u64> {
    match o {
        Some(n) => Some(n as u64),
        None => None,
    }
}

/// How an optional unsigned entity field relates to its JSON field.
pub open spec fn opt_u64_match(o: Option<u64>, j: JsonV, name: Seq<char>) -> bool {
    match j_field(j, name) {
        None => o is None,
        Some(x) => if x is Null {
            o is None
        } else {
            o matches Some(n) && x == JsonV::Num(Some(n))
        },
    }
}

/// How an optional string entity field relates to its JSON field.
pub open spec fn opt_str_match(o: Option<String>, j: JsonV, name: Seq<char>) -> bool {
    match j_field(j, name) {
        None => o is None,
        Some(x) => if x is Null {
            o is None
        } else {
            o matches Some(s) && x == JsonV::Str(s@)
        },
    }
}

pub fn decode_rpm(v: &serde_json::Value) -> (r: Result<RPM, DecodeError>)
    ensures
        r is Ok <==> rpm_can(value_view(*v)),
        r matches Ok(x) ==> rpm_matches(x, value_view(*v)),
        r matches Err(e) ==> e == DecodeError::Schema,
{
    let horsepower = f_opt_u32(v, "horsepower")?;
    let torque = f_opt_u32(v, "torque")?;
    Ok(RPM { horsepower, torque })
}

/// When a valve-detail node decodes.
pub open spec fn valve_can(j: JsonV) -> bool {
    &&& ofld_str_ok(j, "timing"@)
    &&& ofld_str_ok(j, "gear"@)
}

/// The valve-detail entity a node decodes to.
pub open spec fn valve_matches(x: Valve, j: JsonV) -> bool {
    &&& opt_str_match(x.timing, j, "timing"@)
    &&& opt_str_match(x.gear, j, "gear"@)
}

pub fn decode_valve(v: &serde_json::Value) -> (r: Result<Valve, DecodeError>)
    ensures
        r is Ok <==> valve_can(value_view(*v)),
        r matches Ok(x) ==> valve_matches(x, value_view(*v)),
        r matches Err(e) ==> e == DecodeError::Schema,
{
    let timing = f_opt_string(v, "timing")?;
    let gear = f_opt_string(v, "gear")?;
    Ok(Valve { timing, gear })
}

/// When an attribute node decodes.
pub open spec fn attribute_can(j: JsonV) -> bool {
    &&& fld_str(j, "name"@) is Some
    &&& fld_str(j, "value"@) is Some
}

/// The attribute entity a node decodes to.
pub open spec fn attribute_matches(x: Attribute, j: JsonV) -> bool {
    &&& fld_str(j, "name"@) == Some(x.name@)
    &&& fld_str(j, "value"@) == Some(x.value@)
}

pub fn decode_attribute(v: &serde_json::Value) -> (r: Result<Attribute, DecodeError>)
    ensures
        r is Ok <==> attribute_can(value_view(*v)),
        r matches Ok(x) ==> attribute_matches(x, value_view(*v)),
        r matches Err(e) ==> e == DecodeError::Schema,
{
    let name = f_req_string(v, "name")?;
    let value = f_req_string(v, "value")?;
    Ok(Attribute { name, value })
}

/// When a fabric-type node decodes.
pub open spec fn fabric_type_can(j: JsonV) -> bool {
    &&& fld_str(j, "name"@) is Some
    &&& fld_str(j, "value"@) is Some
}

/// The fabric-type entity a node decodes to.
pub open spec fn fabric_type_matches(x: FabricType, j: JsonV) -> bool {
    &&& fld_str(j, "name"@) == Some(x.name@)
    &&& fld_str(j, "value"@) == Some(x.value@)
}

pub fn decode_fabric_type(v: &serde_json::Value) -> (r: Result<FabricType, DecodeError>)
    ensures
        r is Ok <==> fabric_type_can(value_view(*v)),
        r matches Ok(x) ==> fabric_type_matches(x, value_view(*v)),
        r matches Err(e) ==> e == DecodeError::Schema,
{
    let name = f_req_string(v, "name")?;
    let value = f_req_string(v, "value")?;
    Ok(FabricType { name, value })
}

/// When a color-chip node decodes.
pub open spec fn color_detail_can(j: JsonV) -> bool {
    &&& fld_uint_ok(j, "r"@, u16::MAX as u64)
    &&& fld_uint_ok(j, "g"@, u16::MAX as u64)
    &&& fld_uint_ok(j, "b"@, u16::MAX as u64)
    &&& fld_str(j, "hex"@) is Some
}

/// The color-chip entity a node decodes to.
pub open spec fn color_detail_matches(x: ColorDetail, j: JsonV) -> bool {
    &&& fld_u64(j, "r"@) == Some(x.r as u64)
    &&& fld_u64(j, "g"@) == Some(x.g as u64)
    &&& fld_u64(j, "b"@) == Some(x.b as u64)
    &&& fld_str(j, "hex"@) == Some(x.hex@)
}

pub fn decode_color_detail(v: &serde_json::Value) -> (r: Result<ColorDetail, DecodeError>)
    ensures
        r is Ok <==> color_detail_can(value_view(*v)),
        r matches Ok(x) ==> color_detail_matches(x, value_view(*v)),
        r matches Err(e) ==> e == DecodeError::Schema,
{
    let r_val = f_req_u16(v, "r")?;
    let g_val = f_req_u16(v, "g")?;
    let b_val = f_req_u16(v, "b")?;
    let hex = f_req_string(v, "hex")?;
    Ok(ColorDetail { r: r_val, g: g_val, b: b_val, hex })
}

/// When a submodel node decodes.
pub open spec fn submodel_can(j: JsonV) -> bool {
    &&& ofld_str_ok(j, "body"@)
    &&& ofld_str_ok(j, "fuel"@)
    &&& fld_str(j, "modelName"@) is Some
    &&& fld_str(j, "niceName"@) is Some
    &&& ofld_str_ok(j, "tuner"@)
}

/// The submodel entity a node decodes to.
pub open spec fn submodel_matches(x: Submodel, j: JsonV) -> bool {
    &&& opt_str_match(x.body, j, "body"@)
    &&& opt_str_match(x.fuel, j, "fuel"@)
    &&& fld_str(j, "modelName"@) == Some(x.model_name@)
    &&& fld_str(j, "niceName"@) == Some(x.nice_name@)
    &&& opt_str_match(x.tuner, j, "tuner"@)
}

pub fn decode_submodel(v: &serde_json::Value) -> (r: Result<Submodel, DecodeError>)
    ensures
        r is Ok <==> submodel_can(value_view(*v)),
        r matches Ok(x) ==> submodel_matches(x, value_view(*v)),
        r matches Err(e) ==> e == DecodeError::Schema,
{
    let body = f_opt_string(v, "body")?;
    let fuel = f_opt_string(v, "fuel")?;
    let model_name = f_req_string(v, "modelName")?;
    let nice_name = f_req_string(v, "niceName")?;
    let tuner = f_opt_string(v, "tuner")?;
    Ok(Submodel { body, fuel, model_name, nice_name, tuner })
}

/// When a transmission node decodes.
pub open spec fn transmission_can(j: JsonV) -> bool {
    &&& fld_str(j, "id"@) is Some
    &&& fld_str(j, "name"@) is Some
    &&& fld_str(j, "equipmentType"@) is Some
    &&& ofld_str_ok(j, "automaticType"@)
    &&& fld_str(j, "transmissionType"@) is Some
    &&& fld_str(j, "numberOfSpeeds"@) is Some
}

/// The transmission entity a node decodes to.
pub open spec fn transmission_matches(x: Transmission, j: JsonV) -> bool {
    &&& fld_str(j, "id"@) == Some(x.id@)
    &&& fld_str(j, "name"@) == Some(x.name@)
    &&& fld_str(j, "equipmentType"@) == Some(x.equipment_type@)
    &&& opt_str_match(x.automatic_type, j, "automaticType"@)
    &&& fld_str(j, "transmissionType"@) == Some(x.transmission_type@)
    &&& fld_str(j, "numberOfSpeeds"@) == Some(x.number_of_speeds@)
}

pub fn decode_transmission(v: &serde_json::Value) -> (r: Result<Transmission, DecodeError>)
    ensures
        r is Ok <==> transmission_can(value_view(*v)),
        r matches Ok(x) ==> transmission_matches(x, value_view(*v)),
        r matches Err(e) ==> e == DecodeError::Schema,
{
    let id = f_req_string(v, "id")?;
    let name = f_req_string(v, "name")?;
    let equipment_type = f_req_string(v, "equipmentType")?;
    let automatic_type = f_opt_string(v, "automaticType")?;
    let transmission_type = f_req_string(v, "transmissionType")?;
    let number_of_speeds = f_req_string(v, "numberOfSpeeds")?;
    Ok(
        Transmission {
            id,
            name,
            equipment_type,
            automatic_type,
            transmission_type,
            number_of_speeds,
        },
    )
}

/// When a price node decodes.
pub open spec fn price_can(j: JsonV) -> bool {
    &&& fld_uint_ok(j, "baseMSRP"@, u32::MAX as u64)
    &&& ofld_uint_ok(j, "baseInvoice"@, u32::MAX as u64)
    &&& ofld_uint_ok(j, "deliveryCharges"@, u32::MAX as u64)
    &&& ofld_uint_ok(j, "usedTmvRetail"@, u32::MAX as u64)
    &&& ofld_uint_ok(j, "usedPrivateParty"@, u32::MAX as u64)
    &&& ofld_uint_ok(j, "usedTradeIn"@, u32::MAX as u64)
    &&& fld_bool(j, "estimateTmv"@) is Some
    &&& ofld_uint_ok(j, "tmvRecommendedRating"@, u32::MAX as u64)
}

/// The price entity a node decodes to.
pub open spec fn price_matches(x: Price, j: JsonV) -> bool {
    &&& fld_u64(j, "baseMSRP"@) == Some(x.base_msrp as u64)
    &&& opt_u64_match(widen32(x.base_invoice), j, "baseInvoice"@)
    &&& opt_u64_match(widen32(x.delivery_charges), j, "deliveryCharges"@)
    &&& opt_u64_match(widen32(x.used_tmv_retail), j, "usedTmvRetail"@)
    &&& opt_u64_match(widen32(x.used_private_party), j, "usedPrivateParty"@)
    &&& opt_u64_match(widen32(x.used_trade_in), j, "usedTradeIn"@)
    &&& fld_bool(j, "estimateTmv"@) == Some(x.estimate_tmv)
    &&& opt_u64_match(widen32(x.tmv_recommended_rating), j, "tmvRecommendedRating"@)
}

pub fn decode_price(v: &serde_json::Value) -> (r: Result<Price, DecodeError>)
    ensures
        r is Ok <==> price_can(value_view(*v)),
        r matches Ok(x) ==> price_matches(x, value_view(*v)),
        r matches Err(e) ==> e == DecodeError::Schema,
{
    let base_msrp = f_req_u32(v, "baseMSRP")?;
    let base_invoice = f_opt_u32(v, "baseInvoice")?;
    let delivery_charges = f_opt_u32(v, "deliveryCharges")?;
    let used_tmv_retail = f_opt_u32(v, "usedTmvRetail")?;
    let used_private_party = f_opt_u32(v, "usedPrivateParty")?;
    let used_trade_in = f_opt_u32(v, "usedTradeIn")?;
    let estimate_tmv = f_req_bool(v, "estimateTmv")?;
    let tmv_recommended_rating = f_opt_u32(v, "tmvRecommendedRating")?;
    Ok(
        Price {
            base_msrp,
            base_invoice,
            delivery_charges,
            used_tmv_retail,
            used_private_party,
            used_trade_in,
            estimate_tmv,
            tmv_recommended_rating,
        },
    )
}

/// When a categories node decodes.
pub open spec fn categories_can(j: JsonV) -> bool {
    &&& fld_str(j, "market"@) is Some
    &&& ofld_str_ok(j, "EPAClass"@)
    &&& fld_str(j, "vehicleSize"@) is Some
    &&& ofld_str_ok(j, "crossover"@)
    &&& fld_str(j, "primaryBodyType"@) is Some
    &&& fld_str(j, "vehicleStyle"@) is Some
    &&& fld_str(j, "vehicleType"@) is Some
    &&& ofld_str_ok(j, "manufacturerCabType"@)
}

/// The categories entity a node decodes to.
pub open spec fn categories_matches(x: Categories, j: JsonV) -> bool {
    &&& fld_str(j, "market"@) == Some(x.market@)
    &&& opt_str_match(x.epa_class, j, "EPAClass"@)
    &&& fld_str(j, "vehicleSize"@) == Some(x.vehicle_size@)
    &&& opt_str_match(x.crossover, j, "crossover"@)
    &&& fld_str(j, "primaryBodyType"@) == Some(x.primary_body_type@)
    &&& fld_str(j, "vehicleStyle"@) == Some(x.vehicle_style@)
    &&& fld_str(j, "vehicleType"@) == Some(x.vehicle_type@)
    &&& opt_str_match(x.manufacturer_cab_type, j, "manufacturerCabType"@)
}

pub fn decode_categories(v: &serde_json::Value) -> (r: Result<Categories, DecodeError>)
    ensures
        r is Ok <==> categories_can(value_view(*v)),
        r matches Ok(x) ==> categories_matches(x, value_view(*v)),
        r matches Err(e) ==> e == DecodeError::Schema,
{
    let market = f_req_string(v, "market")?;
    let epa_class = f_opt_string(v, "EPAClass")?;
    let vehicle_size = f_req_string(v, "vehicleSize")?;
    let crossover = f_opt_string(v, "crossover")?;
    let primary_body_type = f_req_string(v, "primaryBodyType")?;
    let vehicle_style = f_req_string(v, "vehicleStyle")?;
    let vehicle_type = f_req_string(v, "vehicleType")?;
    let manufacturer_cab_type = f_opt_string(v, "manufacturerCabType")?;
    Ok(
        Categories {
            market,
            epa_class,
            vehicle_size,
            crossover,
            primary_body_type,
            vehicle_style,
            vehicle_type,
            manufacturer_cab_type,
        },
    )
}

// ---------------------------------------------------------------------
// Composite entities
// ---------------------------------------------------------------------
/// When an equipment node decodes.
pub open spec fn equipment_can(j: JsonV) -> bool {
    &&& fld_str(j, "id"@) is Some
    &&& fld_str(j, "name"@) is Some
    &&& fld_str(j, "equipmentType"@) is Some
    &&& fld_str(j, "availability"@) is Some
    &&& (dfld_arr(j, "attributes"@) matches Some(s) && attribute_list_can(s))
}

/// The equipment entity a node decodes to.
pub open spec fn equipment_matches(x: Equipment, j: JsonV) -> bool {
    &&& fld_str(j, "id"@) == Some(x.id@)
    &&& fld_str(j, "name"@) == Some(x.name@)
    &&& fld_str(j, "equipmentType"@) == Some(x.equipment_type@)
    &&& fld_str(j, "availability"@) == Some(x.availability@)
    &&& (dfld_arr(j, "attributes"@) matches Some(s) && attribute_list_matches(x.attributes@, s))
}

#[verifier::loop_isolation(false)]
pub fn decode_equipment(v: &serde_json::Value) -> (r: Result<Equipment, DecodeError>)
    ensures
        r is Ok <==> equipment_can(value_view(*v)),
        r matches Ok(x) ==> equipment_matches(x, value_view(*v)),
        r matches Err(e) ==> e == DecodeError::Schema,
{
    let id = f_req_string(v, "id")?;
    let name = f_req_string(v, "name")?;
    let equipment_type = f_req_string(v, "equipmentType")?;
    let availability = f_req_string(v, "availability")?;
    let arr = f_dft_arr(v, "attributes")?;
    let mut attributes: Vec<Attribute> = Vec::new();
    if let Some(a) = arr {
        let ghost s = dfld_arr(value_view(*v), "attributes"@)->0;
        let n = a.len();
        let mut i: usize = 0;
        while i < n
            invariant
                i <= n,
                n == a@.len(),
                a@.len() == s.len(),
                forall|k: int| 0 <= k < s.len() ==> value_view(#[trigger] a@[k]) == s[k],
                attributes@.len() == i,
                forall|k: int| 0 <= k < i ==> attribute_can(#[trigger] s[k]),
                forall|k: int| 0 <= k < i ==> attribute_matches(#[trigger] attributes@[k], s[k]),
            decreases n - i,
        {
            match decode_attribute(&a[i]) {
                Ok(at) => attributes.push(at),
                Err(e) => {
                    proof {
                        assert(value_view(a@[i as int]) == s[i as int]);
                    }
                    return Err(e);
                },
            }
            i = i + 1;
        }
    }
    Ok(Equipment { id, name, equipment_type, availability, attributes })
}

/// When a color-chips node decodes.
pub open spec fn color_chips_can(j: JsonV) -> bool {
    &&& opt_color_detail_ok(j, "primary"@)
    &&& opt_color_detail_ok(j, "secondary"@)
}

/// The color-chips entity a node decodes to.
pub open spec fn color_chips_matches(x: ColorChips, j: JsonV) -> bool {
    &&& opt_color_detail_matches(x.primary, j, "primary"@)
    &&& opt_color_detail_matches(x.secondary, j, "secondary"@)
}

pub fn decode_color_chips(v: &serde_json::Value) -> (r: Result<ColorChips, DecodeError>)
    ensures
        r is Ok <==> color_chips_can(value_view(*v)),
        r matches Ok(x) ==> color_chips_matches(x, value_view(*v)),
        r matches Err(e) ==> e == DecodeError::Schema,
{
    let primary = match get_field(v, "primary") {
        None => None,
        Some(x) => {
            if val_is_null(x) {
                None
            } else {
                Some(decode_color_detail(x)?)
            }
        },
    };
    let secondary = match get_field(v, "secondary") {
        None => None,
        Some(x) => {
            if val_is_null(x) {
                None
            } else {
                Some(decode_color_detail(x)?)
            }
        },
    };
    Ok(ColorChips { primary, secondary })
}

/// When a color-option node decodes.
pub open spec fn color_option_can(j: JsonV) -> bool {
    &&& fld_str(j, "id"@) is Some
    &&& fld_str(j, "name"@) is Some
    &&& fld_str(j, "equipmentType"@) is Some
    &&& opt_price_ok(j, "price"@)
    &&& fld_str(j, "manufactureOptionName"@) is Some
    &&& fld_str(j, "manufactureOptionCode"@) is Some
    &&& opt_color_chips_ok(j, "colorChips"@)
    &&& (dfld_arr(j, "fabricTypes"@) matches Some(s) && fabric_type_list_can(s))
}

/// The color-option entity a node decodes to.
pub open spec fn color_option_matches(x: ColorOption, j: JsonV) -> bool {
    &&& fld_str(j, "id"@) == Some(x.id@)
    &&& fld_str(j, "name"@) == Some(x.name@)
    &&& fld_str(j, "equipmentType"@) == Some(x.equipment_type@)
    &&& opt_price_matches(x.price, j, "price"@)
    &&& fld_str(j, "manufactureOptionName"@) == Some(x.manufacture_option_name@)
    &&& fld_str(j, "manufactureOptionCode"@) == Some(x.manufacture_option_code@)
    &&& opt_color_chips_matches(x.color_chips, j, "colorChips"@)
    &&& (dfld_arr(j, "fabricTypes"@) matches Some(s) && fabric_type_list_matches(x.fabric_types@, s))
}

#[verifier::loop_isolation(false)]
pub fn decode_color_option(v: &serde_json::Value) -> (r: Result<ColorOption, DecodeError>)
    ensures
        r is Ok <==> color_option_can(value_view(*v)),
        r matches Ok(x) ==> color_option_matches(x, value_view(*v)),
        r matches Err(e) ==> e == DecodeError::Schema,
{
    let id = f_req_string(v, "id")?;
    let name = f_req_string(v, "name")?;
    let equipment_type = f_req_string(v, "equipmentType")?;
    let price = match get_field(v, "price") {
        None => None,
        Some(x) => {
            if val_is_null(x) {
                None
            } else {
                Some(decode_price(x)?)
            }
        },
    };
    let manufacture_option_name = f_req_string(v, "manufactureOptionName")?;
    let manufacture_option_code = f_req_string(v, "manufactureOptionCode")?;
    let color_chips = match get_field(v, "colorChips") {
        None => None,
        Some(x) => {
            if val_is_null(x) {
                None
            } else {
                Some(decode_color_chips(x)?)
            }
        },
    };
    let arr = f_dft_arr(v, "fabricTypes")?;
    let mut fabric_types: Vec<FabricType> = Vec::new();
    if let Some(a) = arr {
        let ghost s = dfld_arr(value_view(*v), "fabricTypes"@)->0;
        let n = a.len();
        let mut i: usize = 0;
        while i < n
            invariant
                i <= n,
                n == a@.len(),
                a@.len() == s.len(),
                forall|k: int| 0 <= k < s.len() ==> value_view(#[trigger] a@[k]) == s[k],
                fabric_types@.len() == i,
                forall|k: int| 0 <= k < i ==> fabric_type_can(#[trigger] s[k]),
                forall|k: int| 0 <= k < i ==> fabric_type_matches(#[trigger] fabric_types@[k], s[k]),
            decreases n - i,
        {
            match decode_fabric_type(&a[i]) {
                Ok(ft) => fabric_types.push(ft),
                Err(e) => {
                    proof {
                        assert(value_view(a@[i as int]) == s[i as int]);
                    }
                    return Err(e);
                },
            }
            i = i + 1;
        }
    }
    Ok(
        ColorOption {
            id,
            name,
            equipment_type,
            price,
            manufacture_option_name,
            manufacture_option_code,
            color_chips,
            fabric_types,
        },
    )
}

/// When a color-category node decodes.
pub open spec fn color_can(j: JsonV) -> bool {
    &&& fld_str(j, "category"@) is Some
    &&& (fld_arr(j, "options"@) matches Some(s) && color_option_list_can(s))
}

/// The color-category entity a node decodes to.
pub open spec fn color_matches(x: Color, j: JsonV) -> bool {
    &&& fld_str(j, "category"@) == Some(x.category@)
    &&& (fld_arr(j, "options"@) matches Some(s) && color_option_list_matches(x.options@, s))
}

#[verifier::loop_isolation(false)]
pub fn decode_color(v: &serde_json::Value) -> (r: Result<Color, DecodeError>)
    ensures
        r is Ok <==> color_can(value_view(*v)),
        r matches Ok(x) ==> color_matches(x, value_view(*v)),
        r matches Err(e) ==> e == DecodeError::Schema,
{
    let category = f_req_string(v, "category")?;
    let a = f_req_arr(v, "options")?;
    let ghost s = fld_arr(value_view(*v), "options"@)->0;
    let mut options: Vec<ColorOption> = Vec::new();
    let n = a.len();
    let mut i: usize = 0;
    while i < n
        invariant
            i <= n,
            n == a@.len(),
            a@.len() == s.len(),
            forall|k: int| 0 <= k < s.len() ==> value_view(#[trigger] a@[k]) == s[k],
            options@.len() == i,
            forall|k: int| 0 <= k < i ==> color_option_can(#[trigger] s[k]),
            forall|k: int| 0 <= k < i ==> color_option_matches(#[trigger] options@[k], s[k]),
        decreases n - i,
    {
        match decode_color_option(&a[i]) {
            Ok(o) => options.push(o),
            Err(e) => {
                return Err(e);
            },
        }
        i = i + 1;
    }
    Ok(Color { category, options })
}

/// When a factory-option node decodes.
pub open spec fn car_option_detail_can(j: JsonV) -> bool {
    &&& fld_str(j, "id"@) is Some
    &&& fld_str(j, "name"@) is Some
    &&& ofld_str_ok(j, "description"@)
    &&& fld_str(j, "equipmentType"@) is Some
    &&& opt_price_ok(j, "price"@)
    &&& ofld_str_ok(j, "manufactureOptionName"@)
    &&& ofld_str_ok(j, "manufactureOptionCode"@)
}

/// The factory-option entity a node decodes to.
pub open spec fn car_option_detail_matches(x: CarOptionDetail, j: JsonV) -> bool {
    &&& fld_str(j, "id"@) == Some(x.id@)
    &&& fld_str(j, "name"@) == Some(x.name@)
    &&& opt_str_match(x.description, j, "description"@)
    &&& fld_str(j, "equipmentType"@) == Some(x.equipment_type@)
    &&& opt_price_matches(x.price, j, "price"@)
    &&& opt_str_match(x.manufacture_option_name, j, "manufactureOptionName"@)
    &&& opt_str_match(x.manufacture_option_code, j, "manufactureOptionCode"@)
}

pub fn decode_car_option_detail(v: &serde_json::Value) -> (r: Result<CarOptionDetail, DecodeError>)
    ensures
        r is Ok <==> car_option_detail_can(value_view(*v)),
        r matches Ok(x) ==> car_option_detail_matches(x, value_view(*v)),
        r matches Err(e) ==> e == DecodeError::Schema,
{
    let id = f_req_string(v, "id")?;
    let name = f_req_string(v, "name")?;
    let description = f_opt_string(v, "description")?;
    let equipment_type = f_req_string(v, "equipmentType")?;
    let price = match get_field(v, "price") {
        None => None,
        Some(x) => {
            if val_is_null(x) {
                None
            } else {
                Some(decode_price(x)?)
            }
        },
    };
    let manufacture_option_name = f_opt_string(v, "manufactureOptionName")?;
    let manufacture_option_code = f_opt_string(v, "manufactureOptionCode")?;
    Ok(
        CarOptionDetail {
            id,
            name,
            description,
            equipment_type,
            price,
            manufacture_option_name,
            manufacture_option_code,
        },
    )
}

/// When a factory-option-category node decodes.
pub open spec fn car_option_can(j: JsonV) -> bool {
    &&& fld_str(j, "category"@) is Some
    &&& (dfld_arr(j, "options"@) matches Some(s) && car_option_detail_list_can(s))
}

/// The factory-option-category entity a node decodes to.
pub open spec fn car_option_matches(x: CarOption, j: JsonV) -> bool {
    &&& fld_str(j, "category"@) == Some(x.category@)
    &&& (dfld_arr(j, "options"@) matches Some(s) && car_option_detail_list_matches(x.options@, s))
}

#[verifier::loop_isolation(false)]
pub fn decode_car_option(v: &serde_json::Value) -> (r: Result<CarOption, DecodeError>)
    ensures
        r is Ok <==> car_option_can(value_view(*v)),
        r matches Ok(x) ==> car_option_matches(x, value_view(*v)),
        r matches Err(e) ==> e == DecodeError::Schema,
{
    let category = f_req_string(v, "category")?;
    let arr = f_dft_arr(v, "options")?;
    let mut options: Vec<CarOptionDetail> = Vec::new();
    if let Some(a) = arr {
        let ghost s = dfld_arr(value_view(*v), "options"@)->0;
        let n = a.len();
        let mut i: usize = 0;
        while i < n
            invariant
                i <= n,
                n == a@.len(),
                a@.len() == s.len(),
                forall|k: int| 0 <= k < s.len() ==> value_view(#[trigger] a@[k]) == s[k],
                options@.len() == i,
                forall|k: int| 0 <= k < i ==> car_option_detail_can(#[trigger] s[k]),
                forall|k: int| 0 <= k < i ==> car_option_detail_matches(
                    #[trigger] options@[k],
                    s[k],
                ),
            decreases n - i,
        {
            match decode_car_option_detail(&a[i]) {
                Ok(o) => options.push(o),
                Err(e) => {
                    proof {
                        assert(value_view(a@[i as int]) == s[i as int]);
                    }
                    return Err(e);
                },
            }
            i = i + 1;
        }
    }
    Ok(CarOption { category, options })
}

/// When an engine node decodes.
pub open spec fn engine_can(j: JsonV) -> bool {
    &&& fld_str(j, "id"@) is Some
    &&& fld_str(j, "name"@) is Some
    &&& fld_str(j, "equipmentType"@) is Some
    &&& ofld_uint_ok(j, "cylinder"@, u8::MAX as u64)
    &&& ofld_uint_ok(j, "displacement"@, u16::MAX as u64)
    &&& ofld_str_ok(j, "configuration"@)
    &&& ofld_str_ok(j, "fuelType"@)
    &&& ofld_uint_ok(j, "horsepower"@, u16::MAX as u64)
    &&& ofld_uint_ok(j, "torque"@, u16::MAX as u64)
    &&& ofld_uint_ok(j, "totalValves"@, u8::MAX as u64)
    &&& ofld_str_ok(j, "manufacturerEngineCode"@)
    &&& fld_str(j, "type"@) is Some
    &&& fld_str(j, "code"@) is Some
    &&& fld_str(j, "compressorType"@) is Some
    &&& opt_rpm_ok(j, "rpm"@)
    &&& opt_valve_ok(j, "valve"@)
}

/// The engine entity a node decodes to. The JSON name `type` collides
/// with a reserved word, so the entity calls it `engine_type`.
pub open spec fn engine_matches(x: Engine, j: JsonV) -> bool {
    &&& fld_str(j, "id"@) == Some(x.id@)
    &&& fld_str(j, "name"@) == Some(x.name@)
    &&& fld_str(j, "equipmentType"@) == Some(x.equipment_type@)
    &&& opt_u64_match(widen8(x.cylinder), j, "cylinder"@)
    &&& opt_u64_match(widen16(x.displacement), j, "displacement"@)
    &&& opt_str_match(x.configuration, j, "configuration"@)
    &&& opt_str_match(x.fuel_type, j, "fuelType"@)
    &&& opt_u64_match(widen16(x.horsepower), j, "horsepower"@)
    &&& opt_u64_match(widen16(x.torque), j, "torque"@)
    &&& opt_u64_match(widen8(x.total_valves), j, "totalValves"@)
    &&& opt_str_match(x.manufacturer_engine_code, j, "manufacturerEngineCode"@)
    &&& fld_str(j, "type"@) == Some(x.engine_type@)
    &&& fld_str(j, "code"@) == Some(x.code@)
    &&& fld_str(j, "compressorType"@) == Some(x.compressor_type@)
    &&& opt_rpm_matches(x.rpm, j, "rpm"@)
    &&& opt_valve_matches(x.valve, j, "valve"@)
}

pub fn decode_engine(v: &serde_json::Value) -> (r: Result<Engine, DecodeError>)
    ensures
        r is Ok <==> engine_can(value_view(*v)),
        r matches Ok(x) ==> engine_matches(x, value_view(*v)),
        r matches Err(e) ==> e == DecodeError::Schema,
{
    let id = f_req_string(v, "id")?;
    let name = f_req_string(v, "name")?;
    let equipment_type = f_req_string(v, "equipmentType")?;
    let cylinder = f_opt_u8(v, "cylinder")?;
    let displacement = f_opt_u16(v, "displacement")?;
    let configuration = f_opt_string(v, "configuration")?;
    let fuel_type = f_opt_string(v, "fuelType")?;
    let horsepower = f_opt_u16(v, "horsepower")?;
    let torque = f_opt_u16(v, "torque")?;
    let total_valves = f_opt_u8(v, "totalValves")?;
    let manufacturer_engine_code = f_opt_string(v, "manufacturerEngineCode")?;
    let engine_type = f_req_string(v, "type")?;
    let code = f_req_string(v, "code")?;
    let compressor_type = f_req_string(v, "compressorType")?;
    let rpm = match get_field(v, "rpm") {
        None => None,
        Some(x) => {
            if val_is_null(x) {
                None
            } else {
                Some(decode_rpm(x)?)
            }
        },
    };
    let valve = match get_field(v, "valve") {
        None => None,
        Some(x) => {
            if val_is_null(x) {
                None
            } else {
                Some(decode_valve(x)?)
            }
        },
    };
    Ok(
        Engine {
            id,
            name,
            equipment_type,
            cylinder,
            displacement,
            configuration,
            fuel_type,
            horsepower,
            torque,
            total_valves,
            manufacturer_engine_code,
            engine_type,
            code,
            compressor_type,
            rpm,
            valve,
        },
    )
}

/// When a style node decodes.
pub open spec fn style_can(j: JsonV) -> bool {
    &&& fld_uint_ok(j, "id"@, u32::MAX as u64)
    &&& fld_str(j, "name"@) is Some
    &&& fld_str(j, "trim"@) is Some
    &&& (j_field(j, "submodel"@) matches Some(x) && submodel_can(x))
    &&& ofld_str_ok(j, "drivenWheels"@)
    &&& ofld_str_ok(j, "numOfDoors"@)
    &&& opt_engine_ok(j, "engine"@)
    &&& opt_transmission_ok(j, "transmission"@)
    &&& (dfld_arr(j, "options"@) matches Some(s) && car_option_list_can(s))
    &&& (dfld_arr(j, "colors"@) matches Some(s) && color_list_can(s))
    &&& ofld_str_ok(j, "manufacturerCode"@)
    &&& opt_price_ok(j, "price"@)
    &&& opt_categories_ok(j, "categories"@)
    &&& (dfld_arr(j, "squishVins"@) matches Some(s) && str_list_can(s))
    &&& opt_mpg_ok(j, "MPG"@)
    &&& (dfld_arr(j, "equipment"@) matches Some(s) && equipment_list_can(s))
}

/// The style entity a node decodes to.
pub open spec fn style_matches(x: Style, j: JsonV) -> bool {
    &&& fld_u64(j, "id"@) == Some(x.id as u64)
    &&& fld_str(j, "name"@) == Some(x.name@)
    &&& fld_str(j, "trim"@) == Some(x.trim@)
    &&& (j_field(j, "submodel"@) matches Some(y) && submodel_matches(x.submodel, y))
    &&& opt_str_match(x.driven_wheels, j, "drivenWheels"@)
    &&& opt_str_match(x.num_of_doors, j, "numOfDoors"@)
    &&& opt_engine_matches(x.engine, j, "engine"@)
    &&& opt_transmission_matches(x.transmission, j, "transmission"@)
    &&& (dfld_arr(j, "options"@) matches Some(s) && car_option_list_matches(x.options@, s))
    &&& (dfld_arr(j, "colors"@) matches Some(s) && color_list_matches(x.colors@, s))
    &&& opt_str_match(x.manufacturer_code, j, "manufacturerCode"@)
    &&& opt_price_matches(x.price, j, "price"@)
    &&& opt_categories_matches(x.categories, j, "categories"@)
    &&& (dfld_arr(j, "squishVins"@) matches Some(s) && str_list_matches(x.squish_vins@, s))
    &&& opt_mpg_matches(x.mpg, j, "MPG"@)
    &&& (dfld_arr(j, "equipment"@) matches Some(s) && equipment_list_matches(x.equipment@, s))
}

#[verifier::loop_isolation(false)]
pub fn decode_style(v: &serde_json::Value) -> (r: Result<Style, DecodeError>)
    ensures
        r is Ok <==> style_can(value_view(*v)),
        r matches Ok(x) ==> style_matches(x, value_view(*v)),
        r matches Err(e) ==> e == DecodeError::Schema,
{
    let id = f_req_u32(v, "id")?;
    let name = f_req_string(v, "name")?;
    let trim = f_req_string(v, "trim")?;
    let submodel = match get_field(v, "submodel") {
        Some(x) => decode_submodel(x)?,
        None => {
            return Err(DecodeError::Schema);
        },
    };
    let driven_wheels = f_opt_string(v, "drivenWheels")?;
    let num_of_doors = f_opt_string(v, "numOfDoors")?;
    let engine = match get_field(v, "engine") {
        None => None,
        Some(x) => {
            if val_is_null(x) {
                None
            } else {
                Some(decode_engine(x)?)
            }
        },
    };
    let transmission = match get_field(v, "transmission") {
        None => None,
        Some(x) => {
            if val_is_null(x) {
                None
            } else {
                Some(decode_transmission(x)?)
            }
        },
    };
    let arr = f_dft_arr(v, "options")?;
    let mut options: Vec<CarOption> = Vec::new();
    if let Some(a) = arr {
        let ghost s = dfld_arr(value_view(*v), "options"@)->0;
        let n = a.len();
        let mut i: usize = 0;
        while i < n
            invariant
                i <= n,
                n == a@.len(),
                a@.len() == s.len(),
                forall|k: int| 0 <= k < s.len() ==> value_view(#[trigger] a@[k]) == s[k],
                options@.len() == i,
                forall|k: int| 0 <= k < i ==> car_option_can(#[trigger] s[k]),
                forall|k: int| 0 <= k < i ==> car_option_matches(#[trigger] options@[k], s[k]),
            decreases n - i,
        {
            match decode_car_option(&a[i]) {
                Ok(o) => options.push(o),
                Err(e) => {
                    proof {
                        assert(value_view(a@[i as int]) == s[i as int]);
                    }
                    return Err(e);
                },
            }
            i = i + 1;
        }
    }
    let arr = f_dft_arr(v, "colors")?;
    let mut colors: Vec<Color> = Vec::new();
    if let Some(a) = arr {
        let ghost s = dfld_arr(value_view(*v), "colors"@)->0;
        let n = a.len();
        let mut i: usize = 0;
        while i < n
            invariant
                i <= n,
                n == a@.len(),
                a@.len() == s.len(),
                forall|k: int| 0 <= k < s.len() ==> value_view(#[trigger] a@[k]) == s[k],
                colors@.len() == i,
                forall|k: int| 0 <= k < i ==> color_can(#[trigger] s[k]),
                forall|k: int| 0 <= k < i ==> color_matches(#[trigger] colors@[k], s[k]),
            decreases n - i,
        {
            match decode_color(&a[i]) {
                Ok(o) => colors.push(o),
                Err(e) => {
                    proof {
                        assert(value_view(a@[i as int]) == s[i as int]);
                    }
                    return Err(e);
                },
            }
            i = i + 1;
        }
    }
    let manufacturer_code = f_opt_string(v, "manufacturerCode")?;
    let price = match get_field(v, "price") {
        None => None,
        Some(x) => {
            if val_is_null(x) {
                None
            } else {
                Some(decode_price(x)?)
            }
        },
    };
    let categories = match get_field(v, "categories") {
        None => None,
        Some(x) => {
            if val_is_null(x) {
                None
            } else {
                Some(decode_categories(x)?)
            }
        },
    };
    let arr = f_dft_arr(v, "squishVins")?;
    let mut squish_vins: Vec<String> = Vec::new();
    if let Some(a) = arr {
        let ghost s = dfld_arr(value_view(*v), "squishVins"@)->0;
        let n = a.len();
        let mut i: usize = 0;
        while i < n
            invariant
                i <= n,
                n == a@.len(),
                a@.len() == s.len(),
                forall|k: int| 0 <= k < s.len() ==> value_view(#[trigger] a@[k]) == s[k],
                squish_vins@.len() == i,
                forall|k: int| 0 <= k < i ==> #[trigger] s[k] is Str,
                forall|k: int| 0 <= k < i ==> s[k] == JsonV::Str(#[trigger] squish_vins@[k]@),
            decreases n - i,
        {
            match val_as_str(&a[i]) {
                Some(t) => squish_vins.push(t.to_owned()),
                None => {
                    proof {
                        assert(value_view(a@[i as int]) == s[i as int]);
                    }
                    return Err(DecodeError::Schema);
                },
            }
            i = i + 1;
        }
    }
    let mpg = match get_field(v, "MPG") {
        None => None,
        Some(x) => {
            if val_is_null(x) {
                None
            } else {
                Some(decode_mpg(x)?)
            }
        },
    };
    let arr = f_dft_arr(v, "equipment")?;
    let mut equipment: Vec<Equipment> = Vec::new();
    if let Some(a) = arr {
        let ghost s = dfld_arr(value_view(*v), "equipment"@)->0;
        let n = a.len();
        let mut i: usize = 0;
        while i < n
            invariant
                i <= n,
                n == a@.len(),
                a@.len() == s.len(),
                forall|k: int| 0 <= k < s.len() ==> value_view(#[trigger] a@[k]) == s[k],
                equipment@.len() == i,
                forall|k: int| 0 <= k < i ==> equipment_can(#[trigger] s[k]),
                forall|k: int| 0 <= k < i ==> equipment_matches(#[trigger] equipment@[k], s[k]),
            decreases n - i,
        {
            match decode_equipment(&a[i]) {
                Ok(o) => equipment.push(o),
                Err(e) => {
                    proof {
                        assert(value_view(a@[i as int]) == s[i as int]);
                    }
                    return Err(e);
                },
            }
            i = i + 1;
        }
    }
    Ok(
        Style {
            id,
            name,
            trim,
            submodel,
            driven_wheels,
            num_of_doors,
            engine,
            transmission,
            options,
            colors,
            manufacturer_code,
            price,
            categories,
            squish_vins,
            mpg,
            equipment,
        },
    )
}

/// When a model-year node decodes. Styles are absent in basic views,
/// so the styles list carries a default.
pub open spec fn year_can(j: JsonV) -> bool {
    &&& fld_uint_ok(j, "id"@, u32::MAX as u64)
    &&& fld_uint_ok(j, "year"@, u16::MAX as u64)
    &&& (dfld_arr(j, "styles"@) matches Some(s) && style_list_can(s))
}

/// The model-year entity a node decodes to.
pub open spec fn year_matches(x: Year, j: JsonV) -> bool {
    &&& fld_u64(j, "id"@) == Some(x.id as u64)
    &&& fld_u64(j, "year"@) == Some(x.year as u64)
    &&& (dfld_arr(j, "styles"@) matches Some(s) && style_list_matches(x.styles@, s))
}

#[verifier::loop_isolation(false)]
pub fn decode_year(v: &serde_json::Value) -> (r: Result<Year, DecodeError>)
    ensures
        r is Ok <==> year_can(value_view(*v)),
        r matches Ok(x) ==> year_matches(x, value_view(*v)),
        r matches Err(e) ==> e == DecodeError::Schema,
{
    let id = f_req_u32(v, "id")?;
    let year = f_req_u16(v, "year")?;
    let arr = f_dft_arr(v, "styles")?;
    let mut styles: Vec<Style> = Vec::new();
    if let Some(a) = arr {
        let ghost s = dfld_arr(value_view(*v), "styles"@)->0;
        let n = a.len();
        let mut i: usize = 0;
        while i < n
            invariant
                i <= n,
                n == a@.len(),
                a@.len() == s.len(),
                forall|k: int| 0 <= k < s.len() ==> value_view(#[trigger] a@[k]) == s[k],
                styles@.len() == i,
                forall|k: int| 0 <= k < i ==> style_can(#[trigger] s[k]),
                forall|k: int| 0 <= k < i ==> style_matches(#[trigger] styles@[k], s[k]),
            decreases n - i,
        {
            match decode_style(&a[i]) {
                Ok(o) => styles.push(o),
                Err(e) => {
                    proof {
                        assert(value_view(a@[i as int]) == s[i as int]);
                    }
                    return Err(e);
                },
            }
            i = i + 1;
        }
    }
    Ok(Year { id, year, styles })
}

/// When a model node decodes. A basic make list may omit the years of
/// each model entirely, so the years list carries a default.
pub open spec fn model_can(j: JsonV) -> bool {
    &&& fld_str(j, "id"@) is Some
    &&& fld_str(j, "name"@) is Some
    &&& fld_str(j, "niceName"@) is Some
    &&& (dfld_arr(j, "years"@) matches Some(s) && year_list_can(s))
}

/// The model entity a node decodes to.
pub open spec fn model_matches(x: Model, j: JsonV) -> bool {
    &&& fld_str(j, "id"@) == Some(x.id@)
    &&& fld_str(j, "name"@) == Some(x.name@)
    &&& fld_str(j, "niceName"@) == Some(x.nice_name@)
    &&& (dfld_arr(j, "years"@) matches Some(s) && year_list_matches(x.years@, s))
}

#[verifier::loop_isolation(false)]
pub fn decode_model(v: &serde_json::Value) -> (r: Result<Model, DecodeError>)
    ensures
        r is Ok <==> model_can(value_view(*v)),
        r matches Ok(x) ==> model_matches(x, value_view(*v)),
        r matches Err(e) ==> e == DecodeError::Schema,
{
    let id = f_req_string(v, "id")?;
    let name = f_req_string(v, "name")?;
    let nice_name = f_req_string(v, "niceName")?;
    let arr = f_dft_arr(v, "years")?;
    let mut years: Vec<Year> = Vec::new();
    if let Some(a) = arr {
        let ghost s = dfld_arr(value_view(*v), "years"@)->0;
        let n = a.len();
        let mut i: usize = 0;
        while i < n
            invariant
                i <= n,
                n == a@.len(),
                a@.len() == s.len(),
                forall|k: int| 0 <= k < s.len() ==> value_view(#[trigger] a@[k]) == s[k],
                years@.len() == i,
                forall|k: int| 0 <= k < i ==> year_can(#[trigger] s[k]),
                forall|k: int| 0 <= k < i ==> year_matches(#[trigger] years@[k], s[k]),
            decreases n - i,
        {
            match decode_year(&a[i]) {
                Ok(o) => years.push(o),
                Err(e) => {
                    proof {
                        assert(value_view(a@[i as int]) == s[i as int]);
                    }
                    return Err(e);
                },
            }
            i = i + 1;
        }
    }
    Ok(Model { id, name, nice_name, years })
}

/// When a make node decodes.
pub open spec fn make_can(j: JsonV) -> bool {
    &&& fld_uint_ok(j, "id"@, u32::MAX as u64)
    &&& fld_str(j, "name"@) is Some
    &&& fld_str(j, "niceName"@) is Some
    &&& (fld_arr(j, "models"@) matches Some(s) && model_list_can(s))
}

/// The make entity a node decodes to.
pub open spec fn make_matches(x: Make, j: JsonV) -> bool {
    &&& fld_u64(j, "id"@) == Some(x.id as u64)
    &&& fld_str(j, "name"@) == Some(x.name@)
    &&& fld_str(j, "niceName"@) == Some(x.nice_name@)
    &&& (fld_arr(j, "models"@) matches Some(s) && model_list_matches(x.models@, s))
}

#[verifier::loop_isolation(false)]
pub fn decode_make(v: &serde_json::Value) -> (r: Result<Make, DecodeError>)
    ensures
        r is Ok <==> make_can(value_view(*v)),
        r matches Ok(x) ==> make_matches(x, value_view(*v)),
        r matches Err(e) ==> e == DecodeError::Schema,
{
    let id = f_req_u32(v, "id")?;
    let name = f_req_string(v, "name")?;
    let nice_name = f_req_string(v, "niceName")?;
    let a = f_req_arr(v, "models")?;
    let ghost s = fld_arr(value_view(*v), "models"@)->0;
    let mut models: Vec<Model> = Vec::new();
    let n = a.len();
    let mut i: usize = 0;
    while i < n
        invariant
            i <= n,
            n == a@.len(),
            a@.len() == s.len(),
            forall|k: int| 0 <= k < s.len() ==> value_view(#[trigger] a@[k]) == s[k],
            models@.len() == i,
            forall|k: int| 0 <= k < i ==> model_can(#[trigger] s[k]),
            forall|k: int| 0 <= k < i ==> model_matches(#[trigger] models@[k], s[k]),
        decreases n - i,
    {
        match decode_model(&a[i]) {
            Ok(o) => models.push(o),
            Err(e) => {
                return Err(e);
            },
        }
        i = i + 1;
    }
    Ok(Make { id, name, nice_name, models })
}

// ---------------------------------------------------------------------
// Encoding back to JSON
// ---------------------------------------------------------------------
/// The spec-level pair list an encoder built.
pub open spec fn enc_pairs(pairs: Seq<(String, serde_json::Value)>) -> Seq<(Seq<char>, JsonV)> {
    pairs.map_values(|p: (String, serde_json::Value)| (p.0@, value_view(p.1)))
}

/// Encode fuel economy as an object that decodes back to it.
pub fn encode_mpg(x: &MPG) -> (r: serde_json::Value)
    ensures
        value_view(r) is Obj,
        mpg_can(value_view(r)),
        mpg_matches(*x, value_view(r)),
{
    let mut pairs: Vec<(String, serde_json::Value)> = Vec::new();
    pairs.push((String::from_str("highway"), mk_u64(x.highway as u64)));
    pairs.push((String::from_str("city"), mk_u64(x.city as u64)));
    proof {
        reveal_strlit("highway");
        reveal_strlit("city");
        let ps = enc_pairs(pairs@);
        assert(ps[0] == ("highway"@, JsonV::Num(Some(x.highway as u64))));
        assert(ps[1] == ("city"@, JsonV::Num(Some(x.city as u64))));
        assert("highway"@.len() != "city"@.len());
        lemma_pairs_to_map_lookup(ps, 0);
        lemma_pairs_to_map_lookup(ps, 1);
    }
    let r = mk_obj(pairs);
    r
}

/// Encode engine speeds as an object that decodes back to them.
pub fn encode_rpm(x: &RPM) -> (r: serde_json::Value)
    ensures
        value_view(r) is Obj,
        rpm_can(value_view(r)),
        rpm_matches(*x, value_view(r)),
{
    let mut pairs: Vec<(String, serde_json::Value)> = Vec::new();
    pairs.push(
        (
            String::from_str("horsepower"),
            match x.horsepower {
                Some(n) => mk_u64(n as u64),
                None => mk_null(),
            },
        ),
    );
    pairs.push(
        (
            String::from_str("torque"),
            match x.torque {
                Some(n) => mk_u64(n as u64),
                None => mk_null(),
            },
        ),
    );
    proof {
        reveal_strlit("horsepower");
        reveal_strlit("torque");
        let ps = enc_pairs(pairs@);
        assert(ps[0].0 == "horsepower"@);
        assert(ps[1].0 == "torque"@);
        assert("horsepower"@.len() != "torque"@.len());
        lemma_pairs_to_map_lookup(ps, 0);
        lemma_pairs_to_map_lookup(ps, 1);
    }
    let r = mk_obj(pairs);
    r
}

/// Encode valve detail as an object that decodes back to it.
pub fn encode_valve(x: &Valve) -> (r: serde_json::Value)
    ensures
        value_view(r) is Obj,
        valve_can(value_view(r)),
        valve_matches(*x, value_view(r)),
{
    let mut pairs: Vec<(String, serde_json::Value)> = Vec::new();
    pairs.push(
        (
            String::from_str("timing"),
            match &x.timing {
                Some(s) => mk_str(s.as_str()),
                None => mk_null(),
            },
        ),
    );
    pairs.push(
        (
            String::from_str("gear"),
            match &x.gear {
                Some(s) => mk_str(s.as_str()),
                None => mk_null(),
            },
        ),
    );
    proof {
        reveal_strlit("timing");
        reveal_strlit("gear");
        let ps = enc_pairs(pairs@);
        assert(ps[0].0 == "timing"@);
        assert(ps[1].0 == "gear"@);
        assert("timing"@.len() != "gear"@.len());
        lemma_pairs_to_map_lookup(ps, 0);
        lemma_pairs_to_map_lookup(ps, 1);
    }
    let r = mk_obj(pairs);
    r
}

/// Encode an attribute as an object that decodes back to it.
pub fn encode_attribute(x: &Attribute) -> (r: serde_json::Value)
    ensures
        value_view(r) is Obj,
        attribute_can(value_view(r)),
        attribute_matches(*x, value_view(r)),
{
    let mut pairs: Vec<(String, serde_json::Value)> = Vec::new();
    pairs.push((String::from_str("name"), mk_str(x.name.as_str())));
    pairs.push((String::from_str("value"), mk_str(x.value.as_str())));
    proof {
        reveal_strlit("name");
        reveal_strlit("value");
        let ps = enc_pairs(pairs@);
        assert(ps[0].0 == "name"@);
        assert(ps[1].0 == "value"@);
        assert("name"@.len() != "value"@.len());
        lemma_pairs_to_map_lookup(ps, 0);
        lemma_pairs_to_map_lookup(ps, 1);
    }
    let r = mk_obj(pairs);
    r
}

/// Encode a fabric type as an object that decodes back to it.
pub fn encode_fabric_type(x: &FabricType) -> (r: serde_json::Value)
    ensures
        value_view(r) is Obj,
        fabric_type_can(value_view(r)),
        fabric_type_matches(*x, value_view(r)),
{
    let mut pairs: Vec<(String, serde_json::Value)> = Vec::new();
    pairs.push((String::from_str("name"), mk_str(x.name.as_str())));
    pairs.push((String::from_str("value"), mk_str(x.value.as_str())));
    proof {
        reveal_strlit("name");
        reveal_strlit("value");
        let ps = enc_pairs(pairs@);
        assert(ps[0].0 == "name"@);
        assert(ps[1].0 == "value"@);
        assert("name"@.len() != "value"@.len());
        lemma_pairs_to_map_lookup(ps, 0);
        lemma_pairs_to_map_lookup(ps, 1);
    }
    let r = mk_obj(pairs);
    r
}

/// Encode a color chip as an object that decodes back to it.
pub fn encode_color_detail(x: &ColorDetail) -> (r: serde_json::Value)
    ensures
        value_view(r) is Obj,
        color_detail_can(value_view(r)),
        color_detail_matches(*x, value_view(r)),
{
    let mut pairs: Vec<(String, serde_json::Value)> = Vec::new();
    pairs.push((String::from_str("r"), mk_u64(x.r as u64)));
    pairs.push((String::from_str("g"), mk_u64(x.g as u64)));
    pairs.push((String::from_str("b"), mk_u64(x.b as u64)));
    pairs.push((String::from_str("hex"), mk_str(x.hex.as_str())));
    proof {
        reveal_strlit("r");
        reveal_strlit("g");
        reveal_strlit("b");
        reveal_strlit("hex");
        let ps = enc_pairs(pairs@);
        assert(ps[0].0 == "r"@);
        assert(ps[1].0 == "g"@);
        assert(ps[2].0 == "b"@);
        assert(ps[3].0 == "hex"@);
        assert("r"@[0] != "g"@[0]);
        assert("r"@[0] != "b"@[0]);
        assert("g"@[0] != "b"@[0]);
        assert("r"@.len() != "hex"@.len());
        assert("g"@.len() != "hex"@.len());
        assert("b"@.len() != "hex"@.len());
        lemma_pairs_to_map_lookup(ps, 0);
        lemma_pairs_to_map_lookup(ps, 1);
        lemma_pairs_to_map_lookup(ps, 2);
        lemma_pairs_to_map_lookup(ps, 3);
    }
    let r = mk_obj(pairs);
    r
}

/// Encode a submodel as an object that decodes back to it.
pub fn encode_submodel(x: &Submodel) -> (r: serde_json::Value)
    ensures
        value_view(r) is Obj,
        submodel_can(value_view(r)),
        submodel_matches(*x, value_view(r)),
{
    let mut pairs: Vec<(String, serde_json::Value)> = Vec::new();
    pairs.push(
        (
            String::from_str("body"),
            match &x.body {
                Some(s) => mk_str(s.as_str()),
                None => mk_null(),
            },
        ),
    );
    pairs.push(
        (
            String::from_str("fuel"),
            match &x.fuel {
                Some(s) => mk_str(s.as_str()),
                None => mk_null(),
            },
        ),
    );
    pairs.push((String::from_str("modelName"), mk_str(x.model_name.as_str())));
    pairs.push((String::from_str("niceName"), mk_str(x.nice_name.as_str())));
    pairs.push(
        (
            String::from_str("tuner"),
            match &x.tuner {
                Some(s) => mk_str(s.as_str()),
                None => mk_null(),
            },
        ),
    );
    proof {
        reveal_strlit("body");
        reveal_strlit("fuel");
        reveal_strlit("modelName");
        reveal_strlit("niceName");
        reveal_strlit("tuner");
        let ps = enc_pairs(pairs@);
        assert(ps[0].0 == "body"@);
        assert(ps[1].0 == "fuel"@);
        assert(ps[2].0 == "modelName"@);
        assert(ps[3].0 == "niceName"@);
        assert(ps[4].0 == "tuner"@);
        assert("body"@[0] != "fuel"@[0]);
        lemma_pairs_to_map_lookup(ps, 0);
        lemma_pairs_to_map_lookup(ps, 1);
        lemma_pairs_to_map_lookup(ps, 2);
        lemma_pairs_to_map_lookup(ps, 3);
        lemma_pairs_to_map_lookup(ps, 4);
    }
    let r = mk_obj(pairs);
    r
}

/// Encode a transmission as an object that decodes back to it.
pub fn encode_transmission(x: &Transmission) -> (r: serde_json::Value)
    ensures
        value_view(r) is Obj,
        transmission_can(value_view(r)),
        transmission_matches(*x, value_view(r)),
{
    let mut pairs: Vec<(String, serde_json::Value)> = Vec::new();
    pairs.push((String::from_str("id"), mk_str(x.id.as_str())));
    pairs.push((String::from_str("name"), mk_str(x.name.as_str())));
    pairs.push((String::from_str("equipmentType"), mk_str(x.equipment_type.as_str())));
    pairs.push(
        (
            String::from_str("automaticType"),
            match &x.automatic_type {
                Some(s) => mk_str(s.as_str()),
                None => mk_null(),
            },
        ),
    );
    pairs.push((String::from_str("transmissionType"), mk_str(x.transmission_type.as_str())));
    pairs.push((String::from_str("numberOfSpeeds"), mk_str(x.number_of_speeds.as_str())));
    proof {
        reveal_strlit("id");
        reveal_strlit("name");
        reveal_strlit("equipmentType");
        reveal_strlit("automaticType");
        reveal_strlit("transmissionType");
        reveal_strlit("numberOfSpeeds");
        let ps = enc_pairs(pairs@);
        assert(ps[0].0 == "id"@);
        assert(ps[1].0 == "name"@);
        assert(ps[2].0 == "equipmentType"@);
        assert(ps[3].0 == "automaticType"@);
        assert(ps[4].0 == "transmissionType"@);
        assert(ps[5].0 == "numberOfSpeeds"@);
        assert("equipmentType"@[0] != "automaticType"@[0]);
        lemma_pairs_to_map_lookup(ps, 0);
        lemma_pairs_to_map_lookup(ps, 1);
        lemma_pairs_to_map_lookup(ps, 2);
        lemma_pairs_to_map_lookup(ps, 3);
        lemma_pairs_to_map_lookup(ps, 4);
        lemma_pairs_to_map_lookup(ps, 5);
    }
    let r = mk_obj(pairs);
    r
}

/// Encode a price snapshot as an object that decodes back to it.
pub fn encode_price(x: &Price) -> (r: serde_json::Value)
    ensures
        value_view(r) is Obj,
        price_can(value_view(r)),
        price_matches(*x, value_view(r)),
{
    let mut pairs: Vec<(String, serde_json::Value)> = Vec::new();
    pairs.push((String::from_str("baseMSRP"), mk_u64(x.base_msrp as u64)));
    pairs.push(
        (
            String::from_str("baseInvoice"),
            match x.base_invoice {
                Some(n) => mk_u64(n as u64),
                None => mk_null(),
            },
        ),
    );
    pairs.push(
        (
            String::from_str("deliveryCharges"),
            match x.delivery_charges {
                Some(n) => mk_u64(n as u64),
                None => mk_null(),
            },
        ),
    );
    pairs.push(
        (
            String::from_str("usedTmvRetail"),
            match x.used_tmv_retail {
                Some(n) => mk_u64(n as u64),
                None => mk_null(),
            },
        ),
    );
    pairs.push(
        (
            String::from_str("usedPrivateParty"),
            match x.used_private_party {
                Some(n) => mk_u64(n as u64),
                None => mk_null(),
            },
        ),
    );
    pairs.push(
        (
            String::from_str("usedTradeIn"),
            match x.used_trade_in {
                Some(n) => mk_u64(n as u64),
                None => mk_null(),
            },
        ),
    );
    pairs.push((String::from_str("estimateTmv"), mk_bool(x.estimate_tmv)));
    pairs.push(
        (
            String::from_str("tmvRecommendedRating"),
            match x.tmv_recommended_rating {
                Some(n) => mk_u64(n as u64),
                None => mk_null(),
            },
        ),
    );
    proof {
        reveal_strlit("baseMSRP");
        reveal_strlit("baseInvoice");
        reveal_strlit("deliveryCharges");
        reveal_strlit("usedTmvRetail");
        reveal_strlit("usedPrivateParty");
        reveal_strlit("usedTradeIn");
        reveal_strlit("estimateTmv");
        reveal_strlit("tmvRecommendedRating");
        let ps = enc_pairs(pairs@);
        assert(ps[0].0 == "baseMSRP"@);
        assert(ps[1].0 == "baseInvoice"@);
        assert(ps[2].0 == "deliveryCharges"@);
        assert(ps[3].0 == "usedTmvRetail"@);
        assert(ps[4].0 == "usedPrivateParty"@);
        assert(ps[5].0 == "usedTradeIn"@);
        assert(ps[6].0 == "estimateTmv"@);
        assert(ps[7].0 == "tmvRecommendedRating"@);
        assert("baseInvoice"@[0] != "usedTradeIn"@[0]);
        assert("baseInvoice"@[0] != "estimateTmv"@[0]);
        assert("usedTradeIn"@[0] != "estimateTmv"@[0]);
        lemma_pairs_to_map_lookup(ps, 0);
        lemma_pairs_to_map_lookup(ps, 1);
        lemma_pairs_to_map_lookup(ps, 2);
        lemma_pairs_to_map_lookup(ps, 3);
        lemma_pairs_to_map_lookup(ps, 4);
        lemma_pairs_to_map_lookup(ps, 5);
        lemma_pairs_to_map_lookup(ps, 6);
        lemma_pairs_to_map_lookup(ps, 7);
    }
    let r = mk_obj(pairs);
    r
}

/// Encode a market classification as an object that decodes back to it.
pub fn encode_categories(x: &Categories) -> (r: serde_json::Value)
    ensures
        value_view(r) is Obj,
        categories_can(value_view(r)),
        categories_matches(*x, value_view(r)),
{
    let mut pairs: Vec<(String, serde_json::Value)> = Vec::new();
    pairs.push((String::from_str("market"), mk_str(x.market.as_str())));
    pairs.push(
        (
            String::from_str("EPAClass"),
            match &x.epa_class {
                Some(s) => mk_str(s.as_str()),
                None => mk_null(),
            },
        ),
    );
    pairs.push((String::from_str("vehicleSize"), mk_str(x.vehicle_size.as_str())));
    pairs.push(
        (
            String::from_str("crossover"),
            match &x.crossover {
                Some(s) => mk_str(s.as_str()),
                None => mk_null(),
            },
        ),
    );
    pairs.push((String::from_str("primaryBodyType"), mk_str(x.primary_body_type.as_str())));
    pairs.push((String::from_str("vehicleStyle"), mk_str(x.vehicle_style.as_str())));
    pairs.push((String::from_str("vehicleType"), mk_str(x.vehicle_type.as_str())));
    pairs.push(
        (
            String::from_str("manufacturerCabType"),
            match &x.manufacturer_cab_type {
                Some(s) => mk_str(s.as_str()),
                None => mk_null(),
            },
        ),
    );
    proof {
        reveal_strlit("market");
        reveal_strlit("EPAClass");
        reveal_strlit("vehicleSize");
        reveal_strlit("crossover");
        reveal_strlit("primaryBodyType");
        reveal_strlit("vehicleStyle");
        reveal_strlit("vehicleType");
        reveal_strlit("manufacturerCabType");
        let ps = enc_pairs(pairs@);
        assert(ps[0].0 == "market"@);
        assert(ps[1].0 == "EPAClass"@);
        assert(ps[2].0 == "vehicleSize"@);
        assert(ps[3].0 == "crossover"@);
        assert(ps[4].0 == "primaryBodyType"@);
        assert(ps[5].0 == "vehicleStyle"@);
        assert(ps[6].0 == "vehicleType"@);
        assert(ps[7].0 == "manufacturerCabType"@);
        assert("vehicleSize"@[7] != "vehicleType"@[7]);
        lemma_pairs_to_map_lookup(ps, 0);
        lemma_pairs_to_map_lookup(ps, 1);
        lemma_pairs_to_map_lookup(ps, 2);
        lemma_pairs_to_map_lookup(ps, 3);
        lemma_pairs_to_map_lookup(ps, 4);
        lemma_pairs_to_map_lookup(ps, 5);
        lemma_pairs_to_map_lookup(ps, 6);
        lemma_pairs_to_map_lookup(ps, 7);
    }
    let r = mk_obj(pairs);
    r
}

/// Encode an equipment feature, attribute list included, as an object
/// that decodes back to it.
#[verifier::loop_isolation(false)]
pub fn encode_equipment(x: &Equipment) -> (r: serde_json::Value)
    ensures
        value_view(r) is Obj,
        equipment_can(value_view(r)),
        equipment_matches(*x, value_view(r)),
{
    let mut items: Vec<serde_json::Value> = Vec::new();
    let n = x.attributes.len();
    let mut i: usize = 0;
    while i < n
        invariant
            i <= n,
            items@.len() == i,
            forall|k: int| 0 <= k < i ==> attribute_can(value_view(#[trigger] items@[k])),
            forall|k: int|
                0 <= k < i ==> attribute_matches(x.attributes@[k], value_view(
                    #[trigger] items@[k],
                )),
        decreases n - i,
    {
        items.push(encode_attribute(&x.attributes[i]));
        i = i + 1;
    }
    let ghost items_view = items@.map_values(|y: serde_json::Value| value_view(y));
    let mut pairs: Vec<(String, serde_json::Value)> = Vec::new();
    pairs.push((String::from_str("id"), mk_str(x.id.as_str())));
    pairs.push((String::from_str("name"), mk_str(x.name.as_str())));
    pairs.push((String::from_str("equipmentType"), mk_str(x.equipment_type.as_str())));
    pairs.push((String::from_str("availability"), mk_str(x.availability.as_str())));
    pairs.push((String::from_str("attributes"), mk_arr(items)));
    proof {
        reveal_strlit("id");
        reveal_strlit("name");
        reveal_strlit("equipmentType");
        reveal_strlit("availability");
        reveal_strlit("attributes");
        let ps = enc_pairs(pairs@);
        assert(ps[0].0 == "id"@);
        assert(ps[1].0 == "name"@);
        assert(ps[2].0 == "equipmentType"@);
        assert(ps[3].0 == "availability"@);
        assert(ps[4].0 == "attributes"@);
        lemma_pairs_to_map_lookup(ps, 0);
        lemma_pairs_to_map_lookup(ps, 1);
        lemma_pairs_to_map_lookup(ps, 2);
        lemma_pairs_to_map_lookup(ps, 3);
        lemma_pairs_to_map_lookup(ps, 4);
        assert(ps[4].1 == JsonV::Arr(items_view));
        assert forall|k: int| 0 <= k < items_view.len() implies attribute_can(
            #[trigger] items_view[k],
        ) && attribute_matches(x.attributes@[k], items_view[k]) by {
            assert(items_view[k] == value_view(items@[k]));
        }
    }
    let r = mk_obj(pairs);
    proof {
        assert(dfld_arr(value_view(r), "attributes"@) == Some(items_view));
    }
    r
}

/// Encode a pair of color chips as an object that decodes back to it.
pub fn encode_color_chips(x: &ColorChips) -> (r: serde_json::Value)
    ensures
        value_view(r) is Obj,
        color_chips_can(value_view(r)),
        color_chips_matches(*x, value_view(r)),
{
    let mut pairs: Vec<(String, serde_json::Value)> = Vec::new();
    pairs.push(
        (
            String::from_str("primary"),
            match &x.primary {
                Some(cd) => encode_color_detail(cd),
                None => mk_null(),
            },
        ),
    );
    pairs.push(
        (
            String::from_str("secondary"),
            match &x.secondary {
                Some(cd) => encode_color_detail(cd),
                None => mk_null(),
            },
        ),
    );
    proof {
        reveal_strlit("primary");
        reveal_strlit("secondary");
        let ps = enc_pairs(pairs@);
        assert(ps[0].0 == "primary"@);
        assert(ps[1].0 == "secondary"@);
        assert("primary"@.len() != "secondary"@.len());
        lemma_pairs_to_map_lookup(ps, 0);
        lemma_pairs_to_map_lookup(ps, 1);
    }
    let r = mk_obj(pairs);
    r
}

/// Encode an engine, nested speed and valve detail included, as an
/// object that decodes back to it.
pub fn encode_engine(x: &Engine) -> (r: serde_json::Value)
    ensures
        value_view(r) is Obj,
        engine_can(value_view(r)),
        engine_matches(*x, value_view(r)),
{
    let mut pairs: Vec<(String, serde_json::Value)> = Vec::new();
    pairs.push((String::from_str("id"), mk_str(x.id.as_str())));
    pairs.push((String::from_str("name"), mk_str(x.name.as_str())));
    pairs.push((String::from_str("equipmentType"), mk_str(x.equipment_type.as_str())));
    pairs.push(
        (
            String::from_str("cylinder"),
            match x.cylinder {
                Some(n) => mk_u64(n as u64),
                None => mk_null(),
            },
        ),
    );
    pairs.push(
        (
            String::from_str("displacement"),
            match x.displacement {
                Some(n) => mk_u64(n as u64),
                None => mk_null(),
            },
        ),
    );
    pairs.push(
        (
            String::from_str("configuration"),
            match &x.configuration {
                Some(s) => mk_str(s.as_str()),
                None => mk_null(),
            },
        ),
    );
    pairs.push(
        (
            String::from_str("fuelType"),
            match &x.fuel_type {
                Some(s) => mk_str(s.as_str()),
                None => mk_null(),
            },
        ),
    );
    pairs.push(
        (
            String::from_str("horsepower"),
            match x.horsepower {
                Some(n) => mk_u64(n as u64),
                None => mk_null(),
            },
        ),
    );
    pairs.push(
        (
            String::from_str("torque"),
            match x.torque {
                Some(n) => mk_u64(n as u64),
                None => mk_null(),
            },
        ),
    );
    pairs.push(
        (
            String::from_str("totalValves"),
            match x.total_valves {
                Some(n) => mk_u64(n as u64),
                None => mk_null(),
            },
        ),
    );
    pairs.push(
        (
            String::from_str("manufacturerEngineCode"),
            match &x.manufacturer_engine_code {
                Some(s) => mk_str(s.as_str()),
                None => mk_null(),
            },
        ),
    );
    pairs.push((String::from_str("type"), mk_str(x.engine_type.as_str())));
    pairs.push((String::from_str("code"), mk_str(x.code.as_str())));
    pairs.push((String::from_str("compressorType"), mk_str(x.compressor_type.as_str())));
    pairs.push(
        (
            String::from_str("rpm"),
            match &x.rpm {
                Some(v) => encode_rpm(v),
                None => mk_null(),
            },
        ),
    );
    pairs.push(
        (
            String::from_str("valve"),
            match &x.valve {
                Some(v) => encode_valve(v),
                None => mk_null(),
            },
        ),
    );
    proof {
        reveal_strlit("id");
        reveal_strlit("name");
        reveal_strlit("equipmentType");
        reveal_strlit("cylinder");
        reveal_strlit("displacement");
        reveal_strlit("configuration");
        reveal_strlit("fuelType");
        reveal_strlit("horsepower");
        reveal_strlit("torque");
        reveal_strlit("totalValves");
        reveal_strlit("manufacturerEngineCode");
        reveal_strlit("type");
        reveal_strlit("code");
        reveal_strlit("compressorType");
        reveal_strlit("rpm");
        reveal_strlit("valve");
        let ps = enc_pairs(pairs@);
        assert(ps[0].0 == "id"@);
        assert(ps[1].0 == "name"@);
        assert(ps[2].0 == "equipmentType"@);
        assert(ps[3].0 == "cylinder"@);
        assert(ps[4].0 == "displacement"@);
        assert(ps[5].0 == "configuration"@);
        assert(ps[6].0 == "fuelType"@);
        assert(ps[7].0 == "horsepower"@);
        assert(ps[8].0 == "torque"@);
        assert(ps[9].0 == "totalValves"@);
        assert(ps[10].0 == "manufacturerEngineCode"@);
        assert(ps[11].0 == "type"@);
        assert(ps[12].0 == "code"@);
        assert(ps[13].0 == "compressorType"@);
        assert(ps[14].0 == "rpm"@);
        assert(ps[15].0 == "valve"@);
        assert("name"@[0] != "type"@[0]);
        assert("name"@[0] != "code"@[0]);
        assert("type"@[0] != "code"@[0]);
        assert("equipmentType"@[0] != "configuration"@[0]);
        assert("cylinder"@[0] != "fuelType"@[0]);
        lemma_pairs_to_map_lookup(ps, 0);
        lemma_pairs_to_map_lookup(ps, 1);
        lemma_pairs_to_map_lookup(ps, 2);
        lemma_pairs_to_map_lookup(ps, 3);
        lemma_pairs_to_map_lookup(ps, 4);
        lemma_pairs_to_map_lookup(ps, 5);
        lemma_pairs_to_map_lookup(ps, 6);
        lemma_pairs_to_map_lookup(ps, 7);
        lemma_pairs_to_map_lookup(ps, 8);
        lemma_pairs_to_map_lookup(ps, 9);
        lemma_pairs_to_map_lookup(ps, 10);
        lemma_pairs_to_map_lookup(ps, 11);
        lemma_pairs_to_map_lookup(ps, 12);
        lemma_pairs_to_map_lookup(ps, 13);
        lemma_pairs_to_map_lookup(ps, 14);
        lemma_pairs_to_map_lookup(ps, 15);
    }
    let r = mk_obj(pairs);
    r
}

/// Encode one factory option as an object that decodes back to it.
pub fn encode_car_option_detail(x: &CarOptionDetail) -> (r: serde_json::Value)
    ensures
        value_view(r) is Obj,
        car_option_detail_can(value_view(r)),
        car_option_detail_matches(*x, value_view(r)),
{
    let mut pairs: Vec<(String, serde_json::Value)> = Vec::new();
    pairs.push((String::from_str("id"), mk_str(x.id.as_str())));
    pairs.push((String::from_str("name"), mk_str(x.name.as_str())));
    pairs.push(
        (
            String::from_str("description"),
            match &x.description {
                Some(s) => mk_str(s.as_str()),
                None => mk_null(),
            },
        ),
    );
    pairs.push((String::from_str("equipmentType"), mk_str(x.equipment_type.as_str())));
    pairs.push(
        (
            String::from_str("price"),
            match &x.price {
                Some(p) => encode_price(p),
                None => mk_null(),
            },
        ),
    );
    pairs.push(
        (
            String::from_str("manufactureOptionName"),
            match &x.manufacture_option_name {
                Some(s) => mk_str(s.as_str()),
                None => mk_null(),
            },
        ),
    );
    pairs.push(
        (
            String::from_str("manufactureOptionCode"),
            match &x.manufacture_option_code {
                Some(s) => mk_str(s.as_str()),
                None => mk_null(),
            },
        ),
    );
    proof {
        reveal_strlit("id");
        reveal_strlit("name");
        reveal_strlit("description");
        reveal_strlit("equipmentType");
        reveal_strlit("price");
        reveal_strlit("manufactureOptionName");
        reveal_strlit("manufactureOptionCode");
        let ps = enc_pairs(pairs@);
        assert(ps[0].0 == "id"@);
        assert(ps[1].0 == "name"@);
        assert(ps[2].0 == "description"@);
        assert(ps[3].0 == "equipmentType"@);
        assert(ps[4].0 == "price"@);
        assert(ps[5].0 == "manufactureOptionName"@);
        assert(ps[6].0 == "manufactureOptionCode"@);
        assert("manufactureOptionName"@[17] != "manufactureOptionCode"@[17]);
        lemma_pairs_to_map_lookup(ps, 0);
        lemma_pairs_to_map_lookup(ps, 1);
        lemma_pairs_to_map_lookup(ps, 2);
        lemma_pairs_to_map_lookup(ps, 3);
        lemma_pairs_to_map_lookup(ps, 4);
        lemma_pairs_to_map_lookup(ps, 5);
        lemma_pairs_to_map_lookup(ps, 6);
    }
    let r = mk_obj(pairs);
    r
}

/// Encode a factory option category, its option list included, as an
/// object that decodes back to it.
#[verifier::loop_isolation(false)]
pub fn encode_car_option(x: &CarOption) -> (r: serde_json::Value)
    ensures
        value_view(r) is Obj,
        car_option_can(value_view(r)),
        car_option_matches(*x, value_view(r)),
{
    let mut items: Vec<serde_json::Value> = Vec::new();
    let n = x.options.len();
    let mut i: usize = 0;
    while i < n
        invariant
            i <= n,
            items@.len() == i,
            forall|k: int| 0 <= k < i ==> car_option_detail_can(value_view(#[trigger] items@[k])),
            forall|k: int|
                0 <= k < i ==> car_option_detail_matches(x.options@[k], value_view(
                    #[trigger] items@[k],
                )),
        decreases n - i,
    {
        items.push(encode_car_option_detail(&x.options[i]));
        i = i + 1;
    }
    let ghost items_view = items@.map_values(|y: serde_json::Value| value_view(y));
    let mut pairs: Vec<(String, serde_json::Value)> = Vec::new();
    pairs.push((String::from_str("category"), mk_str(x.category.as_str())));
    pairs.push((String::from_str("options"), mk_arr(items)));
    proof {
        reveal_strlit("category");
        reveal_strlit("options");
        let ps = enc_pairs(pairs@);
        assert(ps[0].0 == "category"@);
        assert(ps[1].0 == "options"@);
        assert("category"@.len() != "options"@.len());
        lemma_pairs_to_map_lookup(ps, 0);
        lemma_pairs_to_map_lookup(ps, 1);
        assert(ps[1].1 == JsonV::Arr(items_view));
        assert forall|k: int| 0 <= k < items_view.len() implies car_option_detail_can(
            #[trigger] items_view[k],
        ) && car_option_detail_matches(x.options@[k], items_view[k]) by {
            assert(items_view[k] == value_view(items@[k]));
        }
    }
    let r = mk_obj(pairs);
    proof {
        assert(dfld_arr(value_view(r), "options"@) == Some(items_view));
    }
    r
}

/// Encode one color option, chips and fabric types included, as an
/// object that decodes back to it.
#[verifier::loop_isolation(false)]
pub fn encode_color_option(x: &ColorOption) -> (r: serde_json::Value)
    ensures
        value_view(r) is Obj,
        color_option_can(value_view(r)),
        color_option_matches(*x, value_view(r)),
{
    let mut items: Vec<serde_json::Value> = Vec::new();
    let n = x.fabric_types.len();
    let mut i: usize = 0;
    while i < n
        invariant
            i <= n,
            items@.len() == i,
            forall|k: int| 0 <= k < i ==> fabric_type_can(value_view(#[trigger] items@[k])),
            forall|k: int|
                0 <= k < i ==> fabric_type_matches(x.fabric_types@[k], value_view(
                    #[trigger] items@[k],
                )),
        decreases n - i,
    {
        items.push(encode_fabric_type(&x.fabric_types[i]));
        i = i + 1;
    }
    let ghost items_view = items@.map_values(|y: serde_json::Value| value_view(y));
    let mut pairs: Vec<(String, serde_json::Value)> = Vec::new();
    pairs.push((String::from_str("id"), mk_str(x.id.as_str())));
    pairs.push((String::from_str("name"), mk_str(x.name.as_str())));
    pairs.push((String::from_str("equipmentType"), mk_str(x.equipment_type.as_str())));
    pairs.push(
        (
            String::from_str("price"),
            match &x.price {
                Some(p) => encode_price(p),
                None => mk_null(),
            },
        ),
    );
    pairs.push(
        (
            String::from_str("manufactureOptionName"),
            mk_str(x.manufacture_option_name.as_str()),
        ),
    );
    pairs.push(
        (
            String::from_str("manufactureOptionCode"),
            mk_str(x.manufacture_option_code.as_str()),
        ),
    );
    pairs.push(
        (
            String::from_str("colorChips"),
            match &x.color_chips {
                Some(c) => encode_color_chips(c),
                None => mk_null(),
            },
        ),
    );
    pairs.push((String::from_str("fabricTypes"), mk_arr(items)));
    proof {
        reveal_strlit("id");
        reveal_strlit("name");
        reveal_strlit("equipmentType");
        reveal_strlit("price");
        reveal_strlit("manufactureOptionName");
        reveal_strlit("manufactureOptionCode");
        reveal_strlit("colorChips");
        reveal_strlit("fabricTypes");
        let ps = enc_pairs(pairs@);
        assert(ps[0].0 == "id"@);
        assert(ps[1].0 == "name"@);
        assert(ps[2].0 == "equipmentType"@);
        assert(ps[3].0 == "price"@);
        assert(ps[4].0 == "manufactureOptionName"@);
        assert(ps[5].0 == "manufactureOptionCode"@);
        assert(ps[6].0 == "colorChips"@);
        assert(ps[7].0 == "fabricTypes"@);
        assert("manufactureOptionName"@[17] != "manufactureOptionCode"@[17]);
        lemma_pairs_to_map_lookup(ps, 0);
        lemma_pairs_to_map_lookup(ps, 1);
        lemma_pairs_to_map_lookup(ps, 2);
        lemma_pairs_to_map_lookup(ps, 3);
        lemma_pairs_to_map_lookup(ps, 4);
        lemma_pairs_to_map_lookup(ps, 5);
        lemma_pairs_to_map_lookup(ps, 6);
        lemma_pairs_to_map_lookup(ps, 7);
        assert(ps[7].1 == JsonV::Arr(items_view));
        assert forall|k: int| 0 <= k < items_view.len() implies fabric_type_can(
            #[trigger] items_view[k],
        ) && fabric_type_matches(x.fabric_types@[k], items_view[k]) by {
            assert(items_view[k] == value_view(items@[k]));
        }
    }
    let r = mk_obj(pairs);
    proof {
        assert(dfld_arr(value_view(r), "fabricTypes"@) == Some(items_view));
    }
    r
}

/// Encode a color category, its option list included, as an object
/// that decodes back to it.
#[verifier::loop_isolation(false)]
pub fn encode_color(x: &Color) -> (r: serde_json::Value)
    ensures
        value_view(r) is Obj,
        color_can(value_view(r)),
        color_matches(*x, value_view(r)),
{
    let mut items: Vec<serde_json::Value> = Vec::new();
    let n = x.options.len();
    let mut i: usize = 0;
    while i < n
        invariant
            i <= n,
            items@.len() == i,
            forall|k: int| 0 <= k < i ==> color_option_can(value_view(#[trigger] items@[k])),
            forall|k: int|
                0 <= k < i ==> color_option_matches(x.options@[k], value_view(
                    #[trigger] items@[k],
                )),
        decreases n - i,
    {
        items.push(encode_color_option(&x.options[i]));
        i = i + 1;
    }
    let ghost items_view = items@.map_values(|y: serde_json::Value| value_view(y));
    let mut pairs: Vec<(String, serde_json::Value)> = Vec::new();
    pairs.push((String::from_str("category"), mk_str(x.category.as_str())));
    pairs.push((String::from_str("options"), mk_arr(items)));
    proof {
        reveal_strlit("category");
        reveal_strlit("options");
        let ps = enc_pairs(pairs@);
        assert(ps[0].0 == "category"@);
        assert(ps[1].0 == "options"@);
        assert("category"@.len() != "options"@.len());
        lemma_pairs_to_map_lookup(ps, 0);
        lemma_pairs_to_map_lookup(ps, 1);
        assert(ps[1].1 == JsonV::Arr(items_view));
        assert forall|k: int| 0 <= k < items_view.len() implies color_option_can(
            #[trigger] items_view[k],
        ) && color_option_matches(x.options@[k], items_view[k]) by {
            assert(items_view[k] == value_view(items@[k]));
        }
    }
    let r = mk_obj(pairs);
    proof {
        assert(fld_arr(value_view(r), "options"@) == Some(items_view));
    }
    r
}

/// Encode a style, every nested entity and sequence included, as an
/// object that decodes back to it.
#[verifier::loop_isolation(false)]
pub fn encode_style(x: &Style) -> (r: serde_json::Value)
    ensures
        value_view(r) is Obj,
        style_can(value_view(r)),
        style_matches(*x, value_view(r)),
{
    let mut option_items: Vec<serde_json::Value> = Vec::new();
    let n_options = x.options.len();
    let mut i: usize = 0;
    while i < n_options
        invariant
            i <= n_options,
            option_items@.len() == i,
            forall|k: int| 0 <= k < i ==> car_option_can(value_view(#[trigger] option_items@[k])),
            forall|k: int|
                0 <= k < i ==> car_option_matches(x.options@[k], value_view(
                    #[trigger] option_items@[k],
                )),
        decreases n_options - i,
    {
        option_items.push(encode_car_option(&x.options[i]));
        i = i + 1;
    }
    let ghost options_view = option_items@.map_values(|y: serde_json::Value| value_view(y));

    let mut color_items: Vec<serde_json::Value> = Vec::new();
    let n_colors = x.colors.len();
    let mut i: usize = 0;
    while i < n_colors
        invariant
            i <= n_colors,
            color_items@.len() == i,
            forall|k: int| 0 <= k < i ==> color_can(value_view(#[trigger] color_items@[k])),
            forall|k: int|
                0 <= k < i ==> color_matches(x.colors@[k], value_view(#[trigger] color_items@[k])),
        decreases n_colors - i,
    {
        color_items.push(encode_color(&x.colors[i]));
        i = i + 1;
    }
    let ghost colors_view = color_items@.map_values(|y: serde_json::Value| value_view(y));

    let mut vin_items: Vec<serde_json::Value> = Vec::new();
    let n_vins = x.squish_vins.len();
    let mut i: usize = 0;
    while i < n_vins
        invariant
            i <= n_vins,
            vin_items@.len() == i,
            forall|k: int|
                0 <= k < i ==> value_view(#[trigger] vin_items@[k]) == JsonV::Str(
                    x.squish_vins@[k]@,
                ),
        decreases n_vins - i,
    {
        vin_items.push(mk_str(x.squish_vins[i].as_str()));
        i = i + 1;
    }
    let ghost vins_view = vin_items@.map_values(|y: serde_json::Value| value_view(y));

    let mut equipment_items: Vec<serde_json::Value> = Vec::new();
    let n_equipment = x.equipment.len();
    let mut i: usize = 0;
    while i < n_equipment
        invariant
            i <= n_equipment,
            equipment_items@.len() == i,
            forall|k: int|
                0 <= k < i ==> equipment_can(value_view(#[trigger] equipment_items@[k])),
            forall|k: int|
                0 <= k < i ==> equipment_matches(x.equipment@[k], value_view(
                    #[trigger] equipment_items@[k],
                )),
        decreases n_equipment - i,
    {
        equipment_items.push(encode_equipment(&x.equipment[i]));
        i = i + 1;
    }
    let ghost equipment_view = equipment_items@.map_values(|y: serde_json::Value| value_view(y));

    let mut pairs: Vec<(String, serde_json::Value)> = Vec::new();
    pairs.push((String::from_str("id"), mk_u64(x.id as u64)));
    pairs.push((String::from_str("name"), mk_str(x.name.as_str())));
    pairs.push((String::from_str("trim"), mk_str(x.trim.as_str())));
    pairs.push((String::from_str("submodel"), encode_submodel(&x.submodel)));
    pairs.push(
        (
            String::from_str("drivenWheels"),
            match &x.driven_wheels {
                Some(s) => mk_str(s.as_str()),
                None => mk_null(),
            },
        ),
    );
    pairs.push(
        (
            String::from_str("numOfDoors"),
            match &x.num_of_doors {
                Some(s) => mk_str(s.as_str()),
                None => mk_null(),
            },
        ),
    );
    pairs.push(
        (
            String::from_str("engine"),
            match &x.engine {
                Some(e) => encode_engine(e),
                None => mk_null(),
            },
        ),
    );
    pairs.push(
        (
            String::from_str("transmission"),
            match &x.transmission {
                Some(t) => encode_transmission(t),
                None => mk_null(),
            },
        ),
    );
    pairs.push((String::from_str("options"), mk_arr(option_items)));
    pairs.push((String::from_str("colors"), mk_arr(color_items)));
    pairs.push(
        (
            String::from_str("manufacturerCode"),
            match &x.manufacturer_code {
                Some(s) => mk_str(s.as_str()),
                None => mk_null(),
            },
        ),
    );
    pairs.push(
        (
            String::from_str("price"),
            match &x.price {
                Some(p) => encode_price(p),
                None => mk_null(),
            },
        ),
    );
    pairs.push(
        (
            String::from_str("categories"),
            match &x.categories {
                Some(c) => encode_categories(c),
                None => mk_null(),
            },
        ),
    );
    pairs.push((String::from_str("squishVins"), mk_arr(vin_items)));
    pairs.push(
        (
            String::from_str("MPG"),
            match &x.mpg {
                Some(m) => encode_mpg(m),
                None => mk_null(),
            },
        ),
    );
    pairs.push((String::from_str("equipment"), mk_arr(equipment_items)));
    proof {
        reveal_strlit("id");
        reveal_strlit("name");
        reveal_strlit("trim");
        reveal_strlit("submodel");
        reveal_strlit("drivenWheels");
        reveal_strlit("numOfDoors");
        reveal_strlit("engine");
        reveal_strlit("transmission");
        reveal_strlit("options");
        reveal_strlit("colors");
        reveal_strlit("manufacturerCode");
        reveal_strlit("price");
        reveal_strlit("categories");
        reveal_strlit("squishVins");
        reveal_strlit("MPG");
        reveal_strlit("equipment");
        let ps = enc_pairs(pairs@);
        assert(ps[0].0 == "id"@);
        assert(ps[1].0 == "name"@);
        assert(ps[2].0 == "trim"@);
        assert(ps[3].0 == "submodel"@);
        assert(ps[4].0 == "drivenWheels"@);
        assert(ps[5].0 == "numOfDoors"@);
        assert(ps[6].0 == "engine"@);
        assert(ps[7].0 == "transmission"@);
        assert(ps[8].0 == "options"@);
        assert(ps[9].0 == "colors"@);
        assert(ps[10].0 == "manufacturerCode"@);
        assert(ps[11].0 == "price"@);
        assert(ps[12].0 == "categories"@);
        assert(ps[13].0 == "squishVins"@);
        assert(ps[14].0 == "MPG"@);
        assert(ps[15].0 == "equipment"@);
        assert("name"@[0] != "trim"@[0]);
        assert("drivenWheels"@[0] != "transmission"@[0]);
        assert("numOfDoors"@[0] != "categories"@[0]);
        assert("numOfDoors"@[0] != "squishVins"@[0]);
        assert("categories"@[0] != "squishVins"@[0]);
        assert("engine"@[0] != "colors"@[0]);
        lemma_pairs_to_map_lookup(ps, 0);
        lemma_pairs_to_map_lookup(ps, 1);
        lemma_pairs_to_map_lookup(ps, 2);
        lemma_pairs_to_map_lookup(ps, 3);
        lemma_pairs_to_map_lookup(ps, 4);
        lemma_pairs_to_map_lookup(ps, 5);
        lemma_pairs_to_map_lookup(ps, 6);
        lemma_pairs_to_map_lookup(ps, 7);
        lemma_pairs_to_map_lookup(ps, 8);
        lemma_pairs_to_map_lookup(ps, 9);
        lemma_pairs_to_map_lookup(ps, 10);
        lemma_pairs_to_map_lookup(ps, 11);
        lemma_pairs_to_map_lookup(ps, 12);
        lemma_pairs_to_map_lookup(ps, 13);
        lemma_pairs_to_map_lookup(ps, 14);
        lemma_pairs_to_map_lookup(ps, 15);
        assert(ps[8].1 == JsonV::Arr(options_view));
        assert(ps[9].1 == JsonV::Arr(colors_view));
        assert(ps[13].1 == JsonV::Arr(vins_view));
        assert(ps[15].1 == JsonV::Arr(equipment_view));
        assert forall|k: int| 0 <= k < options_view.len() implies car_option_can(
            #[trigger] options_view[k],
        ) && car_option_matches(x.options@[k], options_view[k]) by {
            assert(options_view[k] == value_view(option_items@[k]));
        }
        assert forall|k: int| 0 <= k < colors_view.len() implies color_can(
            #[trigger] colors_view[k],
        ) && color_matches(x.colors@[k], colors_view[k]) by {
            assert(colors_view[k] == value_view(color_items@[k]));
        }
        assert forall|k: int| 0 <= k < vins_view.len() implies #[trigger] vins_view[k]
            == JsonV::Str(x.squish_vins@[k]@) by {
            assert(vins_view[k] == value_view(vin_items@[k]));
        }
        assert forall|k: int| 0 <= k < equipment_view.len() implies equipment_can(
            #[trigger] equipment_view[k],
        ) && equipment_matches(x.equipment@[k], equipment_view[k]) by {
            assert(equipment_view[k] == value_view(equipment_items@[k]));
        }
    }
    let r = mk_obj(pairs);
    proof {
        assert(dfld_arr(value_view(r), "options"@) == Some(options_view));
        assert(dfld_arr(value_view(r), "colors"@) == Some(colors_view));
        assert(dfld_arr(value_view(r), "squishVins"@) == Some(vins_view));
        assert(dfld_arr(value_view(r), "equipment"@) == Some(equipment_view));
    }
    r
}

/// Encode a model year, its style list included, as an object that
/// decodes back to it.
#[verifier::loop_isolation(false)]
pub fn encode_year(x: &Year) -> (r: serde_json::Value)
    ensures
        value_view(r) is Obj,
        year_can(value_view(r)),
        year_matches(*x, value_view(r)),
{
    let mut items: Vec<serde_json::Value> = Vec::new();
    let n = x.styles.len();
    let mut i: usize = 0;
    while i < n
        invariant
            i <= n,
            items@.len() == i,
            forall|k: int| 0 <= k < i ==> style_can(value_view(#[trigger] items@[k])),
            forall|k: int|
                0 <= k < i ==> style_matches(x.styles@[k], value_view(#[trigger] items@[k])),
        decreases n - i,
    {
        items.push(encode_style(&x.styles[i]));
        i = i + 1;
    }
    let ghost items_view = items@.map_values(|y: serde_json::Value| value_view(y));
    let mut pairs: Vec<(String, serde_json::Value)> = Vec::new();
    pairs.push((String::from_str("id"), mk_u64(x.id as u64)));
    pairs.push((String::from_str("year"), mk_u64(x.year as u64)));
    pairs.push((String::from_str("styles"), mk_arr(items)));
    proof {
        reveal_strlit("id");
        reveal_strlit("year");
        reveal_strlit("styles");
        let ps = enc_pairs(pairs@);
        assert(ps[0].0 == "id"@);
        assert(ps[1].0 == "year"@);
        assert(ps[2].0 == "styles"@);
        lemma_pairs_to_map_lookup(ps, 0);
        lemma_pairs_to_map_lookup(ps, 1);
        lemma_pairs_to_map_lookup(ps, 2);
        assert(ps[2].1 == JsonV::Arr(items_view));
        assert forall|k: int| 0 <= k < items_view.len() implies style_can(
            #[trigger] items_view[k],
        ) && style_matches(x.styles@[k], items_view[k]) by {
            assert(items_view[k] == value_view(items@[k]));
        }
    }
    let r = mk_obj(pairs);
    proof {
        assert(dfld_arr(value_view(r), "styles"@) == Some(items_view));
    }
    r
}

/// Encode a model, its year list included, as an object that decodes
/// back to it.
#[verifier::loop_isolation(false)]
pub fn encode_model(x: &Model) -> (r: serde_json::Value)
    ensures
        value_view(r) is Obj,
        model_can(value_view(r)),
        model_matches(*x, value_view(r)),
{
    let mut items: Vec<serde_json::Value> = Vec::new();
    let n = x.years.len();
    let mut i: usize = 0;
    while i < n
        invariant
            i <= n,
            items@.len() == i,
            forall|k: int| 0 <= k < i ==> year_can(value_view(#[trigger] items@[k])),
            forall|k: int|
                0 <= k < i ==> year_matches(x.years@[k], value_view(#[trigger] items@[k])),
        decreases n - i,
    {
        items.push(encode_year(&x.years[i]));
        i = i + 1;
    }
    let ghost items_view = items@.map_values(|y: serde_json::Value| value_view(y));
    let mut pairs: Vec<(String, serde_json::Value)> = Vec::new();
    pairs.push((String::from_str("id"), mk_str(x.id.as_str())));
    pairs.push((String::from_str("name"), mk_str(x.name.as_str())));
    pairs.push((String::from_str("niceName"), mk_str(x.nice_name.as_str())));
    pairs.push((String::from_str("years"), mk_arr(items)));
    proof {
        reveal_strlit("id");
        reveal_strlit("name");
        reveal_strlit("niceName");
        reveal_strlit("years");
        let ps = enc_pairs(pairs@);
        assert(ps[0].0 == "id"@);
        assert(ps[1].0 == "name"@);
        assert(ps[2].0 == "niceName"@);
        assert(ps[3].0 == "years"@);
        lemma_pairs_to_map_lookup(ps, 0);
        lemma_pairs_to_map_lookup(ps, 1);
        lemma_pairs_to_map_lookup(ps, 2);
        lemma_pairs_to_map_lookup(ps, 3);
        assert(ps[3].1 == JsonV::Arr(items_view));
        assert forall|k: int| 0 <= k < items_view.len() implies year_can(
            #[trigger] items_view[k],
        ) && year_matches(x.years@[k], items_view[k]) by {
            assert(items_view[k] == value_view(items@[k]));
        }
    }
    let r = mk_obj(pairs);
    proof {
        assert(dfld_arr(value_view(r), "years"@) == Some(items_view));
    }
    r
}

/// Encode a make, its model list included, as an object that decodes
/// back to it.
#[verifier::loop_isolation(false)]
pub fn encode_make(x: &Make) -> (r: serde_json::Value)
    ensures
        value_view(r) is Obj,
        make_can(value_view(r)),
        make_matches(*x, value_view(r)),
{
    let mut items: Vec<serde_json::Value> = Vec::new();
    let n = x.models.len();
    let mut i: usize = 0;
    while i < n
        invariant
            i <= n,
            items@.len() == i,
            forall|k: int| 0 <= k < i ==> model_can(value_view(#[trigger] items@[k])),
            forall|k: int|
                0 <= k < i ==> model_matches(x.models@[k], value_view(#[trigger] items@[k])),
        decreases n - i,
    {
        items.push(encode_model(&x.models[i]));
        i = i + 1;
    }
    let ghost items_view = items@.map_values(|y: serde_json::Value| value_view(y));
    let mut pairs: Vec<(String, serde_json::Value)> = Vec::new();
    pairs.push((String::from_str("id"), mk_u64(x.id as u64)));
    pairs.push((String::from_str("name"), mk_str(x.name.as_str())));
    pairs.push((String::from_str("niceName"), mk_str(x.nice_name.as_str())));
    pairs.push((String::from_str("models"), mk_arr(items)));
    proof {
        reveal_strlit("id");
        reveal_strlit("name");
        reveal_strlit("niceName");
        reveal_strlit("models");
        let ps = enc_pairs(pairs@);
        assert(ps[0].0 == "id"@);
        assert(ps[1].0 == "name"@);
        assert(ps[2].0 == "niceName"@);
        assert(ps[3].0 == "models"@);
        lemma_pairs_to_map_lookup(ps, 0);
        lemma_pairs_to_map_lookup(ps, 1);
        lemma_pairs_to_map_lookup(ps, 2);
        lemma_pairs_to_map_lookup(ps, 3);
        assert(ps[3].1 == JsonV::Arr(items_view));
        assert forall|k: int| 0 <= k < items_view.len() implies model_can(
            #[trigger] items_view[k],
        ) && model_matches(x.models@[k], items_view[k]) by {
            assert(items_view[k] == value_view(items@[k]));
        }
    }
    let r = mk_obj(pairs);
    proof {
        assert(fld_arr(value_view(r), "models"@) == Some(items_view));
    }
    r
}

// ---------------------------------------------------------------------
// Round trips: decoding is deterministic, so any entity that encodes
// and is decoded again comes back equal to the original.
// ---------------------------------------------------------------------
/// Equality of optional strings by their characters.
pub open spec fn opt_string_eq(a: Option<String>, b: Option<String>) -> bool {
    match (a, b) {
        (None, None) => true,
        (Some(x), Some(y)) => x@ == y@,
        _ => false,
    }
}

/// Equality of attributes by their characters.
pub open spec fn attribute_eq(a: Attribute, b: Attribute) -> bool {
    a.name@ == b.name@ && a.value@ == b.value@
}

/// Pointwise equality of attribute lists.
pub open spec fn attribute_list_eq(a: Seq<Attribute>, b: Seq<Attribute>) -> bool {
    a.len() == b.len() && (forall|i: int|
        0 <= i < a.len() ==> attribute_eq(#[trigger] a[i], #[trigger] b[i]))
}

/// Equality of equipment features by their characters.
pub open spec fn equipment_eq(a: Equipment, b: Equipment) -> bool {
    &&& a.id@ == b.id@
    &&& a.name@ == b.name@
    &&& a.equipment_type@ == b.equipment_type@
    &&& a.availability@ == b.availability@
    &&& attribute_list_eq(a.attributes@, b.attributes@)
}

/// Pointwise equality of equipment lists.
pub open spec fn equipment_list_eq(a: Seq<Equipment>, b: Seq<Equipment>) -> bool {
    a.len() == b.len() && (forall|i: int|
        0 <= i < a.len() ==> equipment_eq(#[trigger] a[i], #[trigger] b[i]))
}

/// Equality of fabric types by their characters.
pub open spec fn fabric_type_eq(a: FabricType, b: FabricType) -> bool {
    a.name@ == b.name@ && a.value@ == b.value@
}

/// Pointwise equality of fabric-type lists.
pub open spec fn fabric_type_list_eq(a: Seq<FabricType>, b: Seq<FabricType>) -> bool {
    a.len() == b.len() && (forall|i: int|
        0 <= i < a.len() ==> fabric_type_eq(#[trigger] a[i], #[trigger] b[i]))
}

/// Equality of color chips by value and characters.
pub open spec fn color_detail_eq(a: ColorDetail, b: ColorDetail) -> bool {
    a.r == b.r && a.g == b.g && a.b == b.b && a.hex@ == b.hex@
}

/// Equality of optional color chips.
pub open spec fn opt_color_detail_eq(a: Option<ColorDetail>, b: Option<ColorDetail>) -> bool {
    match (a, b) {
        (None, None) => true,
        (Some(x), Some(y)) => color_detail_eq(x, y),
        _ => false,
    }
}

/// Equality of chip pairs.
pub open spec fn color_chips_eq(a: ColorChips, b: ColorChips) -> bool {
    opt_color_detail_eq(a.primary, b.primary) && opt_color_detail_eq(a.secondary, b.secondary)
}

/// Equality of optional chip pairs.
pub open spec fn opt_color_chips_eq(a: Option<ColorChips>, b: Option<ColorChips>) -> bool {
    match (a, b) {
        (None, None) => true,
        (Some(x), Some(y)) => color_chips_eq(x, y),
        _ => false,
    }
}

/// Equality of valve detail by characters.
pub open spec fn valve_eq(a: Valve, b: Valve) -> bool {
    opt_string_eq(a.timing, b.timing) && opt_string_eq(a.gear, b.gear)
}

/// Equality of optional valve detail.
pub open spec fn opt_valve_eq(a: Option<Valve>, b: Option<Valve>) -> bool {
    match (a, b) {
        (None, None) => true,
        (Some(x), Some(y)) => valve_eq(x, y),
        _ => false,
    }
}

/// Equality of engines by value and characters.
pub open spec fn engine_eq(a: Engine, b: Engine) -> bool {
    &&& a.id@ == b.id@
    &&& a.name@ == b.name@
    &&& a.equipment_type@ == b.equipment_type@
    &&& a.cylinder == b.cylinder
    &&& a.displacement == b.displacement
    &&& opt_string_eq(a.configuration, b.configuration)
    &&& opt_string_eq(a.fuel_type, b.fuel_type)
    &&& a.horsepower == b.horsepower
    &&& a.torque == b.torque
    &&& a.total_valves == b.total_valves
    &&& opt_string_eq(a.manufacturer_engine_code, b.manufacturer_engine_code)
    &&& a.engine_type@ == b.engine_type@
    &&& a.code@ == b.code@
    &&& a.compressor_type@ == b.compressor_type@
    &&& a.rpm == b.rpm
    &&& opt_valve_eq(a.valve, b.valve)
}

/// Equality of optional engines.
pub open spec fn opt_engine_eq(a: Option<Engine>, b: Option<Engine>) -> bool {
    match (a, b) {
        (None, None) => true,
        (Some(x), Some(y)) => engine_eq(x, y),
        _ => false,
    }
}

/// Equality of transmissions by characters.
pub open spec fn transmission_eq(a: Transmission, b: Transmission) -> bool {
    &&& a.id@ == b.id@
    &&& a.name@ == b.name@
    &&& a.equipment_type@ == b.equipment_type@
    &&& opt_string_eq(a.automatic_type, b.automatic_type)
    &&& a.transmission_type@ == b.transmission_type@
    &&& a.number_of_speeds@ == b.number_of_speeds@
}

/// Equality of optional transmissions.
pub open spec fn opt_transmission_eq(a: Option<Transmission>, b: Option<Transmission>) -> bool {
    match (a, b) {
        (None, None) => true,
        (Some(x), Some(y)) => transmission_eq(x, y),
        _ => false,
    }
}

/// Equality of submodels by characters.
pub open spec fn submodel_eq(a: Submodel, b: Submodel) -> bool {
    &&& opt_string_eq(a.body, b.body)
    &&& opt_string_eq(a.fuel, b.fuel)
    &&& a.model_name@ == b.model_name@
    &&& a.nice_name@ == b.nice_name@
    &&& opt_string_eq(a.tuner, b.tuner)
}

/// Equality of market classifications by characters.
pub open spec fn categories_eq(a: Categories, b: Categories) -> bool {
    &&& a.market@ == b.market@
    &&& opt_string_eq(a.epa_class, b.epa_class)
    &&& a.vehicle_size@ == b.vehicle_size@
    &&& opt_string_eq(a.crossover, b.crossover)
    &&& a.primary_body_type@ == b.primary_body_type@
    &&& a.vehicle_style@ == b.vehicle_style@
    &&& a.vehicle_type@ == b.vehicle_type@
    &&& opt_string_eq(a.manufacturer_cab_type, b.manufacturer_cab_type)
}

/// Equality of optional market classifications.
pub open spec fn opt_categories_eq(a: Option<Categories>, b: Option<Categories>) -> bool {
    match (a, b) {
        (None, None) => true,
        (Some(x), Some(y)) => categories_eq(x, y),
        _ => false,
    }
}

/// Equality of factory options by value and characters.
pub open spec fn car_option_detail_eq(a: CarOptionDetail, b: CarOptionDetail) -> bool {
    &&& a.id@ == b.id@
    &&& a.name@ == b.name@
    &&& opt_string_eq(a.description, b.description)
    &&& a.equipment_type@ == b.equipment_type@
    &&& a.price == b.price
    &&& opt_string_eq(a.manufacture_option_name, b.manufacture_option_name)
    &&& opt_string_eq(a.manufacture_option_code, b.manufacture_option_code)
}

/// Pointwise equality of factory-option lists.
pub open spec fn car_option_detail_list_eq(a: Seq<CarOptionDetail>, b: Seq<CarOptionDetail>) -> bool {
    a.len() == b.len() && (forall|i: int|
        0 <= i < a.len() ==> car_option_detail_eq(#[trigger] a[i], #[trigger] b[i]))
}

/// Equality of factory-option categories.
pub open spec fn car_option_eq(a: CarOption, b: CarOption) -> bool {
    a.category@ == b.category@ && car_option_detail_list_eq(a.options@, b.options@)
}

/// Pointwise equality of factory-option-category lists.
pub open spec fn car_option_list_eq(a: Seq<CarOption>, b: Seq<CarOption>) -> bool {
    a.len() == b.len() && (forall|i: int|
        0 <= i < a.len() ==> car_option_eq(#[trigger] a[i], #[trigger] b[i]))
}

/// Equality of color options by value and characters.
pub open spec fn color_option_eq(a: ColorOption, b: ColorOption) -> bool {
    &&& a.id@ == b.id@
    &&& a.name@ == b.name@
    &&& a.equipment_type@ == b.equipment_type@
    &&& a.price == b.price
    &&& a.manufacture_option_name@ == b.manufacture_option_name@
    &&& a.manufacture_option_code@ == b.manufacture_option_code@
    &&& opt_color_chips_eq(a.color_chips, b.color_chips)
    &&& fabric_type_list_eq(a.fabric_types@, b.fabric_types@)
}

/// Pointwise equality of color-option lists.
pub open spec fn color_option_list_eq(a: Seq<ColorOption>, b: Seq<ColorOption>) -> bool {
    a.len() == b.len() && (forall|i: int|
        0 <= i < a.len() ==> color_option_eq(#[trigger] a[i], #[trigger] b[i]))
}

/// Equality of color categories.
pub open spec fn color_eq(a: Color, b: Color) -> bool {
    a.category@ == b.category@ && color_option_list_eq(a.options@, b.options@)
}

/// Pointwise equality of color-category lists.
pub open spec fn color_list_eq(a: Seq<Color>, b: Seq<Color>) -> bool {
    a.len() == b.len() && (forall|i: int|
        0 <= i < a.len() ==> color_eq(#[trigger] a[i], #[trigger] b[i]))
}

/// Pointwise equality of string lists by characters.
pub open spec fn string_list_eq(a: Seq<String>, b: Seq<String>) -> bool {
    a.len() == b.len() && (forall|i: int| 0 <= i < a.len() ==> (#[trigger] a[i])@ == (
    #[trigger] b[i])@)
}

/// Equality of optional fuel economy.
pub open spec fn opt_mpg_eq(a: Option<MPG>, b: Option<MPG>) -> bool {
    a == b
}

/// Equality of styles: every field, nested entities and sequences
/// included, by value and characters.
pub open spec fn style_eq(a: Style, b: Style) -> bool {
    &&& a.id == b.id
    &&& a.name@ == b.name@
    &&& a.trim@ == b.trim@
    &&& submodel_eq(a.submodel, b.submodel)
    &&& opt_string_eq(a.driven_wheels, b.driven_wheels)
    &&& opt_string_eq(a.num_of_doors, b.num_of_doors)
    &&& opt_engine_eq(a.engine, b.engine)
    &&& opt_transmission_eq(a.transmission, b.transmission)
    &&& car_option_list_eq(a.options@, b.options@)
    &&& color_list_eq(a.colors@, b.colors@)
    &&& opt_string_eq(a.manufacturer_code, b.manufacturer_code)
    &&& a.price == b.price
    &&& opt_categories_eq(a.categories, b.categories)
    &&& string_list_eq(a.squish_vins@, b.squish_vins@)
    &&& opt_mpg_eq(a.mpg, b.mpg)
    &&& equipment_list_eq(a.equipment@, b.equipment@)
}

/// Pointwise equality of style lists.
pub open spec fn style_list_eq(a: Seq<Style>, b: Seq<Style>) -> bool {
    a.len() == b.len() && (forall|i: int|
        0 <= i < a.len() ==> style_eq(#[trigger] a[i], #[trigger] b[i]))
}

/// Equality of model years.
pub open spec fn year_eq(a: Year, b: Year) -> bool {
    a.id == b.id && a.year == b.year && style_list_eq(a.styles@, b.styles@)
}

/// Pointwise equality of year lists.
pub open spec fn year_list_eq(a: Seq<Year>, b: Seq<Year>) -> bool {
    a.len() == b.len() && (forall|i: int|
        0 <= i < a.len() ==> year_eq(#[trigger] a[i], #[trigger] b[i]))
}

/// Equality of models.
pub open spec fn model_eq(a: Model, b: Model) -> bool {
    &&& a.id@ == b.id@
    &&& a.name@ == b.name@
    &&& a.nice_name@ == b.nice_name@
    &&& year_list_eq(a.years@, b.years@)
}

/// Pointwise equality of model lists.
pub open spec fn model_list_eq(a: Seq<Model>, b: Seq<Model>) -> bool {
    a.len() == b.len() && (forall|i: int|
        0 <= i < a.len() ==> model_eq(#[trigger] a[i], #[trigger] b[i]))
}

/// Equality of makes.
pub open spec fn make_eq(a: Make, b: Make) -> bool {
    &&& a.id == b.id
    &&& a.name@ == b.name@
    &&& a.nice_name@ == b.nice_name@
    &&& model_list_eq(a.models@, b.models@)
}

/// Any two fuel-economy entities decoded from one tree are equal, so
/// an encoded entity decodes back to itself.
pub proof fn lemma_mpg_roundtrip(a: MPG, b: MPG, j: JsonV)
    requires
        mpg_matches(a, j),
        mpg_matches(b, j),
    ensures
        a == b,
{
}

/// Any two engine-speed entities decoded from one tree are equal.
pub proof fn lemma_rpm_roundtrip(a: RPM, b: RPM, j: JsonV)
    requires
        rpm_matches(a, j),
        rpm_matches(b, j),
    ensures
        a == b,
{
}

/// Any two valve entities decoded from one tree agree character for
/// character.
pub proof fn lemma_valve_roundtrip(a: Valve, b: Valve, j: JsonV)
    requires
        valve_matches(a, j),
        valve_matches(b, j),
    ensures
        valve_eq(a, b),
{
}

/// Any two attributes decoded from one tree agree character for
/// character.
pub proof fn lemma_attribute_roundtrip(a: Attribute, b: Attribute, j: JsonV)
    requires
        attribute_matches(a, j),
        attribute_matches(b, j),
    ensures
        attribute_eq(a, b),
{
}

/// Any two fabric types decoded from one tree agree character for
/// character.
pub proof fn lemma_fabric_type_roundtrip(a: FabricType, b: FabricType, j: JsonV)
    requires
        fabric_type_matches(a, j),
        fabric_type_matches(b, j),
    ensures
        fabric_type_eq(a, b),
{
}

/// Any two color chips decoded from one tree agree.
pub proof fn lemma_color_detail_roundtrip(a: ColorDetail, b: ColorDetail, j: JsonV)
    requires
        color_detail_matches(a, j),
        color_detail_matches(b, j),
    ensures
        color_detail_eq(a, b),
{
}

/// Any two color-chip pairs decoded from one tree agree.
pub proof fn lemma_color_chips_roundtrip(a: ColorChips, b: ColorChips, j: JsonV)
    requires
        color_chips_matches(a, j),
        color_chips_matches(b, j),
    ensures
        color_chips_eq(a, b),
{
    if a.primary is Some {
        let x = j_field(j, "primary"@)->0;
        lemma_color_detail_roundtrip(a.primary->0, b.primary->0, x);
    }
    if a.secondary is Some {
        let x = j_field(j, "secondary"@)->0;
        lemma_color_detail_roundtrip(a.secondary->0, b.secondary->0, x);
    }
}

/// Any two submodels decoded from one tree agree character for
/// character.
pub proof fn lemma_submodel_roundtrip(a: Submodel, b: Submodel, j: JsonV)
    requires
        submodel_matches(a, j),
        submodel_matches(b, j),
    ensures
        submodel_eq(a, b),
{
}

/// Any two transmissions decoded from one tree agree character for
/// character.
pub proof fn lemma_transmission_roundtrip(a: Transmission, b: Transmission, j: JsonV)
    requires
        transmission_matches(a, j),
        transmission_matches(b, j),
    ensures
        transmission_eq(a, b),
{
}

/// Any two price snapshots decoded from one tree are equal.
pub proof fn lemma_price_roundtrip(a: Price, b: Price, j: JsonV)
    requires
        price_matches(a, j),
        price_matches(b, j),
    ensures
        a == b,
{
}

/// Any two market classifications decoded from one tree agree
/// character for character.
pub proof fn lemma_categories_roundtrip(a: Categories, b: Categories, j: JsonV)
    requires
        categories_matches(a, j),
        categories_matches(b, j),
    ensures
        categories_eq(a, b),
{
}

/// Any two engines decoded from one tree agree character for
/// character, nested speed and valve detail included.
pub proof fn lemma_engine_roundtrip(a: Engine, b: Engine, j: JsonV)
    requires
        engine_matches(a, j),
        engine_matches(b, j),
    ensures
        engine_eq(a, b),
{
    if a.valve is Some {
        let x = j_field(j, "valve"@)->0;
        lemma_valve_roundtrip(a.valve->0, b.valve->0, x);
    }
}

/// Any two equipment features decoded from one tree agree character
/// for character, attribute lists included.
pub proof fn lemma_equipment_roundtrip(a: Equipment, b: Equipment, j: JsonV)
    requires
        equipment_matches(a, j),
        equipment_matches(b, j),
    ensures
        equipment_eq(a, b),
{
    let s = dfld_arr(j, "attributes"@)->0;
    assert forall|i: int| 0 <= i < a.attributes@.len() implies attribute_eq(
        #[trigger] a.attributes@[i],
        #[trigger] b.attributes@[i],
    ) by {
        lemma_attribute_roundtrip(a.attributes@[i], b.attributes@[i], s[i]);
    }
}

/// Any two factory options decoded from one tree are equal.
pub proof fn lemma_car_option_detail_roundtrip(a: CarOptionDetail, b: CarOptionDetail, j: JsonV)
    requires
        car_option_detail_matches(a, j),
        car_option_detail_matches(b, j),
    ensures
        car_option_detail_eq(a, b),
{
    if a.price is Some {
        let x = j_field(j, "price"@)->0;
        lemma_price_roundtrip(a.price->0, b.price->0, x);
    }
}

/// Any two factory-option categories decoded from one tree are equal.
pub proof fn lemma_car_option_roundtrip(a: CarOption, b: CarOption, j: JsonV)
    requires
        car_option_matches(a, j),
        car_option_matches(b, j),
    ensures
        car_option_eq(a, b),
{
    let s = dfld_arr(j, "options"@)->0;
    assert forall|i: int| 0 <= i < a.options@.len() implies car_option_detail_eq(
        #[trigger] a.options@[i],
        #[trigger] b.options@[i],
    ) by {
        lemma_car_option_detail_roundtrip(a.options@[i], b.options@[i], s[i]);
    }
}

/// Any two color options decoded from one tree are equal.
pub proof fn lemma_color_option_roundtrip(a: ColorOption, b: ColorOption, j: JsonV)
    requires
        color_option_matches(a, j),
        color_option_matches(b, j),
    ensures
        color_option_eq(a, b),
{
    if a.price is Some {
        let x = j_field(j, "price"@)->0;
        lemma_price_roundtrip(a.price->0, b.price->0, x);
    }
    if a.color_chips is Some {
        let x = j_field(j, "colorChips"@)->0;
        lemma_color_chips_roundtrip(a.color_chips->0, b.color_chips->0, x);
    }
    let s = dfld_arr(j, "fabricTypes"@)->0;
    assert forall|i: int| 0 <= i < a.fabric_types@.len() implies fabric_type_eq(
        #[trigger] a.fabric_types@[i],
        #[trigger] b.fabric_types@[i],
    ) by {
        lemma_fabric_type_roundtrip(a.fabric_types@[i], b.fabric_types@[i], s[i]);
    }
}

/// Any two color categories decoded from one tree are equal.
pub proof fn lemma_color_roundtrip(a: Color, b: Color, j: JsonV)
    requires
        color_matches(a, j),
        color_matches(b, j),
    ensures
        color_eq(a, b),
{
    let s = fld_arr(j, "options"@)->0;
    assert forall|i: int| 0 <= i < a.options@.len() implies color_option_eq(
        #[trigger] a.options@[i],
        #[trigger] b.options@[i],
    ) by {
        lemma_color_option_roundtrip(a.options@[i], b.options@[i], s[i]);
    }
}

/// Any two styles decoded from one tree are equal: no information is
/// lost by an encode/decode cycle anywhere in the style tree.
pub proof fn lemma_style_roundtrip(a: Style, b: Style, j: JsonV)
    requires
        style_matches(a, j),
        style_matches(b, j),
    ensures
        style_eq(a, b),
{
    lemma_submodel_roundtrip(a.submodel, b.submodel, j_field(j, "submodel"@)->0);
    if a.engine is Some {
        let x = j_field(j, "engine"@)->0;
        lemma_engine_roundtrip(a.engine->0, b.engine->0, x);
    }
    if a.transmission is Some {
        let x = j_field(j, "transmission"@)->0;
        lemma_transmission_roundtrip(a.transmission->0, b.transmission->0, x);
    }
    let options_s = dfld_arr(j, "options"@)->0;
    assert forall|i: int| 0 <= i < a.options@.len() implies car_option_eq(
        #[trigger] a.options@[i],
        #[trigger] b.options@[i],
    ) by {
        lemma_car_option_roundtrip(a.options@[i], b.options@[i], options_s[i]);
    }
    let colors_s = dfld_arr(j, "colors"@)->0;
    assert forall|i: int| 0 <= i < a.colors@.len() implies color_eq(
        #[trigger] a.colors@[i],
        #[trigger] b.colors@[i],
    ) by {
        lemma_color_roundtrip(a.colors@[i], b.colors@[i], colors_s[i]);
    }
    if a.price is Some {
        let x = j_field(j, "price"@)->0;
        lemma_price_roundtrip(a.price->0, b.price->0, x);
    }
    if a.categories is Some {
        let x = j_field(j, "categories"@)->0;
        lemma_categories_roundtrip(a.categories->0, b.categories->0, x);
    }
    if a.mpg is Some {
        let x = j_field(j, "MPG"@)->0;
        lemma_mpg_roundtrip(a.mpg->0, b.mpg->0, x);
    }
    let vins_s = dfld_arr(j, "squishVins"@)->0;
    assert forall|i: int| 0 <= i < a.squish_vins@.len() implies (#[trigger] a.squish_vins@[i])@
        == (#[trigger] b.squish_vins@[i])@ by {
        assert(vins_s[i] == JsonV::Str(a.squish_vins@[i]@));
        assert(vins_s[i] == JsonV::Str(b.squish_vins@[i]@));
    }
    let equipment_s = dfld_arr(j, "equipment"@)->0;
    assert forall|i: int| 0 <= i < a.equipment@.len() implies equipment_eq(
        #[trigger] a.equipment@[i],
        #[trigger] b.equipment@[i],
    ) by {
        lemma_equipment_roundtrip(a.equipment@[i], b.equipment@[i], equipment_s[i]);
    }
}

/// Any two model years decoded from one tree are equal.
pub proof fn lemma_year_roundtrip(a: Year, b: Year, j: JsonV)
    requires
        year_matches(a, j),
        year_matches(b, j),
    ensures
        year_eq(a, b),
{
    let s = dfld_arr(j, "styles"@)->0;
    assert forall|i: int| 0 <= i < a.styles@.len() implies style_eq(
        #[trigger] a.styles@[i],
        #[trigger] b.styles@[i],
    ) by {
        lemma_style_roundtrip(a.styles@[i], b.styles@[i], s[i]);
    }
}

/// Any two models decoded from one tree are equal.
pub proof fn lemma_model_roundtrip(a: Model, b: Model, j: JsonV)
    requires
        model_matches(a, j),
        model_matches(b, j),
    ensures
        model_eq(a, b),
{
    let s = dfld_arr(j, "years"@)->0;
    assert forall|i: int| 0 <= i < a.years@.len() implies year_eq(
        #[trigger] a.years@[i],
        #[trigger] b.years@[i],
    ) by {
        lemma_year_roundtrip(a.years@[i], b.years@[i], s[i]);
    }
}

/// Any two makes decoded from one tree are equal.
pub proof fn lemma_make_roundtrip(a: Make, b: Make, j: JsonV)
    requires
        make_matches(a, j),
        make_matches(b, j),
    ensures
        make_eq(a, b),
{
    let s = fld_arr(j, "models"@)->0;
    assert forall|i: int| 0 <= i < a.models@.len() implies model_eq(
        #[trigger] a.models@[i],
        #[trigger] b.models@[i],
    ) by {
        lemma_model_roundtrip(a.models@[i], b.models@[i], s[i]);
    }
}

// ---------------------------------------------------------------------
// Response envelopes
// ---------------------------------------------------------------------
/// When a make-list envelope decodes: the list sits under "makes". A
/// revision's redundant count field beside it is tolerated and ignored;
/// the list's own length is the source of truth.
pub open spec fn makes_env_can(j: JsonV) -> bool {
    fld_arr(j, "makes"@) matches Some(s) && make_list_can(s)
}

/// The make list an envelope decodes to.
pub open spec fn makes_env_matches(xs: Seq<Make>, j: JsonV) -> bool {
    fld_arr(j, "makes"@) matches Some(s) && make_list_matches(xs, s)
}

#[verifier::loop_isolation(false)]
pub fn decode_all_makes(v: &serde_json::Value) -> (r: Result<Vec<Make>, DecodeError>)
    ensures
        r is Ok <==> makes_env_can(value_view(*v)),
        r matches Ok(xs) ==> makes_env_matches(xs@, value_view(*v)),
        r matches Err(e) ==> e == DecodeError::Schema,
{
    let a = f_req_arr(v, "makes")?;
    let ghost s = fld_arr(value_view(*v), "makes"@)->0;
    let mut xs: Vec<Make> = Vec::new();
    let n = a.len();
    let mut i: usize = 0;
    while i < n
        invariant
            i <= n,
            xs@.len() == i,
            forall|k: int| 0 <= k < i ==> make_can(#[trigger] s[k]),
            forall|k: int| 0 <= k < i ==> make_matches(#[trigger] xs@[k], s[k]),
        decreases n - i,
    {
        match decode_make(&a[i]) {
            Ok(o) => xs.push(o),
            Err(e) => {
                proof {
                    assert(value_view(a@[i as int]) == s[i as int]);
                }
                return Err(e);
            },
        }
        i = i + 1;
    }
    Ok(xs)
}

/// When a model-list envelope decodes: the list sits under "models".
pub open spec fn models_env_can(j: JsonV) -> bool {
    fld_arr(j, "models"@) matches Some(s) && model_list_can(s)
}

/// The model list an envelope decodes to.
pub open spec fn models_env_matches(xs: Seq<Model>, j: JsonV) -> bool {
    fld_arr(j, "models"@) matches Some(s) && model_list_matches(xs, s)
}

#[verifier::loop_isolation(false)]
pub fn decode_all_models(v: &serde_json::Value) -> (r: Result<Vec<Model>, DecodeError>)
    ensures
        r is Ok <==> models_env_can(value_view(*v)),
        r matches Ok(xs) ==> models_env_matches(xs@, value_view(*v)),
        r matches Err(e) ==> e == DecodeError::Schema,
{
    let a = f_req_arr(v, "models")?;
    let ghost s = fld_arr(value_view(*v), "models"@)->0;
    let mut xs: Vec<Model> = Vec::new();
    let n = a.len();
    let mut i: usize = 0;
    while i < n
        invariant
            i <= n,
            xs@.len() == i,
            forall|k: int| 0 <= k < i ==> model_can(#[trigger] s[k]),
            forall|k: int| 0 <= k < i ==> model_matches(#[trigger] xs@[k], s[k]),
        decreases n - i,
    {
        match decode_model(&a[i]) {
            Ok(o) => xs.push(o),
            Err(e) => {
                proof {
                    assert(value_view(a@[i as int]) == s[i as int]);
                }
                return Err(e);
            },
        }
        i = i + 1;
    }
    Ok(xs)
}

/// When a style-list envelope decodes: the list sits under "styles".
pub open spec fn styles_env_can(j: JsonV) -> bool {
    fld_arr(j, "styles"@) matches Some(s) && style_list_can(s)
}

/// The style list an envelope decodes to.
pub open spec fn styles_env_matches(xs: Seq<Style>, j: JsonV) -> bool {
    fld_arr(j, "styles"@) matches Some(s) && style_list_matches(xs, s)
}

#[verifier::loop_isolation(false)]
pub fn decode_all_styles(v: &serde_json::Value) -> (r: Result<Vec<Style>, DecodeError>)
    ensures
        r is Ok <==> styles_env_can(value_view(*v)),
        r matches Ok(xs) ==> styles_env_matches(xs@, value_view(*v)),
        r matches Err(e) ==> e == DecodeError::Schema,
{
    let a = f_req_arr(v, "styles")?;
    let ghost s = fld_arr(value_view(*v), "styles"@)->0;
    let mut xs: Vec<Style> = Vec::new();
    let n = a.len();
    let mut i: usize = 0;
    while i < n
        invariant
            i <= n,
            xs@.len() == i,
            forall|k: int| 0 <= k < i ==> style_can(#[trigger] s[k]),
            forall|k: int| 0 <= k < i ==> style_matches(#[trigger] xs@[k], s[k]),
        decreases n - i,
    {
        match decode_style(&a[i]) {
            Ok(o) => xs.push(o),
            Err(e) => {
                proof {
                    assert(value_view(a@[i as int]) == s[i as int]);
                }
                return Err(e);
            },
        }
        i = i + 1;
    }
    Ok(xs)
}

/// When an equipment-list envelope decodes: the list sits under
/// "equipment".
pub open spec fn equipment_env_can(j: JsonV) -> bool {
    fld_arr(j, "equipment"@) matches Some(s) && equipment_list_can(s)
}

/// The equipment list an envelope decodes to.
pub open spec fn equipment_env_matches(xs: Seq<Equipment>, j: JsonV) -> bool {
    fld_arr(j, "equipment"@) matches Some(s) && equipment_list_matches(xs, s)
}

#[verifier::loop_isolation(false)]
pub fn decode_all_equipment(v: &serde_json::Value) -> (r: Result<Vec<Equipment>, DecodeError>)
    ensures
        r is Ok <==> equipment_env_can(value_view(*v)),
        r matches Ok(xs) ==> equipment_env_matches(xs@, value_view(*v)),
        r matches Err(e) ==> e == DecodeError::Schema,
{
    let a = f_req_arr(v, "equipment")?;
    let ghost s = fld_arr(value_view(*v), "equipment"@)->0;
    let mut xs: Vec<Equipment> = Vec::new();
    let n = a.len();
    let mut i: usize = 0;
    while i < n
        invariant
            i <= n,
            xs@.len() == i,
            forall|k: int| 0 <= k < i ==> equipment_can(#[trigger] s[k]),
            forall|k: int| 0 <= k < i ==> equipment_matches(#[trigger] xs@[k], s[k]),
        decreases n - i,
    {
        match decode_equipment(&a[i]) {
            Ok(o) => xs.push(o),
            Err(e) => {
                proof {
                    assert(value_view(a@[i as int]) == s[i as int]);
                }
                return Err(e);
            },
        }
        i = i + 1;
    }
    Ok(xs)
}

/// Parse a response body and decode the make-list envelope. Malformed
/// JSON is a syntax failure; well-formed JSON of the wrong shape is a
/// schema failure — never a partial result.
pub fn decode_makes_response(body: &[u8]) -> (r: Result<Vec<Make>, DecodeError>)
    ensures
        parsed_json(body@) is None ==> r == Err::<Vec<Make>, DecodeError>(DecodeError::Syntax),
        parsed_json(body@) matches Some(j) ==> {
            &&& (r is Ok <==> makes_env_can(j))
            &&& (r matches Ok(xs) ==> makes_env_matches(xs@, j))
            &&& (r matches Err(e) ==> e == DecodeError::Schema)
        },
{
    match parse_value(body) {
        Ok(val) => decode_all_makes(&val),
        Err(_) => Err(DecodeError::Syntax),
    }
}

/// Parse a response body and decode the model-list envelope.
pub fn decode_models_response(body: &[u8]) -> (r: Result<Vec<Model>, DecodeError>)
    ensures
        parsed_json(body@) is None ==> r == Err::<Vec<Model>, DecodeError>(DecodeError::Syntax),
        parsed_json(body@) matches Some(j) ==> {
            &&& (r is Ok <==> models_env_can(j))
            &&& (r matches Ok(xs) ==> models_env_matches(xs@, j))
            &&& (r matches Err(e) ==> e == DecodeError::Schema)
        },
{
    match parse_value(body) {
        Ok(val) => decode_all_models(&val),
        Err(_) => Err(DecodeError::Syntax),
    }
}

/// Parse a response body and decode the style-list envelope.
pub fn decode_styles_response(body: &[u8]) -> (r: Result<Vec<Style>, DecodeError>)
    ensures
        parsed_json(body@) is None ==> r == Err::<Vec<Style>, DecodeError>(DecodeError::Syntax),
        parsed_json(body@) matches Some(j) ==> {
            &&& (r is Ok <==> styles_env_can(j))
            &&& (r matches Ok(xs) ==> styles_env_matches(xs@, j))
            &&& (r matches Err(e) ==> e == DecodeError::Schema)
        },
{
    match parse_value(body) {
        Ok(val) => decode_all_styles(&val),
        Err(_) => Err(DecodeError::Syntax),
    }
}

/// Parse a response body and decode the equipment-list envelope.
pub fn decode_equipment_response(body: &[u8]) -> (r: Result<Vec<Equipment>, DecodeError>)
    ensures
        parsed_json(body@) is None ==> r == Err::<Vec<Equipment>, DecodeError>(
            DecodeError::Syntax,
        ),
        parsed_json(body@) matches Some(j) ==> {
            &&& (r is Ok <==> equipment_env_can(j))
            &&& (r matches Ok(xs) ==> equipment_env_matches(xs@, j))
            &&& (r matches Err(e) ==> e == DecodeError::Schema)
        },
{
    match parse_value(body) {
        Ok(val) => decode_all_equipment(&val),
        Err(_) => Err(DecodeError::Syntax),
    }
}

} // verus!
