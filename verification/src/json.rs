//! Parsing an introspection response into the schema model. serde_json
//! parses the text into a JSON value; the shape of the introspection
//! response — which keys hold which parts of the schema, and which aliases
//! they go by — is this library's own logic, written here as verified
//! extraction from that value.
//!
//! The parsed value is opaque, so it is given a model: a family of
//! uninterpreted observation functions, one per trusted accessor, each
//! claiming only that the accessor is a function of the value (and, for the
//! parse itself, of the text). The extraction logic is specified over that
//! model, so `Schema::from_str`'s contract says, input by input, when it
//! returns `Ok`, what the parsed schema holds, and which fixed message each
//! structural failure carries.

use crate::schema::{Directive, Enum, Field, Input, Schema, SchemaError, Type, TypeRef};
use vstd::prelude::*;

verus! {

/// How deep a chain of type-reference wrappers the extractor will follow.
/// serde_json refuses documents nested beyond its own recursion limit of
/// 128, so a parsed value never holds a longer chain and the bound is never
/// the reason an extraction fails.
pub const TYPE_REF_DEPTH: u32 = 128;

#[verifier::external_type_specification]
#[verifier::external_body]
pub struct ExValue(serde_json::Value);

#[verifier::external_type_specification]
#[verifier::external_body]
pub struct ExJsonError(serde_json::Error);

/// Whether serde_json parses the text as a JSON document; the outcome
/// depends on the text alone.
pub uninterp spec fn json_parse_ok(s: Seq<char>) -> bool;

/// The JSON value serde_json parses the text to, when it parses; a function
/// of the text alone.
pub uninterp spec fn json_value_of(s: Seq<char>) -> serde_json::Value;

/// Whether the value is a JSON object; what `Value::is_object` observes.
pub uninterp spec fn is_object_value(v: serde_json::Value) -> bool;

/// Whether the value is JSON null; what `Value::is_null` observes.
pub uninterp spec fn is_null_value(v: serde_json::Value) -> bool;

/// The member of an object value under a key, absent when the value is not
/// an object or has no such member; what `Value::get` observes.
pub uninterp spec fn member_value(v: serde_json::Value, key: Seq<char>) -> Option<
    serde_json::Value,
>;

/// The characters of a string value, absent when the value is not a string;
/// what `Value::as_str` observes.
pub uninterp spec fn string_value(v: serde_json::Value) -> Option<Seq<char>>;

/// The boolean of a boolean value, absent when the value is not a boolean;
/// what `Value::as_bool` observes.
pub uninterp spec fn bool_value(v: serde_json::Value) -> Option<bool>;

/// The elements of an array value, absent when the value is not an array;
/// what `Value::as_array` observes.
pub uninterp spec fn array_value(v: serde_json::Value) -> Option<Seq<serde_json::Value>>;

/// Relies on `serde_json::from_str::<Value>`: parses the text as JSON. It
/// succeeds exactly when the text is a well-formed JSON document, and the
/// value it returns depends on the text alone.
#[verifier::external_body]
fn parse_json(text: &str) -> (r: Result<serde_json::Value, serde_json::Error>)
    ensures
        r is Ok <==> json_parse_ok(text@),
        r matches Ok(v) ==> v == json_value_of(text@),
{
    serde_json::from_str(text)
}

/// Relies on `serde_json::Error`'s `Display`: the parser's diagnostic
/// message, with its line and column.
#[verifier::external_body]
fn json_error_message(e: &serde_json::Error) -> String {
    e.to_string()
}

/// Relies on `serde_json::Value::is_object`: whether the value is a JSON
/// object; a function of the value alone.
#[verifier::external_body]
fn value_is_object(v: &serde_json::Value) -> (r: bool)
    ensures
        r == is_object_value(*v),
{
    v.is_object()
}

/// Relies on `serde_json::Value::is_null`: whether the value is JSON null;
/// a function of the value alone.
#[verifier::external_body]
fn value_is_null(v: &serde_json::Value) -> (r: bool)
    ensures
        r == is_null_value(*v),
{
    v.is_null()
}

/// Relies on `serde_json::Value::get`: the member of a JSON object under
/// the key; `None` when the value is not an object or the key is absent; a
/// function of the value and the key's characters alone.
#[verifier::external_body]
fn value_get<'a>(v: &'a serde_json::Value, key: &str) -> (r: Option<&'a serde_json::Value>)
    ensures
        match r {
            Option::Some(m) => member_value(*v, key@) == Option::Some(*m),
            Option::None => member_value(*v, key@) is None,
        },
{
    v.get(key)
}

/// Relies on `serde_json::Value::as_str`: the owned text of a JSON string
/// value; `None` when the value is not a string; a function of the value
/// alone.
#[verifier::external_body]
fn value_as_str(v: &serde_json::Value) -> (r: Option<String>)
    ensures
        match r {
            Option::Some(s) => string_value(*v) == Option::Some(s@),
            Option::None => string_value(*v) is None,
        },
{
    match v.as_str() {
        Some(s) => Some(s.to_string()),
        None => None,
    }
}

/// Relies on `serde_json::Value::as_bool`: the boolean of a JSON boolean
/// value; `None` when the value is not a boolean; a function of the value
/// alone.
#[verifier::external_body]
fn value_as_bool(v: &serde_json::Value) -> (r: Option<bool>)
    ensures
        r == bool_value(*v),
{
    v.as_bool()
}

/// Relies on `serde_json::Value::as_array`: the elements of a JSON array
/// value; `None` when the value is not an array; a function of the value
/// alone.
#[verifier::external_body]
fn value_as_array<'a>(v: &'a serde_json::Value) -> (r: Option<&'a Vec<serde_json::Value>>)
    ensures
        match r {
            Option::Some(a) => array_value(*v) == Option::Some(a@),
            Option::None => array_value(*v) is None,
        },
{
    v.as_array()
}

/// The member a field is read from: the primary key when present, else the
/// alias.
pub open spec fn member_lookup(v: serde_json::Value, key: Seq<char>, alias: Seq<char>) -> Option<
    serde_json::Value,
> {
    match member_value(v, key) {
        Option::Some(m) => Option::Some(m),
        Option::None => member_value(v, alias),
    }
}

/// Whether an optional string field extracts cleanly: the member is absent,
/// null, or a string.
pub open spec fn opt_string_ok(v: serde_json::Value, key: Seq<char>, alias: Seq<char>) -> bool {
    match member_lookup(v, key, alias) {
        Option::Some(m) => is_null_value(m) || string_value(m) is Some,
        Option::None => true,
    }
}

/// The optional string a field extracts to: absent members and nulls give
/// nothing, strings give their characters.
pub open spec fn opt_string_val(v: serde_json::Value, key: Seq<char>, alias: Seq<char>) -> Option<
    Seq<char>,
> {
    match member_lookup(v, key, alias) {
        Option::Some(m) => if is_null_value(m) {
            Option::None
        } else {
            string_value(m)
        },
        Option::None => Option::None,
    }
}

/// Whether an optional boolean field extracts cleanly.
pub open spec fn opt_bool_ok(v: serde_json::Value, key: Seq<char>, alias: Seq<char>) -> bool {
    match member_lookup(v, key, alias) {
        Option::Some(m) => is_null_value(m) || bool_value(m) is Some,
        Option::None => true,
    }
}

/// The optional boolean a field extracts to.
pub open spec fn opt_bool_val(v: serde_json::Value, key: Seq<char>, alias: Seq<char>) -> Option<
    bool,
> {
    match member_lookup(v, key, alias) {
        Option::Some(m) => if is_null_value(m) {
            Option::None
        } else {
            bool_value(m)
        },
        Option::None => Option::None,
    }
}

/// Whether an optional array field extracts cleanly: the member is absent,
/// null, or an array.
pub open spec fn opt_array_ok(v: serde_json::Value, key: Seq<char>, alias: Seq<char>) -> bool {
    match member_lookup(v, key, alias) {
        Option::Some(m) => is_null_value(m) || array_value(m) is Some,
        Option::None => true,
    }
}

/// The optional element list an array field extracts to.
pub open spec fn opt_array_val(v: serde_json::Value, key: Seq<char>, alias: Seq<char>) -> Option<
    Seq<serde_json::Value>,
> {
    match member_lookup(v, key, alias) {
        Option::Some(m) => if is_null_value(m) {
            Option::None
        } else {
            array_value(m)
        },
        Option::None => Option::None,
    }
}

fn invalid_structure() -> (r: SchemaError)
    ensures
        r@ == "invalid schema structure"@,
{
    SchemaError::new("invalid schema structure")
}

fn get_member<'a>(v: &'a serde_json::Value, key: &str, alias: &str) -> (r: Option<
    &'a serde_json::Value,
>)
    ensures
        match r {
            Option::Some(m) => member_lookup(*v, key@, alias@) == Option::Some(*m),
            Option::None => member_lookup(*v, key@, alias@) is None,
        },
{
    match value_get(v, key) {
        Some(m) => Some(m),
        None => value_get(v, alias),
    }
}

fn opt_string_member(v: &serde_json::Value, key: &str, alias: &str) -> (r: Result<
    Option<String>,
    SchemaError,
>)
    ensures
        r is Ok <==> opt_string_ok(*v, key@, alias@),
        r matches Ok(o) ==> o.deep_view() == opt_string_val(*v, key@, alias@),
        r matches Err(e) ==> e@ == "invalid schema structure"@,
{
    match get_member(v, key, alias) {
        None => Ok(None),
        Some(m) => {
            if value_is_null(m) {
                Ok(None)
            } else {
                match value_as_str(m) {
                    Some(s) => Ok(Some(s)),
                    None => Err(invalid_structure()),
                }
            }
        },
    }
}

fn opt_bool_member(v: &serde_json::Value, key: &str, alias: &str) -> (r: Result<
    Option<bool>,
    SchemaError,
>)
    ensures
        r is Ok <==> opt_bool_ok(*v, key@, alias@),
        r matches Ok(o) ==> o == opt_bool_val(*v, key@, alias@),
        r matches Err(e) ==> e@ == "invalid schema structure"@,
{
    match get_member(v, key, alias) {
        None => Ok(None),
        Some(m) => {
            if value_is_null(m) {
                Ok(None)
            } else {
                match value_as_bool(m) {
                    Some(b) => Ok(Some(b)),
                    None => Err(invalid_structure()),
                }
            }
        },
    }
}

fn opt_array_member<'a>(v: &'a serde_json::Value, key: &str, alias: &str) -> (r: Result<
    Option<&'a Vec<serde_json::Value>>,
    SchemaError,
>)
    ensures
        r is Ok <==> opt_array_ok(*v, key@, alias@),
        r matches Ok(o) ==> (match o {
            Option::Some(a) => opt_array_val(*v, key@, alias@) == Option::Some(a@),
            Option::None => opt_array_val(*v, key@, alias@) is None,
        }),
        r matches Err(e) ==> e@ == "invalid schema structure"@,
{
    match get_member(v, key, alias) {
        None => Ok(None),
        Some(m) => {
            if value_is_null(m) {
                Ok(None)
            } else {
                match value_as_array(m) {
                    Some(a) => Ok(Some(a)),
                    None => Err(invalid_structure()),
                }
            }
        },
    }
}

/// Whether a type reference extracts cleanly from the value within the
/// remaining depth: an object whose name and kind are optional strings and
/// whose inner reference, when present and non-null, extracts at one less
/// depth.
pub open spec fn type_ref_extract_ok(v: serde_json::Value, fuel: nat) -> bool
    decreases fuel,
{
    fuel > 0 && is_object_value(v) && opt_string_ok(v, "name"@, "name"@) && opt_string_ok(
        v,
        "kind"@,
        "kind"@,
    ) && match member_lookup(v, "of_type"@, "ofType"@) {
        Option::Some(m) => is_null_value(m) || type_ref_extract_ok(m, (fuel - 1) as nat),
        Option::None => true,
    }
}

/// Whether the type reference is exactly what the value extracts to.
pub open spec fn type_ref_matches(t: TypeRef, v: serde_json::Value, fuel: nat) -> bool
    decreases fuel,
{
    t.name.deep_view() == opt_string_val(v, "name"@, "name"@) && t.kind.deep_view()
        == opt_string_val(v, "kind"@, "kind"@) && match member_lookup(v, "of_type"@, "ofType"@) {
        Option::Some(m) => if is_null_value(m) {
            t.of_type is None
        } else {
            t.of_type matches Some(inner) && fuel > 0 && type_ref_matches(
                *inner,
                m,
                (fuel - 1) as nat,
            )
        },
        Option::None => t.of_type is None,
    }
}

fn type_ref_from_value(v: &serde_json::Value, fuel: u32) -> (r: Result<TypeRef, SchemaError>)
    ensures
        r is Ok <==> type_ref_extract_ok(*v, fuel as nat),
        r matches Ok(t) ==> type_ref_matches(t, *v, fuel as nat),
        r matches Err(e) ==> e@ == "invalid schema structure"@,
    decreases fuel,
{
    if fuel == 0 {
        return Err(invalid_structure());
    }
    if !value_is_object(v) {
        return Err(invalid_structure());
    }
    let name = opt_string_member(v, "name", "name")?;
    let kind = opt_string_member(v, "kind", "kind")?;
    let of_type = match get_member(v, "of_type", "ofType") {
        None => None,
        Some(inner) => {
            if value_is_null(inner) {
                None
            } else {
                Some(Box::new(type_ref_from_value(inner, fuel - 1)?))
            }
        },
    };
    Ok(TypeRef { name, kind, of_type })
}

/// Whether every element of the list extracts cleanly as a type reference.
pub open spec fn type_refs_extract_ok(elems: Seq<serde_json::Value>) -> bool {
    forall|i: int|
        0 <= i < elems.len() ==> type_ref_extract_ok(#[trigger] elems[i], TYPE_REF_DEPTH as nat)
}

/// Whether the type references are exactly what the elements extract to.
pub open spec fn type_refs_match(xs: Seq<TypeRef>, elems: Seq<serde_json::Value>) -> bool {
    xs.len() == elems.len() && forall|i: int|
        0 <= i < elems.len() ==> type_ref_matches(#[trigger] xs[i], elems[i], TYPE_REF_DEPTH as nat)
}

/// Whether an optional list of type references extracts cleanly.
pub open spec fn opt_type_refs_ok(v: serde_json::Value, key: Seq<char>, alias: Seq<char>) -> bool {
    opt_array_ok(v, key, alias) && match opt_array_val(v, key, alias) {
        Option::Some(elems) => type_refs_extract_ok(elems),
        Option::None => true,
    }
}

/// Whether the optional list of type references is exactly what the field
/// extracts to.
pub open spec fn opt_type_refs_matches(
    o: Option<Vec<TypeRef>>,
    v: serde_json::Value,
    key: Seq<char>,
    alias: Seq<char>,
) -> bool {
    match opt_array_val(v, key, alias) {
        Option::Some(elems) => o matches Some(xs) && type_refs_match(xs@, elems),
        Option::None => o is None,
    }
}

fn opt_type_refs_member(v: &serde_json::Value, key: &str, alias: &str) -> (r: Result<
    Option<Vec<TypeRef>>,
    SchemaError,
>)
    ensures
        r is Ok <==> opt_type_refs_ok(*v, key@, alias@),
        r matches Ok(o) ==> opt_type_refs_matches(o, *v, key@, alias@),
        r matches Err(e) ==> e@ == "invalid schema structure"@,
{
    match opt_array_member(v, key, alias)? {
        None => Ok(None),
        Some(arr) => {
            let mut out: Vec<TypeRef> = Vec::new();
            let n = arr.len();
            let mut i: usize = 0;
            while i < n
                invariant
                    i <= n,
                    n == arr@.len(),
                    out@.len() == i,
                    opt_array_ok(*v, key@, alias@),
                    opt_array_val(*v, key@, alias@) == Option::Some(arr@),
                    forall|k: int|
                        0 <= k < i ==> type_ref_extract_ok(#[trigger] arr@[k], TYPE_REF_DEPTH as nat),
                    forall|k: int|
                        0 <= k < i ==> type_ref_matches(
                            #[trigger] out@[k],
                            arr@[k],
                            TYPE_REF_DEPTH as nat,
                        ),
                decreases n - i,
            {
                out.push(type_ref_from_value(&arr[i], TYPE_REF_DEPTH)?);
                i = i + 1;
            }
            Ok(Some(out))
        },
    }
}

/// Whether an input value extracts cleanly: an object whose name,
/// description and default value are optional strings and whose type, when
/// present and non-null, extracts as a type reference.
pub open spec fn input_extract_ok(v: serde_json::Value) -> bool {
    is_object_value(v) && opt_string_ok(v, "name"@, "name"@) && opt_string_ok(
        v,
        "description"@,
        "description"@,
    ) && (match member_lookup(v, "input_type"@, "type"@) {
        Option::Some(m) => is_null_value(m) || type_ref_extract_ok(m, TYPE_REF_DEPTH as nat),
        Option::None => true,
    }) && opt_string_ok(v, "default_value"@, "defaultValue"@)
}

/// Whether the input is exactly what the value extracts to.
pub open spec fn input_matches(x: Input, v: serde_json::Value) -> bool {
    x.name.deep_view() == opt_string_val(v, "name"@, "name"@) && x.description.deep_view()
        == opt_string_val(v, "description"@, "description"@) && (match member_lookup(
        v,
        "input_type"@,
        "type"@,
    ) {
        Option::Some(m) => if is_null_value(m) {
            x.input_type is None
        } else {
            x.input_type matches Some(t) && type_ref_matches(t, m, TYPE_REF_DEPTH as nat)
        },
        Option::None => x.input_type is None,
    }) && x.default_value.deep_view() == opt_string_val(v, "default_value"@, "defaultValue"@)
}

fn input_from_value(v: &serde_json::Value) -> (r: Result<Input, SchemaError>)
    ensures
        r is Ok <==> input_extract_ok(*v),
        r matches Ok(x) ==> input_matches(x, *v),
        r matches Err(e) ==> e@ == "invalid schema structure"@,
{
    if !value_is_object(v) {
        return Err(invalid_structure());
    }
    let name = opt_string_member(v, "name", "name")?;
    let description = opt_string_member(v, "description", "description")?;
    let input_type = match get_member(v, "input_type", "type") {
        None => None,
        Some(m) => {
            if value_is_null(m) {
                None
            } else {
                Some(type_ref_from_value(m, TYPE_REF_DEPTH)?)
            }
        },
    };
    let default_value = opt_string_member(v, "default_value", "defaultValue")?;
    Ok(Input { name, description, input_type, default_value })
}

/// Whether every element of the list extracts cleanly as an input value.
pub open spec fn inputs_extract_ok(elems: Seq<serde_json::Value>) -> bool {
    forall|i: int| 0 <= i < elems.len() ==> input_extract_ok(#[trigger] elems[i])
}

/// Whether the inputs are exactly what the elements extract to.
pub open spec fn inputs_match(xs: Seq<Input>, elems: Seq<serde_json::Value>) -> bool {
    xs.len() == elems.len() && forall|i: int|
        0 <= i < elems.len() ==> input_matches(#[trigger] xs[i], elems[i])
}

/// Whether an optional list of input values extracts cleanly.
pub open spec fn opt_inputs_ok(v: serde_json::Value, key: Seq<char>, alias: Seq<char>) -> bool {
    opt_array_ok(v, key, alias) && match opt_array_val(v, key, alias) {
        Option::Some(elems) => inputs_extract_ok(elems),
        Option::None => true,
    }
}

/// Whether the optional list of inputs is exactly what the field extracts
/// to.
pub open spec fn opt_inputs_matches(
    o: Option<Vec<Input>>,
    v: serde_json::Value,
    key: Seq<char>,
    alias: Seq<char>,
) -> bool {
    match opt_array_val(v, key, alias) {
        Option::Some(elems) => o matches Some(xs) && inputs_match(xs@, elems),
        Option::None => o is None,
    }
}

fn opt_inputs_member(v: &serde_json::Value, key: &str, alias: &str) -> (r: Result<
    Option<Vec<Input>>,
    SchemaError,
>)
    ensures
        r is Ok <==> opt_inputs_ok(*v, key@, alias@),
        r matches Ok(o) ==> opt_inputs_matches(o, *v, key@, alias@),
        r matches Err(e) ==> e@ == "invalid schema structure"@,
{
    match opt_array_member(v, key, alias)? {
        None => Ok(None),
        Some(arr) => {
            let mut out: Vec<Input> = Vec::new();
            let n = arr.len();
            let mut i: usize = 0;
            while i < n
                invariant
                    i <= n,
                    n == arr@.len(),
                    out@.len() == i,
                    opt_array_ok(*v, key@, alias@),
                    opt_array_val(*v, key@, alias@) == Option::Some(arr@),
                    forall|k: int| 0 <= k < i ==> input_extract_ok(#[trigger] arr@[k]),
                    forall|k: int| 0 <= k < i ==> input_matches(#[trigger] out@[k], arr@[k]),
                decreases n - i,
            {
                out.push(input_from_value(&arr[i])?);
                i = i + 1;
            }
            Ok(Some(out))
        },
    }
}

/// Whether a field extracts cleanly: an object whose name, description and
/// deprecation reason are optional strings, whose deprecation flag is an
/// optional boolean, whose arguments are an optional list of inputs, and
/// whose type, when present and non-null, extracts as a type reference.
pub open spec fn field_extract_ok(v: serde_json::Value) -> bool {
    is_object_value(v) && opt_string_ok(v, "name"@, "name"@) && opt_string_ok(
        v,
        "description"@,
        "description"@,
    ) && opt_inputs_ok(v, "args"@, "args"@) && (match member_lookup(v, "field_type"@, "type"@) {
        Option::Some(m) => is_null_value(m) || type_ref_extract_ok(m, TYPE_REF_DEPTH as nat),
        Option::None => true,
    }) && opt_bool_ok(v, "is_deprecated"@, "isDeprecated"@) && opt_string_ok(
        v,
        "deprecation_reason"@,
        "deprecationReason"@,
    )
}

/// Whether the field is exactly what the value extracts to.
pub open spec fn field_matches(x: Field, v: serde_json::Value) -> bool {
    x.name.deep_view() == opt_string_val(v, "name"@, "name"@) && x.description.deep_view()
        == opt_string_val(v, "description"@, "description"@) && opt_inputs_matches(
        x.args,
        v,
        "args"@,
        "args"@,
    ) && (match member_lookup(v, "field_type"@, "type"@) {
        Option::Some(m) => if is_null_value(m) {
            x.field_type is None
        } else {
            x.field_type matches Some(t) && type_ref_matches(t, m, TYPE_REF_DEPTH as nat)
        },
        Option::None => x.field_type is None,
    }) && x.is_deprecated == opt_bool_val(v, "is_deprecated"@, "isDeprecated"@)
        && x.deprecation_reason.deep_view() == opt_string_val(
        v,
        "deprecation_reason"@,
        "deprecationReason"@,
    )
}

fn field_from_value(v: &serde_json::Value) -> (r: Result<Field, SchemaError>)
    ensures
        r is Ok <==> field_extract_ok(*v),
        r matches Ok(x) ==> field_matches(x, *v),
        r matches Err(e) ==> e@ == "invalid schema structure"@,
{
    if !value_is_object(v) {
        return Err(invalid_structure());
    }
    let name = opt_string_member(v, "name", "name")?;
    let description = opt_string_member(v, "description", "description")?;
    let args = opt_inputs_member(v, "args", "args")?;
    let field_type = match get_member(v, "field_type", "type") {
        None => None,
        Some(m) => {
            if value_is_null(m) {
                None
            } else {
                Some(type_ref_from_value(m, TYPE_REF_DEPTH)?)
            }
        },
    };
    let is_deprecated = opt_bool_member(v, "is_deprecated", "isDeprecated")?;
    let deprecation_reason = opt_string_member(v, "deprecation_reason", "deprecationReason")?;
    Ok(Field { name, description, args, field_type, is_deprecated, deprecation_reason })
}

/// Whether every element of the list extracts cleanly as a field.
pub open spec fn fields_extract_ok(elems: Seq<serde_json::Value>) -> bool {
    forall|i: int| 0 <= i < elems.len() ==> field_extract_ok(#[trigger] elems[i])
}

/// Whether the fields are exactly what the elements extract to.
pub open spec fn fields_match(xs: Seq<Field>, elems: Seq<serde_json::Value>) -> bool {
    xs.len() == elems.len() && forall|i: int|
        0 <= i < elems.len() ==> field_matches(#[trigger] xs[i], elems[i])
}

/// Whether an enum value extracts cleanly: an object whose name,
/// description and deprecation reason are optional strings and whose
/// deprecation flag is an optional boolean.
pub open spec fn enum_extract_ok(v: serde_json::Value) -> bool {
    is_object_value(v) && opt_string_ok(v, "name"@, "name"@) && opt_string_ok(
        v,
        "description"@,
        "description"@,
    ) && opt_bool_ok(v, "is_deprecated"@, "isDeprecated"@) && opt_string_ok(
        v,
        "deprecation_reason"@,
        "deprecationReason"@,
    )
}

/// Whether the enum value is exactly what the value extracts to.
pub open spec fn enum_matches(x: Enum, v: serde_json::Value) -> bool {
    x.name.deep_view() == opt_string_val(v, "name"@, "name"@) && x.description.deep_view()
        == opt_string_val(v, "description"@, "description"@) && x.is_deprecated == opt_bool_val(
        v,
        "is_deprecated"@,
        "isDeprecated"@,
    ) && x.deprecation_reason.deep_view() == opt_string_val(
        v,
        "deprecation_reason"@,
        "deprecationReason"@,
    )
}

fn enum_from_value(v: &serde_json::Value) -> (r: Result<Enum, SchemaError>)
    ensures
        r is Ok <==> enum_extract_ok(*v),
        r matches Ok(x) ==> enum_matches(x, *v),
        r matches Err(e) ==> e@ == "invalid schema structure"@,
{
    if !value_is_object(v) {
        return Err(invalid_structure());
    }
    let name = opt_string_member(v, "name", "name")?;
    let description = opt_string_member(v, "description", "description")?;
    let is_deprecated = opt_bool_member(v, "is_deprecated", "isDeprecated")?;
    let deprecation_reason = opt_string_member(v, "deprecation_reason", "deprecationReason")?;
    Ok(Enum { name, description, is_deprecated, deprecation_reason })
}

/// Whether every element of the list extracts cleanly as an enum value.
pub open spec fn enums_extract_ok(elems: Seq<serde_json::Value>) -> bool {
    forall|i: int| 0 <= i < elems.len() ==> enum_extract_ok(#[trigger] elems[i])
}

/// Whether the enum values are exactly what the elements extract to.
pub open spec fn enums_match(xs: Seq<Enum>, elems: Seq<serde_json::Value>) -> bool {
    xs.len() == elems.len() && forall|i: int|
        0 <= i < elems.len() ==> enum_matches(#[trigger] xs[i], elems[i])
}

/// Whether a type extracts cleanly: an object whose scalar fields are
/// optional strings and whose member lists extract element by element.
pub open spec fn type_extract_ok(v: serde_json::Value) -> bool {
    is_object_value(v) && opt_string_ok(v, "name"@, "name"@) && opt_string_ok(
        v,
        "kind"@,
        "kind"@,
    ) && opt_string_ok(v, "description"@, "description"@) && opt_array_ok(v, "fields"@, "fields"@)
        && (match opt_array_val(v, "fields"@, "fields"@) {
        Option::Some(elems) => fields_extract_ok(elems),
        Option::None => true,
    }) && opt_inputs_ok(v, "inputs"@, "inputFields"@) && opt_type_refs_ok(
        v,
        "interfaces"@,
        "interfaces"@,
    ) && opt_array_ok(v, "enums"@, "enumValues"@) && (match opt_array_val(
        v,
        "enums"@,
        "enumValues"@,
    ) {
        Option::Some(elems) => enums_extract_ok(elems),
        Option::None => true,
    }) && opt_type_refs_ok(v, "possible_types"@, "possibleTypes"@)
}

/// Whether the type is exactly what the value extracts to.
pub open spec fn type_matches(t: Type, v: serde_json::Value) -> bool {
    t.name.deep_view() == opt_string_val(v, "name"@, "name"@) && t.kind.deep_view()
        == opt_string_val(v, "kind"@, "kind"@) && t.description.deep_view() == opt_string_val(
        v,
        "description"@,
        "description"@,
    ) && (match opt_array_val(v, "fields"@, "fields"@) {
        Option::Some(elems) => t.fields matches Some(xs) && fields_match(xs@, elems),
        Option::None => t.fields is None,
    }) && opt_inputs_matches(t.inputs, v, "inputs"@, "inputFields"@) && opt_type_refs_matches(
        t.interfaces,
        v,
        "interfaces"@,
        "interfaces"@,
    ) && (match opt_array_val(v, "enums"@, "enumValues"@) {
        Option::Some(elems) => t.enums matches Some(xs) && enums_match(xs@, elems),
        Option::None => t.enums is None,
    }) && opt_type_refs_matches(t.possible_types, v, "possible_types"@, "possibleTypes"@)
}

fn type_from_value(v: &serde_json::Value) -> (r: Result<Type, SchemaError>)
    ensures
        r is Ok <==> type_extract_ok(*v),
        r matches Ok(t) ==> type_matches(t, *v),
        r matches Err(e) ==> e@ == "invalid schema structure"@,
{
    if !value_is_object(v) {
        return Err(invalid_structure());
    }
    let name = opt_string_member(v, "name", "name")?;
    let kind = opt_string_member(v, "kind", "kind")?;
    let description = opt_string_member(v, "description", "description")?;
    let fields = match opt_array_member(v, "fields", "fields")? {
        None => None,
        Some(arr) => {
            let mut out: Vec<Field> = Vec::new();
            let n = arr.len();
            let mut i: usize = 0;
            while i < n
                invariant
                    i <= n,
                    n == arr@.len(),
                    out@.len() == i,
                    opt_array_ok(*v, "fields"@, "fields"@),
                    opt_array_val(*v, "fields"@, "fields"@) == Option::Some(arr@),
                    forall|k: int| 0 <= k < i ==> field_extract_ok(#[trigger] arr@[k]),
                    forall|k: int| 0 <= k < i ==> field_matches(#[trigger] out@[k], arr@[k]),
                decreases n - i,
            {
                out.push(field_from_value(&arr[i])?);
                i = i + 1;
            }
            Some(out)
        },
    };
    let inputs = opt_inputs_member(v, "inputs", "inputFields")?;
    let interfaces = opt_type_refs_member(v, "interfaces", "interfaces")?;
    let enums = match opt_array_member(v, "enums", "enumValues")? {
        None => None,
        Some(arr) => {
            let mut out: Vec<Enum> = Vec::new();
            let n = arr.len();
            let mut i: usize = 0;
            while i < n
                invariant
                    i <= n,
                    n == arr@.len(),
                    out@.len() == i,
                    opt_array_ok(*v, "enums"@, "enumValues"@),
                    opt_array_val(*v, "enums"@, "enumValues"@) == Option::Some(arr@),
                    forall|k: int| 0 <= k < i ==> enum_extract_ok(#[trigger] arr@[k]),
                    forall|k: int| 0 <= k < i ==> enum_matches(#[trigger] out@[k], arr@[k]),
                decreases n - i,
            {
                out.push(enum_from_value(&arr[i])?);
                i = i + 1;
            }
            Some(out)
        },
    };
    let possible_types = opt_type_refs_member(v, "possible_types", "possibleTypes")?;
    Ok(Type { name, kind, description, fields, inputs, interfaces, enums, possible_types })
}

/// Whether an optional root type member extracts cleanly.
pub open spec fn opt_type_ok(v: serde_json::Value, key: Seq<char>, alias: Seq<char>) -> bool {
    match member_lookup(v, key, alias) {
        Option::Some(m) => is_null_value(m) || type_extract_ok(m),
        Option::None => true,
    }
}

/// Whether the optional root type is exactly what the member extracts to.
pub open spec fn opt_type_matches(
    o: Option<Type>,
    v: serde_json::Value,
    key: Seq<char>,
    alias: Seq<char>,
) -> bool {
    match member_lookup(v, key, alias) {
        Option::Some(m) => if is_null_value(m) {
            o is None
        } else {
            o matches Some(t) && type_matches(t, m)
        },
        Option::None => o is None,
    }
}

fn opt_type_member(v: &serde_json::Value, key: &str, alias: &str) -> (r: Result<
    Option<Type>,
    SchemaError,
>)
    ensures
        r is Ok <==> opt_type_ok(*v, key@, alias@),
        r matches Ok(o) ==> opt_type_matches(o, *v, key@, alias@),
        r matches Err(e) ==> e@ == "invalid schema structure"@,
{
    match get_member(v, key, alias) {
        None => Ok(None),
        Some(m) => {
            if value_is_null(m) {
                Ok(None)
            } else {
                Ok(Some(type_from_value(m)?))
            }
        },
    }
}

/// Whether every element of the list is a string, as a directive's
/// locations must be.
pub open spec fn locations_extract_ok(elems: Seq<serde_json::Value>) -> bool {
    forall|i: int| 0 <= i < elems.len() ==> string_value(#[trigger] elems[i]) is Some
}

/// Whether the strings are exactly the elements' characters.
pub open spec fn locations_match(xs: Seq<String>, elems: Seq<serde_json::Value>) -> bool {
    xs.len() == elems.len() && forall|i: int|
        0 <= i < elems.len() ==> string_value(elems[i]) == Option::Some(#[trigger] xs[i]@)
}

/// Whether a directive extracts cleanly: an object whose name and
/// description are optional strings, whose locations are an optional list
/// of strings, and whose arguments are an optional list of inputs.
pub open spec fn directive_extract_ok(v: serde_json::Value) -> bool {
    is_object_value(v) && opt_string_ok(v, "name"@, "name"@) && opt_string_ok(
        v,
        "description"@,
        "description"@,
    ) && opt_array_ok(v, "locations"@, "locations"@) && (match opt_array_val(
        v,
        "locations"@,
        "locations"@,
    ) {
        Option::Some(elems) => locations_extract_ok(elems),
        Option::None => true,
    }) && opt_inputs_ok(v, "args"@, "args"@)
}

fn directive_from_value(v: &serde_json::Value) -> (r: Result<Directive, SchemaError>)
    ensures
        r is Ok <==> directive_extract_ok(*v),
        r matches Err(e) ==> e@ == "invalid schema structure"@,
{
    if !value_is_object(v) {
        return Err(invalid_structure());
    }
    let name = opt_string_member(v, "name", "name")?;
    let description = opt_string_member(v, "description", "description")?;
    let locations = match opt_array_member(v, "locations", "locations")? {
        None => None,
        Some(arr) => {
            let mut out: Vec<String> = Vec::new();
            let n = arr.len();
            let mut i: usize = 0;
            while i < n
                invariant
                    i <= n,
                    n == arr@.len(),
                    out@.len() == i,
                    is_object_value(*v),
                    opt_array_ok(*v, "locations"@, "locations"@),
                    opt_array_val(*v, "locations"@, "locations"@) == Option::Some(arr@),
                    forall|k: int| 0 <= k < i ==> string_value(#[trigger] arr@[k]) is Some,
                decreases n - i,
            {
                let loc = &arr[i];
                match value_as_str(loc) {
                    Some(s) => out.push(s),
                    None => {
                        return Err(invalid_structure());
                    },
                }
                i = i + 1;
            }
            Some(out)
        },
    };
    let args = opt_inputs_member(v, "args", "args")?;
    Ok(Directive { name, description, locations, args })
}

/// Whether every element of the list extracts cleanly as a directive.
pub open spec fn directives_extract_ok(elems: Seq<serde_json::Value>) -> bool {
    forall|i: int| 0 <= i < elems.len() ==> directive_extract_ok(#[trigger] elems[i])
}

/// Whether every element of the list extracts cleanly as a type.
pub open spec fn types_extract_ok(elems: Seq<serde_json::Value>) -> bool {
    forall|i: int| 0 <= i < elems.len() ==> type_extract_ok(#[trigger] elems[i])
}

/// Whether the types are exactly what the elements extract to.
pub open spec fn types_match(xs: Seq<Type>, elems: Seq<serde_json::Value>) -> bool {
    xs.len() == elems.len() && forall|i: int|
        0 <= i < elems.len() ==> type_matches(#[trigger] xs[i], elems[i])
}

/// Whether an introspected schema extracts cleanly from the value: an
/// object whose three root types, type list and directives each extract.
pub open spec fn schema_extract_ok(v: serde_json::Value) -> bool {
    is_object_value(v) && opt_type_ok(v, "query_type"@, "queryType"@) && opt_type_ok(
        v,
        "mutation_type"@,
        "mutationType"@,
    ) && opt_type_ok(v, "subscription_type"@, "subscriptionType"@) && opt_array_ok(
        v,
        "types"@,
        "types"@,
    ) && (match opt_array_val(v, "types"@, "types"@) {
        Option::Some(elems) => types_extract_ok(elems),
        Option::None => true,
    }) && opt_array_ok(v, "directives"@, "directives"@) && (match opt_array_val(
        v,
        "directives"@,
        "directives"@,
    ) {
        Option::Some(elems) => directives_extract_ok(elems),
        Option::None => true,
    })
}

/// Whether the schema's root types and type list are exactly what the
/// value extracts to; the directives are retained but unused, so only
/// their count is pinned.
pub open spec fn schema_matches(sch: Schema, v: serde_json::Value) -> bool {
    opt_type_matches(sch.query_type, v, "query_type"@, "queryType"@) && opt_type_matches(
        sch.mutation_type,
        v,
        "mutation_type"@,
        "mutationType"@,
    ) && opt_type_matches(sch.subscription_type, v, "subscription_type"@, "subscriptionType"@)
        && (match opt_array_val(v, "types"@, "types"@) {
        Option::Some(elems) => sch.types matches Some(xs) && types_match(xs@, elems),
        Option::None => sch.types is None,
    }) && (match opt_array_val(v, "directives"@, "directives"@) {
        Option::Some(elems) => sch.directives matches Some(xs) && xs@.len() == elems.len(),
        Option::None => sch.directives is None,
    })
}

fn schema_from_value(v: &serde_json::Value) -> (r: Result<Schema, SchemaError>)
    ensures
        r is Ok <==> schema_extract_ok(*v),
        r matches Ok(sch) ==> schema_matches(sch, *v),
        r matches Err(e) ==> e@ == "invalid schema structure"@,
{
    if !value_is_object(v) {
        return Err(invalid_structure());
    }
    let query_type = opt_type_member(v, "query_type", "queryType")?;
    let mutation_type = opt_type_member(v, "mutation_type", "mutationType")?;
    let subscription_type = opt_type_member(v, "subscription_type", "subscriptionType")?;
    let types = match opt_array_member(v, "types", "types")? {
        None => None,
        Some(arr) => {
            let mut out: Vec<Type> = Vec::new();
            let n = arr.len();
            let mut i: usize = 0;
            while i < n
                invariant
                    i <= n,
                    n == arr@.len(),
                    out@.len() == i,
                    opt_array_ok(*v, "types"@, "types"@),
                    opt_array_val(*v, "types"@, "types"@) == Option::Some(arr@),
                    forall|k: int| 0 <= k < i ==> type_extract_ok(#[trigger] arr@[k]),
                    forall|k: int| 0 <= k < i ==> type_matches(#[trigger] out@[k], arr@[k]),
                decreases n - i,
            {
                out.push(type_from_value(&arr[i])?);
                i = i + 1;
            }
            Some(out)
        },
    };
    let directives = match opt_array_member(v, "directives", "directives")? {
        None => None,
        Some(arr) => {
            let mut out: Vec<Directive> = Vec::new();
            let n = arr.len();
            let mut i: usize = 0;
            while i < n
                invariant
                    i <= n,
                    n == arr@.len(),
                    out@.len() == i,
                    opt_array_ok(*v, "directives"@, "directives"@),
                    opt_array_val(*v, "directives"@, "directives"@) == Option::Some(arr@),
                    forall|k: int| 0 <= k < i ==> directive_extract_ok(#[trigger] arr@[k]),
                decreases n - i,
            {
                out.push(directive_from_value(&arr[i])?);
                i = i + 1;
            }
            Some(out)
        },
    };
    Ok(Schema { query_type, mutation_type, subscription_type, types, directives })
}

/// Whether the parsed document's top-level value is a JSON object.
pub open spec fn json_root_is_object(s: Seq<char>) -> bool {
    is_object_value(json_value_of(s))
}

/// The parsed document's `data` member, when the document is an object
/// carrying one.
pub open spec fn json_data_member(s: Seq<char>) -> Option<serde_json::Value> {
    member_value(json_value_of(s), "data"@)
}

/// The `__schema` member of the document's `data` member, when both are
/// present.
pub open spec fn json_schema_member(s: Seq<char>) -> Option<serde_json::Value> {
    match json_data_member(s) {
        Option::Some(d) => member_value(d, "__schema"@),
        Option::None => Option::None,
    }
}

impl Schema {
    /// Parses an introspection response shaped as
    /// `{"data": {"__schema": {...}}}`. A text that is not well-formed JSON
    /// fails with the parser's own message; a document that is not an
    /// object, one without a `data` member, and a `data` member without a
    /// `__schema` member each fail with their own fixed message; any deeper
    /// structural mismatch fails with one generic message; and on a
    /// well-shaped document the parsed schema is exactly what the
    /// `__schema` member extracts to.
    pub fn from_str(text: &str) -> (r: Result<Schema, SchemaError>)
        ensures
            !json_parse_ok(text@) ==> r is Err,
            r is Ok <==> (json_parse_ok(text@) && json_root_is_object(text@) && json_schema_member(
                text@,
            ) is Some && schema_extract_ok(json_schema_member(text@)->0)),
            r matches Ok(sch) ==> schema_matches(sch, json_schema_member(text@)->0),
            json_parse_ok(text@) ==> ((r matches Err(e) && e@ == "response format not an object"@)
                <==> !json_root_is_object(text@)),
            json_parse_ok(text@) ==> ((r matches Err(e) && e@ == "data not in response"@) <==> (
            json_root_is_object(text@) && json_data_member(text@) is None)),
            json_parse_ok(text@) ==> ((r matches Err(e) && e@ == "schema not in response"@) <==> (
            json_root_is_object(text@) && json_data_member(text@) is Some && json_schema_member(
                text@,
            ) is None)),
            json_parse_ok(text@) ==> ((r matches Err(e) && e@ == "invalid schema structure"@) <==> (
            json_root_is_object(text@) && json_schema_member(text@) is Some && !schema_extract_ok(
                json_schema_member(text@)->0,
            ))),
    {
        proof {
            reveal_strlit("response format not an object");
            reveal_strlit("data not in response");
            reveal_strlit("schema not in response");
            reveal_strlit("invalid schema structure");
            assert(("response format not an object"@).len() == 29);
            assert(("data not in response"@).len() == 20);
            assert(("schema not in response"@).len() == 22);
            assert(("invalid schema structure"@).len() == 24);
        }
        match parse_json(text) {
            Err(err) => {
                let message = json_error_message(&err);
                Err(SchemaError::new(message.as_str()))
            },
            Ok(root) => {
                if !value_is_object(&root) {
                    return Err(SchemaError::new("response format not an object"));
                }
                match value_get(&root, "data") {
                    None => Err(SchemaError::new("data not in response")),
                    Some(data) => match value_get(data, "__schema") {
                        None => Err(SchemaError::new("schema not in response")),
                        Some(schema_value) => schema_from_value(schema_value),
                    },
                }
            },
        }
    }
}

} // verus!
