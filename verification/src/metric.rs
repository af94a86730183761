//! Serialization of one telemetry metric record into a smithy JSON
//! object writer.
//!
//! The JSON encoding itself (escaping, delimiters) is the JSON crate's
//! work; this module drives it field by field. The writers are modeled by
//! two named contents functions: the ordered fields an object writer has
//! been given, and the ordered items an array writer has been given.

use vstd::prelude::*;

use aws_smithy_json::serialize::JsonArrayWriter;
use aws_smithy_json::serialize::JsonObjectWriter;

verus! {

/// Declares the smithy JSON object writer so it can appear in signatures.
#[verifier::external_type_specification]
#[verifier::external_body]
pub struct ExJsonObjectWriter<'a>(JsonObjectWriter<'a>);

/// Declares the smithy JSON array writer so it can appear in signatures.
#[verifier::external_type_specification]
#[verifier::external_body]
pub struct ExJsonArrayWriter<'a>(JsonArrayWriter<'a>);

/// Declares the smithy serialization error used in the result type.
#[verifier::external_type_specification]
#[verifier::external_body]
pub struct ExSerializationError(aws_smithy_types::error::operation::SerializationError);

/// The value of one field as this module writes it.
pub enum JsonFieldValue {
    /// A JSON string.
    Str(Seq<char>),
    /// A JSON integer.
    Int(int),
    /// A timestamp written in epoch-seconds format.
    EpochSeconds(int),
    /// A JSON array; its items are stated at the array writer that
    /// receives them, not here.
    Array,
}

/// One `key: value` field given to an object writer.
pub struct JsonField {
    pub key: Seq<char>,
    pub value: JsonFieldValue,
}

/// The ordered fields an object writer has been given so far.
pub uninterp spec fn object_fields(w: JsonObjectWriter) -> Seq<JsonField>;

/// The ordered name/value pairs an array writer has been given so far,
/// one JSON object per pair.
pub uninterp spec fn array_items(w: JsonArrayWriter) -> Seq<(Seq<char>, Seq<char>)>;

/// Relies on `JsonObjectWriter::key` and `JsonValueWriter::string`:
/// appends one string-valued field, escaping as JSON requires.
#[verifier::external_body]
fn write_string_field(object: &mut JsonObjectWriter, key: &str, value: &str)
    ensures
        object_fields(*final(object)) == object_fields(*old(object)).push(
            JsonField { key: key@, value: JsonFieldValue::Str(value@) },
        ),
{
    object.key(key).string(value);
}

/// Relies on `JsonObjectWriter::key` and `JsonValueWriter::number`:
/// appends one integer-valued field.
#[verifier::external_body]
fn write_i64_field(object: &mut JsonObjectWriter, key: &str, value: i64)
    ensures
        object_fields(*final(object)) == object_fields(*old(object)).push(
            JsonField { key: key@, value: JsonFieldValue::Int(value as int) },
        ),
{
    object.key(key).number(aws_smithy_types::Number::NegInt(value));
}

/// Relies on `JsonObjectWriter::key`, `DateTime::from_secs` and
/// `JsonValueWriter::date_time`: appends one timestamp field in
/// epoch-seconds format, for which the formatter never fails.
#[verifier::external_body]
fn write_epoch_seconds_field(object: &mut JsonObjectWriter, key: &str, seconds: i64)
    ensures
        object_fields(*final(object)) == object_fields(*old(object)).push(
            JsonField { key: key@, value: JsonFieldValue::EpochSeconds(seconds as int) },
        ),
{
    let date_time = aws_smithy_types::DateTime::from_secs(seconds);
    let _formatted = object.key(key).date_time(
        &date_time,
        aws_smithy_types::date_time::Format::EpochSeconds,
    );
}

/// Relies on `JsonObjectWriter::key` and `JsonValueWriter::start_array`:
/// opens an array-valued field under `key`; the returned writer starts
/// empty, and everything written until it is finished goes into that
/// array value.
#[verifier::external_body]
fn begin_array_field<'x, 'a>(object: &'x mut JsonObjectWriter<'a>, key: &str) -> (r:
    JsonArrayWriter<'x>)
    ensures
        array_items(r) == Seq::<(Seq<char>, Seq<char>)>::empty(),
        object_fields(*final(object)) == object_fields(*old(object)).push(
            JsonField { key: key@, value: JsonFieldValue::Array },
        ),
{
    object.key(key).start_array()
}

/// Relies on `JsonArrayWriter::value`, `JsonValueWriter::start_object`,
/// `JsonObjectWriter::key`, `JsonValueWriter::string` and
/// `JsonObjectWriter::finish`: appends one two-field object to the array,
/// under the keys the caller supplies.
#[verifier::external_body]
fn write_pair_object(array: &mut JsonArrayWriter, name_key: &str, name: &str, value_key: &str, value: &str)
    ensures
        array_items(*final(array)) == array_items(*old(array)).push((name@, value@)),
{
    let mut object = array.value().start_object();
    object.key(name_key).string(name);
    object.key(value_key).string(value);
    object.finish();
}

/// Relies on `JsonArrayWriter::finish`: closes the array value.
#[verifier::external_body]
fn finish_array(array: JsonArrayWriter)
{
    array.finish();
}

/// One name/value dimension attached to a metric.
#[derive(Clone, Debug)]
pub struct Dimension {
    pub name: String,
    pub value: String,
}

/// One telemetry metric record: what the serialized shape carries, as
/// plain values (the value as an integer count, the timestamp as epoch
/// seconds).
#[derive(Clone, Debug)]
pub struct MetricData {
    pub metric_name: String,
    pub metric_value: i64,
    pub timestamp: i64,
    pub product: String,
    pub dimensions: Option<Vec<Dimension>>,
}

/// The four scalar fields every metric record serializes, in order.
pub open spec fn metric_scalar_fields(m: MetricData) -> Seq<JsonField> {
    seq![
        JsonField { key: "metricName"@, value: JsonFieldValue::Str(m.metric_name@) },
        JsonField { key: "metricValue"@, value: JsonFieldValue::Int(m.metric_value as int) },
        JsonField { key: "timestamp"@, value: JsonFieldValue::EpochSeconds(m.timestamp as int) },
        JsonField { key: "product"@, value: JsonFieldValue::Str(m.product@) },
    ]
}

/// The dimension list as name/value pairs, in order.
pub open spec fn dimension_pairs(dims: Seq<Dimension>) -> Seq<(Seq<char>, Seq<char>)> {
    dims.map_values(|d: Dimension| (d.name@, d.value@))
}

/// Serializes one metric record into `object`: the four scalar fields,
/// then, when present, the dimension array, each dimension as a
/// `name`/`value` object, in order. Writing never fails: the only
/// fallible step, timestamp formatting, cannot fail in epoch-seconds
/// format. The fields given to `object` are stated exactly; the items of
/// the dimension array are stated at the array writer that receives
/// them, while it is open.
pub fn ser_metric_data(object: &mut JsonObjectWriter, input: &MetricData) -> (r: Result<
    (),
    aws_smithy_types::error::operation::SerializationError,
>)
    ensures
        r is Ok,
        input.dimensions is None ==> object_fields(*final(object)) == object_fields(*old(object))
            + metric_scalar_fields(*input),
        input.dimensions is Some ==> object_fields(*final(object)) == object_fields(*old(object))
            + metric_scalar_fields(*input) + seq![
            JsonField { key: "dimensions"@, value: JsonFieldValue::Array },
        ],
{
    write_string_field(object, "metricName", input.metric_name.as_str());
    write_i64_field(object, "metricValue", input.metric_value);
    write_epoch_seconds_field(object, "timestamp", input.timestamp);
    write_string_field(object, "product", input.product.as_str());
    proof {
        assert(object_fields(*object) =~= object_fields(*old(object)) + metric_scalar_fields(
            *input,
        ));
    }
    if let Some(dims) = &input.dimensions {
        let mut array = begin_array_field(object, "dimensions");
        let n = dims.len();
        let mut i: usize = 0;
        while i < n
            invariant
                n == dims@.len(),
                i <= n,
                array_items(array) == dimension_pairs(dims@.take(i as int)),
            decreases n - i,
        {
            let d = &dims[i];
            write_pair_object(&mut array, "name", d.name.as_str(), "value", d.value.as_str());
            proof {
                assert(dimension_pairs(dims@.take(i + 1)) =~= dimension_pairs(
                    dims@.take(i as int),
                ).push((d.name@, d.value@)));
            }
            i = i + 1;
        }
        proof {
            assert(dims@.take(n as int) =~= dims@);
            assert(array_items(array) == dimension_pairs(dims@));
        }
        finish_array(array);
        proof {
            assert(object_fields(*object) =~= object_fields(*old(object)) + metric_scalar_fields(
                *input,
            ) + seq![JsonField { key: "dimensions"@, value: JsonFieldValue::Array }]);
        }
    }
    Ok(())
}

} // verus!
