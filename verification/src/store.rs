//! The in-memory data set and its elements, as this library sees them.
//!
//! The data set and its elements are values of `dicom-object` and
//! `dicom-core`. Nothing here is proved about them: each function below makes
//! one call into those crates, and its contract states what the library
//! assumes of that call.

use vstd::prelude::*;
use dicom_core::header::DataElement;
use dicom_core::value::{CastValueError, ConvertValueError};
use dicom_dictionary_std::StandardDataDictionary;
use dicom_object::mem::{InMemDicomObject, InMemElement};
use dicom_object::AccessError;
use crate::data::{Float64, Vr};
use crate::tags::Tag;

verus! {

/// `dicom_dictionary_std::StandardDataDictionary`, the dictionary type of the
/// data sets that this library reads. The library never looks into it.
#[verifier::external_type_specification]
#[verifier::external_body]
pub struct ExStandardDataDictionary(StandardDataDictionary);

/// `dicom_object::mem::InMemDicomObject`, a data set held in memory: a map
/// from tags to data elements.
#[verifier::external_type_specification]
#[verifier::external_body]
#[verifier::reject_recursive_types(D)]
pub struct ExInMemDicomObject<D>(InMemDicomObject<D>);

/// `dicom_core::header::DataElement`, one data element: a header with the
/// value representation, and a value.
#[verifier::external_type_specification]
#[verifier::external_body]
#[verifier::reject_recursive_types(I)]
#[verifier::reject_recursive_types(P)]
pub struct ExDataElement<I, P>(DataElement<I, P>);

/// `dicom_object::AccessError`, returned when a data set has no element
/// under a tag.
#[verifier::external_type_specification]
#[verifier::external_body]
pub struct ExAccessError(AccessError);

/// `dicom_core::value::CastValueError`, returned when a value is not of the
/// primitive kind that a getter asks for.
#[verifier::external_type_specification]
#[verifier::external_body]
pub struct ExCastValueError(CastValueError);

/// `dicom_core::value::ConvertValueError`, returned when a value cannot be
/// converted to the type that a conversion asks for.
#[verifier::external_type_specification]
#[verifier::external_body]
pub struct ExConvertValueError(ConvertValueError);

/// What reading shows of one data element: its value representation, and
/// what each getter makes of its value, `None` where the getter fails.
///
/// The fields are independent observations. Nothing is assumed about how
/// they relate to each other.
pub struct Attribute {
    /// The declared value representation.
    pub vr: Vr,
    /// The value as a single string.
    pub string: Option<Seq<char>>,
    /// The value as a list of strings.
    pub strings: Option<Seq<Seq<char>>>,
    /// The value converted to a double-precision number.
    pub float64: Option<Float64>,
    /// The value as a single unsigned 16-bit integer.
    pub uint16: Option<u16>,
    /// The value as a single signed 16-bit integer.
    pub int16: Option<i16>,
}

/// What a data set holds: for each tag that has an element, what reading
/// shows of that element.
pub uninterp spec fn attributes(obj: InMemDicomObject) -> Map<Tag, Attribute>;

/// The value representation that `DataElement::vr` gives for an element,
/// as its two-letter code.
pub uninterp spec fn vr_of(elem: InMemElement) -> Vr;

/// What `DataElement::string` gives for an element: `None` where it fails.
pub uninterp spec fn string_of(elem: InMemElement) -> Option<Seq<char>>;

/// What `DataElement::strings` gives for an element: `None` where it fails.
pub uninterp spec fn strings_of(elem: InMemElement) -> Option<Seq<Seq<char>>>;

/// What `DataElement::to_float64` gives for an element: `None` where it
/// fails.
pub uninterp spec fn float64_of(elem: InMemElement) -> Option<Float64>;

/// What `DataElement::uint16` gives for an element: `None` where it fails.
pub uninterp spec fn uint16_of(elem: InMemElement) -> Option<u16>;

/// What `DataElement::int16` gives for an element: `None` where it fails.
pub uninterp spec fn int16_of(elem: InMemElement) -> Option<i16>;

/// What reading shows of a data element.
pub open spec fn attribute_of(elem: InMemElement) -> Attribute {
    Attribute {
        vr: vr_of(elem),
        string: string_of(elem),
        strings: strings_of(elem),
        float64: float64_of(elem),
        uint16: uint16_of(elem),
        int16: int16_of(elem),
    }
}

/// `InMemDicomObject::element`: the element stored under `tag`, or an error
/// if the data set has none.
#[verifier::external_body]
pub(crate) fn element<'a>(obj: &'a InMemDicomObject, tag: Tag) -> (r: Result<
    &'a InMemElement,
    AccessError,
>)
    ensures
        match r {
            Ok(elem) => attributes(*obj).contains_key(tag) && attributes(*obj)[tag]
                == attribute_of(*elem),
            Err(_) => !attributes(*obj).contains_key(tag),
        },
{
    obj.element(dicom_core::Tag::from(tag))
}

/// `InMemDicomObject::element_opt`: the element stored under `tag`, or
/// `None` if the data set has none. It never returns an error.
#[verifier::external_body]
pub(crate) fn element_opt<'a>(obj: &'a InMemDicomObject, tag: Tag) -> (r: Result<
    Option<&'a InMemElement>,
    AccessError,
>)
    ensures
        r is Ok,
        match r {
            Ok(Some(elem)) => attributes(*obj).contains_key(tag) && attributes(*obj)[tag]
                == attribute_of(*elem),
            _ => !attributes(*obj).contains_key(tag),
        },
{
    obj.element_opt(dicom_core::Tag::from(tag))
}

/// `DataElement::vr`, as the two bytes that `VR::to_bytes` gives for it.
#[verifier::external_body]
pub(crate) fn element_vr(elem: &InMemElement) -> (r: Vr)
    ensures
        r == vr_of(*elem),
{
    let code = elem.vr().to_bytes();
    Vr { first: code[0], second: code[1] }
}

/// `DataElement::string`: the value if it is a single string, or the first
/// of its strings; an error if the value is of another kind or empty.
#[verifier::external_body]
pub(crate) fn element_string<'a>(elem: &'a InMemElement) -> (r: Result<&'a str, CastValueError>)
    ensures
        match r {
            Ok(s) => string_of(*elem) == Some(s@),
            Err(_) => string_of(*elem) is None,
        },
{
    elem.string()
}

/// `DataElement::strings`: the strings of the value, copied; an error if the
/// value is not made of strings.
#[verifier::external_body]
pub(crate) fn element_strings(elem: &InMemElement) -> (r: Result<Vec<String>, CastValueError>)
    ensures
        match r {
            Ok(list) => strings_of(*elem) == Some(list.deep_view()),
            Err(_) => strings_of(*elem) is None,
        },
{
    match elem.strings() {
        Ok(list) => Ok(list.to_vec()),
        Err(e) => Err(e),
    }
}

/// `DataElement::to_float64`: the value converted to a double-precision
/// number, handed out as its bits; an error if it cannot be converted.
#[verifier::external_body]
pub(crate) fn element_to_float64(elem: &InMemElement) -> (r: Result<Float64, ConvertValueError>)
    ensures
        match r {
            Ok(number) => float64_of(*elem) == Some(number),
            Err(_) => float64_of(*elem) is None,
        },
{
    match elem.to_float64() {
        Ok(number) => Ok(Float64 { bits: number.to_bits() }),
        Err(e) => Err(e),
    }
}

/// `DataElement::uint16`: the first of the value's unsigned 16-bit
/// integers; an error if the value is of another kind or empty.
#[verifier::external_body]
pub(crate) fn element_uint16(elem: &InMemElement) -> (r: Result<u16, CastValueError>)
    ensures
        match r {
            Ok(number) => uint16_of(*elem) == Some(number),
            Err(_) => uint16_of(*elem) is None,
        },
{
    elem.uint16()
}

/// `DataElement::int16`: the first of the value's signed 16-bit integers;
/// an error if the value is of another kind or empty.
#[verifier::external_body]
pub(crate) fn element_int16(elem: &InMemElement) -> (r: Result<i16, CastValueError>)
    ensures
        match r {
            Ok(number) => int16_of(*elem) == Some(number),
            Err(_) => int16_of(*elem) is None,
        },
{
    elem.int16()
}

} // verus!
