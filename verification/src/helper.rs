//! Reading one attribute out of a data set.
//!
//! An attribute is read in one of three ways. A required attribute must be
//! present. An optional attribute may be absent, and is then `None`. A
//! defaulted attribute may be absent, and is then a default given by the
//! caller. Absence is the only thing that is forgiven: an element that is
//! present and cannot be decoded is an error in all three.

use vstd::prelude::*;
use dicom_object::mem::{InMemDicomObject, InMemElement};
use crate::data::{Float64, Signedness, UsSs};
use crate::error::{viewed, Error};
use crate::store::{
    attribute_of, attributes, element, element_int16, element_opt, element_string,
    element_strings, element_to_float64, element_uint16, element_vr, Attribute,
};
use crate::tags::Tag;

verus! {

/// The single string of an element, read under `tag`.
pub open spec fn text_of(attr: Attribute, tag: Tag) -> Result<Seq<char>, Error> {
    match attr.string {
        Some(text) => Ok(text),
        None => Err(Error::CastFailure { tag }),
    }
}

/// The list of strings of an element, read under `tag`.
pub open spec fn texts_of(attr: Attribute, tag: Tag) -> Result<Seq<Seq<char>>, Error> {
    match attr.strings {
        Some(list) => Ok(list),
        None => Err(Error::CastFailure { tag }),
    }
}

/// The number that the value of an element converts to, read under `tag`.
pub open spec fn number_of(attr: Attribute, tag: Tag) -> Result<Float64, Error> {
    match attr.float64 {
        Some(number) => Ok(number),
        None => Err(Error::DecodeFailure { tag }),
    }
}

/// The 16-bit integer of an element, read under `tag`: unsigned if the
/// element is a `US`, signed if it is an `SS`. An element of any other
/// value representation has none.
pub open spec fn integer_of(attr: Attribute, tag: Tag) -> Result<UsSs, Error> {
    match attr.vr.signedness() {
        Some(Signedness::Signed) => match attr.int16 {
            Some(value) => Ok(UsSs { us: None, ss: Some(value) }),
            None => Err(Error::CastFailure { tag }),
        },
        Some(Signedness::Unsigned) => match attr.uint16 {
            Some(value) => Ok(UsSs { us: Some(value), ss: None }),
            None => Err(Error::CastFailure { tag }),
        },
        None => Err(Error::UnexpectedVr { tag, vr: attr.vr }),
    }
}

/// A required attribute: `decoded` if the tag is present, else `NotFound`.
pub open spec fn required<T>(attrs: Map<Tag, Attribute>, tag: Tag, decoded: Result<T, Error>)
    -> Result<T, Error> {
    if attrs.contains_key(tag) {
        decoded
    } else {
        Err(Error::NotFound { tag })
    }
}

/// A defaulted attribute: `decoded` if the tag is present, else `default`.
pub open spec fn defaulted<T>(
    attrs: Map<Tag, Attribute>,
    tag: Tag,
    decoded: Result<T, Error>,
    default: T,
) -> Result<T, Error> {
    if attrs.contains_key(tag) {
        decoded
    } else {
        Ok(default)
    }
}

/// An optional attribute: `decoded` if the tag is present, else `None`.
pub open spec fn optional<T>(attrs: Map<Tag, Attribute>, tag: Tag, decoded: Result<T, Error>)
    -> Result<Option<T>, Error> {
    if attrs.contains_key(tag) {
        match decoded {
            Ok(value) => Ok(Some(value)),
            Err(e) => Err(e),
        }
    } else {
        Ok(None)
    }
}

/// The string of a required attribute.
pub open spec fn required_text(attrs: Map<Tag, Attribute>, tag: Tag) -> Result<Seq<char>, Error> {
    required(attrs, tag, text_of(attrs[tag], tag))
}

/// The string of a defaulted attribute.
pub open spec fn text_or(attrs: Map<Tag, Attribute>, tag: Tag, default: Seq<char>) -> Result<
    Seq<char>,
    Error,
> {
    defaulted(attrs, tag, text_of(attrs[tag], tag), default)
}

/// The string of an optional attribute.
pub open spec fn optional_text(attrs: Map<Tag, Attribute>, tag: Tag) -> Result<
    Option<Seq<char>>,
    Error,
> {
    optional(attrs, tag, text_of(attrs[tag], tag))
}

/// The list of strings of an optional attribute.
pub open spec fn optional_texts(attrs: Map<Tag, Attribute>, tag: Tag) -> Result<
    Option<Seq<Seq<char>>>,
    Error,
> {
    optional(attrs, tag, texts_of(attrs[tag], tag))
}

/// The number of an optional attribute.
pub open spec fn optional_number(attrs: Map<Tag, Attribute>, tag: Tag) -> Result<
    Option<Float64>,
    Error,
> {
    optional(attrs, tag, number_of(attrs[tag], tag))
}

/// The 16-bit integer of an optional attribute.
pub open spec fn optional_integer(attrs: Map<Tag, Attribute>, tag: Tag) -> Result<
    Option<UsSs>,
    Error,
> {
    optional(attrs, tag, integer_of(attrs[tag], tag))
}

/// What absence means in each of the three ways of reading: an error for
/// a required attribute, the default for a defaulted one, `None` for an
/// optional one. What decoding would have given plays no part.
pub proof fn absent_attribute_reads<T>(
    attrs: Map<Tag, Attribute>,
    tag: Tag,
    decoded: Result<T, Error>,
    default: T,
)
    requires
        !attrs.contains_key(tag),
    ensures
        required(attrs, tag, decoded) == Err::<T, Error>(Error::NotFound { tag }),
        defaulted(attrs, tag, decoded, default) == Ok::<T, Error>(default),
        optional(attrs, tag, decoded) == Ok::<Option<T>, Error>(None),
{
}

/// An element that is present and cannot be decoded is an error in each of
/// the three ways of reading, and the same error: no default stands in for
/// a value that is there and malformed.
pub proof fn failed_decoding_is_never_forgiven<T>(
    attrs: Map<Tag, Attribute>,
    tag: Tag,
    decoded: Result<T, Error>,
    default: T,
)
    requires
        attrs.contains_key(tag),
        decoded is Err,
    ensures
        required(attrs, tag, decoded) == decoded,
        defaulted(attrs, tag, decoded, default) == decoded,
        optional(attrs, tag, decoded) == Err::<Option<T>, Error>(decoded->Err_0),
{
}

/// A 16-bit integer that was read has exactly one of its two fields set,
/// the one that the value representation of the element selects.
pub proof fn integer_is_resolved(attr: Attribute, tag: Tag)
    ensures
        integer_of(attr, tag) matches Ok(value) ==> value.is_resolved() && (value.us is Some
            <==> attr.vr.signedness() == Some(Signedness::Unsigned)) && (value.ss is Some
            <==> attr.vr.signedness() == Some(Signedness::Signed)),
        attr.vr.signedness() is None ==> integer_of(attr, tag) == Err::<UsSs, Error>(
            Error::UnexpectedVr { tag, vr: attr.vr },
        ),
{
}

/// Whether `found` is the element that `obj` holds under `tag`, or `None`
/// where it holds none.
pub open spec fn is_lookup(obj: InMemDicomObject, tag: Tag, found: Option<&InMemElement>) -> bool {
    match found {
        Some(elem) => attributes(obj).contains_key(tag) && attributes(obj)[tag] == attribute_of(
            *elem,
        ),
        None => !attributes(obj).contains_key(tag),
    }
}

/// Looks up an element that may be absent. Absence is not an error: the
/// result is always `Ok`.
pub fn lookup_optional<'a>(obj: &'a InMemDicomObject, tag: Tag) -> (r: Result<
    Option<&'a InMemElement>,
    Error,
>)
    ensures
        r matches Ok(found) && is_lookup(*obj, tag, found),
{
    match element_opt(obj, tag) {
        Ok(found) => Ok(found),
        Err(_) => Err(Error::NotFound { tag }),
    }
}

/// Looks up an element that must be present: `NotFound` if it is absent.
pub fn lookup_required<'a>(obj: &'a InMemDicomObject, tag: Tag) -> (r: Result<
    &'a InMemElement,
    Error,
>)
    ensures
        match r {
            Ok(elem) => is_lookup(*obj, tag, Some(elem)),
            Err(e) => is_lookup(*obj, tag, None) && e == (Error::NotFound { tag }),
        },
{
    match element(obj, tag) {
        Ok(elem) => Ok(elem),
        Err(_) => Err(Error::NotFound { tag }),
    }
}

/// The single string of an element found under `tag`.
pub fn as_string<'a>(elem: &'a InMemElement, tag: Tag) -> (r: Result<&'a str, Error>)
    ensures
        viewed(r) == text_of(attribute_of(*elem), tag),
{
    match element_string(elem) {
        Ok(text) => Ok(text),
        Err(_) => Err(Error::CastFailure { tag }),
    }
}

/// The list of strings of an element found under `tag`.
pub fn as_string_list(elem: &InMemElement, tag: Tag) -> (r: Result<Vec<String>, Error>)
    ensures
        viewed(r) == texts_of(attribute_of(*elem), tag),
{
    match element_strings(elem) {
        Ok(list) => Ok(list),
        Err(_) => Err(Error::CastFailure { tag }),
    }
}

/// The value of an element found under `tag`, converted to a number.
pub fn as_float64(elem: &InMemElement, tag: Tag) -> (r: Result<Float64, Error>)
    ensures
        r == number_of(attribute_of(*elem), tag),
{
    match element_to_float64(elem) {
        Ok(number) => Ok(number),
        Err(_) => Err(Error::DecodeFailure { tag }),
    }
}

/// The unsigned 16-bit integer of an element found under `tag`.
pub fn as_unsigned16(elem: &InMemElement, tag: Tag) -> (r: Result<u16, Error>)
    ensures
        match r {
            Ok(value) => attribute_of(*elem).uint16 == Some(value),
            Err(e) => attribute_of(*elem).uint16 is None && e == (Error::CastFailure { tag }),
        },
{
    match element_uint16(elem) {
        Ok(value) => Ok(value),
        Err(_) => Err(Error::CastFailure { tag }),
    }
}

/// The signed 16-bit integer of an element found under `tag`.
pub fn as_signed16(elem: &InMemElement, tag: Tag) -> (r: Result<i16, Error>)
    ensures
        match r {
            Ok(value) => attribute_of(*elem).int16 == Some(value),
            Err(e) => attribute_of(*elem).int16 is None && e == (Error::CastFailure { tag }),
        },
{
    match element_int16(elem) {
        Ok(value) => Ok(value),
        Err(_) => Err(Error::CastFailure { tag }),
    }
}

/// The 16-bit integer of an element found under `tag`, read as its value
/// representation says: as unsigned from a `US`, as signed from an `SS`.
/// Any other value representation is an error that names it.
pub fn as_us_ss(elem: &InMemElement, tag: Tag) -> (r: Result<UsSs, Error>)
    ensures
        r == integer_of(attribute_of(*elem), tag),
        r matches Ok(value) ==> value.is_resolved(),
{
    let vr = element_vr(elem);
    match vr.signedness() {
        Some(Signedness::Signed) => Ok(UsSs::signed(as_signed16(elem, tag)?)),
        Some(Signedness::Unsigned) => Ok(UsSs::unsigned(as_unsigned16(elem, tag)?)),
        None => Err(Error::UnexpectedVr { tag, vr }),
    }
}

/// Reads the string of an attribute that must be present.
pub fn element_to_str<'a>(obj: &'a InMemDicomObject, tag: Tag) -> (r: Result<&'a str, Error>)
    ensures
        viewed(r) == required_text(attributes(*obj), tag),
{
    let elem = lookup_required(obj, tag)?;
    as_string(elem, tag)
}

/// Reads the string of an attribute that may be absent: `default_value` if
/// it is absent.
pub fn element_opt_to_str<'a>(obj: &'a InMemDicomObject, tag: Tag, default_value: &'a str) -> (r:
    Result<&'a str, Error>)
    ensures
        viewed(r) == text_or(attributes(*obj), tag, default_value@),
{
    match lookup_optional(obj, tag)? {
        None => Ok(default_value),
        Some(elem) => as_string(elem, tag),
    }
}

/// Reads the string of an attribute that may be absent, borrowed from the
/// data set: `None` if it is absent.
pub fn optional_str<'a>(obj: &'a InMemDicomObject, tag: Tag) -> (r: Result<Option<&'a str>, Error>)
    ensures
        viewed(r) == optional_text(attributes(*obj), tag),
{
    match lookup_optional(obj, tag)? {
        None => Ok(None),
        Some(elem) => Ok(Some(as_string(elem, tag)?)),
    }
}

/// Reads the string of an attribute that may be absent, as a copy: `None`
/// if it is absent.
pub fn optional_string(obj: &InMemDicomObject, tag: Tag) -> (r: Result<Option<String>, Error>)
    ensures
        viewed(r) == optional_text(attributes(*obj), tag),
{
    match optional_str(obj, tag)? {
        None => Ok(None),
        Some(text) => Ok(Some(text.to_string())),
    }
}

/// Reads the list of strings of an attribute that may be absent: `None` if
/// it is absent.
pub fn optional_strings(obj: &InMemDicomObject, tag: Tag) -> (r: Result<
    Option<Vec<String>>,
    Error,
>)
    ensures
        viewed(r) == optional_texts(attributes(*obj), tag),
{
    match lookup_optional(obj, tag)? {
        None => Ok(None),
        Some(elem) => Ok(Some(as_string_list(elem, tag)?)),
    }
}

/// Reads the number of an attribute that may be absent: `None` if it is
/// absent.
pub fn optional_float64(obj: &InMemDicomObject, tag: Tag) -> (r: Result<Option<Float64>, Error>)
    ensures
        r == optional_number(attributes(*obj), tag),
{
    match lookup_optional(obj, tag)? {
        None => Ok(None),
        Some(elem) => Ok(Some(as_float64(elem, tag)?)),
    }
}

/// Reads the 16-bit integer of an attribute that may be absent: `None` if
/// it is absent.
pub fn optional_us_ss(obj: &InMemDicomObject, tag: Tag) -> (r: Result<Option<UsSs>, Error>)
    ensures
        r == optional_integer(attributes(*obj), tag),
        r matches Ok(Some(value)) ==> value.is_resolved(),
{
    match lookup_optional(obj, tag)? {
        None => Ok(None),
        Some(elem) => Ok(Some(as_us_ss(elem, tag)?)),
    }
}

} // verus!
