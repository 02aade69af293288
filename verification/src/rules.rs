//! How a module reads its attributes: each field in its own way, in a fixed
//! order, and the first field that fails decides the error.

use vstd::prelude::*;
use crate::error::Error;
use crate::helper::{
    optional_integer, optional_number, optional_text, optional_texts, required_text, text_or,
};
use crate::store::Attribute;
use crate::tags::Tag;

verus! {

/// The way in which a field of a module is read.
pub enum Reading {
    /// A string that must be present.
    RequiredText,
    /// A string that is empty when the attribute is absent.
    DefaultedText,
    /// A string that may be absent.
    OptionalText,
    /// A list of strings that may be absent.
    OptionalTexts,
    /// A number that may be absent.
    OptionalNumber,
    /// An unsigned or signed 16-bit integer that may be absent.
    OptionalInteger,
}

/// A field of a module: the tag it is read from, and how.
pub struct Field {
    pub tag: Tag,
    pub reading: Reading,
}

/// The error of a read, if it failed.
pub open spec fn error_of<T>(r: Result<T, Error>) -> Option<Error> {
    match r {
        Ok(_) => None,
        Err(e) => Some(e),
    }
}

impl Field {
    /// The error that reading this field gives, if it gives one.
    pub open spec fn failure(self, attrs: Map<Tag, Attribute>) -> Option<Error> {
        match self.reading {
            Reading::RequiredText => error_of(required_text(attrs, self.tag)),
            Reading::DefaultedText => error_of(text_or(attrs, self.tag, ""@)),
            Reading::OptionalText => error_of(optional_text(attrs, self.tag)),
            Reading::OptionalTexts => error_of(optional_texts(attrs, self.tag)),
            Reading::OptionalNumber => error_of(optional_number(attrs, self.tag)),
            Reading::OptionalInteger => error_of(optional_integer(attrs, self.tag)),
        }
    }

    /// Whether the attribute of this field may be absent.
    pub open spec fn forgives_absence(self) -> bool {
        !(self.reading is RequiredText)
    }
}

/// The error of the first field, from position `start` on, whose read fails.
pub open spec fn first_failure_from(attrs: Map<Tag, Attribute>, fields: Seq<Field>, start: int)
    -> Option<Error>
    decreases fields.len() - start,
{
    if 0 <= start < fields.len() {
        match fields[start].failure(attrs) {
            Some(e) => Some(e),
            None => first_failure_from(attrs, fields, start + 1),
        }
    } else {
        None
    }
}

/// The error of the first field whose read fails, if any does.
pub open spec fn first_failure(attrs: Map<Tag, Attribute>, fields: Seq<Field>) -> Option<Error> {
    first_failure_from(attrs, fields, 0)
}

/// What reading a module gives: the error of the first field that fails,
/// or, where none fails, the record of what was read.
pub open spec fn read_all<V>(attrs: Map<Tag, Attribute>, fields: Seq<Field>, record: V) -> Result<
    V,
    Error,
> {
    match first_failure(attrs, fields) {
        Some(e) => Err(e),
        None => Ok(record),
    }
}

/// An absent attribute fails a field exactly where the field is required,
/// and then with `NotFound`.
pub proof fn absent_field_failure(attrs: Map<Tag, Attribute>, field: Field)
    requires
        !attrs.contains_key(field.tag),
    ensures
        field.forgives_absence() ==> field.failure(attrs) is None,
        !field.forgives_absence() ==> field.failure(attrs) == Some(
            Error::NotFound { tag: field.tag },
        ),
{
}

/// The failure of a field depends on nothing but the attribute under its
/// own tag.
pub proof fn field_failure_is_local(
    attrs: Map<Tag, Attribute>,
    others: Map<Tag, Attribute>,
    field: Field,
)
    requires
        attrs.contains_key(field.tag) == others.contains_key(field.tag),
        attrs.contains_key(field.tag) ==> attrs[field.tag] == others[field.tag],
    ensures
        field.failure(attrs) == field.failure(others),
{
}

/// Where no field before position `i` fails, the first failure is the first
/// from `i` on.
pub proof fn first_failure_skips_successes(attrs: Map<Tag, Attribute>, fields: Seq<Field>, i: int)
    requires
        0 <= i <= fields.len(),
        forall|j: int| 0 <= j < i ==> (#[trigger] fields[j]).failure(attrs) is None,
    ensures
        first_failure(attrs, fields) == first_failure_from(attrs, fields, i),
    decreases i,
{
    if i > 0 {
        first_failure_skips_successes(attrs, fields, i - 1);
    }
}

/// Where some field from `start` on fails, there is a first failure.
pub proof fn failing_field_is_found(
    attrs: Map<Tag, Attribute>,
    fields: Seq<Field>,
    start: int,
    i: int,
)
    requires
        0 <= start <= i < fields.len(),
        fields[i].failure(attrs) is Some,
    ensures
        first_failure_from(attrs, fields, start) is Some,
    decreases i - start,
{
    if start < i {
        failing_field_is_found(attrs, fields, start + 1, i);
    }
}

/// The read of a module succeeds exactly when every field can be read, and
/// then yields the record.
pub proof fn read_all_succeeds_iff_no_field_fails<V>(
    attrs: Map<Tag, Attribute>,
    fields: Seq<Field>,
    record: V,
)
    ensures
        read_all(attrs, fields, record) is Ok <==> forall|i: int|
            0 <= i < fields.len() ==> (#[trigger] fields[i]).failure(attrs) is None,
        read_all(attrs, fields, record) is Ok ==> read_all(attrs, fields, record) == Ok::<
            V,
            Error,
        >(record),
{
    if forall|i: int| 0 <= i < fields.len() ==> (#[trigger] fields[i]).failure(attrs) is None {
        first_failure_skips_successes(attrs, fields, fields.len() as int);
    } else {
        let i = choose|i: int|
            0 <= i < fields.len() && (#[trigger] fields[i]).failure(attrs) is Some;
        failing_field_is_found(attrs, fields, 0, i);
    }
}

/// The error of a module is that of the first field, in the order of the
/// fields, that cannot be read.
pub proof fn read_all_fails_with_first_failure<V>(
    attrs: Map<Tag, Attribute>,
    fields: Seq<Field>,
    record: V,
    i: int,
)
    requires
        0 <= i < fields.len(),
        fields[i].failure(attrs) is Some,
        forall|j: int| 0 <= j < i ==> (#[trigger] fields[j]).failure(attrs) is None,
    ensures
        read_all(attrs, fields, record) == Err::<V, Error>(fields[i].failure(attrs)->Some_0),
{
    first_failure_skips_successes(attrs, fields, i);
}

/// A module with a required field whose attribute is absent is never read:
/// the result is an error. That error is `NotFound` for the absent tag,
/// unless a field before it fails.
pub proof fn absent_required_field_fails<V>(
    attrs: Map<Tag, Attribute>,
    fields: Seq<Field>,
    record: V,
    i: int,
)
    requires
        0 <= i < fields.len(),
        fields[i].reading is RequiredText,
        !attrs.contains_key(fields[i].tag),
    ensures
        read_all(attrs, fields, record) is Err,
        (forall|j: int| 0 <= j < i ==> (#[trigger] fields[j]).failure(attrs) is None) ==> read_all(
            attrs,
            fields,
            record,
        ) == Err::<V, Error>(Error::NotFound { tag: fields[i].tag }),
{
    failing_field_is_found(attrs, fields, 0, i);
    if forall|j: int| 0 <= j < i ==> (#[trigger] fields[j]).failure(attrs) is None {
        read_all_fails_with_first_failure(attrs, fields, record, i);
    }
}

/// Taking an attribute away from a data set makes no read fail that did not
/// fail before, unless a field requires that attribute.
pub proof fn removing_attribute_keeps_success(
    attrs: Map<Tag, Attribute>,
    fields: Seq<Field>,
    tag: Tag,
)
    requires
        forall|i: int|
            0 <= i < fields.len() && (#[trigger] fields[i]).tag == tag
                ==> fields[i].forgives_absence(),
        first_failure(attrs, fields) is None,
    ensures
        first_failure(attrs.remove(tag), fields) is None,
{
    read_all_succeeds_iff_no_field_fails(attrs, fields, ());
    assert forall|i: int| 0 <= i < fields.len() implies (#[trigger] fields[i]).failure(
        attrs.remove(tag),
    ) is None by {
        if fields[i].tag == tag {
            absent_field_failure(attrs.remove(tag), fields[i]);
        } else {
            field_failure_is_local(attrs, attrs.remove(tag), fields[i]);
        }
    }
    read_all_succeeds_iff_no_field_fails(attrs.remove(tag), fields, ());
}

} // verus!
