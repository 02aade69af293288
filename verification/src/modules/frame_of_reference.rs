use vstd::prelude::*;
use vstd::std_specs::convert::TryFromSpecImpl;
use dicom_object::mem::InMemDicomObject;
use crate::error::{viewed, Error};
use crate::helper::{element_opt_to_str, element_to_str, required_text, text_or};
use crate::rules::{
    absent_required_field_fails, first_failure_from, read_all, removing_attribute_keeps_success,
    Field, Reading,
};
use crate::store::{attributes, Attribute};
use crate::tags::{Tag, FRAME_OF_REFERENCE_UID, POSITION_REFERENCE_INDICATOR};

verus! {

/// The attributes that identify a frame of reference, which fixes the
/// spatial relationship of the images within a series.
#[derive(Clone, Debug, Default, PartialEq)]
pub struct FrameOfReference {
    /// Unique identifier of the frame of reference.
    pub uid: String,
    /// Part of the imaging target that was used as a reference.
    pub position_reference_indicator: String,
}

/// A [`FrameOfReference`] with its strings as sequences of characters.
pub struct FrameOfReferenceView {
    pub uid: Seq<char>,
    pub position_reference_indicator: Seq<char>,
}

impl FrameOfReferenceView {
    /// This module as it is read once the attribute under `tag` is gone: the
    /// indicator is empty if it is read from `tag`, and the identifier is as
    /// it was.
    pub open spec fn without(self, tag: Tag) -> FrameOfReferenceView {
        FrameOfReferenceView {
            uid: self.uid,
            position_reference_indicator: if tag == POSITION_REFERENCE_INDICATOR {
                ""@
            } else {
                self.position_reference_indicator
            },
        }
    }
}

impl DeepView for FrameOfReference {
    type V = FrameOfReferenceView;

    open spec fn deep_view(&self) -> FrameOfReferenceView {
        FrameOfReferenceView {
            uid: self.uid@,
            position_reference_indicator: self.position_reference_indicator@,
        }
    }
}

impl FrameOfReference {
    /// The fields of the module, in the order in which they are read. The
    /// identifier is required. The indicator is empty where the data set
    /// has no such attribute.
    pub open spec fn fields() -> Seq<Field> {
        seq![
            Field { tag: FRAME_OF_REFERENCE_UID, reading: Reading::RequiredText },
            Field { tag: POSITION_REFERENCE_INDICATOR, reading: Reading::DefaultedText },
        ]
    }

    /// What each field is read as, where no read fails.
    pub open spec fn record(attrs: Map<Tag, Attribute>) -> FrameOfReferenceView {
        FrameOfReferenceView {
            uid: required_text(attrs, FRAME_OF_REFERENCE_UID)->Ok_0,
            position_reference_indicator: text_or(attrs, POSITION_REFERENCE_INDICATOR, ""@)->Ok_0,
        }
    }

    /// The module that a data set with these attributes yields, or the
    /// error of the first field that cannot be read.
    pub open spec fn extract(attrs: Map<Tag, Attribute>) -> Result<FrameOfReferenceView, Error> {
        read_all(attrs, Self::fields(), Self::record(attrs))
    }

    /// A data set without the identifier of the frame of reference yields
    /// no module: the result is `NotFound` for the identifier.
    pub proof fn missing_identifier_is_an_error(attrs: Map<Tag, Attribute>)
        requires
            !attrs.contains_key(FRAME_OF_REFERENCE_UID),
        ensures
            Self::extract(attrs) == Err::<FrameOfReferenceView, Error>(
                Error::NotFound { tag: FRAME_OF_REFERENCE_UID },
            ),
    {
        absent_required_field_fails(attrs, Self::fields(), Self::record(attrs), 0);
    }

    /// Absence of any attribute but the identifier is no error, and touches
    /// no other field: where a data set yields a module, the data set
    /// without the attribute under `tag` yields the same module with that
    /// one field empty. So a module read from a data set that lacks the
    /// attribute has that field empty.
    pub proof fn absent_attribute_empties_its_field(attrs: Map<Tag, Attribute>, tag: Tag)
        requires
            tag != FRAME_OF_REFERENCE_UID,
        ensures
            Self::extract(attrs) matches Ok(full) ==> Self::extract(attrs.remove(tag)) == Ok::<
                FrameOfReferenceView,
                Error,
            >(full.without(tag)),
            !attrs.contains_key(tag) ==> (Self::extract(attrs) matches Ok(module)
                ==> module.without(tag) == module),
    {
        if Self::extract(attrs) is Ok {
            removing_attribute_keeps_success(attrs, Self::fields(), tag);
        }
        if !attrs.contains_key(tag) {
            assert(attrs.remove(tag) =~= attrs);
        }
    }

    /// Reading is repeatable: two modules read from the same data set are
    /// equal, and so are two errors.
    pub proof fn same_data_set_same_module(
        obj: InMemDicomObject,
        first: Result<FrameOfReference, Error>,
        second: Result<FrameOfReference, Error>,
    )
        requires
            viewed(first) == Self::extract(attributes(obj)),
            viewed(second) == Self::extract(attributes(obj)),
        ensures
            viewed(first) == viewed(second),
    {
    }
}

impl<'a> TryFrom<&'a InMemDicomObject> for FrameOfReference {
    type Error = Error;

    /// Reads the module out of a data set.
    fn try_from(obj: &'a InMemDicomObject) -> (r: Result<FrameOfReference, Error>)
        ensures
            viewed(r) == Self::extract(attributes(*obj)),
    {
        proof {
            reveal_with_fuel(first_failure_from, 3);
        }
        let uid = element_to_str(obj, FRAME_OF_REFERENCE_UID)?.to_string();
        let position_reference_indicator = element_opt_to_str(
            obj,
            POSITION_REFERENCE_INDICATOR,
            "",
        )?.to_string();
        Ok(FrameOfReference { uid, position_reference_indicator })
    }
}

impl<'a> TryFromSpecImpl<&'a InMemDicomObject> for FrameOfReference {
    /// The strings of the result are known by their characters only, so
    /// `try_from` is specified by its own `ensures`, not by equality with
    /// `try_from_spec`.
    open spec fn obeys_try_from_spec() -> bool {
        false
    }

    /// Some result whose view is what `extract` gives.
    open spec fn try_from_spec(obj: &'a InMemDicomObject) -> Result<FrameOfReference, Error> {
        choose|r: Result<FrameOfReference, Error>| viewed(r) == Self::extract(attributes(*obj))
    }
}

} // verus!
