use vstd::prelude::*;
use vstd::std_specs::convert::TryFromSpecImpl;
use dicom_object::mem::InMemDicomObject;
use crate::error::{viewed, Error};
use crate::helper::{element_to_str, required_text};
use crate::rules::{absent_required_field_fails, first_failure_from, read_all, Field, Reading};
use crate::store::{attributes, Attribute};
use crate::tags::{Tag, SOP_CLASS_UID, SOP_INSTANCE_UID};

verus! {

/// The attributes that identify a SOP instance and its class. They say
/// nothing about the real-world object that the instance represents.
#[derive(Clone, Debug, Default, PartialEq)]
pub struct SOPCommon {
    /// Unique identifier of the SOP class.
    pub class_uid: String,
    /// Unique identifier of the SOP instance.
    pub instance_uid: String,
}

/// A [`SOPCommon`] with its strings as sequences of characters.
pub struct SOPCommonView {
    pub class_uid: Seq<char>,
    pub instance_uid: Seq<char>,
}

impl DeepView for SOPCommon {
    type V = SOPCommonView;

    open spec fn deep_view(&self) -> SOPCommonView {
        SOPCommonView { class_uid: self.class_uid@, instance_uid: self.instance_uid@ }
    }
}

impl SOPCommon {
    /// The fields of the module, in the order in which they are read. Both
    /// identifiers are required.
    pub open spec fn fields() -> Seq<Field> {
        seq![
            Field { tag: SOP_CLASS_UID, reading: Reading::RequiredText },
            Field { tag: SOP_INSTANCE_UID, reading: Reading::RequiredText },
        ]
    }

    /// What each field is read as, where no read fails.
    pub open spec fn record(attrs: Map<Tag, Attribute>) -> SOPCommonView {
        SOPCommonView {
            class_uid: required_text(attrs, SOP_CLASS_UID)->Ok_0,
            instance_uid: required_text(attrs, SOP_INSTANCE_UID)->Ok_0,
        }
    }

    /// The module that a data set with these attributes yields, or the
    /// error of the first field that cannot be read.
    pub open spec fn extract(attrs: Map<Tag, Attribute>) -> Result<SOPCommonView, Error> {
        read_all(attrs, Self::fields(), Self::record(attrs))
    }

    /// A data set without the identifier of the class yields no module: the
    /// result is `NotFound` for that identifier.
    pub proof fn missing_class_is_an_error(attrs: Map<Tag, Attribute>)
        requires
            !attrs.contains_key(SOP_CLASS_UID),
        ensures
            Self::extract(attrs) == Err::<SOPCommonView, Error>(
                Error::NotFound { tag: SOP_CLASS_UID },
            ),
    {
        absent_required_field_fails(attrs, Self::fields(), Self::record(attrs), 0);
    }

    /// A data set without the identifier of the instance yields no module.
    /// The error is `NotFound` for that identifier, unless the identifier of
    /// the class, which is read before it, cannot be read.
    pub proof fn missing_instance_is_an_error(attrs: Map<Tag, Attribute>)
        requires
            !attrs.contains_key(SOP_INSTANCE_UID),
        ensures
            Self::extract(attrs) is Err,
            required_text(attrs, SOP_CLASS_UID) is Ok ==> Self::extract(attrs) == Err::<
                SOPCommonView,
                Error,
            >(Error::NotFound { tag: SOP_INSTANCE_UID }),
    {
        absent_required_field_fails(attrs, Self::fields(), Self::record(attrs), 1);
    }

    /// Reading is repeatable: two modules read from the same data set are
    /// equal, and so are two errors.
    pub proof fn same_data_set_same_module(
        obj: InMemDicomObject,
        first: Result<SOPCommon, Error>,
        second: Result<SOPCommon, Error>,
    )
        requires
            viewed(first) == Self::extract(attributes(obj)),
            viewed(second) == Self::extract(attributes(obj)),
        ensures
            viewed(first) == viewed(second),
    {
    }
}

impl<'a> TryFrom<&'a InMemDicomObject> for SOPCommon {
    type Error = Error;

    /// Reads the module out of a data set.
    fn try_from(obj: &'a InMemDicomObject) -> (r: Result<SOPCommon, Error>)
        ensures
            viewed(r) == Self::extract(attributes(*obj)),
    {
        proof {
            reveal_with_fuel(first_failure_from, 3);
        }
        let class_uid = element_to_str(obj, SOP_CLASS_UID)?.to_string();
        let instance_uid = element_to_str(obj, SOP_INSTANCE_UID)?.to_string();
        Ok(SOPCommon { class_uid, instance_uid })
    }
}

impl<'a> TryFromSpecImpl<&'a InMemDicomObject> for SOPCommon {
    /// The strings of the result are known by their characters only, so
    /// `try_from` is specified by its own `ensures`, not by equality with
    /// `try_from_spec`.
    open spec fn obeys_try_from_spec() -> bool {
        false
    }

    /// Some result whose view is what `extract` gives.
    open spec fn try_from_spec(obj: &'a InMemDicomObject) -> Result<SOPCommon, Error> {
        choose|r: Result<SOPCommon, Error>| viewed(r) == Self::extract(attributes(*obj))
    }
}

} // verus!
