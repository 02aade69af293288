use vstd::prelude::*;
use vstd::std_specs::convert::TryFromSpecImpl;
use dicom_object::mem::InMemDicomObject;
use crate::error::{viewed, Error};
use crate::helper::{element_opt_to_str, text_or};
use crate::rules::{
    first_failure_from, read_all, removing_attribute_keeps_success, Field, Reading,
};
use crate::store::{attributes, Attribute};
use crate::tags::{
    Tag, PATIENT_BIRTH_DATE, PATIENT_BIRTH_TIME, PATIENT_ID, PATIENT_NAME, PATIENT_SEX,
};

verus! {

/// The attributes that describe and identify the patient who is the subject
/// of a study.
///
/// Only a limited set of attributes is supported.
#[derive(Clone, Debug, Default, PartialEq)]
pub struct Patient {
    /// Full name of the patient.
    pub name: String,
    /// Primary identifier of the patient.
    pub id: String,
    /// Birth date of the patient.
    pub birth_date: String,
    /// Birth time of the patient.
    pub birth_time: String,
    /// Sex of the patient.
    pub sex: String,
}

/// A [`Patient`] with its strings as sequences of characters.
pub struct PatientView {
    pub name: Seq<char>,
    pub id: Seq<char>,
    pub birth_date: Seq<char>,
    pub birth_time: Seq<char>,
    pub sex: Seq<char>,
}

impl PatientView {
    /// This module as it is read once the attribute under `tag` is gone: the
    /// field that is read from `tag` is empty, every other field is as it
    /// was.
    pub open spec fn without(self, tag: Tag) -> PatientView {
        PatientView {
            name: if tag == PATIENT_NAME { ""@ } else { self.name },
            id: if tag == PATIENT_ID { ""@ } else { self.id },
            birth_date: if tag == PATIENT_BIRTH_DATE { ""@ } else { self.birth_date },
            birth_time: if tag == PATIENT_BIRTH_TIME { ""@ } else { self.birth_time },
            sex: if tag == PATIENT_SEX { ""@ } else { self.sex },
        }
    }
}

impl DeepView for Patient {
    type V = PatientView;

    open spec fn deep_view(&self) -> PatientView {
        PatientView {
            name: self.name@,
            id: self.id@,
            birth_date: self.birth_date@,
            birth_time: self.birth_time@,
            sex: self.sex@,
        }
    }
}

impl Patient {
    /// The fields of the module, in the order in which they are read. None
    /// is required: each is empty where the data set has no such attribute.
    pub open spec fn fields() -> Seq<Field> {
        seq![
            Field { tag: PATIENT_NAME, reading: Reading::DefaultedText },
            Field { tag: PATIENT_ID, reading: Reading::DefaultedText },
            Field { tag: PATIENT_BIRTH_DATE, reading: Reading::DefaultedText },
            Field { tag: PATIENT_BIRTH_TIME, reading: Reading::DefaultedText },
            Field { tag: PATIENT_SEX, reading: Reading::DefaultedText },
        ]
    }

    /// What each field is read as, where no read fails.
    pub open spec fn record(attrs: Map<Tag, Attribute>) -> PatientView {
        PatientView {
            name: text_or(attrs, PATIENT_NAME, ""@)->Ok_0,
            id: text_or(attrs, PATIENT_ID, ""@)->Ok_0,
            birth_date: text_or(attrs, PATIENT_BIRTH_DATE, ""@)->Ok_0,
            birth_time: text_or(attrs, PATIENT_BIRTH_TIME, ""@)->Ok_0,
            sex: text_or(attrs, PATIENT_SEX, ""@)->Ok_0,
        }
    }

    /// The module that a data set with these attributes yields, or the
    /// error of the first field that cannot be read.
    pub open spec fn extract(attrs: Map<Tag, Attribute>) -> Result<PatientView, Error> {
        read_all(attrs, Self::fields(), Self::record(attrs))
    }

    /// Absence of an attribute is no error, and touches no other field:
    /// where a data set yields a module, the data set without the attribute
    /// under `tag` yields the same module with that one field empty. So a
    /// module read from a data set that lacks the attribute has that field
    /// empty.
    pub proof fn absent_attribute_empties_its_field(attrs: Map<Tag, Attribute>, tag: Tag)
        ensures
            Self::extract(attrs) matches Ok(full) ==> Self::extract(attrs.remove(tag)) == Ok::<
                PatientView,
                Error,
            >(full.without(tag)),
            !attrs.contains_key(tag) ==> (Self::extract(attrs) matches Ok(module)
                ==> module.without(tag) == module),
    {
        if Self::extract(attrs) is Ok {
            removing_attribute_keeps_success(attrs, Self::fields(), tag);
        }
        if !attrs.contains_key(tag) {
            assert(attrs.remove(tag) =~= attrs);
        }
    }

    /// A data set that holds none of the attributes of the module yields
    /// the module with every field empty.
    pub proof fn empty_data_set_yields_empty_module(attrs: Map<Tag, Attribute>)
        requires
            forall|i: int|
                0 <= i < Self::fields().len() ==> !attrs.contains_key(
                    (#[trigger] Self::fields()[i]).tag,
                ),
        ensures
            Self::extract(attrs) == Ok::<PatientView, Error>(
                PatientView { name: ""@, id: ""@, birth_date: ""@, birth_time: ""@, sex: ""@ },
            ),
    {
        reveal_with_fuel(first_failure_from, 6);
        assert(!attrs.contains_key(Self::fields()[0].tag));
        assert(!attrs.contains_key(Self::fields()[1].tag));
        assert(!attrs.contains_key(Self::fields()[2].tag));
        assert(!attrs.contains_key(Self::fields()[3].tag));
        assert(!attrs.contains_key(Self::fields()[4].tag));
    }

    /// Reading is repeatable: two modules read from the same data set are
    /// equal, and so are two errors.
    pub proof fn same_data_set_same_module(
        obj: InMemDicomObject,
        first: Result<Patient, Error>,
        second: Result<Patient, Error>,
    )
        requires
            viewed(first) == Self::extract(attributes(obj)),
            viewed(second) == Self::extract(attributes(obj)),
        ensures
            viewed(first) == viewed(second),
    {
    }
}

impl<'a> TryFrom<&'a InMemDicomObject> for Patient {
    type Error = Error;

    /// Reads the module out of a data set.
    fn try_from(obj: &'a InMemDicomObject) -> (r: Result<Patient, Error>)
        ensures
            viewed(r) == Self::extract(attributes(*obj)),
    {
        proof {
            reveal_with_fuel(first_failure_from, 6);
        }
        Ok(
            Patient {
                name: element_opt_to_str(obj, PATIENT_NAME, "")?.to_string(),
                id: element_opt_to_str(obj, PATIENT_ID, "")?.to_string(),
                birth_date: element_opt_to_str(obj, PATIENT_BIRTH_DATE, "")?.to_string(),
                birth_time: element_opt_to_str(obj, PATIENT_BIRTH_TIME, "")?.to_string(),
                sex: element_opt_to_str(obj, PATIENT_SEX, "")?.to_string(),
            },
        )
    }
}

impl<'a> TryFromSpecImpl<&'a InMemDicomObject> for Patient {
    /// The strings of the result are known by their characters only, so
    /// `try_from` is specified by its own `ensures`, not by equality with
    /// `try_from_spec`.
    open spec fn obeys_try_from_spec() -> bool {
        false
    }

    /// Some result whose view is what `extract` gives.
    open spec fn try_from_spec(obj: &'a InMemDicomObject) -> Result<Patient, Error> {
        choose|r: Result<Patient, Error>| viewed(r) == Self::extract(attributes(*obj))
    }
}

} // verus!
