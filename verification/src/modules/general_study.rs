use vstd::prelude::*;
use vstd::std_specs::convert::TryFromSpecImpl;
use dicom_object::mem::InMemDicomObject;
use crate::error::{viewed, Error};
use crate::helper::{element_opt_to_str, element_to_str, required_text, text_or};
use crate::rules::{
    absent_required_field_fails, first_failure_from, read_all, removing_attribute_keeps_success,
    Field, Reading,
};
use crate::store::{attributes, Attribute};
use crate::tags::{
    Tag, ACCESSION_NUMBER, REFERRING_PHYSICIAN_NAME, STUDY_DATE, STUDY_ID, STUDY_INSTANCE_UID,
    STUDY_TIME,
};

verus! {

/// The attributes that describe and identify the study performed upon the
/// patient.
///
/// Only a limited set of attributes is supported.
#[derive(Clone, Debug, Default, PartialEq)]
pub struct GeneralStudy {
    /// Date the study was performed.
    pub study_date: String,
    /// Time the study was performed.
    pub study_time: String,
    /// A number generated by the information system that identifies the
    /// order for the study.
    pub accession_number: String,
    /// Name of the patient's referring physician.
    pub referring_physicians_name: String,
    /// Unique identifier of the study.
    pub study_instance_uid: String,
    /// Study identifier generated by a user or by the equipment.
    pub study_id: String,
}

/// A [`GeneralStudy`] with its strings as sequences of characters.
pub struct GeneralStudyView {
    pub study_date: Seq<char>,
    pub study_time: Seq<char>,
    pub accession_number: Seq<char>,
    pub referring_physicians_name: Seq<char>,
    pub study_instance_uid: Seq<char>,
    pub study_id: Seq<char>,
}

impl GeneralStudyView {
    /// This module as it is read once the attribute under `tag` is gone: the
    /// field that is read from `tag` is empty, every other field is as it
    /// was.
    pub open spec fn without(self, tag: Tag) -> GeneralStudyView {
        GeneralStudyView {
            study_date: if tag == STUDY_DATE { ""@ } else { self.study_date },
            study_time: if tag == STUDY_TIME { ""@ } else { self.study_time },
            accession_number: if tag == ACCESSION_NUMBER { ""@ } else { self.accession_number },
            referring_physicians_name: if tag == REFERRING_PHYSICIAN_NAME {
                ""@
            } else {
                self.referring_physicians_name
            },
            study_instance_uid: self.study_instance_uid,
            study_id: if tag == STUDY_ID { ""@ } else { self.study_id },
        }
    }
}

impl DeepView for GeneralStudy {
    type V = GeneralStudyView;

    open spec fn deep_view(&self) -> GeneralStudyView {
        GeneralStudyView {
            study_date: self.study_date@,
            study_time: self.study_time@,
            accession_number: self.accession_number@,
            referring_physicians_name: self.referring_physicians_name@,
            study_instance_uid: self.study_instance_uid@,
            study_id: self.study_id@,
        }
    }
}

impl GeneralStudy {
    /// The fields of the module, in the order in which they are read. The
    /// identifier of the study is required. The others are empty where the
    /// data set has no such attribute.
    pub open spec fn fields() -> Seq<Field> {
        seq![
            Field { tag: STUDY_DATE, reading: Reading::DefaultedText },
            Field { tag: STUDY_TIME, reading: Reading::DefaultedText },
            Field { tag: ACCESSION_NUMBER, reading: Reading::DefaultedText },
            Field { tag: REFERRING_PHYSICIAN_NAME, reading: Reading::DefaultedText },
            Field { tag: STUDY_INSTANCE_UID, reading: Reading::RequiredText },
            Field { tag: STUDY_ID, reading: Reading::DefaultedText },
        ]
    }

    /// What each field is read as, where no read fails.
    pub open spec fn record(attrs: Map<Tag, Attribute>) -> GeneralStudyView {
        GeneralStudyView {
            study_date: text_or(attrs, STUDY_DATE, ""@)->Ok_0,
            study_time: text_or(attrs, STUDY_TIME, ""@)->Ok_0,
            accession_number: text_or(attrs, ACCESSION_NUMBER, ""@)->Ok_0,
            referring_physicians_name: text_or(attrs, REFERRING_PHYSICIAN_NAME, ""@)->Ok_0,
            study_instance_uid: required_text(attrs, STUDY_INSTANCE_UID)->Ok_0,
            study_id: text_or(attrs, STUDY_ID, ""@)->Ok_0,
        }
    }

    /// The module that a data set with these attributes yields, or the
    /// error of the first field that cannot be read.
    pub open spec fn extract(attrs: Map<Tag, Attribute>) -> Result<GeneralStudyView, Error> {
        read_all(attrs, Self::fields(), Self::record(attrs))
    }

    /// A data set without the identifier of the study yields no module. The
    /// error is `NotFound` for the identifier, unless one of the four fields
    /// that are read before it cannot be decoded.
    pub proof fn missing_identifier_is_an_error(attrs: Map<Tag, Attribute>)
        requires
            !attrs.contains_key(STUDY_INSTANCE_UID),
        ensures
            Self::extract(attrs) is Err,
            (forall|j: int| 0 <= j < 4 ==> (#[trigger] Self::fields()[j]).failure(attrs) is None)
                ==> Self::extract(attrs) == Err::<GeneralStudyView, Error>(
                Error::NotFound { tag: STUDY_INSTANCE_UID },
            ),
    {
        absent_required_field_fails(attrs, Self::fields(), Self::record(attrs), 4);
    }

    /// Absence of any attribute but the identifier is no error, and touches
    /// no other field: where a data set yields a module, the data set
    /// without the attribute under `tag` yields the same module with that
    /// one field empty. So a module read from a data set that lacks the
    /// attribute has that field empty.
    pub proof fn absent_attribute_empties_its_field(attrs: Map<Tag, Attribute>, tag: Tag)
        requires
            tag != STUDY_INSTANCE_UID,
        ensures
            Self::extract(attrs) matches Ok(full) ==> Self::extract(attrs.remove(tag)) == Ok::<
                GeneralStudyView,
                Error,
            >(full.without(tag)),
            !attrs.contains_key(tag) ==> (Self::extract(attrs) matches Ok(module)
                ==> module.without(tag) == module),
    {
        if Self::extract(attrs) is Ok {
            removing_attribute_keeps_success(attrs, Self::fields(), tag);
        }
        if !attrs.contains_key(tag) {
            assert(attrs.remove(tag) =~= attrs);
        }
    }

    /// Reading is repeatable: two modules read from the same data set are
    /// equal, and so are two errors.
    pub proof fn same_data_set_same_module(
        obj: InMemDicomObject,
        first: Result<GeneralStudy, Error>,
        second: Result<GeneralStudy, Error>,
    )
        requires
            viewed(first) == Self::extract(attributes(obj)),
            viewed(second) == Self::extract(attributes(obj)),
        ensures
            viewed(first) == viewed(second),
    {
    }
}

impl<'a> TryFrom<&'a InMemDicomObject> for GeneralStudy {
    type Error = Error;

    /// Reads the module out of a data set.
    fn try_from(obj: &'a InMemDicomObject) -> (r: Result<GeneralStudy, Error>)
        ensures
            viewed(r) == Self::extract(attributes(*obj)),
    {
        proof {
            reveal_with_fuel(first_failure_from, 7);
        }
        let study_date = element_opt_to_str(obj, STUDY_DATE, "")?.to_string();
        let study_time = element_opt_to_str(obj, STUDY_TIME, "")?.to_string();
        let accession_number = element_opt_to_str(obj, ACCESSION_NUMBER, "")?.to_string();
        let referring_physicians_name = element_opt_to_str(obj, REFERRING_PHYSICIAN_NAME, "")?
            .to_string();
        let study_instance_uid = element_to_str(obj, STUDY_INSTANCE_UID)?.to_string();
        let study_id = element_opt_to_str(obj, STUDY_ID, "")?.to_string();
        Ok(
            GeneralStudy {
                study_date,
                study_time,
                accession_number,
                referring_physicians_name,
                study_instance_uid,
                study_id,
            },
        )
    }
}

impl<'a> TryFromSpecImpl<&'a InMemDicomObject> for GeneralStudy {
    /// The strings of the result are known by their characters only, so
    /// `try_from` is specified by its own `ensures`, not by equality with
    /// `try_from_spec`.
    open spec fn obeys_try_from_spec() -> bool {
        false
    }

    /// Some result whose view is what `extract` gives.
    open spec fn try_from_spec(obj: &'a InMemDicomObject) -> Result<GeneralStudy, Error> {
        choose|r: Result<GeneralStudy, Error>| viewed(r) == Self::extract(attributes(*obj))
    }
}

} // verus!
