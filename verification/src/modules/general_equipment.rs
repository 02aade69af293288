use vstd::prelude::*;
use vstd::std_specs::convert::TryFromSpecImpl;
use dicom_object::mem::InMemDicomObject;
use crate::data::{Float64, UsSs};
use crate::error::{viewed, Error};
use crate::helper::{
    element_to_str, optional_float64, optional_integer, optional_number, optional_string,
    optional_strings, optional_text, optional_texts, optional_us_ss, required_text,
};
use crate::rules::{
    absent_required_field_fails, first_failure_from, read_all,
    read_all_succeeds_iff_no_field_fails, removing_attribute_keeps_success, Field, Reading,
};
use crate::store::{attributes, Attribute};
use crate::tags::{
    Tag, DEVICE_SERIAL_NUMBER, DEVICE_UID, GANTRY_ID, INSTITUTIONAL_DEPARTMENT_NAME,
    INSTITUTION_ADDRESS, INSTITUTION_NAME, MANUFACTURER, MANUFACTURER_DEVICE_CLASS_UID,
    MANUFACTURER_MODEL_NAME, PIXEL_PADDING_VALUE, SOFTWARE_VERSIONS, SPATIAL_RESOLUTION,
};

verus! {

/// The attributes that identify and describe the piece of equipment that
/// produced a series of composite instances.
#[derive(Clone, Debug, Default, PartialEq)]
pub struct GeneralEquipment {
    /// Manufacturer of the equipment.
    pub manufacturer: String,
    /// Name of the institution where the equipment is located.
    pub institution_name: Option<String>,
    /// Address of the institution where the equipment is located.
    pub institution_address: Option<String>,
    /// Name of the department where the equipment is located.
    pub institutional_department_name: Option<String>,
    /// Model name that the manufacturer gave the equipment.
    pub manufacturer_model_name: Option<String>,
    /// Serial number that the manufacturer gave the equipment.
    pub device_serial_number: Option<String>,
    /// Unique identifier of the equipment.
    pub device_uid: Option<String>,
    /// Identifier of the gantry.
    pub gantry_id: Option<String>,
    /// Unique identifier that the manufacturer gave the class of the device.
    pub manufacturer_device_class_uid: Option<String>,
    /// How the manufacturer designates the software versions of the
    /// equipment.
    pub software_versions: Option<Vec<String>>,
    /// The limiting resolution of the acquired data, in millimetres. Where
    /// it varies across the images of the series, the value at the centre
    /// of the image.
    pub spatial_resolution: Option<Float64>,
    /// The pixel value, or one limit of a range of pixel values, that pads
    /// an image to a rectangle or marks background.
    pub pixel_padding_value: Option<UsSs>,
}

/// A [`GeneralEquipment`] with its strings as sequences of characters.
pub struct GeneralEquipmentView {
    pub manufacturer: Seq<char>,
    pub institution_name: Option<Seq<char>>,
    pub institution_address: Option<Seq<char>>,
    pub institutional_department_name: Option<Seq<char>>,
    pub manufacturer_model_name: Option<Seq<char>>,
    pub device_serial_number: Option<Seq<char>>,
    pub device_uid: Option<Seq<char>>,
    pub gantry_id: Option<Seq<char>>,
    pub manufacturer_device_class_uid: Option<Seq<char>>,
    pub software_versions: Option<Seq<Seq<char>>>,
    pub spatial_resolution: Option<Float64>,
    pub pixel_padding_value: Option<UsSs>,
}

impl GeneralEquipmentView {
    /// This module as it is read once the attribute under `tag` is gone: the
    /// field that is read from `tag` is `None`, every other field is as it
    /// was.
    pub open spec fn without(self, tag: Tag) -> GeneralEquipmentView {
        GeneralEquipmentView {
            manufacturer: self.manufacturer,
            institution_name: if tag == INSTITUTION_NAME { None } else { self.institution_name },
            institution_address: if tag == INSTITUTION_ADDRESS { None } else { self.institution_address },
            institutional_department_name: if tag == INSTITUTIONAL_DEPARTMENT_NAME { None } else { self.institutional_department_name },
            manufacturer_model_name: if tag == MANUFACTURER_MODEL_NAME { None } else { self.manufacturer_model_name },
            device_serial_number: if tag == DEVICE_SERIAL_NUMBER { None } else { self.device_serial_number },
            device_uid: if tag == DEVICE_UID { None } else { self.device_uid },
            gantry_id: if tag == GANTRY_ID { None } else { self.gantry_id },
            manufacturer_device_class_uid: if tag == MANUFACTURER_DEVICE_CLASS_UID { None } else { self.manufacturer_device_class_uid },
            software_versions: if tag == SOFTWARE_VERSIONS { None } else { self.software_versions },
            spatial_resolution: if tag == SPATIAL_RESOLUTION { None } else { self.spatial_resolution },
            pixel_padding_value: if tag == PIXEL_PADDING_VALUE { None } else { self.pixel_padding_value },
        }
    }
}

impl DeepView for GeneralEquipment {
    type V = GeneralEquipmentView;

    open spec fn deep_view(&self) -> GeneralEquipmentView {
        GeneralEquipmentView {
            manufacturer: self.manufacturer@,
            institution_name: self.institution_name.deep_view(),
            institution_address: self.institution_address.deep_view(),
            institutional_department_name: self.institutional_department_name.deep_view(),
            manufacturer_model_name: self.manufacturer_model_name.deep_view(),
            device_serial_number: self.device_serial_number.deep_view(),
            device_uid: self.device_uid.deep_view(),
            gantry_id: self.gantry_id.deep_view(),
            manufacturer_device_class_uid: self.manufacturer_device_class_uid.deep_view(),
            software_versions: self.software_versions.deep_view(),
            spatial_resolution: self.spatial_resolution,
            pixel_padding_value: self.pixel_padding_value,
        }
    }
}

impl GeneralEquipment {
    /// The fields of the module, in the order in which they are read. The
    /// manufacturer is required. Every other field may be absent.
    pub open spec fn fields() -> Seq<Field> {
        seq![
            Field { tag: MANUFACTURER, reading: Reading::RequiredText },
            Field { tag: INSTITUTION_NAME, reading: Reading::OptionalText },
            Field { tag: INSTITUTION_ADDRESS, reading: Reading::OptionalText },
            Field { tag: INSTITUTIONAL_DEPARTMENT_NAME, reading: Reading::OptionalText },
            Field { tag: MANUFACTURER_MODEL_NAME, reading: Reading::OptionalText },
            Field { tag: DEVICE_SERIAL_NUMBER, reading: Reading::OptionalText },
            Field { tag: DEVICE_UID, reading: Reading::OptionalText },
            Field { tag: GANTRY_ID, reading: Reading::OptionalText },
            Field { tag: MANUFACTURER_DEVICE_CLASS_UID, reading: Reading::OptionalText },
            Field { tag: SOFTWARE_VERSIONS, reading: Reading::OptionalTexts },
            Field { tag: SPATIAL_RESOLUTION, reading: Reading::OptionalNumber },
            Field { tag: PIXEL_PADDING_VALUE, reading: Reading::OptionalInteger },
        ]
    }

    /// What each field is read as, where no read fails.
    pub open spec fn record(attrs: Map<Tag, Attribute>) -> GeneralEquipmentView {
        GeneralEquipmentView {
            manufacturer: required_text(attrs, MANUFACTURER)->Ok_0,
            institution_name: optional_text(attrs, INSTITUTION_NAME)->Ok_0,
            institution_address: optional_text(attrs, INSTITUTION_ADDRESS)->Ok_0,
            institutional_department_name: optional_text(
                attrs,
                INSTITUTIONAL_DEPARTMENT_NAME,
            )->Ok_0,
            manufacturer_model_name: optional_text(attrs, MANUFACTURER_MODEL_NAME)->Ok_0,
            device_serial_number: optional_text(attrs, DEVICE_SERIAL_NUMBER)->Ok_0,
            device_uid: optional_text(attrs, DEVICE_UID)->Ok_0,
            gantry_id: optional_text(attrs, GANTRY_ID)->Ok_0,
            manufacturer_device_class_uid: optional_text(
                attrs,
                MANUFACTURER_DEVICE_CLASS_UID,
            )->Ok_0,
            software_versions: optional_texts(attrs, SOFTWARE_VERSIONS)->Ok_0,
            spatial_resolution: optional_number(attrs, SPATIAL_RESOLUTION)->Ok_0,
            pixel_padding_value: optional_integer(attrs, PIXEL_PADDING_VALUE)->Ok_0,
        }
    }

    /// The module that a data set with these attributes yields, or the
    /// error of the first field that cannot be read.
    pub open spec fn extract(attrs: Map<Tag, Attribute>) -> Result<GeneralEquipmentView, Error> {
        read_all(attrs, Self::fields(), Self::record(attrs))
    }

    /// A data set without the manufacturer yields no module: the result is
    /// `NotFound` for the manufacturer.
    pub proof fn missing_manufacturer_is_an_error(attrs: Map<Tag, Attribute>)
        requires
            !attrs.contains_key(MANUFACTURER),
        ensures
            Self::extract(attrs) == Err::<GeneralEquipmentView, Error>(
                Error::NotFound { tag: MANUFACTURER },
            ),
    {
        absent_required_field_fails(attrs, Self::fields(), Self::record(attrs), 0);
    }

    /// Absence of any attribute but the manufacturer is no error, and
    /// touches no other field: where a data set yields a module, the data
    /// set without the attribute under `tag` yields the same module with
    /// that one field `None`. So a module read from a data set that lacks
    /// the attribute has `None` in that field.
    pub proof fn absent_attribute_empties_its_field(attrs: Map<Tag, Attribute>, tag: Tag)
        requires
            tag != MANUFACTURER,
        ensures
            Self::extract(attrs) matches Ok(full) ==> Self::extract(attrs.remove(tag)) == Ok::<
                GeneralEquipmentView,
                Error,
            >(full.without(tag)),
            !attrs.contains_key(tag) ==> (Self::extract(attrs) matches Ok(module)
                ==> module.without(tag) == module),
    {
        if Self::extract(attrs) is Ok {
            Self::only_the_manufacturer_is_required();
            removing_attribute_keeps_success(attrs, Self::fields(), tag);
            Self::record_without_attribute(attrs, tag);
        }
        if !attrs.contains_key(tag) {
            assert(attrs.remove(tag) =~= attrs);
        }
    }

    /// The manufacturer is the only field that does not forgive absence.
    proof fn only_the_manufacturer_is_required()
        ensures
            Self::fields().len() == 12,
            forall|i: int|
                0 <= i < 12 ==> ((#[trigger] Self::fields()[i]).forgives_absence() <==> i != 0),
            Self::fields()[0].tag == MANUFACTURER,
    {
    }

    /// The record of a data set without the attribute under `tag` is the
    /// record of the data set, without the field of that tag.
    proof fn record_without_attribute(attrs: Map<Tag, Attribute>, tag: Tag)
        requires
            tag != MANUFACTURER,
        ensures
            Self::record(attrs.remove(tag)) == Self::record(attrs).without(tag),
    {
    }

    /// The padding value of a module that was read has exactly one of its
    /// two fields set.
    pub proof fn padding_value_is_resolved(attrs: Map<Tag, Attribute>)
        ensures
            Self::extract(attrs) matches Ok(module) ==> (module.pixel_padding_value matches Some(
                value,
            ) ==> value.is_resolved()),
    {
        if Self::extract(attrs) is Ok {
            read_all_succeeds_iff_no_field_fails(attrs, Self::fields(), Self::record(attrs));
            assert(Self::fields()[11].failure(attrs) is None);
        }
    }

    /// Reading is repeatable: two modules read from the same data set are
    /// equal, and so are two errors.
    pub proof fn same_data_set_same_module(
        obj: InMemDicomObject,
        first: Result<GeneralEquipment, Error>,
        second: Result<GeneralEquipment, Error>,
    )
        requires
            viewed(first) == Self::extract(attributes(obj)),
            viewed(second) == Self::extract(attributes(obj)),
        ensures
            viewed(first) == viewed(second),
    {
    }
}

impl<'a> TryFrom<&'a InMemDicomObject> for GeneralEquipment {
    type Error = Error;

    /// Reads the module out of a data set.
    fn try_from(obj: &'a InMemDicomObject) -> (r: Result<GeneralEquipment, Error>)
        ensures
            viewed(r) == Self::extract(attributes(*obj)),
            r matches Ok(equipment) ==> (equipment.pixel_padding_value matches Some(value)
                ==> value.is_resolved()),
    {
        proof {
            reveal_with_fuel(first_failure_from, 13);
        }
        let manufacturer = element_to_str(obj, MANUFACTURER)?.to_string();
        let institution_name = optional_string(obj, INSTITUTION_NAME)?;
        let institution_address = optional_string(obj, INSTITUTION_ADDRESS)?;
        let institutional_department_name = optional_string(obj, INSTITUTIONAL_DEPARTMENT_NAME)?;
        let manufacturer_model_name = optional_string(obj, MANUFACTURER_MODEL_NAME)?;
        let device_serial_number = optional_string(obj, DEVICE_SERIAL_NUMBER)?;
        let device_uid = optional_string(obj, DEVICE_UID)?;
        let gantry_id = optional_string(obj, GANTRY_ID)?;
        let manufacturer_device_class_uid = optional_string(obj, MANUFACTURER_DEVICE_CLASS_UID)?;
        let software_versions = optional_strings(obj, SOFTWARE_VERSIONS)?;
        let spatial_resolution = optional_float64(obj, SPATIAL_RESOLUTION)?;
        let pixel_padding_value = optional_us_ss(obj, PIXEL_PADDING_VALUE)?;
        Ok(
            GeneralEquipment {
                manufacturer,
                institution_name,
                institution_address,
                institutional_department_name,
                manufacturer_model_name,
                device_serial_number,
                device_uid,
                gantry_id,
                manufacturer_device_class_uid,
                software_versions,
                spatial_resolution,
                pixel_padding_value,
            },
        )
    }
}

impl<'a> TryFromSpecImpl<&'a InMemDicomObject> for GeneralEquipment {
    /// The strings of the result are known by their characters only, so
    /// `try_from` is specified by its own `ensures`, not by equality with
    /// `try_from_spec`.
    open spec fn obeys_try_from_spec() -> bool {
        false
    }

    /// Some result whose view is what `extract` gives.
    open spec fn try_from_spec(obj: &'a InMemDicomObject) -> Result<GeneralEquipment, Error> {
        choose|r: Result<GeneralEquipment, Error>| viewed(r) == Self::extract(attributes(*obj))
    }
}

} // verus!
