use dicom_dictionary_std::tags;
use dicom_dictionary_std::uids as standard;
use dicom_transfer_syntax_registry::TransferSyntaxRegistry;
use store_scp::negotiation::offered_transfer_syntaxes;
use store_scp::negotiation::select_transfer_syntaxes;
use store_scp::negotiation::RegistryEntry;
use store_scp::pdu::find_transfer_syntax;
use store_scp::pdu::PresentationContext;
use store_scp::uids;

fn entry(uid: &str, unsupported: bool) -> RegistryEntry {
    RegistryEntry { uid: uid.to_string(), unsupported }
}

#[test]
fn uncompressed_only_offers_the_two_little_endian_syntaxes() {
    let expected = vec!["1.2.840.10008.1.2".to_string(), "1.2.840.10008.1.2.1".to_string()];
    assert_eq!(offered_transfer_syntaxes(true), expected);
    assert_eq!(select_transfer_syntaxes(true, &Vec::new()), expected);
    let registry = vec![entry("1.2.840.10008.1.2.4.50", false), entry("1.2.840.10008.1.2.2", false)];
    assert_eq!(select_transfer_syntaxes(true, &registry), expected);
}

#[test]
fn registry_offer_leaves_out_what_is_unsupported() {
    let registry = vec![
        entry("1.2.840.10008.1.2.1.99", true),
        entry("1.2.840.10008.1.2", false),
        entry("1.2.840.10008.1.2.4.50", false),
        entry("1.2.840.10008.1.2.4.100", true),
        entry("1.2.840.10008.1.2.1", false),
    ];
    assert_eq!(
        select_transfer_syntaxes(false, &registry),
        vec!["1.2.840.10008.1.2", "1.2.840.10008.1.2.4.50", "1.2.840.10008.1.2.1"]
    );
    assert!(select_transfer_syntaxes(false, &Vec::new()).is_empty());
    assert!(select_transfer_syntaxes(false, &vec![entry("1.2", true)]).is_empty());
}

#[test]
fn full_offer_is_what_the_registry_supports() {
    let mut offered = offered_transfer_syntaxes(false);
    let mut expected: Vec<String> = TransferSyntaxRegistry
        .iter()
        .filter(|ts| !ts.is_unsupported())
        .map(|ts| ts.uid().to_string())
        .collect();
    offered.sort();
    expected.sort();
    assert_eq!(offered, expected);
    // no identifier is offered twice
    let mut once = offered.clone();
    once.dedup();
    assert_eq!(once, offered);
    assert!(offered.iter().any(|uid| uid == uids::IMPLICIT_VR_LITTLE_ENDIAN));
    assert!(offered.iter().any(|uid| uid == uids::EXPLICIT_VR_LITTLE_ENDIAN));
    assert!(offered.len() > 2);
}

#[test]
#[allow(deprecated)]
fn abstract_syntaxes_are_the_storage_classes() {
    let expected = [
        standard::CT_IMAGE_STORAGE,
        standard::ENHANCED_CT_IMAGE_STORAGE,
        standard::STANDALONE_CURVE_STORAGE,
        standard::STANDALONE_OVERLAY_STORAGE,
        standard::SECONDARY_CAPTURE_IMAGE_STORAGE,
        standard::ULTRASOUND_IMAGE_STORAGE_RETIRED,
        standard::NUCLEAR_MEDICINE_IMAGE_STORAGE_RETIRED,
        standard::MR_IMAGE_STORAGE,
        standard::ENHANCED_MR_IMAGE_STORAGE,
        standard::MR_SPECTROSCOPY_STORAGE,
        standard::ENHANCED_MR_COLOR_IMAGE_STORAGE,
        standard::ULTRASOUND_MULTI_FRAME_IMAGE_STORAGE_RETIRED,
        standard::COMPUTED_RADIOGRAPHY_IMAGE_STORAGE,
        standard::DIGITAL_X_RAY_IMAGE_STORAGE_FOR_PRESENTATION,
        standard::DIGITAL_X_RAY_IMAGE_STORAGE_FOR_PROCESSING,
        standard::ENCAPSULATED_PDF_STORAGE,
        standard::ENCAPSULATED_CDA_STORAGE,
        standard::ENCAPSULATED_STL_STORAGE,
        standard::GRAYSCALE_SOFTCOPY_PRESENTATION_STATE_STORAGE,
        standard::POSITRON_EMISSION_TOMOGRAPHY_IMAGE_STORAGE,
        standard::BREAST_TOMOSYNTHESIS_IMAGE_STORAGE,
        standard::BREAST_PROJECTION_X_RAY_IMAGE_STORAGE_FOR_PRESENTATION,
        standard::BREAST_PROJECTION_X_RAY_IMAGE_STORAGE_FOR_PROCESSING,
        standard::ENHANCED_PET_IMAGE_STORAGE,
        standard::RT_IMAGE_STORAGE,
        standard::NUCLEAR_MEDICINE_IMAGE_STORAGE,
        standard::ULTRASOUND_MULTI_FRAME_IMAGE_STORAGE,
        standard::MULTI_FRAME_SINGLE_BIT_SECONDARY_CAPTURE_IMAGE_STORAGE,
        standard::MULTI_FRAME_GRAYSCALE_BYTE_SECONDARY_CAPTURE_IMAGE_STORAGE,
        standard::MULTI_FRAME_GRAYSCALE_WORD_SECONDARY_CAPTURE_IMAGE_STORAGE,
        standard::MULTI_FRAME_TRUE_COLOR_SECONDARY_CAPTURE_IMAGE_STORAGE,
        standard::BASIC_TEXT_SR_STORAGE,
        standard::ENHANCED_SR_STORAGE,
        standard::COMPREHENSIVE_SR_STORAGE,
        standard::VERIFICATION,
    ];
    assert_eq!(uids::ABSTRACT_SYNTAXES.len(), 35);
    assert_eq!(uids::ABSTRACT_SYNTAXES, expected);
    assert_eq!(uids::ABSTRACT_SYNTAXES[0], "1.2.840.10008.5.1.4.1.1.2");
    assert_eq!(uids::ABSTRACT_SYNTAXES[34], "1.2.840.10008.1.1");
}

#[test]
fn tags_and_codes_are_those_of_the_standard() {
    let pair = |tag: dicom_core::Tag| (tag.0, tag.1);
    assert_eq!(uids::AFFECTED_SOP_CLASS_UID, pair(tags::AFFECTED_SOP_CLASS_UID));
    assert_eq!(uids::COMMAND_FIELD, pair(tags::COMMAND_FIELD));
    assert_eq!(uids::MESSAGE_ID, pair(tags::MESSAGE_ID));
    assert_eq!(uids::MESSAGE_ID_BEING_RESPONDED_TO, pair(tags::MESSAGE_ID_BEING_RESPONDED_TO));
    assert_eq!(uids::COMMAND_DATA_SET_TYPE, pair(tags::COMMAND_DATA_SET_TYPE));
    assert_eq!(uids::STATUS, pair(tags::STATUS));
    assert_eq!(uids::AFFECTED_SOP_INSTANCE_UID, pair(tags::AFFECTED_SOP_INSTANCE_UID));
    assert_eq!(uids::SOP_CLASS_UID, pair(tags::SOP_CLASS_UID));
    assert_eq!(uids::SOP_INSTANCE_UID, pair(tags::SOP_INSTANCE_UID));
    assert_eq!(uids::IMPLICIT_VR_LITTLE_ENDIAN, standard::IMPLICIT_VR_LITTLE_ENDIAN);
    assert_eq!(uids::EXPLICIT_VR_LITTLE_ENDIAN, standard::EXPLICIT_VR_LITTLE_ENDIAN);
    assert_eq!(uids::C_STORE_RSP, 0x8001);
    assert_eq!(uids::NO_DATA_SET, 0x0101);
    assert_eq!(uids::STATUS_SUCCESS, 0);
}

#[test]
fn transfer_syntax_of_the_first_matching_context_is_found() {
    let contexts = vec![
        PresentationContext { id: 1, transfer_syntax: "1.2.840.10008.1.2".to_string() },
        PresentationContext { id: 3, transfer_syntax: "1.2.840.10008.1.2.1".to_string() },
        PresentationContext { id: 3, transfer_syntax: "1.2.840.10008.1.2.2".to_string() },
        PresentationContext { id: 255, transfer_syntax: "1.2.840.10008.1.2.4.50".to_string() },
    ];
    assert_eq!(find_transfer_syntax(&contexts, 1).map(String::as_str), Some("1.2.840.10008.1.2"));
    assert_eq!(find_transfer_syntax(&contexts, 3).map(String::as_str), Some("1.2.840.10008.1.2.1"));
    assert_eq!(
        find_transfer_syntax(&contexts, 255).map(String::as_str),
        Some("1.2.840.10008.1.2.4.50")
    );
    assert_eq!(find_transfer_syntax(&contexts, 2), None);
    assert_eq!(find_transfer_syntax(&contexts, 0), None);
    assert_eq!(find_transfer_syntax(&Vec::new(), 1), None);
}

#[test]
fn both_little_endian_syntaxes_are_always_offered() {
    for uncompressed_only in [true, false] {
        let offered = offered_transfer_syntaxes(uncompressed_only);
        assert!(!offered.is_empty());
        assert!(offered.iter().any(|uid| uid == "1.2.840.10008.1.2"));
        assert!(offered.iter().any(|uid| uid == "1.2.840.10008.1.2.1"));
    }
}
