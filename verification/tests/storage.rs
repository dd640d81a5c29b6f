use dicom_core::header::DataElement;
use dicom_core::value::DataSetSequence;
use dicom_core::value::PrimitiveValue;
use dicom_core::value::Value;
use dicom_core::Tag;
use dicom_core::VR;
use dicom_dictionary_std::tags;
use dicom_encoding::transfer_syntax::TransferSyntaxIndex;
use dicom_object::InMemDicomObject;
use dicom_transfer_syntax_registry::TransferSyntaxRegistry;
use store_scp::limits::text_byte_len;
use store_scp::command::Lookup;
use store_scp::error::StoreError;
use store_scp::store::encode_object_file;
use store_scp::store::file_contents;
use store_scp::store::read_identity;
use store_scp::store::storage_file_name;
use store_scp::store::FileMeta;
use store_scp::store::ObjectIdentity;

const EXPLICIT: &str = "1.2.840.10008.1.2.1";
const IMPLICIT: &str = "1.2.840.10008.1.2";
const MR_IMAGE_STORAGE: &str = "1.2.840.10008.5.1.4.1.1.4";

fn mr_object() -> InMemDicomObject {
    InMemDicomObject::from_element_iter([
        DataElement::new(tags::SOP_CLASS_UID, VR::UI, PrimitiveValue::from(MR_IMAGE_STORAGE)),
        DataElement::new(tags::SOP_INSTANCE_UID, VR::UI, PrimitiveValue::from("2.25.77")),
        DataElement::new(tags::MODALITY, VR::CS, PrimitiveValue::from("MR")),
    ])
}

fn object_bytes(obj: &InMemDicomObject, ts_uid: &str) -> Vec<u8> {
    let ts = TransferSyntaxRegistry.get(ts_uid).expect("registered");
    let mut bytes = Vec::new();
    obj.write_dataset_with_ts(&mut bytes, ts).expect("should encode");
    bytes
}

fn nested(tag: Tag) -> DataElement<InMemDicomObject, Vec<u8>> {
    let items: Vec<InMemDicomObject> = vec![InMemDicomObject::new_empty()];
    DataElement::new(tag, VR::SQ, Value::from(DataSetSequence::from(items)))
}

#[test]
fn file_name_strips_trailing_nul_and_appends_extension() {
    assert_eq!(storage_file_name("1.2.3.4.5\0"), "1.2.3.4.5.dcm");
    assert_eq!(storage_file_name("1.2.3.4.5"), "1.2.3.4.5.dcm");
    assert_eq!(storage_file_name("1.2\0\0\0"), "1.2.dcm");
    assert_eq!(storage_file_name(""), ".dcm");
    assert_eq!(storage_file_name("\0"), ".dcm");
    assert_eq!(storage_file_name("\0\0"), ".dcm");
}

#[test]
fn file_name_keeps_everything_but_trailing_nul() {
    assert_eq!(storage_file_name("1.2\03.4\0"), "1.2\03.4.dcm");
    assert_eq!(storage_file_name("\01"), "\01.dcm");
    assert_eq!(storage_file_name("1.2 "), "1.2 .dcm");
    assert_eq!(storage_file_name("1.2\0 "), "1.2\0 .dcm");
    assert_eq!(storage_file_name("é.ü\0"), "é.ü.dcm");
    assert_eq!(storage_file_name("日本\0\0"), "日本.dcm");
}

#[test]
fn byte_length_counts_utf8() {
    assert_eq!(text_byte_len(""), 0);
    assert_eq!(text_byte_len("1.2.3"), 5);
    assert_eq!(text_byte_len("é"), 2);
    assert_eq!(text_byte_len("日本"), 6);
}

#[test]
fn identity_is_read_from_the_object_itself() {
    let identity = read_identity(&mr_object());
    assert_eq!(
        identity,
        ObjectIdentity {
            sop_class_uid: Lookup::Found(MR_IMAGE_STORAGE.to_string()),
            sop_instance_uid: Lookup::Found("2.25.77".to_string()),
        }
    );
    let empty = read_identity(&InMemDicomObject::new_empty());
    assert_eq!(empty.sop_class_uid, Lookup::Missing);
    assert_eq!(empty.sop_instance_uid, Lookup::Missing);
    let odd = InMemDicomObject::from_element_iter([
        nested(tags::SOP_CLASS_UID),
        DataElement::new(tags::SOP_INSTANCE_UID, VR::UI, PrimitiveValue::from("1.2\0")),
    ]);
    let identity = read_identity(&odd);
    assert_eq!(identity.sop_class_uid, Lookup::Unreadable);
    assert_eq!(identity.sop_instance_uid, Lookup::Found("1.2".to_string()));
}

#[test]
fn file_meta_takes_the_identifiers_of_the_object() {
    let identity = ObjectIdentity {
        sop_class_uid: Lookup::Found("1.2".to_string()),
        sop_instance_uid: Lookup::Found("3.4".to_string()),
    };
    assert_eq!(
        FileMeta::for_object(identity, EXPLICIT),
        Ok(FileMeta {
            media_storage_sop_class_uid: "1.2".to_string(),
            media_storage_sop_instance_uid: "3.4".to_string(),
            transfer_syntax: EXPLICIT.to_string(),
        })
    );
}

#[test]
fn file_meta_reports_the_first_wanting_identifier() {
    let found = || Lookup::Found("1.2".to_string());
    let of = |sop_class_uid, sop_instance_uid| {
        FileMeta::for_object(ObjectIdentity { sop_class_uid, sop_instance_uid }, IMPLICIT)
    };
    assert_eq!(of(Lookup::Missing, Lookup::Missing), Err(StoreError::MissingSopClassUid));
    assert_eq!(of(Lookup::Missing, found()), Err(StoreError::MissingSopClassUid));
    assert_eq!(of(Lookup::Unreadable, Lookup::Missing), Err(StoreError::UnreadableSopClassUid));
    assert_eq!(of(found(), Lookup::Missing), Err(StoreError::MissingSopInstanceUid));
    assert_eq!(of(found(), Lookup::Unreadable), Err(StoreError::UnreadableSopInstanceUid));
}

#[test]
fn file_has_preamble_magic_code_and_meta_group() {
    let obj = mr_object();
    let unit = object_bytes(&obj, EXPLICIT);
    let contents = file_contents(&unit, EXPLICIT).expect("file should be made");
    assert_ne!(contents, unit);
    assert!(contents.len() > unit.len() + 132);
    assert!(contents[..128].iter().all(|b| *b == 0));
    assert_eq!(&contents[128..132], b"DICM");
    // the data set follows the meta group unchanged
    assert_eq!(&contents[contents.len() - unit.len()..], &unit[..]);
    let file = dicom_object::from_reader(&contents[..]).expect("file should decode");
    assert_eq!(file.meta().transfer_syntax(), EXPLICIT);
    assert_eq!(file.meta().media_storage_sop_class_uid(), MR_IMAGE_STORAGE);
    assert_eq!(file.meta().media_storage_sop_instance_uid(), "2.25.77");
    assert_eq!(file.meta().information_version, [0, 1]);
    assert_eq!(file.element(tags::MODALITY).unwrap().to_str().unwrap(), "MR");
}

#[test]
fn file_is_written_in_the_negotiated_transfer_syntax() {
    let obj = mr_object();
    let implicit_unit = object_bytes(&obj, IMPLICIT);
    let explicit_unit = object_bytes(&obj, EXPLICIT);
    assert_ne!(implicit_unit, explicit_unit);
    let implicit_file = file_contents(&implicit_unit, IMPLICIT).expect("file should be made");
    let explicit_file = file_contents(&explicit_unit, EXPLICIT).expect("file should be made");
    assert_eq!(&implicit_file[implicit_file.len() - implicit_unit.len()..], &implicit_unit[..]);
    assert_eq!(&explicit_file[explicit_file.len() - explicit_unit.len()..], &explicit_unit[..]);
    let file = dicom_object::from_reader(&implicit_file[..]).expect("file should decode");
    assert_eq!(file.meta().transfer_syntax(), IMPLICIT);
}

#[test]
fn file_contents_reports_why_there_is_no_file() {
    let unit = object_bytes(&mr_object(), EXPLICIT);
    assert_eq!(file_contents(&unit, "1.2.3.4.5.6"), Err(StoreError::UnsupportedTransferSyntax));
    assert_eq!(file_contents(&unit, ""), Err(StoreError::UnsupportedTransferSyntax));
    assert_eq!(file_contents(&unit[..unit.len() - 3], EXPLICIT), Err(StoreError::MalformedDataSet));
    assert_eq!(file_contents(&[], EXPLICIT), Err(StoreError::MissingSopClassUid));

    let no_class = InMemDicomObject::from_element_iter([DataElement::new(
        tags::SOP_INSTANCE_UID,
        VR::UI,
        PrimitiveValue::from("1.2"),
    )]);
    assert_eq!(
        file_contents(&object_bytes(&no_class, EXPLICIT), EXPLICIT),
        Err(StoreError::MissingSopClassUid)
    );
    let no_instance = InMemDicomObject::from_element_iter([DataElement::new(
        tags::SOP_CLASS_UID,
        VR::UI,
        PrimitiveValue::from(MR_IMAGE_STORAGE),
    )]);
    assert_eq!(
        file_contents(&object_bytes(&no_instance, IMPLICIT), IMPLICIT),
        Err(StoreError::MissingSopInstanceUid)
    );
}

#[test]
fn nested_identifier_in_a_data_unit_is_unreadable() {
    let class_nested = InMemDicomObject::from_element_iter([
        nested(tags::SOP_CLASS_UID),
        DataElement::new(tags::SOP_INSTANCE_UID, VR::UI, PrimitiveValue::from("1.2")),
    ]);
    assert_eq!(
        file_contents(&object_bytes(&class_nested, EXPLICIT), EXPLICIT),
        Err(StoreError::UnreadableSopClassUid)
    );
    let instance_nested = InMemDicomObject::from_element_iter([
        DataElement::new(tags::SOP_CLASS_UID, VR::UI, PrimitiveValue::from(MR_IMAGE_STORAGE)),
        nested(tags::SOP_INSTANCE_UID),
    ]);
    assert_eq!(
        file_contents(&object_bytes(&instance_nested, EXPLICIT), EXPLICIT),
        Err(StoreError::UnreadableSopInstanceUid)
    );
}

#[test]
fn object_that_cannot_be_encoded_gives_no_file() {
    let meta = FileMeta {
        media_storage_sop_class_uid: MR_IMAGE_STORAGE.to_string(),
        media_storage_sop_instance_uid: "2.25.77".to_string(),
        transfer_syntax: "1.2.3.4.5.6".to_string(),
    };
    assert_eq!(encode_object_file(mr_object(), &meta), Err(StoreError::FileEncodingFailed));
}

#[test]
fn oversized_identifier_gives_no_meta_group() {
    let long = "1".repeat(0x0800_0001);
    let meta = FileMeta {
        media_storage_sop_class_uid: long.clone(),
        media_storage_sop_instance_uid: "2.25.77".to_string(),
        transfer_syntax: EXPLICIT.to_string(),
    };
    assert_eq!(encode_object_file(mr_object(), &meta), Err(StoreError::FileMetaFailed));
    let meta = FileMeta {
        media_storage_sop_class_uid: MR_IMAGE_STORAGE.to_string(),
        media_storage_sop_instance_uid: long.clone(),
        transfer_syntax: EXPLICIT.to_string(),
    };
    assert_eq!(encode_object_file(mr_object(), &meta), Err(StoreError::FileMetaFailed));
    let meta = FileMeta {
        media_storage_sop_class_uid: MR_IMAGE_STORAGE.to_string(),
        media_storage_sop_instance_uid: "2.25.77".to_string(),
        transfer_syntax: long,
    };
    assert_eq!(encode_object_file(mr_object(), &meta), Err(StoreError::FileMetaFailed));
}

#[test]
fn encoded_file_matches_the_codec() {
    let meta = FileMeta {
        media_storage_sop_class_uid: MR_IMAGE_STORAGE.to_string(),
        media_storage_sop_instance_uid: "2.25.77".to_string(),
        transfer_syntax: IMPLICIT.to_string(),
    };
    let contents = encode_object_file(mr_object(), &meta).expect("file should encode");
    let table = dicom_object::FileMetaTableBuilder::new()
        .media_storage_sop_class_uid(MR_IMAGE_STORAGE)
        .media_storage_sop_instance_uid("2.25.77")
        .transfer_syntax(IMPLICIT)
        .build()
        .expect("meta group should build");
    let mut expected = Vec::new();
    mr_object().with_exact_meta(table).write_all(&mut expected).expect("should encode");
    assert_eq!(contents, expected);
}
