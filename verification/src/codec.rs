//! The boundary to the DICOM object codec.
//!
//! Decoding and encoding of data sets is done by the `dicom-object` family of
//! crates. Nothing in this module is proved: each function below makes the
//! call into those crates that its comment names, and its contract gives
//! the result of that call a name, so that the rest of the library can
//! state exactly what it does with it. The decoded values themselves stay
//! opaque: all that is known of one is what these functions say of it.
//!
//! The decoder works on what a peer sends. It descends once for every
//! nested sequence item and sizes a buffer by the length that an element
//! declares, so a hostile data unit can exhaust the stack or the memory of
//! the process. No contract here can rule that out: whoever accepts
//! associations from peers that are not trusted bounds the size of a unit
//! before it reaches the session.

use vstd::prelude::*;
use dicom_core::header::DataElement;
use dicom_core::value::PrimitiveValue;
use dicom_core::value::C;
use dicom_core::Tag;
use dicom_core::VR;
use dicom_dictionary_std::StandardDataDictionary;
use dicom_encoding::transfer_syntax::TransferSyntaxIndex;
use dicom_object::mem::InMemDicomObject;
use dicom_object::meta::FileMetaTable;
use dicom_object::meta::FileMetaTableBuilder;
use dicom_transfer_syntax_registry::entries;
use dicom_transfer_syntax_registry::TransferSyntaxRegistry;
use crate::command::element_views;
use crate::command::CommandElement;
use crate::command::CommandElementView;
use crate::command::CommandValue;
use crate::limits::byte_len;
use crate::limits::starts_as_file;
use crate::limits::COMMAND_SET_LIMIT;
use crate::limits::IDENTIFIER_LIMIT;
use crate::negotiation::RegistryEntry;
use crate::uids::EXPLICIT_VR_LITTLE_ENDIAN;
use crate::uids::IMPLICIT_VR_LITTLE_ENDIAN;

verus! {

/// `dicom_dictionary_std::StandardDataDictionary`, the dictionary that decoded
/// sets look attribute names up in.
#[verifier::external_type_specification]
#[verifier::external_body]
pub struct ExStandardDataDictionary(StandardDataDictionary);

/// `dicom_object::InMemDicomObject`, a data set held in memory.
#[verifier::external_type_specification]
#[verifier::external_body]
#[verifier::reject_recursive_types(D)]
pub struct ExInMemDicomObject<D>(InMemDicomObject<D>);

/// `dicom_core::DataElement`, one element of a data set with its value.
#[verifier::external_type_specification]
#[verifier::external_body]
#[verifier::reject_recursive_types(I)]
#[verifier::reject_recursive_types(P)]
pub struct ExDataElement<I, P>(DataElement<I, P>);

/// `dicom_object::FileMetaTable`, the file meta group of a DICOM file.
#[verifier::external_type_specification]
#[verifier::external_body]
pub struct ExFileMetaTable(FileMetaTable);

/// A decoded data set or command set, held in memory.
pub type DataSet = InMemDicomObject<StandardDataDictionary>;

/// One data element of a decoded set.
pub type Element = DataElement<InMemDicomObject<StandardDataDictionary>, Vec<u8>>;

/// Whether the transfer syntax registry holds an entry for `uid`.
pub uninterp spec fn registered_transfer_syntax(uid: Seq<char>) -> bool;

/// What the transfer syntax registry holds under exactly the identifier
/// `uid`: `None` where it has no such entry, else whether data sets in the
/// entry's transfer syntax can be neither read nor written. The registry is
/// filled once and keyed by the identifiers of its entries.
pub uninterp spec fn registry_entry(uid: Seq<char>) -> Option<bool>;

/// What decoding `bytes` gives in the transfer syntax that the registry
/// holds under `ts_uid`: `None` where the bytes do not decode.
pub uninterp spec fn parsed_data_set(bytes: Seq<u8>, ts_uid: Seq<char>) -> Option<DataSet>;

/// The element that `obj` holds under the tag `(group, element)`, if any.
pub uninterp spec fn element_of(obj: DataSet, group: u16, element: u16) -> Option<Element>;

/// The first value of `e` where it is held as unsigned 16-bit numbers.
pub uninterp spec fn uint16_of(e: Element) -> Option<u16>;

/// The value of `e` converted to an unsigned 16-bit number.
pub uninterp spec fn integer_of(e: Element) -> Option<u16>;

/// The value of `e` as one clean string.
pub uninterp spec fn text_of(e: Element) -> Option<Seq<char>>;

/// The file meta group that the codec builds for the three identifiers.
pub uninterp spec fn file_meta_table(
    class_uid: Seq<char>,
    instance_uid: Seq<char>,
    ts_uid: Seq<char>,
) -> Option<FileMetaTable>;

/// The bytes of the file that holds `obj` behind the meta group `meta`:
/// preamble, magic code, meta group, then the data set in the transfer syntax
/// that `meta` records. `None` where the codec cannot encode it.
pub uninterp spec fn file_encoding(obj: DataSet, meta: FileMetaTable) -> Option<Seq<u8>>;

/// The command set that the codec builds from `elements`, with the command
/// group length that it computes and inserts.
pub uninterp spec fn command_set_of(elements: Seq<CommandElementView>) -> DataSet;

/// The bytes of `obj` in the transfer syntax that the registry holds under
/// `ts_uid`, without preamble or meta group. `None` where the codec cannot
/// encode it.
pub uninterp spec fn data_set_encoding(obj: DataSet, ts_uid: Seq<char>) -> Option<Seq<u8>>;

/// Calls `InMemDicomObject::read_dataset_with_ts` on `bytes` with
/// `entries::IMPLICIT_VR_LITTLE_ENDIAN`, which is the entry that the
/// registry holds under the identifier of implicit VR little endian: the
/// registry is filled with it first and replaces no entry that needs no
/// codec. The contract names the outcome as that of decoding in this
/// transfer syntax; a failure of the decoder becomes `None`.
#[verifier::external_body]
pub(crate) fn read_command_set(bytes: &[u8]) -> (r: Option<DataSet>)
    ensures
        r == parsed_data_set(bytes@, IMPLICIT_VR_LITTLE_ENDIAN@),
{
    InMemDicomObject::read_dataset_with_ts(bytes, &entries::IMPLICIT_VR_LITTLE_ENDIAN.erased()).ok()
}

/// Calls `TransferSyntaxRegistry::get` and says whether it found an entry.
#[verifier::external_body]
pub(crate) fn transfer_syntax_is_registered(uid: &str) -> (r: bool)
    ensures
        r == registered_transfer_syntax(uid@),
{
    TransferSyntaxRegistry.get(uid).is_some()
}

/// Calls `InMemDicomObject::read_dataset_with_ts` on `bytes` with the entry
/// that `TransferSyntaxRegistry::get` holds for `ts_uid`. The caller has
/// made sure that there is one. The contract only names the outcome; a
/// failure of the decoder becomes `None`.
#[verifier::external_body]
pub(crate) fn read_data_set(bytes: &[u8], ts_uid: &str) -> (r: Option<DataSet>)
    requires
        registered_transfer_syntax(ts_uid@),
    ensures
        r == parsed_data_set(bytes@, ts_uid@),
{
    InMemDicomObject::read_dataset_with_ts(bytes, TransferSyntaxRegistry.get(ts_uid).unwrap()).ok()
}

/// Calls `InMemDicomObject::element`: the element under the tag, `None`
/// where the set holds none.
#[verifier::external_body]
pub(crate) fn find_element<'a>(obj: &'a DataSet, group: u16, element: u16) -> (r: Option<
    &'a Element,
>)
    ensures
        match r {
            Some(e) => element_of(*obj, group, element) == Some(*e),
            None => element_of(*obj, group, element) is None,
        },
{
    obj.element(Tag(group, element)).ok()
}

/// Calls `DataElement::uint16`, which gives the first value of an element
/// held as unsigned 16-bit numbers and fails on any other.
#[verifier::external_body]
pub(crate) fn element_uint16(e: &Element) -> (r: Option<u16>)
    ensures
        r == uint16_of(*e),
{
    e.uint16().ok()
}

/// Calls `DataElement::to_int` for `u16`, which converts a numeric or
/// textual value and fails where it does not fit or does not parse.
#[verifier::external_body]
pub(crate) fn element_integer(e: &Element) -> (r: Option<u16>)
    ensures
        r == integer_of(*e),
{
    e.to_int::<u16>().ok()
}

/// Calls `DataElement::to_str`, which gives a primitive value as one string
/// and fails on a sequence.
#[verifier::external_body]
pub(crate) fn element_text(e: &Element) -> (r: Option<String>)
    ensures
        match r {
            Some(s) => text_of(*e) == Some(s@),
            None => text_of(*e) is None,
        },
{
    e.to_str().ok().map(|s| s.into_owned())
}

/// Calls `FileMetaTableBuilder::build` on a builder that was given the two
/// media storage identifiers and the transfer syntax. The codec sums the
/// lengths of the three in 32 bits, hence the bounds. `build` fails on a
/// builder without a transfer syntax and on no other, so here it succeeds.
#[verifier::external_body]
pub(crate) fn build_file_meta(class_uid: &str, instance_uid: &str, ts_uid: &str) -> (r: Option<
    FileMetaTable,
>)
    requires
        byte_len(class_uid@) <= IDENTIFIER_LIMIT,
        byte_len(instance_uid@) <= IDENTIFIER_LIMIT,
        byte_len(ts_uid@) <= IDENTIFIER_LIMIT,
    ensures
        r == file_meta_table(class_uid@, instance_uid@, ts_uid@),
        r is Some,
{
    FileMetaTableBuilder::new()
        .media_storage_sop_class_uid(class_uid)
        .media_storage_sop_instance_uid(instance_uid)
        .transfer_syntax(ts_uid)
        .build()
        .ok()
}

/// Calls `InMemDicomObject::with_exact_meta` and then
/// `FileDicomObject::write_all` into a fresh vector. Besides naming the
/// outcome, the contract says how `write_all` begins: with a preamble of
/// 128 zero bytes and the magic code.
#[verifier::external_body]
pub(crate) fn encode_file(obj: DataSet, meta: FileMetaTable) -> (r: Option<Vec<u8>>)
    ensures
        match r {
            Some(bytes) => file_encoding(obj, meta) == Some(bytes@) && starts_as_file(bytes@),
            None => file_encoding(obj, meta) is None,
        },
{
    let mut out = Vec::new();
    obj.with_exact_meta(meta).write_all(&mut out).ok().map(|_| out)
}

/// Calls `InMemDicomObject::command_from_element_iter` on the elements, each
/// turned into a `DataElement`: an identifier with VR `UI`, a number with VR
/// `US`. The codec sums the lengths of the values in 32 bits, hence the
/// bounds.
#[verifier::external_body]
pub(crate) fn build_command_set(elements: &Vec<CommandElement>) -> (r: DataSet)
    requires
        elements.len() <= COMMAND_SET_LIMIT,
        forall|i: int|
            0 <= i < elements.len() ==> (#[trigger] elements[i]).value_byte_len()
                <= IDENTIFIER_LIMIT,
    ensures
        r == command_set_of(element_views(elements@)),
{
    InMemDicomObject::command_from_element_iter(elements.iter().map(|e| {
        let tag = Tag(e.group, e.element);
        match &e.value {
            CommandValue::Uid(s) => DataElement::new(tag, VR::UI, PrimitiveValue::Str(s.clone())),
            CommandValue::Unsigned(v) => {
                DataElement::new(tag, VR::US, PrimitiveValue::U16(C::from_elem(*v, 1)))
            }
        }
    }))
}

/// Calls `InMemDicomObject::write_dataset_with_ts` into a fresh vector, with
/// `entries::IMPLICIT_VR_LITTLE_ENDIAN`, the entry that the registry holds
/// under the identifier of implicit VR little endian. The contract names
/// the outcome as that of encoding in this transfer syntax.
#[verifier::external_body]
pub(crate) fn encode_command_set(obj: &DataSet) -> (r: Option<Vec<u8>>)
    ensures
        match r {
            Some(bytes) => data_set_encoding(*obj, IMPLICIT_VR_LITTLE_ENDIAN@) == Some(bytes@),
            None => data_set_encoding(*obj, IMPLICIT_VR_LITTLE_ENDIAN@) is None,
        },
{
    let ts = entries::IMPLICIT_VR_LITTLE_ENDIAN.erased();
    let mut out = Vec::new();
    obj.write_dataset_with_ts(&mut out, &ts).ok().map(|_| out)
}

/// Walks `TransferSyntaxRegistry::iter` and hands each entry out as its
/// identifier and whether data sets in it can be neither read nor written.
/// The registry is a hash map keyed by the identifiers of its entries, and
/// `iter` walks its values: the result holds every entry once, and nothing
/// is said of the order. However it is walked, implicit and explicit VR
/// little endian are among the entries and are supported: the registry is
/// filled with both, neither needs a codec, and an entry that needs none is
/// never replaced.
#[verifier::external_body]
pub(crate) fn registry_entries() -> (r: Vec<RegistryEntry>)
    ensures
        forall|uid: Seq<char>|
            match #[trigger] registry_entry(uid) {
                Some(unsupported) => exists|i: int|
                    0 <= i < r@.len() && (#[trigger] r@[i]).uid@ == uid && r@[i].unsupported
                        == unsupported,
                None => forall|i: int| 0 <= i < r@.len() ==> (#[trigger] r@[i]).uid@ != uid,
            },
        forall|i: int, j: int|
            0 <= i < j < r@.len() ==> (#[trigger] r@[i]).uid@ != (#[trigger] r@[j]).uid@,
        exists|i: int|
            0 <= i < r@.len() && (#[trigger] r@[i]).uid@ == IMPLICIT_VR_LITTLE_ENDIAN@
                && !r@[i].unsupported,
        exists|i: int|
            0 <= i < r@.len() && (#[trigger] r@[i]).uid@ == EXPLICIT_VR_LITTLE_ENDIAN@
                && !r@[i].unsupported,
{
    TransferSyntaxRegistry
        .iter()
        .map(|ts| RegistryEntry { uid: ts.uid().to_string(), unsupported: ts.is_unsupported() })
        .collect()
}

} // verus!
