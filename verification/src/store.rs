//! From a complete data unit to the file that holds it.

use vstd::prelude::*;
use vstd::string::StrSliceExecFns;
use vstd::string::StringExecFns;
use crate::codec::build_file_meta;
use crate::codec::encode_file;
use crate::codec::file_encoding;
use crate::codec::file_meta_table;
use crate::codec::parsed_data_set;
use crate::codec::read_data_set;
use crate::codec::registered_transfer_syntax;
use crate::codec::transfer_syntax_is_registered;
use crate::codec::DataSet;
use crate::command::lookup_text;
use crate::command::text_at;
use crate::command::text_lookup_view;
use crate::command::Lookup;
use crate::error::StoreError;
use crate::limits::byte_len;
use crate::limits::starts_as_file;
use crate::limits::text_byte_len;
use crate::limits::IDENTIFIER_LIMIT;
use crate::uids::SOP_CLASS_UID;
use crate::uids::SOP_INSTANCE_UID;

verus! {

/// `text` without the NUL characters at its end.
pub open spec fn strip_trailing_nul(text: Seq<char>) -> Seq<char>
    decreases text.len(),
{
    if text.len() > 0 && text.last() == '\0' {
        strip_trailing_nul(text.drop_last())
    } else {
        text
    }
}

/// The name of the file that an object is stored under: the instance
/// identifier without the NUL characters at its end, then `.dcm`.
pub open spec fn file_name_of(sop_instance_uid: Seq<char>) -> Seq<char> {
    strip_trailing_nul(sop_instance_uid) + ".dcm"@
}

/// Stripping leaves a prefix: the text up to its last character that is not
/// NUL.
pub proof fn lemma_strip_is_prefix(text: Seq<char>, keep: int)
    requires
        0 <= keep <= text.len(),
        keep > 0 ==> text[keep - 1] != '\0',
        forall|j: int| keep <= j < text.len() ==> text[j] == '\0',
    ensures
        strip_trailing_nul(text) == text.take(keep),
    decreases text.len(),
{
    if text.len() > 0 && text.last() == '\0' {
        assert(keep < text.len());
        lemma_strip_is_prefix(text.drop_last(), keep);
        assert(text.drop_last().take(keep) =~= text.take(keep));
    } else {
        assert(keep == text.len());
        assert(text.take(keep) =~= text);
    }
}

/// Derives the name of the file from the instance identifier of the
/// request.
pub fn storage_file_name(sop_instance_uid: &str) -> (name: String)
    ensures
        name@ == file_name_of(sop_instance_uid@),
{
    let total = sop_instance_uid.unicode_len();
    let mut count: usize = 0;
    let mut keep: usize = 0;
    for c in it: sop_instance_uid.chars()
        invariant
            it.seq() == sop_instance_uid@,
            total == sop_instance_uid@.len(),
            count == it.index(),
            keep <= count <= total,
            keep > 0 ==> sop_instance_uid@[keep - 1] != '\0',
            forall|j: int| keep <= j < count ==> sop_instance_uid@[j] == '\0',
    {
        count += 1;
        if c != '\0' {
            keep = count;
        }
    }
    proof {
        lemma_strip_is_prefix(sop_instance_uid@, keep as int);
    }
    let trimmed = sop_instance_uid.substring_char(0, keep);
    String::from_str(trimmed).concat(".dcm")
}

/// The two elements of a data set that say what object it holds.
#[derive(Clone, Debug, PartialEq, Eq)]
pub struct ObjectIdentity {
    /// SOP Class UID.
    pub sop_class_uid: Lookup<String>,
    /// SOP Instance UID.
    pub sop_instance_uid: Lookup<String>,
}

/// The mathematical value of an [`ObjectIdentity`].
#[verifier::ext_equal]
pub struct ObjectIdentityView {
    pub sop_class_uid: Lookup<Seq<char>>,
    pub sop_instance_uid: Lookup<Seq<char>>,
}

impl View for ObjectIdentity {
    type V = ObjectIdentityView;

    open spec fn view(&self) -> ObjectIdentityView {
        ObjectIdentityView {
            sop_class_uid: text_lookup_view(self.sop_class_uid),
            sop_instance_uid: text_lookup_view(self.sop_instance_uid),
        }
    }
}

/// The two elements as the decoded data set `obj` holds them.
pub open spec fn identity_of(obj: DataSet) -> ObjectIdentityView {
    ObjectIdentityView {
        sop_class_uid: text_at(obj, SOP_CLASS_UID),
        sop_instance_uid: text_at(obj, SOP_INSTANCE_UID),
    }
}

/// Looks the two elements up in a decoded data set.
pub fn read_identity(obj: &DataSet) -> (r: ObjectIdentity)
    ensures
        r@ == identity_of(*obj),
{
    ObjectIdentity {
        sop_class_uid: lookup_text(obj, SOP_CLASS_UID),
        sop_instance_uid: lookup_text(obj, SOP_INSTANCE_UID),
    }
}

/// The file meta information that a stored object is written behind.
#[derive(Clone, Debug, PartialEq, Eq)]
pub struct FileMeta {
    /// Media Storage SOP Class UID: the SOP Class UID of the object.
    pub media_storage_sop_class_uid: String,
    /// Media Storage SOP Instance UID: the SOP Instance UID of the object.
    pub media_storage_sop_instance_uid: String,
    /// Transfer Syntax UID: the one negotiated for the presentation context
    /// that the object arrived on.
    pub transfer_syntax: String,
}

/// The mathematical value of a [`FileMeta`].
#[verifier::ext_equal]
pub struct FileMetaView {
    pub media_storage_sop_class_uid: Seq<char>,
    pub media_storage_sop_instance_uid: Seq<char>,
    pub transfer_syntax: Seq<char>,
}

impl View for FileMeta {
    type V = FileMetaView;

    open spec fn view(&self) -> FileMetaView {
        FileMetaView {
            media_storage_sop_class_uid: self.media_storage_sop_class_uid@,
            media_storage_sop_instance_uid: self.media_storage_sop_instance_uid@,
            transfer_syntax: self.transfer_syntax@,
        }
    }
}

/// The file meta information for an object of the given identity that
/// arrived in `transfer_syntax`, or the element of the object that is
/// wanting: SOP Class UID first, then SOP Instance UID.
pub open spec fn file_meta_for(identity: ObjectIdentityView, transfer_syntax: Seq<char>) -> Result<
    FileMetaView,
    StoreError,
> {
    match identity.sop_class_uid {
        Lookup::Missing => Err(StoreError::MissingSopClassUid),
        Lookup::Unreadable => Err(StoreError::UnreadableSopClassUid),
        Lookup::Found(sop_class_uid) => match identity.sop_instance_uid {
            Lookup::Missing => Err(StoreError::MissingSopInstanceUid),
            Lookup::Unreadable => Err(StoreError::UnreadableSopInstanceUid),
            Lookup::Found(sop_instance_uid) => Ok(
                FileMetaView {
                    media_storage_sop_class_uid: sop_class_uid,
                    media_storage_sop_instance_uid: sop_instance_uid,
                    transfer_syntax,
                },
            ),
        },
    }
}

impl FileMeta {
    /// Makes the file meta information from the identity of the object
    /// itself and the negotiated transfer syntax.
    pub fn for_object(identity: ObjectIdentity, transfer_syntax: &str) -> (r: Result<
        FileMeta,
        StoreError,
    >)
        ensures
            match r {
                Ok(meta) => file_meta_for(identity@, transfer_syntax@) == Ok::<
                    FileMetaView,
                    StoreError,
                >(meta@),
                Err(e) => file_meta_for(identity@, transfer_syntax@) == Err::<
                    FileMetaView,
                    StoreError,
                >(e),
            },
    {
        let ObjectIdentity { sop_class_uid, sop_instance_uid } = identity;
        let media_storage_sop_class_uid = match sop_class_uid {
            Lookup::Missing => { return Err(StoreError::MissingSopClassUid); },
            Lookup::Unreadable => { return Err(StoreError::UnreadableSopClassUid); },
            Lookup::Found(s) => s,
        };
        let media_storage_sop_instance_uid = match sop_instance_uid {
            Lookup::Missing => { return Err(StoreError::MissingSopInstanceUid); },
            Lookup::Unreadable => { return Err(StoreError::UnreadableSopInstanceUid); },
            Lookup::Found(s) => s,
        };
        Ok(
            FileMeta {
                media_storage_sop_class_uid,
                media_storage_sop_instance_uid,
                transfer_syntax: transfer_syntax.to_owned(),
            },
        )
    }
}

/// The bytes of the file that holds `obj` behind `meta`, or why there are
/// none: an identifier longer than the codec can take, a meta group that
/// the codec does not build, or an object that it does not encode.
pub open spec fn encoded_file(obj: DataSet, meta: FileMetaView) -> Result<Seq<u8>, StoreError> {
    if byte_len(meta.media_storage_sop_class_uid) > IDENTIFIER_LIMIT || byte_len(
        meta.media_storage_sop_instance_uid,
    ) > IDENTIFIER_LIMIT || byte_len(meta.transfer_syntax) > IDENTIFIER_LIMIT {
        Err(StoreError::FileMetaFailed)
    } else {
        match file_meta_table(
            meta.media_storage_sop_class_uid,
            meta.media_storage_sop_instance_uid,
            meta.transfer_syntax,
        ) {
            None => Err(StoreError::FileMetaFailed),
            Some(table) => match file_encoding(obj, table) {
                None => Err(StoreError::FileEncodingFailed),
                Some(bytes) => Ok(bytes),
            },
        }
    }
}

/// Encodes a decoded object as a file: preamble, magic code, the meta group
/// made from `meta`, and the data set in the transfer syntax of `meta`.
pub fn encode_object_file(obj: DataSet, meta: &FileMeta) -> (r: Result<Vec<u8>, StoreError>)
    ensures
        match r {
            Ok(bytes) => encoded_file(obj, meta@) == Ok::<Seq<u8>, StoreError>(bytes@)
                && starts_as_file(bytes@),
            Err(e) => encoded_file(obj, meta@) == Err::<Seq<u8>, StoreError>(e),
        },
{
    if text_byte_len(meta.media_storage_sop_class_uid.as_str()) > IDENTIFIER_LIMIT
        || text_byte_len(meta.media_storage_sop_instance_uid.as_str()) > IDENTIFIER_LIMIT
        || text_byte_len(meta.transfer_syntax.as_str()) > IDENTIFIER_LIMIT {
        return Err(StoreError::FileMetaFailed);
    }
    let table = match build_file_meta(
        meta.media_storage_sop_class_uid.as_str(),
        meta.media_storage_sop_instance_uid.as_str(),
        meta.transfer_syntax.as_str(),
    ) {
        None => { return Err(StoreError::FileMetaFailed); },
        Some(table) => table,
    };
    match encode_file(obj, table) {
        None => Err(StoreError::FileEncodingFailed),
        Some(bytes) => Ok(bytes),
    }
}

/// The contents of the file for a complete data unit that arrived in
/// `transfer_syntax`: the unit is decoded in that transfer syntax, the meta
/// group is made from the object's own identifiers, and both are encoded.
pub open spec fn stored_contents(unit: Seq<u8>, transfer_syntax: Seq<char>) -> Result<
    Seq<u8>,
    StoreError,
> {
    if !registered_transfer_syntax(transfer_syntax) {
        Err(StoreError::UnsupportedTransferSyntax)
    } else {
        match parsed_data_set(unit, transfer_syntax) {
            None => Err(StoreError::MalformedDataSet),
            Some(obj) => match file_meta_for(identity_of(obj), transfer_syntax) {
                Err(e) => Err(e),
                Ok(meta) => encoded_file(obj, meta),
            },
        }
    }
}

/// Turns a complete data unit into the contents of its file.
pub fn file_contents(unit: &[u8], transfer_syntax: &str) -> (r: Result<Vec<u8>, StoreError>)
    ensures
        match r {
            Ok(bytes) => stored_contents(unit@, transfer_syntax@) == Ok::<Seq<u8>, StoreError>(
                bytes@,
            ) && starts_as_file(bytes@),
            Err(e) => stored_contents(unit@, transfer_syntax@) == Err::<Seq<u8>, StoreError>(e),
        },
{
    if !transfer_syntax_is_registered(transfer_syntax) {
        return Err(StoreError::UnsupportedTransferSyntax);
    }
    let obj = match read_data_set(unit, transfer_syntax) {
        None => { return Err(StoreError::MalformedDataSet); },
        Some(obj) => obj,
    };
    let meta = match FileMeta::for_object(read_identity(&obj), transfer_syntax) {
        Err(e) => { return Err(e); },
        Ok(meta) => meta,
    };
    encode_object_file(obj, &meta)
}

} // verus!
