//! What the service offers when an association is negotiated.
//!
//! The abstract syntaxes are the fixed list
//! [`ABSTRACT_SYNTAXES`](crate::uids::ABSTRACT_SYNTAXES). The transfer
//! syntaxes are either the two uncompressed little endian encodings, or
//! all that the registry can read and write data sets in.

use vstd::prelude::*;
use crate::codec::registry_entries;
use crate::codec::registry_entry;
use crate::uids::EXPLICIT_VR_LITTLE_ENDIAN;
use crate::uids::IMPLICIT_VR_LITTLE_ENDIAN;

verus! {

/// An entry of the transfer syntax registry, as far as the offer depends on
/// it.
#[derive(Clone, Debug, PartialEq, Eq)]
pub struct RegistryEntry {
    /// The identifier of the transfer syntax.
    pub uid: String,
    /// Whether data sets in this transfer syntax can be neither read nor
    /// written.
    pub unsupported: bool,
}

/// The mathematical value of a [`RegistryEntry`].
#[verifier::ext_equal]
pub struct RegistryEntryView {
    pub uid: Seq<char>,
    pub unsupported: bool,
}

impl View for RegistryEntry {
    type V = RegistryEntryView;

    open spec fn view(&self) -> RegistryEntryView {
        RegistryEntryView { uid: self.uid@, unsupported: self.unsupported }
    }
}

/// The values of a vector of registry entries, in order.
pub open spec fn entry_views(entries: Seq<RegistryEntry>) -> Seq<RegistryEntryView> {
    entries.map_values(|e: RegistryEntry| e@)
}

/// The values of a vector of identifiers, in order.
pub open spec fn uid_views(uids: Seq<String>) -> Seq<Seq<char>> {
    uids.map_values(|s: String| s@)
}

/// The identifiers of the entries that are not unsupported, in the order of
/// the entries.
pub open spec fn supported_uids(entries: Seq<RegistryEntryView>) -> Seq<Seq<char>>
    decreases entries.len(),
{
    if entries.len() == 0 {
        Seq::empty()
    } else if entries.last().unsupported {
        supported_uids(entries.drop_last())
    } else {
        supported_uids(entries.drop_last()).push(entries.last().uid)
    }
}

/// The transfer syntaxes to offer: implicit and explicit VR little endian
/// alone where only uncompressed encodings are wanted, else whatever the
/// registry supports.
pub open spec fn offer(uncompressed_only: bool, entries: Seq<RegistryEntryView>) -> Seq<Seq<char>> {
    if uncompressed_only {
        seq![IMPLICIT_VR_LITTLE_ENDIAN@, EXPLICIT_VR_LITTLE_ENDIAN@]
    } else {
        supported_uids(entries)
    }
}

/// An identifier is offered from the registry exactly where an entry that
/// is not unsupported holds it.
pub proof fn lemma_supported_uids_are_the_supported_entries(
    entries: Seq<RegistryEntryView>,
    uid: Seq<char>,
)
    ensures
        supported_uids(entries).contains(uid) <==> exists|i: int|
            0 <= i < entries.len() && !(#[trigger] entries[i]).unsupported && entries[i].uid == uid,
    decreases entries.len(),
{
    if entries.len() > 0 {
        let front = entries.drop_last();
        lemma_supported_uids_are_the_supported_entries(front, uid);
        let found = exists|i: int|
            0 <= i < entries.len() && !(#[trigger] entries[i]).unsupported && entries[i].uid == uid;
        if supported_uids(entries).contains(uid) {
            if supported_uids(front).contains(uid) {
                let i = choose|i: int|
                    0 <= i < front.len() && !(#[trigger] front[i]).unsupported && front[i].uid
                        == uid;
                assert(entries[i] == front[i]);
            } else {
                let k = choose|k: int|
                    0 <= k < supported_uids(entries).len() && supported_uids(entries)[k] == uid;
                assert(!entries.last().unsupported);
                assert(k == supported_uids(front).len()) by {
                    if k < supported_uids(front).len() {
                        assert(supported_uids(front)[k] == uid);
                    }
                }
                assert(entries[entries.len() - 1].uid == uid);
            }
            assert(found);
        }
        if found {
            let i = choose|i: int|
                0 <= i < entries.len() && !(#[trigger] entries[i]).unsupported && entries[i].uid
                    == uid;
            if i < front.len() {
                assert(front[i] == entries[i]);
                assert(supported_uids(front).contains(uid));
                let k = choose|k: int|
                    0 <= k < supported_uids(front).len() && supported_uids(front)[k] == uid;
                if !entries.last().unsupported {
                    assert(supported_uids(entries)[k] == uid);
                }
            } else {
                let n = supported_uids(front).len() as int;
                assert(supported_uids(entries)[n] == uid);
            }
            assert(supported_uids(entries).contains(uid));
        }
    }
}

/// Chooses the transfer syntaxes to offer, given the entries of the
/// registry.
pub fn select_transfer_syntaxes(uncompressed_only: bool, entries: &Vec<RegistryEntry>) -> (r: Vec<
    String,
>)
    ensures
        uid_views(r@) == offer(uncompressed_only, entry_views(entries@)),
{
    let mut r: Vec<String> = Vec::new();
    if uncompressed_only {
        r.push(IMPLICIT_VR_LITTLE_ENDIAN.to_owned());
        r.push(EXPLICIT_VR_LITTLE_ENDIAN.to_owned());
        assert(uid_views(r@) =~= seq![IMPLICIT_VR_LITTLE_ENDIAN@, EXPLICIT_VR_LITTLE_ENDIAN@]);
        return r;
    }
    let ghost views = entry_views(entries@);
    assert(uid_views(r@) =~= Seq::empty());
    let mut i: usize = 0;
    while i < entries.len()
        invariant
            0 <= i <= entries.len(),
            views == entry_views(entries@),
            uid_views(r@) == supported_uids(views.take(i as int)),
        decreases entries.len() - i,
    {
        proof {
            assert(views.take(i + 1).drop_last() =~= views.take(i as int));
            assert(views.take(i + 1).last() == entries[i as int]@);
        }
        if !entries[i].unsupported {
            let ghost before = uid_views(r@);
            let uid = entries[i].uid.clone();
            r.push(uid);
            assert(uid_views(r@) =~= before.push(entries[i as int].uid@));
        }
        i += 1;
    }
    proof {
        assert(views.take(i as int) =~= views);
    }
    r
}

/// Where no two entries have the same identifier, no identifier is offered
/// twice.
pub proof fn lemma_supported_uids_are_distinct(entries: Seq<RegistryEntryView>)
    requires
        forall|i: int, j: int|
            0 <= i < j < entries.len() ==> (#[trigger] entries[i]).uid != (#[trigger] entries[j]).uid,
    ensures
        supported_uids(entries).no_duplicates(),
    decreases entries.len(),
{
    if entries.len() > 0 {
        let front = entries.drop_last();
        let last = entries.last();
        assert forall|i: int, j: int| 0 <= i < j < front.len() implies (#[trigger] front[i]).uid
            != (#[trigger] front[j]).uid by {
            assert(front[i] == entries[i]);
            assert(front[j] == entries[j]);
        }
        lemma_supported_uids_are_distinct(front);
        if !last.unsupported {
            lemma_supported_uids_are_the_supported_entries(front, last.uid);
            assert(!supported_uids(front).contains(last.uid)) by {
                if supported_uids(front).contains(last.uid) {
                    let i = choose|i: int|
                        0 <= i < front.len() && !(#[trigger] front[i]).unsupported && front[i].uid
                            == last.uid;
                    assert(entries[i] == front[i]);
                    assert(entries[i].uid != entries[entries.len() - 1].uid);
                }
            }
            let before = supported_uids(front);
            let all = supported_uids(entries);
            assert forall|i: int, j: int|
                0 <= i < all.len() && 0 <= j < all.len() && i != j implies all[i] != all[j] by {
                if i < before.len() && j < before.len() {
                    assert(before[i] != before[j]);
                } else if i < before.len() {
                    assert(before[i] == all[i]);
                    assert(before.contains(all[i]));
                } else {
                    assert(before[j] == all[j]);
                    assert(before.contains(all[j]));
                }
            }
        }
    }
}

/// Chooses the transfer syntaxes to offer. The registry is asked only
/// where compressed encodings are wanted too. The offer is then every
/// identifier under which the registry holds a supported entry, each once,
/// in the order in which the registry hands its entries out. Implicit and
/// explicit VR little endian are offered in either case.
pub fn offered_transfer_syntaxes(uncompressed_only: bool) -> (r: Vec<String>)
    ensures
        uncompressed_only ==> uid_views(r@) == seq![
            IMPLICIT_VR_LITTLE_ENDIAN@,
            EXPLICIT_VR_LITTLE_ENDIAN@,
        ],
        !uncompressed_only ==> forall|uid: Seq<char>|
            uid_views(r@).contains(uid) <==> #[trigger] registry_entry(uid) == Some(false),
        !uncompressed_only ==> uid_views(r@).no_duplicates(),
        uid_views(r@).contains(IMPLICIT_VR_LITTLE_ENDIAN@),
        uid_views(r@).contains(EXPLICIT_VR_LITTLE_ENDIAN@),
{
    if uncompressed_only {
        let r = select_transfer_syntaxes(true, &Vec::new());
        proof {
            assert(uid_views(r@)[0] == IMPLICIT_VR_LITTLE_ENDIAN@);
            assert(uid_views(r@)[1] == EXPLICIT_VR_LITTLE_ENDIAN@);
        }
        r
    } else {
        let entries = registry_entries();
        let r = select_transfer_syntaxes(false, &entries);
        proof {
            let views = entry_views(entries@);
            assert forall|i: int| 0 <= i < views.len() implies #[trigger] views[i]
                == entries@[i]@ by {}
            lemma_supported_uids_are_the_supported_entries(views, IMPLICIT_VR_LITTLE_ENDIAN@);
            lemma_supported_uids_are_the_supported_entries(views, EXPLICIT_VR_LITTLE_ENDIAN@);
            let i0 = choose|i: int|
                0 <= i < entries@.len() && (#[trigger] entries@[i]).uid@
                    == IMPLICIT_VR_LITTLE_ENDIAN@ && !entries@[i].unsupported;
            let j0 = choose|j: int|
                0 <= j < entries@.len() && (#[trigger] entries@[j]).uid@
                    == EXPLICIT_VR_LITTLE_ENDIAN@ && !entries@[j].unsupported;
            assert(views[i0] == entries@[i0]@);
            assert(views[j0] == entries@[j0]@);
            assert forall|i: int, j: int| 0 <= i < j < views.len() implies (#[trigger] views[i]).uid
                != (#[trigger] views[j]).uid by {
                assert(entries@[i].uid@ != entries@[j].uid@);
            }
            lemma_supported_uids_are_distinct(views);
            assert forall|uid: Seq<char>|
                uid_views(r@).contains(uid) <==> #[trigger] registry_entry(uid) == Some(
                    false,
                ) by {
                lemma_supported_uids_are_the_supported_entries(views, uid);
                if uid_views(r@).contains(uid) {
                    let i = choose|i: int|
                        0 <= i < views.len() && !(#[trigger] views[i]).unsupported && views[i].uid
                            == uid;
                    assert(entries@[i].uid@ == uid);
                    match registry_entry(uid) {
                        Some(unsupported) => {
                            let k = choose|k: int|
                                0 <= k < entries@.len() && (#[trigger] entries@[k]).uid@ == uid
                                    && entries@[k].unsupported == unsupported;
                            if k < i {
                                assert(entries@[k].uid@ != entries@[i].uid@);
                            } else if i < k {
                                assert(entries@[i].uid@ != entries@[k].uid@);
                            }
                        },
                        None => {},
                    }
                }
                if registry_entry(uid) == Some(false) {
                    let k = choose|k: int|
                        0 <= k < entries@.len() && (#[trigger] entries@[k]).uid@ == uid
                            && entries@[k].unsupported == false;
                    assert(views[k] == entries@[k]@);
                }
            }
        }
        r
    }
}

} // verus!
