//! Protocol data units as plain values.

use vstd::prelude::*;

verus! {

/// What the payload of a presentation data value belongs to.
#[derive(Clone, Copy, Debug, PartialEq, Eq, Structural)]
pub enum PdvKind {
    /// A fragment of a command set.
    Command,
    /// A fragment of a data set.
    Data,
}

/// A presentation data value: one fragment of a command or data unit.
#[derive(Clone, Debug, PartialEq, Eq)]
pub struct Pdv {
    /// The presentation context that the fragment was sent on.
    pub presentation_context_id: u8,
    /// Whether the fragment belongs to a command set or to a data set.
    pub kind: PdvKind,
    /// Whether this is the last fragment of its unit.
    pub is_last: bool,
    /// The payload.
    pub data: Vec<u8>,
}

/// The mathematical value of a [`Pdv`].
#[verifier::ext_equal]
pub struct PdvView {
    pub presentation_context_id: u8,
    pub kind: PdvKind,
    pub is_last: bool,
    pub data: Seq<u8>,
}

impl View for Pdv {
    type V = PdvView;

    open spec fn view(&self) -> PdvView {
        PdvView {
            presentation_context_id: self.presentation_context_id,
            kind: self.kind,
            is_last: self.is_last,
            data: self.data@,
        }
    }
}

/// A protocol data unit, as far as this service tells them apart.
#[derive(Clone, Debug, PartialEq, Eq)]
pub enum Pdu {
    /// P-DATA: any number of presentation data values.
    PData { data: Vec<Pdv> },
    /// A-RELEASE-RQ.
    ReleaseRq,
    /// A-RELEASE-RP.
    ReleaseRp,
    /// A-ABORT.
    AbortRq,
    /// Any other unit.
    Other,
}

/// The mathematical value of a [`Pdu`].
#[verifier::ext_equal]
pub enum PduView {
    PData { data: Seq<PdvView> },
    ReleaseRq,
    ReleaseRp,
    AbortRq,
    Other,
}

/// The values of a vector of presentation data values, in order.
pub open spec fn pdv_views(data: Seq<Pdv>) -> Seq<PdvView> {
    data.map_values(|p: Pdv| p@)
}

impl View for Pdu {
    type V = PduView;

    open spec fn view(&self) -> PduView {
        match self {
            Pdu::PData { data } => PduView::PData { data: pdv_views(data@) },
            Pdu::ReleaseRq => PduView::ReleaseRq,
            Pdu::ReleaseRp => PduView::ReleaseRp,
            Pdu::AbortRq => PduView::AbortRq,
            Pdu::Other => PduView::Other,
        }
    }
}

/// A negotiated presentation context: the transfer syntax that was accepted
/// under an identifier.
#[derive(Clone, Debug, PartialEq, Eq)]
pub struct PresentationContext {
    /// The identifier of the presentation context.
    pub id: u8,
    /// The identifier of the accepted transfer syntax.
    pub transfer_syntax: String,
}

/// The mathematical value of a [`PresentationContext`].
#[verifier::ext_equal]
pub struct PresentationContextView {
    pub id: u8,
    pub transfer_syntax: Seq<char>,
}

impl View for PresentationContext {
    type V = PresentationContextView;

    open spec fn view(&self) -> PresentationContextView {
        PresentationContextView { id: self.id, transfer_syntax: self.transfer_syntax@ }
    }
}

/// The values of a table of presentation contexts, in order.
pub open spec fn context_views(contexts: Seq<PresentationContext>) -> Seq<
    PresentationContextView,
> {
    contexts.map_values(|c: PresentationContext| c@)
}

/// The transfer syntax of the first context of the table that has the
/// identifier `id`; `None` where no context has it.
pub open spec fn negotiated_transfer_syntax(
    contexts: Seq<PresentationContextView>,
    id: u8,
) -> Option<Seq<char>>
    decreases contexts.len(),
{
    if contexts.len() == 0 {
        None
    } else {
        match negotiated_transfer_syntax(contexts.drop_last(), id) {
            Some(ts) => Some(ts),
            None => if contexts.last().id == id {
                Some(contexts.last().transfer_syntax)
            } else {
                None
            },
        }
    }
}

/// A lookup that succeeds on a prefix of the table gives the same on the
/// whole table.
pub proof fn lemma_lookup_stable(contexts: Seq<PresentationContextView>, id: u8, n: int)
    requires
        0 <= n <= contexts.len(),
        negotiated_transfer_syntax(contexts.take(n), id) is Some,
    ensures
        negotiated_transfer_syntax(contexts, id) == negotiated_transfer_syntax(
            contexts.take(n),
            id,
        ),
    decreases contexts.len() - n,
{
    if n == contexts.len() {
        assert(contexts.take(n) =~= contexts);
    } else {
        assert(contexts.take(n + 1).drop_last() =~= contexts.take(n));
        lemma_lookup_stable(contexts, id, n + 1);
    }
}

/// The lookup finds the first context with the identifier, and fails only
/// where none has it.
pub proof fn lemma_lookup_is_first_match(contexts: Seq<PresentationContextView>, id: u8)
    ensures
        match negotiated_transfer_syntax(contexts, id) {
            Some(ts) => exists|i: int|
                0 <= i < contexts.len() && (#[trigger] contexts[i]).id == id && contexts[i].transfer_syntax
                    == ts && forall|j: int| 0 <= j < i ==> (#[trigger] contexts[j]).id != id,
            None => forall|i: int| 0 <= i < contexts.len() ==> (#[trigger] contexts[i]).id != id,
        },
    decreases contexts.len(),
{
    if contexts.len() > 0 {
        let front = contexts.drop_last();
        lemma_lookup_is_first_match(front, id);
        match negotiated_transfer_syntax(front, id) {
            Some(ts) => {
                let i = choose|i: int|
                    0 <= i < front.len() && (#[trigger] front[i]).id == id && front[i].transfer_syntax
                        == ts && forall|j: int| 0 <= j < i ==> (#[trigger] front[j]).id != id;
                assert(contexts[i] == front[i]);
                assert forall|j: int| 0 <= j < i implies (#[trigger] contexts[j]).id != id by {
                    assert(contexts[j] == front[j]);
                }
            },
            None => {
                assert forall|j: int| 0 <= j < front.len() implies (#[trigger] contexts[j]).id
                    != id by {
                    assert(contexts[j] == front[j]);
                }
                if contexts.last().id == id {
                    assert(contexts[contexts.len() - 1].id == id);
                }
            },
        }
    }
}

/// Looks up the transfer syntax that was negotiated for the presentation
/// context `id`: that of the first context of the table with this
/// identifier.
pub fn find_transfer_syntax<'a>(contexts: &'a Vec<PresentationContext>, id: u8) -> (r: Option<
    &'a String,
>)
    ensures
        match r {
            Some(ts) => negotiated_transfer_syntax(context_views(contexts@), id) == Some(ts@),
            None => negotiated_transfer_syntax(context_views(contexts@), id) is None,
        },
{
    let ghost views = context_views(contexts@);
    let mut i: usize = 0;
    while i < contexts.len()
        invariant
            0 <= i <= contexts.len(),
            views == context_views(contexts@),
            negotiated_transfer_syntax(views.take(i as int), id) is None,
        decreases contexts.len() - i,
    {
        proof {
            assert(views.take(i + 1).drop_last() =~= views.take(i as int));
            assert(views.take(i + 1).last() == contexts[i as int]@);
        }
        if contexts[i].id == id {
            proof {
                lemma_lookup_stable(views, id, i + 1);
            }
            return Some(&contexts[i].transfer_syntax);
        }
        i += 1;
    }
    proof {
        assert(views.take(i as int) =~= views);
    }
    None
}

} // verus!
