//! Properties of the listing that relate several values or hold of all
//! inputs.
use vstd::prelude::*;

use crate::json_text::json_quoted;
use crate::listing::{
    array_text, item_of, items_of, kind_of, listing_text, object_text, EntryKind, EntryView,
    ItemView,
};

verus! {

/// The listing of a directory with no entries is the empty array `[]`.
pub proof fn lemma_empty_listing()
    ensures
        listing_text(items_of(Seq::<EntryView>::empty())) == "[]"@,
{
    assert(items_of(Seq::<EntryView>::empty()).map_values(
        |it: ItemView| object_text(json_quoted(it.name), it.kind),
    ).len() == 0);
}

/// Two reads that produce the same entries give byte-identical text.
pub proof fn lemma_listing_deterministic(a: Seq<EntryView>, b: Seq<EntryView>)
    requires
        a == b,
    ensures
        listing_text(items_of(a)) == listing_text(items_of(b)),
{
}

/// An entry whose name is not text is still listed, at its place, with
/// an empty name.
pub proof fn lemma_undecodable_name_listed(es: Seq<EntryView>, i: int)
    requires
        0 <= i < es.len(),
        es[i].name is None,
    ensures
        items_of(es).len() == es.len(),
        items_of(es)[i] == (ItemView { name: Seq::empty(), kind: kind_of(es[i].is_dir) }),
        json_quoted(items_of(es)[i].name) == seq!['"', '"'],
{
    let q = json_quoted(Seq::<char>::empty());
    assert(q =~= seq!['"', '"']);
}

/// The listing holds exactly one flat object per entry, built from that
/// entry's name and directory flag alone: nothing below a subdirectory
/// takes part, and a subdirectory is reported only by its name and the
/// `directory` tag.
pub proof fn lemma_one_level(es: Seq<EntryView>)
    ensures
        listing_text(items_of(es)) == array_text(
            Seq::new(
                es.len(),
                |i: int|
                    object_text(
                        json_quoted(
                            match es[i].name {
                                Some(n) => n,
                                None => Seq::empty(),
                            },
                        ),
                        kind_of(es[i].is_dir),
                    ),
            ),
        ),
        forall|i: int|
            0 <= i < es.len() && es[i].is_dir && es[i].name is Some ==> #[trigger] items_of(es)[i]
                == (ItemView { name: es[i].name->0, kind: EntryKind::Directory }),
{
    assert(items_of(es).map_values(|it: ItemView| object_text(json_quoted(it.name), it.kind))
        =~= Seq::new(
        es.len(),
        |i: int|
            object_text(
                json_quoted(
                    match es[i].name {
                        Some(n) => n,
                        None => Seq::empty(),
                    },
                ),
                kind_of(es[i].is_dir),
            ),
    ));
}

} // verus!
