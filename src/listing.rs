//! Entries of one directory, classified, and their JSON text.
use vstd::prelude::*;

use crate::json_text::{json_quoted, json_string};
use crate::tool::ToolError;

verus! {

/// The two categories a listed entry falls into.
#[derive(PartialEq, Eq, Structural, Clone, Copy, Debug)]
pub enum EntryKind {
    File,
    Directory,
}

/// One entry as the directory read produced it: its base name, or `None`
/// when the name is not valid text, and whether its path denoted a
/// directory when it was checked.
#[derive(Clone, Debug)]
pub struct DirEntryInfo {
    pub name: Option<String>,
    pub is_dir: bool,
}

/// One element of the output array.
#[derive(Clone, Debug)]
pub struct ListingItem {
    pub name: String,
    pub kind: EntryKind,
}

/// The mathematical value of a `ListingItem`.
pub struct ItemView {
    pub name: Seq<char>,
    pub kind: EntryKind,
}

impl View for ListingItem {
    type V = ItemView;

    open spec fn view(&self) -> ItemView {
        ItemView { name: self.name@, kind: self.kind }
    }
}

/// The mathematical value of a `DirEntryInfo`.
pub struct EntryView {
    pub name: Option<Seq<char>>,
    pub is_dir: bool,
}

impl View for DirEntryInfo {
    type V = EntryView;

    open spec fn view(&self) -> EntryView {
        EntryView {
            name: match self.name {
                Some(n) => Some(n@),
                None => None,
            },
            is_dir: self.is_dir,
        }
    }
}

/// The kind that an entry is reported as.
pub open spec fn kind_of(is_dir: bool) -> EntryKind {
    if is_dir {
        EntryKind::Directory
    } else {
        EntryKind::File
    }
}

/// The item reported for an entry: a name that is not text becomes empty.
pub open spec fn item_of(e: EntryView) -> ItemView {
    ItemView {
        name: match e.name {
            Some(n) => n,
            None => Seq::empty(),
        },
        kind: kind_of(e.is_dir),
    }
}

/// The items reported for a sequence of entries: one each, in order.
pub open spec fn items_of(es: Seq<EntryView>) -> Seq<ItemView> {
    es.map_values(|e: EntryView| item_of(e))
}

/// The tag that the `type` field holds.
pub open spec fn kind_text(k: EntryKind) -> Seq<char> {
    match k {
        EntryKind::File => "file"@,
        EntryKind::Directory => "directory"@,
    }
}

/// The pretty-printed object for one item whose name is already a JSON
/// string literal; `name` comes before `type`.
pub open spec fn object_text(quoted_name: Seq<char>, k: EntryKind) -> Seq<char> {
    "  {\n    \"name\": "@ + quoted_name + ",\n    \"type\": \""@ + kind_text(k) + "\"\n  }"@
}

/// The elements of a non-empty pretty-printed array, each after its
/// separator.
pub open spec fn array_items(objs: Seq<Seq<char>>) -> Seq<char>
    decreases objs.len(),
{
    if objs.len() == 0 {
        Seq::empty()
    } else {
        array_items(objs.drop_last()) + (if objs.len() == 1 {
            "\n"@
        } else {
            ",\n"@
        }) + objs.last()
    }
}

/// A pretty-printed array of the given element texts: `[]` when empty.
pub open spec fn array_text(objs: Seq<Seq<char>>) -> Seq<char> {
    if objs.len() == 0 {
        "[]"@
    } else {
        "["@ + array_items(objs) + "\n]"@
    }
}

/// The object texts for items whose quoted names are given apart.
pub open spec fn objects_of(quoted: Seq<Seq<char>>, kinds: Seq<EntryKind>) -> Seq<Seq<char>> {
    Seq::new(quoted.len(), |i: int| object_text(quoted[i], kinds[i]))
}

/// The JSON text of a listing.
pub open spec fn listing_text(items: Seq<ItemView>) -> Seq<char> {
    array_text(items.map_values(|it: ItemView| object_text(json_quoted(it.name), it.kind)))
}

/// Classifies one entry.
pub fn classify(e: &DirEntryInfo) -> (r: ListingItem)
    ensures
        r@ == item_of(e@),
{
    let name = match &e.name {
        Some(n) => n.clone(),
        None => String::new(),
    };
    let kind = if e.is_dir {
        EntryKind::Directory
    } else {
        EntryKind::File
    };
    ListingItem { name, kind }
}

/// Classifies every entry, keeping their order and number.
pub fn listing_items(entries: &Vec<DirEntryInfo>) -> (r: Vec<ListingItem>)
    ensures
        r@.map_values(|it: ListingItem| it@) == items_of(entries@.map_values(|e: DirEntryInfo| e@)),
{
    let mut r: Vec<ListingItem> = Vec::new();
    let mut i: usize = 0;
    while i < entries.len()
        invariant
            i <= entries@.len(),
            r@.len() == i,
            forall|j: int| 0 <= j < i ==> #[trigger] r@[j]@ == item_of(entries@[j]@),
        decreases entries@.len() - i,
    {
        let it = classify(&entries[i]);
        r.push(it);
        i = i + 1;
    }
    assert(r@.map_values(|it: ListingItem| it@) =~= items_of(entries@.map_values(|e: DirEntryInfo| e@)));
    r
}

/// Appends the object text of one item whose name is already quoted.
fn push_object(s: &mut String, quoted_name: &String, k: EntryKind)
    ensures
        final(s)@ == old(s)@ + object_text(quoted_name@, k),
{
    s.append("  {\n    \"name\": ");
    s.append(quoted_name.as_str());
    s.append(",\n    \"type\": \"");
    match k {
        EntryKind::File => s.append("file"),
        EntryKind::Directory => s.append("directory"),
    }
    s.append("\"\n  }");
    assert(final(s)@ =~= old(s)@ + object_text(quoted_name@, k));
}

/// Lays out the pretty-printed array of items whose names are given as
/// JSON string literals, in order.
pub fn layout_listing(quoted: &Vec<String>, kinds: &Vec<EntryKind>) -> (r: String)
    requires
        quoted@.len() == kinds@.len(),
    ensures
        r@ == array_text(objects_of(quoted@.map_values(|q: String| q@), kinds@)),
{
    let ghost objs = objects_of(quoted@.map_values(|q: String| q@), kinds@);
    let mut s = String::new();
    s.append("[");
    let mut i: usize = 0;
    while i < quoted.len()
        invariant
            i <= quoted@.len(),
            quoted@.len() == kinds@.len(),
            objs == objects_of(quoted@.map_values(|q: String| q@), kinds@),
            s@ == "["@ + array_items(objs.take(i as int)),
        decreases quoted@.len() - i,
    {
        if i == 0 {
            s.append("\n");
        } else {
            s.append(",\n");
        }
        push_object(&mut s, &quoted[i], kinds[i]);
        proof {
            let t = objs.take(i + 1);
            assert(t.drop_last() =~= objs.take(i as int));
            assert(t.last() == object_text(quoted@[i as int]@, kinds@[i as int]));
            assert(s@ =~= "["@ + array_items(t));
        }
        i = i + 1;
    }
    assert(objs.take(i as int) =~= objs);
    if i == 0 {
        let mut e = String::new();
        e.append("[]");
        e
    } else {
        s.append("\n]");
        s
    }
}

/// Renders the items as a pretty-printed JSON array, in order. An
/// encoder failure would come back as `ToolError::Serialization`; the
/// encoder never fails on a name, so rendering always succeeds.
pub fn render_listing(items: &Vec<ListingItem>) -> (r: Result<String, ToolError>)
    ensures
        r is Ok,
        r matches Ok(s) ==> s@ == listing_text(items@.map_values(|it: ListingItem| it@)),
{
    let mut quoted: Vec<String> = Vec::new();
    let mut kinds: Vec<EntryKind> = Vec::new();
    let mut i: usize = 0;
    while i < items.len()
        invariant
            i <= items@.len(),
            quoted@.len() == i,
            kinds@.len() == i,
            forall|j: int| 0 <= j < i ==> #[trigger] quoted@[j]@ == json_quoted(items@[j].name@),
            forall|j: int| 0 <= j < i ==> #[trigger] kinds@[j] == items@[j].kind,
        decreases items@.len() - i,
    {
        let q = match json_string(items[i].name.as_str()) {
            Ok(q) => q,
            Err(_) => return Err(ToolError::Serialization),
        };
        quoted.push(q);
        kinds.push(items[i].kind);
        i = i + 1;
    }
    let s = layout_listing(&quoted, &kinds);
    assert(objects_of(quoted@.map_values(|q: String| q@), kinds@) =~= items@.map_values(
        |it: ListingItem| it@,
    ).map_values(|it: ItemView| object_text(json_quoted(it.name), it.kind)));
    Ok(s)
}

} // verus!
