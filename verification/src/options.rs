//! The options of a file dialog, decoded from an option document.
//!
//! Decoding never fails. Whatever is absent or has the wrong type is left
//! out: a title that is no string gives no title, a filter without a name or
//! without a list of extensions gives no filter, an extension that is no
//! string gives no extension. What remains keeps the order of the document.

use vstd::prelude::*;
use serde_json::Value;
use crate::json::{get_elements, get_flag, get_member, get_text, json_of, jsons_of, Json};

verus! {

/// A named group of file extensions that a dialog offers. The extensions
/// stand in the order given, repeats included; a dialog reads them as a set.
#[derive(Debug, PartialEq, Eq)]
pub struct FileFilter {
    pub name: String,
    pub extensions: Vec<String>,
}

/// A `FileFilter` as sequences of characters.
pub struct FileFilterView {
    pub name: Seq<char>,
    pub extensions: Seq<Seq<char>>,
}

/// The strings of `strings` as sequences of characters, in order.
pub open spec fn texts_of(strings: Seq<String>) -> Seq<Seq<char>> {
    Seq::new(strings.len(), |i: int| strings[i]@)
}

impl View for FileFilter {
    type V = FileFilterView;

    open spec fn view(&self) -> FileFilterView {
        FileFilterView { name: self.name@, extensions: texts_of(self.extensions@) }
    }
}

/// The filters of `filters` as sequences of characters, in order.
pub open spec fn filter_views(filters: Seq<FileFilter>) -> Seq<FileFilterView> {
    Seq::new(filters.len(), |i: int| filters[i]@)
}

/// What a dialog command was asked for. `multiple` is decoded and kept, and
/// nothing reads it: dialogs pick one file.
#[derive(Debug, PartialEq, Eq)]
pub struct DialogOptions {
    pub title: Option<String>,
    pub filters: Vec<FileFilter>,
    pub multiple: Option<bool>,
}

/// A `DialogOptions` as sequences of characters.
pub struct DialogOptionsView {
    pub title: Option<Seq<char>>,
    pub filters: Seq<FileFilterView>,
    pub multiple: Option<bool>,
}

/// The characters of `text`, if there is one.
pub open spec fn text_view(text: Option<String>) -> Option<Seq<char>> {
    match text {
        Some(s) => Some(s@),
        None => None,
    }
}

impl View for DialogOptions {
    type V = DialogOptionsView;

    open spec fn view(&self) -> DialogOptionsView {
        DialogOptionsView {
            title: text_view(self.title),
            filters: filter_views(self.filters@),
            multiple: self.multiple,
        }
    }
}

/// The options of a command that was given none.
pub open spec fn no_options() -> DialogOptionsView {
    DialogOptionsView { title: None, filters: Seq::empty(), multiple: None }
}

/// The member `key` of `doc`, if it is a string.
pub open spec fn text_member(doc: Json, key: Seq<char>) -> Option<Seq<char>> {
    match doc.member(key) {
        Some(member) => member.text(),
        None => None,
    }
}

/// The member `key` of `doc`, if it is an array.
pub open spec fn array_member(doc: Json, key: Seq<char>) -> Option<Seq<Json>> {
    match doc.member(key) {
        Some(member) => member.elements(),
        None => None,
    }
}

/// The member `key` of `doc`, if it is a boolean.
pub open spec fn flag_member(doc: Json, key: Seq<char>) -> Option<bool> {
    match doc.member(key) {
        Some(member) => member.flag(),
        None => None,
    }
}

/// The strings among `elements`, in order; every other element is passed over.
pub open spec fn extensions_in(elements: Seq<Json>) -> Seq<Seq<char>> {
    elements.filter_map(|doc: Json| doc.text())
}

/// The filter that `doc` describes: an object with a string `name` and an
/// array `extensions`. Anything else describes none.
pub open spec fn filter_in(doc: Json) -> Option<FileFilterView> {
    match (text_member(doc, "name"@), array_member(doc, "extensions"@)) {
        (Some(name), Some(elements)) => Some(
            FileFilterView { name, extensions: extensions_in(elements) },
        ),
        _ => None,
    }
}

/// The filters that `elements` describe, in order; an element that describes
/// none is passed over.
pub open spec fn filters_in(elements: Seq<Json>) -> Seq<FileFilterView> {
    elements.filter_map(|doc: Json| filter_in(doc))
}

/// The options that `doc` describes: the string `title`, the filters of the
/// array `filters`, the boolean `multiple`.
pub open spec fn options_in(doc: Json) -> DialogOptionsView {
    DialogOptionsView {
        title: text_member(doc, "title"@),
        filters: match array_member(doc, "filters"@) {
            Some(elements) => filters_in(elements),
            None => Seq::empty(),
        },
        multiple: flag_member(doc, "multiple"@),
    }
}

/// The options that a command's optional document describes.
pub open spec fn options_of(options: Option<&Value>) -> DialogOptionsView {
    match options {
        Some(value) => options_in(json_of(*value)),
        None => no_options(),
    }
}

/// Where `read` accepts every element of `elements`, mapping and passing over
/// leaves one result per element, each at its element's place.
proof fn lemma_filter_map_keeps_all<A, B>(elements: Seq<A>, read: spec_fn(A) -> Option<B>)
    requires
        forall|i: int| 0 <= i < elements.len() ==> (#[trigger] read(elements[i])) is Some,
    ensures
        elements.filter_map(read).len() == elements.len(),
        forall|i: int|
            0 <= i < elements.len() ==> read(elements[i]) == Some(
                #[trigger] elements.filter_map(read)[i],
            ),
    decreases elements.len(),
{
    if elements.len() > 0 {
        let before = elements.drop_last();
        assert forall|i: int| 0 <= i < before.len() implies (#[trigger] read(before[i])) is Some by {
            assert(before[i] == elements[i]);
        }
        lemma_filter_map_keeps_all(before, read);
        assert(read(elements.last()) is Some);
    }
}

/// What mapping and passing over gives holds exactly the results that `read`
/// has for some element.
proof fn lemma_filter_map_holds<A, B>(elements: Seq<A>, read: spec_fn(A) -> Option<B>, result: B)
    ensures
        elements.filter_map(read).contains(result) <==> exists|i: int|
            0 <= i < elements.len() && #[trigger] read(elements[i]) == Some(result),
    decreases elements.len(),
{
    let kept = elements.filter_map(read);
    if elements.len() > 0 {
        let before = elements.drop_last();
        lemma_filter_map_holds(before, read, result);
        if kept.contains(result) {
            let k = choose|k: int| 0 <= k < kept.len() && kept[k] == result;
            if k < before.filter_map(read).len() {
                assert(before.filter_map(read)[k] == result);
                let i = choose|i: int|
                    0 <= i < before.len() && #[trigger] read(before[i]) == Some(result);
                assert(read(elements[i]) == Some(result));
            } else {
                assert(read(elements[elements.len() - 1]) == Some(result));
            }
        }
        if exists|i: int| 0 <= i < elements.len() && #[trigger] read(elements[i]) == Some(result) {
            let i = choose|i: int|
                0 <= i < elements.len() && #[trigger] read(elements[i]) == Some(result);
            if i < before.len() {
                assert(read(before[i]) == Some(result));
                let k = choose|k: int|
                    0 <= k < before.filter_map(read).len() && before.filter_map(read)[k] == result;
                assert(kept[k] == result);
            } else {
                assert(kept[kept.len() - 1] == result);
            }
        }
    }
}

/// A filter's extensions, read as a set, are the strings among the elements
/// of the list: each of them, and nothing else.
pub proof fn lemma_extensions_are_the_strings(elements: Seq<Json>, extension: Seq<char>)
    ensures
        extensions_in(elements).contains(extension) <==> exists|i: int|
            0 <= i < elements.len() && #[trigger] elements[i].text() == Some(extension),
{
    let read = |doc: Json| doc.text();
    lemma_filter_map_holds(elements, read, extension);
    if extensions_in(elements).contains(extension) {
        let i = choose|i: int|
            0 <= i < elements.len() && #[trigger] read(elements[i]) == Some(extension);
        assert(elements[i].text() == Some(extension));
    }
    if exists|i: int| 0 <= i < elements.len() && #[trigger] elements[i].text() == Some(extension) {
        let i = choose|i: int|
            0 <= i < elements.len() && #[trigger] elements[i].text() == Some(extension);
        assert(read(elements[i]) == Some(extension));
    }
}

/// A document that is no object describes no options at all.
pub proof fn lemma_only_objects_hold_options(doc: Json)
    requires
        !(doc is Object),
    ensures
        options_in(doc) == no_options(),
{
}

/// A list of extensions that are all strings is decoded whole: as many
/// extensions as elements, each the string at its place.
pub proof fn lemma_extensions_kept_in_order(elements: Seq<Json>)
    requires
        forall|i: int| 0 <= i < elements.len() ==> (#[trigger] elements[i].text()) is Some,
    ensures
        extensions_in(elements).len() == elements.len(),
        forall|i: int|
            0 <= i < elements.len() ==> elements[i].text() == Some(
                #[trigger] extensions_in(elements)[i],
            ),
{
    let read = |doc: Json| doc.text();
    assert forall|i: int| 0 <= i < elements.len() implies (#[trigger] read(elements[i])) is Some by {
        assert(elements[i].text() is Some);
    }
    lemma_filter_map_keeps_all(elements, read);
}

/// A list of filters that are all well formed is decoded whole: as many
/// filters as elements, each the filter that the element at its place
/// describes. So a dialog applies the filters in the order given.
pub proof fn lemma_filters_kept_in_order(elements: Seq<Json>)
    requires
        forall|i: int| 0 <= i < elements.len() ==> (#[trigger] filter_in(elements[i])) is Some,
    ensures
        filters_in(elements).len() == elements.len(),
        forall|i: int|
            0 <= i < elements.len() ==> filter_in(elements[i]) == Some(
                #[trigger] filters_in(elements)[i],
            ),
{
    let read = |doc: Json| filter_in(doc);
    assert forall|i: int| 0 <= i < elements.len() implies (#[trigger] read(elements[i])) is Some by {
        assert(filter_in(elements[i]) is Some);
    }
    lemma_filter_map_keeps_all(elements, read);
}

/// Reads the member `key` of `value` as a string.
fn read_text_member(value: &Value, key: &str) -> (found: Option<String>)
    ensures
        text_view(found) == text_member(json_of(*value), key@),
{
    match get_member(value, key) {
        Some(member) => match get_text(member) {
            Some(chars) => Some(chars.to_owned()),
            None => None,
        },
        None => None,
    }
}

/// Reads the member `key` of `value` as an array.
fn read_array_member<'a>(value: &'a Value, key: &str) -> (found: Option<&'a Vec<Value>>)
    ensures
        match found {
            Some(elements) => array_member(json_of(*value), key@) == Some(jsons_of(elements@)),
            None => array_member(json_of(*value), key@) is None,
        },
{
    match get_member(value, key) {
        Some(member) => get_elements(member),
        None => None,
    }
}

/// Collects the strings among `elements`.
pub fn read_extensions(elements: &Vec<Value>) -> (extensions: Vec<String>)
    ensures
        texts_of(extensions@) == extensions_in(jsons_of(elements@)),
{
    let mut extensions: Vec<String> = Vec::new();
    let ghost docs = jsons_of(elements@);
    for i in 0..elements.len()
        invariant
            docs == jsons_of(elements@),
            texts_of(extensions@) == extensions_in(docs.take(i as int)),
    {
        proof {
            docs.lemma_filter_map_take_succ(|doc: Json| doc.text(), i as int);
        }
        let ghost before = extensions@;
        match get_text(&elements[i]) {
            Some(chars) => {
                let owned = chars.to_owned();
                extensions.push(owned);
                assert(texts_of(extensions@) == texts_of(before).push(chars@));
            },
            None => {},
        }
    }
    proof {
        assert(docs.take(elements.len() as int) == docs);
    }
    extensions
}

/// Reads the filter that `value` describes, if it describes one.
pub fn read_filter(value: &Value) -> (filter: Option<FileFilter>)
    ensures
        match filter {
            Some(f) => filter_in(json_of(*value)) == Some(f@),
            None => filter_in(json_of(*value)) is None,
        },
{
    match read_text_member(value, "name") {
        Some(name) => match read_array_member(value, "extensions") {
            Some(elements) => Some(FileFilter { name, extensions: read_extensions(elements) }),
            None => None,
        },
        None => None,
    }
}

/// Collects the filters that `elements` describe.
pub fn read_filters(elements: &Vec<Value>) -> (filters: Vec<FileFilter>)
    ensures
        filter_views(filters@) == filters_in(jsons_of(elements@)),
{
    let mut filters: Vec<FileFilter> = Vec::new();
    let ghost docs = jsons_of(elements@);
    for i in 0..elements.len()
        invariant
            docs == jsons_of(elements@),
            filter_views(filters@) == filters_in(docs.take(i as int)),
    {
        proof {
            docs.lemma_filter_map_take_succ(|doc: Json| filter_in(doc), i as int);
        }
        let ghost before = filters@;
        match read_filter(&elements[i]) {
            Some(filter) => {
                filters.push(filter);
                assert(filter_views(filters@) == filter_views(before).push(filter@));
            },
            None => {},
        }
    }
    proof {
        assert(docs.take(elements.len() as int) == docs);
    }
    filters
}

impl DialogOptions {
    /// The options of a command that was given none: no title, no filter, no
    /// word on multiple selection.
    pub fn none() -> (options: DialogOptions)
        ensures
            options@ == no_options(),
    {
        let options = DialogOptions { title: None, filters: Vec::new(), multiple: None };
        assert(options@.filters == Seq::<FileFilterView>::empty());
        options
    }

    /// Decodes the options of a dialog command from its optional document.
    pub fn decode(options: Option<&Value>) -> (decoded: DialogOptions)
        ensures
            decoded@ == options_of(options),
    {
        match options {
            Some(value) => {
                let title = read_text_member(value, "title");
                let filters = match read_array_member(value, "filters") {
                    Some(elements) => read_filters(elements),
                    None => Vec::new(),
                };
                let multiple = match get_member(value, "multiple") {
                    Some(member) => get_flag(member),
                    None => None,
                };
                let decoded = DialogOptions { title, filters, multiple };
                assert(decoded@.filters == options_of(options).filters);
                decoded
            },
            None => DialogOptions::none(),
        }
    }
}

} // verus!
