//! Naming of activities: an identity made of the module and activity names,
//! and metadata that travels with it without being part of it.
use crate::annotations::{
    annotation_entries, copy_annotations, empty_annotations, get_annotation, insert_annotation,
    no_entries, same_annotations, Annotations,
};
use crate::text_order::{option_text_cmp, option_text_order, opt_view, text_cmp, text_order};
use core::cmp::Ordering;
use vstd::prelude::*;
use vstd::std_specs::cmp::PartialEqSpec;

verus! {

/// What an [`ActivityMetadata`] holds, as plain values.
pub struct MetadataModel {
    pub window_name: Option<Seq<char>>,
    pub additional_metadata: Map<Seq<char>, Seq<char>>,
}

/// The value under `key` in `m`, if there is one.
pub open spec fn entry_of(m: Map<Seq<char>, Seq<char>>, key: Seq<char>) -> Option<Seq<char>> {
    if m.contains_key(key) {
        Some(m[key])
    } else {
        None
    }
}

impl MetadataModel {
    /// No window name, no annotation.
    pub open spec fn empty() -> MetadataModel {
        MetadataModel { window_name: None, additional_metadata: no_entries() }
    }

    /// The same metadata with its window name replaced.
    pub open spec fn with_window_name(self, name: Seq<char>) -> MetadataModel {
        MetadataModel { window_name: Some(name), ..self }
    }

    /// The same metadata with one annotation inserted or overwritten.
    pub open spec fn with_entry(self, key: Seq<char>, value: Seq<char>) -> MetadataModel {
        MetadataModel { additional_metadata: self.additional_metadata.insert(key, value), ..self }
    }

    /// The same metadata with all its annotations replaced.
    pub open spec fn with_annotations(self, entries: Map<Seq<char>, Seq<char>>) -> MetadataModel {
        MetadataModel { additional_metadata: entries, ..self }
    }

    /// The order of metadata: by window name alone, absent first, then lexical.
    pub open spec fn order(self, other: MetadataModel) -> Ordering {
        option_text_order(self.window_name, other.window_name)
    }
}

/// Auxiliary information on an activity: the window it belongs to, if any,
/// and free-form annotations. Never part of an activity's identity.
#[derive(Debug)]
pub struct ActivityMetadata {
    pub(crate) window_name: Option<String>,
    pub(crate) additional_metadata: Annotations,
}

impl View for ActivityMetadata {
    type V = MetadataModel;

    closed spec fn view(&self) -> MetadataModel {
        MetadataModel {
            window_name: opt_view(&self.window_name),
            additional_metadata: annotation_entries(self.additional_metadata),
        }
    }
}

/// A copy of an optional string.
fn copy_option_text(s: &Option<String>) -> (r: Option<String>)
    ensures
        opt_view(&r) == opt_view(s),
{
    match s {
        Some(x) => Some(x.clone()),
        None => None,
    }
}

/// Equality of optional strings.
fn same_option_text(a: &Option<String>, b: &Option<String>) -> (r: bool)
    ensures
        r == (opt_view(a) == opt_view(b)),
{
    match (a, b) {
        (None, None) => true,
        (Some(x), Some(y)) => x.eq(y),
        _ => false,
    }
}

impl ActivityMetadata {
    /// Metadata with no window name and no annotation.
    pub fn new() -> (r: ActivityMetadata)
        ensures
            r@ == MetadataModel::empty(),
    {
        ActivityMetadata { window_name: None, additional_metadata: empty_annotations() }
    }

    /// Sets the window name, replacing any earlier one.
    pub fn set_window_name(&mut self, window_name: &str)
        ensures
            final(self)@ == old(self)@.with_window_name(window_name@),
    {
        self.window_name = Some(window_name.to_owned());
    }

    /// The window name, if one was set.
    pub fn window_name(&self) -> (r: Option<String>)
        ensures
            opt_view(&r) == self@.window_name,
    {
        copy_option_text(&self.window_name)
    }

    /// Stores `value` under `key`, replacing what was there and keeping the
    /// other annotations.
    pub fn set_additional_metadata(&mut self, key: String, value: String)
        ensures
            final(self)@ == old(self)@.with_entry(key@, value@),
    {
        insert_annotation(&mut self.additional_metadata, key, value);
    }

    /// The annotation stored under `key`, if any.
    pub fn additional_metadata(&self, key: &str) -> (r: Option<String>)
        ensures
            opt_view(&r) == entry_of(self@.additional_metadata, key@),
    {
        get_annotation(&self.additional_metadata, key)
    }

    /// Metadata with the given window name and annotation map.
    pub fn from_parts(window_name: Option<String>, additional_metadata: Annotations) -> (r:
        ActivityMetadata)
        ensures
            r@.window_name == opt_view(&window_name),
            r@.additional_metadata == annotation_entries(additional_metadata),
    {
        ActivityMetadata { window_name, additional_metadata }
    }

    /// The annotation map itself, as it crosses the module boundary.
    pub fn annotations(&self) -> (r: &Annotations)
        ensures
            annotation_entries(*r) == self@.additional_metadata,
    {
        &self.additional_metadata
    }

    /// Compares by window name alone: absent first, then lexical.
    pub fn cmp(&self, other: &ActivityMetadata) -> (r: Ordering)
        ensures
            r == self@.order(other@),
    {
        option_text_cmp(&self.window_name, &other.window_name)
    }
}

impl Clone for ActivityMetadata {
    fn clone(&self) -> (r: ActivityMetadata)
        ensures
            r@ == self@,
    {
        ActivityMetadata {
            window_name: copy_option_text(&self.window_name),
            additional_metadata: copy_annotations(&self.additional_metadata),
        }
    }
}

impl Default for ActivityMetadata {
    fn default() -> (r: ActivityMetadata)
        ensures
            r@ == MetadataModel::empty(),
    {
        ActivityMetadata::new()
    }
}

impl PartialEq for ActivityMetadata {
    fn eq(&self, other: &ActivityMetadata) -> (r: bool) {
        same_option_text(&self.window_name, &other.window_name) && same_annotations(
            &self.additional_metadata,
            &other.additional_metadata,
        )
    }
}

impl vstd::std_specs::cmp::PartialEqSpecImpl for ActivityMetadata {
    open spec fn obeys_eq_spec() -> bool {
        true
    }

    open spec fn eq_spec(&self, other: &ActivityMetadata) -> bool {
        self@ == other@
    }
}

impl Eq for ActivityMetadata {

}

impl PartialOrd for ActivityMetadata {
    fn partial_cmp(&self, other: &ActivityMetadata) -> (r: Option<Ordering>) {
        Some(self.cmp(other))
    }
}

impl vstd::std_specs::cmp::PartialOrdSpecImpl for ActivityMetadata {
    open spec fn obeys_partial_cmp_spec() -> bool {
        true
    }

    open spec fn partial_cmp_spec(&self, other: &ActivityMetadata) -> Option<Ordering> {
        Some(self@.order(other@))
    }
}

/// What an [`ActivityIdentifier`] holds, as plain values.
pub struct IdentifierModel {
    pub module: Seq<char>,
    pub activity: Seq<char>,
    pub metadata: MetadataModel,
}

impl IdentifierModel {
    /// The identity of an activity: its module and activity names, nothing else.
    pub open spec fn identity(self) -> (Seq<char>, Seq<char>) {
        (self.module, self.activity)
    }

    /// Whether two identifiers name the same activity.
    pub open spec fn same_activity(self, other: IdentifierModel) -> bool {
        self.identity() == other.identity()
    }

    /// The order of identifiers: module name, then activity name, then metadata.
    pub open spec fn order(self, other: IdentifierModel) -> Ordering {
        match text_order(self.module, other.module) {
            Ordering::Equal => match text_order(self.activity, other.activity) {
                Ordering::Equal => self.metadata.order(other.metadata),
                o => o,
            },
            o => o,
        }
    }
}

/// The unique name of an activity: the module that owns it and the activity's
/// own name within that module, with metadata that is carried along but takes
/// no part in equality or hashing.
#[derive(Debug)]
pub struct ActivityIdentifier {
    pub(crate) module: String,
    pub(crate) activity: String,
    pub(crate) metadata: ActivityMetadata,
}

impl View for ActivityIdentifier {
    type V = IdentifierModel;

    closed spec fn view(&self) -> IdentifierModel {
        IdentifierModel { module: self.module@, activity: self.activity@, metadata: self.metadata@ }
    }
}

impl ActivityIdentifier {
    /// An identifier for activity `activity_name` of module `module_name`,
    /// with empty metadata.
    pub fn new(module_name: &str, activity_name: &str) -> (r: ActivityIdentifier)
        ensures
            r@.module == module_name@,
            r@.activity == activity_name@,
            r@.metadata == MetadataModel::empty(),
    {
        ActivityIdentifier {
            module: module_name.to_owned(),
            activity: activity_name.to_owned(),
            metadata: ActivityMetadata::new(),
        }
    }

    /// The name of the owning module.
    pub fn module(&self) -> (r: &str)
        ensures
            r@ == self@.module,
    {
        self.module.as_str()
    }

    /// The activity's name within its module.
    pub fn activity(&self) -> (r: &str)
        ensures
            r@ == self@.activity,
    {
        self.activity.as_str()
    }

    /// The metadata, for editing in place; the names stay as they are.
    pub fn metadata_mut(&mut self) -> (r: &mut ActivityMetadata)
        ensures
            r@ == old(self)@.metadata,
            final(self)@ == (IdentifierModel { metadata: final(r)@, ..old(self)@ }),
    {
        &mut self.metadata
    }

    /// A copy of the metadata.
    pub fn metadata(&self) -> (r: ActivityMetadata)
        ensures
            r@ == self@.metadata,
    {
        self.metadata.clone()
    }

    /// Replaces the metadata; the names stay as they are.
    pub fn set_metadata(&mut self, metadata: ActivityMetadata)
        ensures
            final(self)@ == (IdentifierModel { metadata: metadata@, ..old(self)@ }),
    {
        self.metadata = metadata;
    }

    /// The identifier written as `activity@module`.
    pub fn to_string(&self) -> (r: String)
        ensures
            r@ == self@.activity + seq!['@'] + self@.module,
    {
        let mut s = self.activity.clone();
        proof {
            reveal_strlit("@");
        }
        s.append("@");
        s.append(self.module.as_str());
        s
    }

    /// Compares by module name, then activity name, then metadata.
    pub fn cmp(&self, other: &ActivityIdentifier) -> (r: Ordering)
        ensures
            r == self@.order(other@),
    {
        match text_cmp(&self.module, &other.module) {
            Ordering::Equal => match text_cmp(&self.activity, &other.activity) {
                Ordering::Equal => self.metadata.cmp(&other.metadata),
                o => o,
            },
            o => o,
        }
    }
}

impl Clone for ActivityIdentifier {
    fn clone(&self) -> (r: ActivityIdentifier)
        ensures
            r@ == self@,
    {
        ActivityIdentifier {
            module: self.module.clone(),
            activity: self.activity.clone(),
            metadata: self.metadata.clone(),
        }
    }
}

impl PartialEq for ActivityIdentifier {
    fn eq(&self, other: &ActivityIdentifier) -> (r: bool) {
        self.module == other.module && self.activity == other.activity
    }
}

impl vstd::std_specs::cmp::PartialEqSpecImpl for ActivityIdentifier {
    open spec fn obeys_eq_spec() -> bool {
        true
    }

    open spec fn eq_spec(&self, other: &ActivityIdentifier) -> bool {
        self@.same_activity(other@)
    }
}

impl Eq for ActivityIdentifier {

}

impl PartialOrd for ActivityIdentifier {
    fn partial_cmp(&self, other: &ActivityIdentifier) -> (r: Option<Ordering>) {
        Some(self.cmp(other))
    }
}

impl vstd::std_specs::cmp::PartialOrdSpecImpl for ActivityIdentifier {
    open spec fn obeys_partial_cmp_spec() -> bool {
        true
    }

    open spec fn partial_cmp_spec(&self, other: &ActivityIdentifier) -> Option<Ordering> {
        Some(self@.order(other@))
    }
}

/// Relies on `String`'s `Hash`: feeds the string's contents to the hasher.
pub assume_specification<H: core::hash::Hasher>[ <String as core::hash::Hash>::hash::<H> ](
    s: &String,
    state: &mut H,
);

impl core::hash::Hash for ActivityIdentifier {
    fn hash<H: core::hash::Hasher>(&self, state: &mut H) {
        self.module.hash(state);
        self.activity.hash(state);
    }
}

/// Identifiers that agree on module and activity name are equal, whatever
/// their metadata, and have the same identity, which is all that their
/// `Hash` impl feeds to a hasher.
pub proof fn lemma_equal_names_equal_identifiers(a: ActivityIdentifier, b: ActivityIdentifier)
    requires
        a@.module == b@.module,
        a@.activity == b@.activity,
    ensures
        a.eq_spec(&b),
        a@.identity() == b@.identity(),
{
}

/// Identifiers that differ in module or activity name are unequal, whatever
/// their metadata.
pub proof fn lemma_different_names_unequal_identifiers(a: ActivityIdentifier, b: ActivityIdentifier)
    requires
        a@.module != b@.module || a@.activity != b@.activity,
    ensures
        !a.eq_spec(&b),
{
}

/// When one metadata orders before another, its window name orders before the
/// other's: absent before present, then lexically. The annotations play no
/// part: any others in their place give the same order.
pub proof fn lemma_metadata_order_is_window_order(m1: ActivityMetadata, m2: ActivityMetadata)
    requires
        m1@.order(m2@) == Ordering::Less,
    ensures
        option_text_order(m1@.window_name, m2@.window_name) == Ordering::Less,
        (m1@.window_name is None && m2@.window_name is Some) || (m1@.window_name is Some
            && m2@.window_name is Some && text_order(
            m1@.window_name.unwrap(),
            m2@.window_name.unwrap(),
        ) == Ordering::Less),
        forall|x: Map<Seq<char>, Seq<char>>, y: Map<Seq<char>, Seq<char>>|
            #[trigger] m1@.with_annotations(x).order(m2@.with_annotations(y)) == Ordering::Less,
{
}

/// Setting the window name twice leaves only the second name.
pub proof fn lemma_window_name_overwrites(m: MetadataModel, first: Seq<char>, second: Seq<char>)
    ensures
        m.with_window_name(first).with_window_name(second) == m.with_window_name(second),
        m.with_window_name(first).with_window_name(second).window_name == Some(second),
{
}

} // verus!
