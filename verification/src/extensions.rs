//! A map from type tags to shared values, carried by every request.
//!
//! Middleware attaches values before the handler runs; the handler finds
//! them again by the tag of the type it asks for.

use crate::text::str_eq;
use std::any::Any;
use std::sync::Arc;
use vstd::prelude::*;

verus! {

/// A value of any thread-safe type behind a reference count.
///
/// The verifier does not see inside: it holds an
/// `Arc<dyn Any + Send + Sync>`, which it cannot take as a field type. Two
/// handles are equal where they refer to the same value.
#[verifier::external_body]
#[derive(Debug)]
pub struct SharedValue {
    inner: Arc<dyn Any + Send + Sync>,
}

/// `Arc::new` around the value, with the type erased.
#[verifier::external_body]
fn share_value<T: Send + Sync + 'static>(value: T) -> (v: SharedValue)
{
    SharedValue { inner: Arc::new(value) }
}

/// `Arc::clone`: a second handle on the same value.
#[verifier::external_body]
fn share_again(v: &SharedValue) -> (w: SharedValue)
    ensures
        w == *v,
{
    SharedValue { inner: Arc::clone(&v.inner) }
}

/// `<dyn Any>::downcast_ref`: the value, where it is of type `T`.
#[verifier::external_body]
fn shared_ref<T: Send + Sync + 'static>(v: &SharedValue) -> (r: Option<&T>)
{
    v.inner.downcast_ref::<T>()
}

/// `Arc::downcast`: the handle with its type restored, where the value is
/// of type `T`.
#[verifier::external_body]
fn shared_arc<T: Send + Sync + 'static>(v: SharedValue) -> (r: Option<Arc<T>>)
{
    v.inner.downcast::<T>().ok()
}

/// The values of the plain types that the library attaches tags to.
pub enum PlainView {
    I32(i32),
    I64(i64),
    U32(u32),
    U64(u64),
    Bool(bool),
    Text(Seq<char>),
}

/// The plain value that a handle holds, `None` where it holds a value of
/// any other type.
pub uninterp spec fn held_plain(handle: SharedValue) -> Option<PlainView>;

/// The plain types: `i32`, `i64`, `u32`, `u64`, `bool` and `String`.
pub(crate) trait Plain: Send + Sync + 'static + Sized {
    /// The value, as `held_plain` speaks of it.
    spec fn plain(&self) -> PlainView;

    /// Whether a plain value is of this type.
    spec fn fits(p: PlainView) -> bool;
}

impl Plain for i32 {
    open spec fn plain(&self) -> PlainView {
        PlainView::I32(*self)
    }

    open spec fn fits(p: PlainView) -> bool {
        p is I32
    }
}

impl Plain for i64 {
    open spec fn plain(&self) -> PlainView {
        PlainView::I64(*self)
    }

    open spec fn fits(p: PlainView) -> bool {
        p is I64
    }
}

impl Plain for u32 {
    open spec fn plain(&self) -> PlainView {
        PlainView::U32(*self)
    }

    open spec fn fits(p: PlainView) -> bool {
        p is U32
    }
}

impl Plain for u64 {
    open spec fn plain(&self) -> PlainView {
        PlainView::U64(*self)
    }

    open spec fn fits(p: PlainView) -> bool {
        p is U64
    }
}

impl Plain for bool {
    open spec fn plain(&self) -> PlainView {
        PlainView::Bool(*self)
    }

    open spec fn fits(p: PlainView) -> bool {
        p is Bool
    }
}

impl Plain for String {
    open spec fn plain(&self) -> PlainView {
        PlainView::Text(self@)
    }

    open spec fn fits(p: PlainView) -> bool {
        p is Text
    }
}

/// `Arc::new` around a value of a plain type, with the type erased: the
/// handle holds that value.
#[verifier::external_body]
fn share_plain<T: Plain>(value: T) -> (h: SharedValue)
    ensures
        held_plain(h) == Some(value.plain()),
{
    SharedValue { inner: Arc::new(value) }
}

/// `<dyn Any>::downcast_ref` at a plain type: the value that the handle
/// holds, exactly where it holds one of that type.
#[verifier::external_body]
fn look_plain<T: Plain>(h: &SharedValue) -> (r: Option<&T>)
    ensures
        r is Some == (held_plain(*h) is Some && T::fits(held_plain(*h)->0)),
        r is Some ==> held_plain(*h) == Some(r->0.plain()),
{
    h.inner.downcast_ref::<T>()
}

/// `Arc::downcast` at a plain type: the handle with its type restored,
/// exactly where it holds a value of that type.
#[verifier::external_body]
fn look_plain_arc<T: Plain>(h: SharedValue) -> (r: Option<Arc<T>>)
    ensures
        r is Some == (held_plain(h) is Some && T::fits(held_plain(h)->0)),
        r is Some ==> held_plain(h) == Some(r->0.plain()),
{
    h.inner.downcast::<T>().ok()
}

/// A type whose values can be attached to a request. Its tag is the key
/// under which they are kept, so two types that are attached to the same
/// request need different tags.
///
/// A value travels behind a handle with its type erased. The three
/// methods make the handle and look at it again; a type needs to state
/// its tag only. For the plain types the library states what the look
/// gives: the value that went in.
pub trait TypeTag: Send + Sync + 'static + Sized {
    /// The tag of the type.
    const TAG: &'static str;

    /// The handle made of the value.
    fn share(self) -> (h: SharedValue) {
        SharedValue::new(self)
    }

    /// The value behind the handle, where it is of this type.
    fn look(h: &SharedValue) -> (r: Option<&Self>) {
        h.get::<Self>()
    }

    /// A typed handle on the value behind the handle, where it is of this
    /// type.
    fn look_arc(h: &SharedValue) -> (r: Option<Arc<Self>>) {
        h.get_arc::<Self>()
    }
}

/// What the look at a handle gives for a plain type: the value held,
/// exactly where the handle holds one of that type.
pub open spec fn looked_i32(h: SharedValue, r: Option<i32>) -> bool {
    r == match held_plain(h) {
        Some(PlainView::I32(x)) => Some(x),
        _ => None,
    }
}

/// As `looked_i32`.
pub open spec fn looked_i64(h: SharedValue, r: Option<i64>) -> bool {
    r == match held_plain(h) {
        Some(PlainView::I64(x)) => Some(x),
        _ => None,
    }
}

/// As `looked_i32`.
pub open spec fn looked_u32(h: SharedValue, r: Option<u32>) -> bool {
    r == match held_plain(h) {
        Some(PlainView::U32(x)) => Some(x),
        _ => None,
    }
}

/// As `looked_i32`.
pub open spec fn looked_u64(h: SharedValue, r: Option<u64>) -> bool {
    r == match held_plain(h) {
        Some(PlainView::U64(x)) => Some(x),
        _ => None,
    }
}

/// As `looked_i32`.
pub open spec fn looked_bool(h: SharedValue, r: Option<bool>) -> bool {
    r == match held_plain(h) {
        Some(PlainView::Bool(x)) => Some(x),
        _ => None,
    }
}

/// As `looked_i32`, for text.
pub open spec fn looked_text(h: SharedValue, r: Option<Seq<char>>) -> bool {
    r == match held_plain(h) {
        Some(PlainView::Text(x)) => Some(x),
        _ => None,
    }
}

/// The value behind an optional reference.
pub open spec fn pointee<T>(r: Option<&T>) -> Option<T> {
    match r {
        Some(x) => Some(*x),
        None => None,
    }
}

/// The value behind an optional counted reference.
pub open spec fn pointee_arc<T>(r: Option<Arc<T>>) -> Option<T> {
    match r {
        Some(x) => Some(*x),
        None => None,
    }
}

/// The text behind an optional reference to a string.
pub open spec fn text_of_ref(r: Option<&String>) -> Option<Seq<char>> {
    match r {
        Some(x) => Some(x@),
        None => None,
    }
}

/// The text behind an optional counted reference to a string.
pub open spec fn text_of_arc(r: Option<Arc<String>>) -> Option<Seq<char>> {
    match r {
        Some(x) => Some(x@),
        None => None,
    }
}

impl TypeTag for i32 {
    const TAG: &'static str = "i32";

    fn share(self) -> (h: SharedValue)
        ensures
            held_plain(h) == Some(PlainView::I32(self)),
    {
        share_plain(self)
    }

    fn look(h: &SharedValue) -> (r: Option<&i32>)
        ensures
            looked_i32(*h, pointee(r)),
    {
        look_plain::<i32>(h)
    }

    fn look_arc(h: &SharedValue) -> (r: Option<Arc<i32>>)
        ensures
            looked_i32(*h, pointee_arc(r)),
    {
        look_plain_arc::<i32>(h.share())
    }
}

impl TypeTag for i64 {
    const TAG: &'static str = "i64";

    fn share(self) -> (h: SharedValue)
        ensures
            held_plain(h) == Some(PlainView::I64(self)),
    {
        share_plain(self)
    }

    fn look(h: &SharedValue) -> (r: Option<&i64>)
        ensures
            looked_i64(*h, pointee(r)),
    {
        look_plain::<i64>(h)
    }

    fn look_arc(h: &SharedValue) -> (r: Option<Arc<i64>>)
        ensures
            looked_i64(*h, pointee_arc(r)),
    {
        look_plain_arc::<i64>(h.share())
    }
}

impl TypeTag for u32 {
    const TAG: &'static str = "u32";

    fn share(self) -> (h: SharedValue)
        ensures
            held_plain(h) == Some(PlainView::U32(self)),
    {
        share_plain(self)
    }

    fn look(h: &SharedValue) -> (r: Option<&u32>)
        ensures
            looked_u32(*h, pointee(r)),
    {
        look_plain::<u32>(h)
    }

    fn look_arc(h: &SharedValue) -> (r: Option<Arc<u32>>)
        ensures
            looked_u32(*h, pointee_arc(r)),
    {
        look_plain_arc::<u32>(h.share())
    }
}

impl TypeTag for u64 {
    const TAG: &'static str = "u64";

    fn share(self) -> (h: SharedValue)
        ensures
            held_plain(h) == Some(PlainView::U64(self)),
    {
        share_plain(self)
    }

    fn look(h: &SharedValue) -> (r: Option<&u64>)
        ensures
            looked_u64(*h, pointee(r)),
    {
        look_plain::<u64>(h)
    }

    fn look_arc(h: &SharedValue) -> (r: Option<Arc<u64>>)
        ensures
            looked_u64(*h, pointee_arc(r)),
    {
        look_plain_arc::<u64>(h.share())
    }
}

impl TypeTag for bool {
    const TAG: &'static str = "bool";

    fn share(self) -> (h: SharedValue)
        ensures
            held_plain(h) == Some(PlainView::Bool(self)),
    {
        share_plain(self)
    }

    fn look(h: &SharedValue) -> (r: Option<&bool>)
        ensures
            looked_bool(*h, pointee(r)),
    {
        look_plain::<bool>(h)
    }

    fn look_arc(h: &SharedValue) -> (r: Option<Arc<bool>>)
        ensures
            looked_bool(*h, pointee_arc(r)),
    {
        look_plain_arc::<bool>(h.share())
    }
}

impl TypeTag for String {
    const TAG: &'static str = "String";

    fn share(self) -> (h: SharedValue)
        ensures
            held_plain(h) == Some(PlainView::Text(self@)),
    {
        share_plain(self)
    }

    fn look(h: &SharedValue) -> (r: Option<&String>)
        ensures
            looked_text(*h, text_of_ref(r)),
    {
        look_plain::<String>(h)
    }

    fn look_arc(h: &SharedValue) -> (r: Option<Arc<String>>)
        ensures
            looked_text(*h, text_of_arc(r)),
    {
        look_plain_arc::<String>(h.share())
    }
}

impl SharedValue {
    /// Wraps a value so that it can travel in a request.
    pub fn new<T: Send + Sync + 'static>(value: T) -> (v: SharedValue) {
        share_value(value)
    }

    /// A second handle on the same value.
    pub fn share(&self) -> (w: SharedValue)
        ensures
            w == *self,
    {
        share_again(self)
    }

    /// The value, where it is of type `T`.
    pub fn get<T: Send + Sync + 'static>(&self) -> (r: Option<&T>) {
        shared_ref::<T>(self)
    }

    /// A typed handle on the value, where it is of type `T`.
    pub fn get_arc<T: Send + Sync + 'static>(&self) -> (r: Option<Arc<T>>) {
        shared_arc::<T>(self.share())
    }
}

/// One attached value with the tag of its type.
#[derive(Debug)]
pub struct Entry {
    tag: String,
    value: SharedValue,
}

/// No two entries have the same tag.
pub closed spec fn distinct(entries: Seq<Entry>) -> bool {
    forall|i: int, j: int|
        0 <= i < j < entries.len() ==> #[trigger] entries[i].tag@ != #[trigger] entries[j].tag@
}

/// The position of the entry with the given tag, where there is one.
pub closed spec fn position(entries: Seq<Entry>, tag: Seq<char>) -> int {
    choose|i: int| 0 <= i < entries.len() && #[trigger] entries[i].tag@ == tag
}

/// The map that a sequence of entries stands for.
pub closed spec fn entries_map(entries: Seq<Entry>) -> Map<Seq<char>, SharedValue> {
    Map::new(
        |tag: Seq<char>| exists|i: int| 0 <= i < entries.len() && #[trigger] entries[i].tag@ == tag,
        |tag: Seq<char>| entries[position(entries, tag)].value,
    )
}

/// Each entry of a sequence without repeated tags is what the map holds
/// under its tag.
proof fn lemma_entry_in_map(entries: Seq<Entry>, i: int)
    requires
        distinct(entries),
        0 <= i < entries.len(),
    ensures
        entries_map(entries).contains_key(entries[i].tag@),
        entries_map(entries)[entries[i].tag@] == entries[i].value,
{
    let t = entries[i].tag@;
    let p = position(entries, t);
    assert(0 <= p < entries.len() && entries[p].tag@ == t);
    if p < i {
        assert(entries[p].tag@ != entries[i].tag@);
    }
    if i < p {
        assert(entries[i].tag@ != entries[p].tag@);
    }
}

/// A key of the map is the tag of some entry.
proof fn lemma_key_has_entry(entries: Seq<Entry>, tag: Seq<char>) -> (i: int)
    requires
        entries_map(entries).contains_key(tag),
    ensures
        0 <= i < entries.len(),
        entries[i].tag@ == tag,
{
    choose|i: int| 0 <= i < entries.len() && #[trigger] entries[i].tag@ == tag
}

/// Putting an entry in the place of one with the same tag, or behind all
/// entries where none has its tag, keeps the tags distinct and stands for
/// an insertion into the map.
proof fn lemma_put(before: Seq<Entry>, after: Seq<Entry>, found: Option<int>, entry: Entry)
    requires
        distinct(before),
        found is Some ==> 0 <= found->0 < before.len() && before[found->0].tag@ == entry.tag@
            && after == before.update(found->0, entry),
        found is None ==> after == before.push(entry) && forall|i: int|
            0 <= i < before.len() ==> #[trigger] before[i].tag@ != entry.tag@,
    ensures
        distinct(after),
        entries_map(after) == entries_map(before).insert(entry.tag@, entry.value),
{
    let at = if found is Some {
        found->0
    } else {
        before.len() as int
    };
    assert(after[at] == entry);
    assert forall|i: int| 0 <= i < after.len() && i != at implies #[trigger] after[i]
        == before[i] && after[i].tag@ != entry.tag@ by {
        if found is Some {
            if i < at {
                assert(before[i].tag@ != before[at].tag@);
            } else {
                assert(before[at].tag@ != before[i].tag@);
            }
        }
    }
    assert forall|i: int, j: int| 0 <= i < j < after.len() implies #[trigger] after[i].tag@
        != #[trigger] after[j].tag@ by {
        if i != at && j != at {
            assert(after[i] == before[i]);
            assert(after[j] == before[j]);
            assert(before[i].tag@ != before[j].tag@);
        } else if i == at {
            assert(after[j] == before[j] && after[j].tag@ != entry.tag@);
        } else {
            assert(after[i] == before[i] && after[i].tag@ != entry.tag@);
        }
    }
    let m = entries_map(after);
    let n = entries_map(before).insert(entry.tag@, entry.value);
    assert forall|t: Seq<char>| m.contains_key(t) == n.contains_key(t) by {
        if m.contains_key(t) {
            let i = lemma_key_has_entry(after, t);
            if i != at {
                assert(after[i] == before[i]);
                lemma_entry_in_map(before, i);
            }
        }
        if n.contains_key(t) && t != entry.tag@ {
            let i = lemma_key_has_entry(before, t);
            if i == at {
                assert(found is Some);
            } else {
                assert(after[i] == before[i]);
                lemma_entry_in_map(after, i);
            }
        }
        if t == entry.tag@ {
            lemma_entry_in_map(after, at);
        }
    }
    assert forall|t: Seq<char>| m.contains_key(t) implies m[t] == n[t] by {
        let i = lemma_key_has_entry(after, t);
        lemma_entry_in_map(after, i);
        if i != at {
            assert(after[i] == before[i]);
            lemma_entry_in_map(before, i);
        }
    }
    assert(m =~= n);
}

/// The values attached to a request, at most one per tag.
#[derive(Debug)]
pub struct Extensions {
    entries: Vec<Entry>,
}

impl View for Extensions {
    type V = Map<Seq<char>, SharedValue>;

    closed spec fn view(&self) -> Map<Seq<char>, SharedValue> {
        entries_map(self.entries@)
    }
}

impl Extensions {
    #[verifier::type_invariant]
    spec fn well_formed(self) -> bool {
        distinct(self.entries@)
    }

    /// An empty map.
    pub fn new() -> (e: Extensions)
        ensures
            e@ == Map::<Seq<char>, SharedValue>::empty(),
    {
        let e = Extensions { entries: Vec::new() };
        assert(e@ =~= Map::<Seq<char>, SharedValue>::empty());
        e
    }

    /// Index of the entry with the given tag.
    fn find(&self, tag: &str) -> (r: Option<usize>)
        ensures
            r is Some ==> r->0 < self.entries@.len() && self.entries@[r->0 as int].tag@ == tag@,
            r is None ==> forall|i: int|
                0 <= i < self.entries@.len() ==> #[trigger] self.entries@[i].tag@ != tag@,
    {
        let mut i: usize = 0;
        while i < self.entries.len()
            invariant
                i <= self.entries@.len(),
                forall|k: int| 0 <= k < i ==> #[trigger] self.entries@[k].tag@ != tag@,
            decreases self.entries@.len() - i,
        {
            if str_eq(self.entries[i].tag.as_str(), tag) {
                return Some(i);
            }
            i += 1;
        }
        None
    }

    /// Whether a value is attached under the tag.
    pub fn contains(&self, tag: &str) -> (b: bool)
        ensures
            b == self@.contains_key(tag@),
    {
        self.get_tagged(tag).is_some()
    }

    /// The value attached under the tag.
    pub fn get_tagged(&self, tag: &str) -> (r: Option<&SharedValue>)
        ensures
            r is Some == self@.contains_key(tag@),
            r is Some ==> *r->0 == self@[tag@],
    {
        proof {
            use_type_invariant(self);
        }
        match self.find(tag) {
            Some(i) => {
                proof {
                    lemma_entry_in_map(self.entries@, i as int);
                }
                Some(&self.entries[i].value)
            },
            None => {
                proof {
                    if self@.contains_key(tag@) {
                        let i = lemma_key_has_entry(self.entries@, tag@);
                    }
                }
                None
            },
        }
    }

    /// Attaches the value under the tag, in place of any value that was
    /// there; every other tag keeps its value.
    pub fn insert_tagged(&mut self, tag: String, value: SharedValue)
        ensures
            final(self)@ == old(self)@.insert(tag@, value),
    {
        proof {
            use_type_invariant(&*self);
        }
        let ghost before = self.entries@;
        let found = self.find(tag.as_str());
        let mut taken = Extensions::new();
        std::mem::swap(self, &mut taken);
        let mut entries = taken.entries;
        let entry = Entry { tag, value };
        let ghost spot = match found {
            Some(i) => Some(i as int),
            None => None,
        };
        proof {
            assert(entries@ == before);
        }
        match found {
            Some(i) => {
                entries.set(i, entry);
            },
            None => {
                entries.push(entry);
            },
        }
        proof {
            lemma_put(before, entries@, spot, entry);
        }
        *self = Extensions { entries };
    }

    /// Attaches a value under the tag of its type, in place of any value
    /// that was there: what is kept is the handle that the type's `share`
    /// makes of the value.
    pub fn insert<T: TypeTag>(&mut self, val: T)
        ensures
            exists|value: SharedValue| #[trigger]
                call_ensures(T::share, (val,), value) && final(self)@ == old(self)@.insert(
                    T::TAG@,
                    value,
                ),
    {
        let value = val.share();
        self.insert_tagged(T::TAG.to_owned(), value);
    }

    /// The value attached under the tag of type `T`, where it is of that
    /// type: `None` where nothing is attached under the tag, else what the
    /// type's `look` at the handle kept under the tag gives.
    pub fn get<T: TypeTag>(&self) -> (r: Option<&T>)
        ensures
            !self@.contains_key(T::TAG@) ==> r is None,
            self@.contains_key(T::TAG@) ==> call_ensures(T::look, (&self@[T::TAG@],), r),
    {
        match self.get_tagged(T::TAG) {
            Some(v) => T::look(v),
            None => None,
        }
    }

    /// A map with the same tags and handles on the same values.
    pub fn duplicate(&self) -> (e: Extensions)
        ensures
            e@ == self@,
    {
        proof {
            use_type_invariant(self);
        }
        let mut entries: Vec<Entry> = Vec::new();
        let mut i: usize = 0;
        while i < self.entries.len()
            invariant
                i <= self.entries@.len(),
                entries@.len() == i,
                forall|k: int|
                    0 <= k < i ==> (#[trigger] entries@[k]).tag@ == self.entries@[k].tag@
                        && entries@[k].value == self.entries@[k].value,
            decreases self.entries@.len() - i,
        {
            let e = &self.entries[i];
            entries.push(Entry { tag: e.tag.clone(), value: e.value.share() });
            i += 1;
        }
        proof {
            let a = entries@;
            let b = self.entries@;
            assert forall|i: int, j: int| 0 <= i < j < a.len() implies #[trigger] a[i].tag@
                != #[trigger] a[j].tag@ by {
                assert(a[i].tag@ == b[i].tag@);
                assert(a[j].tag@ == b[j].tag@);
                assert(b[i].tag@ != b[j].tag@);
            }
            assert forall|t: Seq<char>|
                entries_map(a).contains_key(t) == entries_map(b).contains_key(t) by {
                if entries_map(a).contains_key(t) {
                    let i = lemma_key_has_entry(a, t);
                    assert(a[i].tag@ == b[i].tag@);
                    lemma_entry_in_map(b, i);
                }
                if entries_map(b).contains_key(t) {
                    let i = lemma_key_has_entry(b, t);
                    assert(a[i].tag@ == b[i].tag@);
                    lemma_entry_in_map(a, i);
                }
            }
            assert forall|t: Seq<char>| entries_map(a).contains_key(t) implies entries_map(a)[t]
                == entries_map(b)[t] by {
                let i = lemma_key_has_entry(a, t);
                assert(a[i].tag@ == b[i].tag@);
                lemma_entry_in_map(a, i);
                lemma_entry_in_map(b, i);
            }
            assert(entries_map(a) =~= entries_map(b));
        }
        Extensions { entries }
    }
}

impl Clone for Extensions {
    fn clone(&self) -> (e: Extensions)
        ensures
            e@ == self@,
    {
        self.duplicate()
    }
}

} // verus!
