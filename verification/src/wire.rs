//! The wire value: a closed tagged-union tree with exactly nine variants.
//!
//! A tree of [`Message`] nodes is what the encoder produces and the decoder
//! consumes.  The transport represents text as NUL-terminated bytes, so a
//! well-formed text node never contains an interior NUL; dictionaries carry
//! unique keys.  The 64-bit float payload is carried as its IEEE 754 bit
//! pattern, which is all the adapter logic ever inspects.

use vstd::prelude::*;
use vstd::string::*;

use crate::error::WireKind;

verus! {

broadcast use vstd::std_specs::vec::group_vec_axioms;

/// A node of the tagged-union wire tree.
#[derive(Debug, PartialEq)]
pub enum Message {
    /// A boolean.
    Bool(bool),
    /// A 64-bit float, carried as its IEEE 754 bit pattern.
    Double(u64),
    /// A signed 64-bit integer.
    Int64(i64),
    /// An unsigned 64-bit integer.
    Uint64(u64),
    /// A text value; well-formed nodes contain no interior NUL.
    Str(String),
    /// An opaque binary blob.
    Data(Vec<u8>),
    /// An ordered, possibly empty list of child nodes.
    Array(Vec<Message>),
    /// A mapping from text keys to child nodes; well-formed nodes carry
    /// unique keys.  Entries are kept in an order that callers must not rely
    /// on surviving the transport.
    Dictionary(Vec<(String, Message)>),
    /// The absence of a value.
    Null,
}

/// Spec view of a [`Message`] tree, with sequences in place of vectors and
/// character sequences in place of strings.
#[verifier::ext_equal]
pub enum SpecMessage {
    /// See [`Message::Bool`].
    Bool(bool),
    /// See [`Message::Double`].
    Double(u64),
    /// See [`Message::Int64`].
    Int64(i64),
    /// See [`Message::Uint64`].
    Uint64(u64),
    /// See [`Message::Str`].
    Str(Seq<char>),
    /// See [`Message::Data`].
    Data(Seq<u8>),
    /// See [`Message::Array`].
    Array(Seq<SpecMessage>),
    /// See [`Message::Dictionary`].
    Dictionary(Seq<(Seq<char>, SpecMessage)>),
    /// See [`Message::Null`].
    Null,
}

/// Spec view of each element of a vector of messages.  The range guard keeps
/// the recursion inside the sequence, where it is known to shrink.
pub open spec fn view_messages(elems: Seq<Message>) -> Seq<SpecMessage>
    decreases elems,
{
    Seq::new(
        elems.len(),
        |i: int|
            if 0 <= i < elems.len() {
                elems[i]@
            } else {
                SpecMessage::Null
            },
    )
}

/// Spec view of each entry of a vector of dictionary entries.  The range
/// guard keeps the recursion inside the sequence, where it is known to
/// shrink.
pub open spec fn view_entries(entries: Seq<(String, Message)>) -> Seq<(Seq<char>, SpecMessage)>
    decreases entries,
{
    Seq::new(
        entries.len(),
        |i: int|
            if 0 <= i < entries.len() {
                (entries[i].0@, entries[i].1@)
            } else {
                (Seq::empty(), SpecMessage::Null)
            },
    )
}

/// The element views have the same length as the elements.
pub broadcast proof fn lemma_view_messages_len(elems: Seq<Message>)
    ensures
        (#[trigger] view_messages(elems)).len() == elems.len(),
{
}

/// The element views are the views of the elements, pointwise.
pub broadcast proof fn lemma_view_messages_index(elems: Seq<Message>, i: int)
    requires
        0 <= i < elems.len(),
    ensures
        #[trigger] view_messages(elems)[i] == elems[i]@,
{
}

/// The entry views have the same length as the entries.
pub broadcast proof fn lemma_view_entries_len(entries: Seq<(String, Message)>)
    ensures
        (#[trigger] view_entries(entries)).len() == entries.len(),
{
}

/// The entry views are the views of the entries, pointwise.
pub broadcast proof fn lemma_view_entries_index(entries: Seq<(String, Message)>, i: int)
    requires
        0 <= i < entries.len(),
    ensures
        #[trigger] view_entries(entries)[i] == (entries[i].0@, entries[i].1@),
{
}

impl View for Message {
    type V = SpecMessage;

    open spec fn view(&self) -> SpecMessage
        decreases self,
    {
        match self {
            Message::Bool(b) => SpecMessage::Bool(*b),
            Message::Double(bits) => SpecMessage::Double(*bits),
            Message::Int64(v) => SpecMessage::Int64(*v),
            Message::Uint64(v) => SpecMessage::Uint64(*v),
            Message::Str(s) => SpecMessage::Str(s@),
            Message::Data(d) => SpecMessage::Data(d@),
            Message::Array(elems) => SpecMessage::Array(view_messages(elems@)),
            Message::Dictionary(entries) => SpecMessage::Dictionary(view_entries(entries@)),
            Message::Null => SpecMessage::Null,
        }
    }
}

/// True when the character sequence contains an embedded NUL.
pub open spec fn spec_has_nul(s: Seq<char>) -> bool {
    exists|i: int| 0 <= i < s.len() && s[i] == '\0'
}

/// True when no two entries of a dictionary share a key.
pub open spec fn spec_keys_unique(entries: Seq<(Seq<char>, SpecMessage)>) -> bool {
    forall|i: int, j: int|
        0 <= i < j < entries.len() ==> entries[i].0 != entries[j].0
}

/// Well-formedness of a dictionary's entries: unique NUL-free keys, and
/// every value a well-formed tree.
pub open spec fn spec_entries_wf(entries: Seq<(Seq<char>, SpecMessage)>) -> bool
    decreases entries, 0int,
{
    &&& spec_keys_unique(entries)
    &&& forall|i: int| 0 <= i < entries.len() ==> !spec_has_nul((#[trigger] entries[i]).0)
    &&& forall|i: int| 0 <= i < entries.len() ==> (#[trigger] entries[i]).1.wf()
}

impl SpecMessage {
    /// Well-formedness of a wire tree: text nodes and dictionary keys are
    /// NUL-free, dictionary keys are unique, and the same holds recursively
    /// of every child.
    pub open spec fn wf(self) -> bool
        decreases self, 1int,
    {
        match self {
            SpecMessage::Str(s) => !spec_has_nul(s),
            SpecMessage::Array(elems) => forall|i: int|
                0 <= i < elems.len() ==> (#[trigger] elems[i]).wf(),
            SpecMessage::Dictionary(entries) => spec_entries_wf(entries),
            _ => true,
        }
    }

    /// The kind tag of a wire node, as used in error reports.
    pub open spec fn kind(self) -> WireKind {
        match self {
            SpecMessage::Bool(_) => WireKind::Bool,
            SpecMessage::Double(_) => WireKind::Double,
            SpecMessage::Int64(_) => WireKind::Int64,
            SpecMessage::Uint64(_) => WireKind::Uint64,
            SpecMessage::Str(_) => WireKind::Str,
            SpecMessage::Data(_) => WireKind::Bytes,
            SpecMessage::Array(_) => WireKind::Array,
            SpecMessage::Dictionary(_) => WireKind::Dict,
            SpecMessage::Null => WireKind::Null,
        }
    }
}

/// Whether the text contains an embedded NUL, which the NUL-terminated
/// transport representation cannot carry.
pub fn str_has_nul(s: &str) -> (b: bool)
    ensures
        b == spec_has_nul(s@),
{
    let len = s.unicode_len();
    let mut i: usize = 0;
    while i < len
        invariant
            len == s@.len(),
            i <= len,
            forall|j: int| 0 <= j < i ==> s@[j] != '\0',
        decreases len - i,
    {
        if s.get_char(i) == '\0' {
            return true;
        }
        i = i + 1;
    }
    false
}

/// A fresh copy of a byte buffer.
pub fn copy_bytes(v: &Vec<u8>) -> (r: Vec<u8>)
    ensures
        r@ == v@,
{
    let mut r: Vec<u8> = Vec::new();
    let len = v.len();
    let mut i: usize = 0;
    while i < len
        invariant
            len == v@.len(),
            i <= len,
            r@ == v@.subrange(0, i as int),
        decreases len - i,
    {
        r.push(v[i]);
        proof {
            assert(r@ =~= v@.subrange(0, i + 1 as int));
        }
        i = i + 1;
    }
    proof {
        assert(r@ =~= v@);
    }
    r
}

/// The first index whose key equals `key`, searching from `i` on, or `-1`.
pub open spec fn spec_find_key_from(
    entries: Seq<(Seq<char>, SpecMessage)>,
    key: Seq<char>,
    i: int,
) -> int
    decreases entries.len() - i,
{
    if i < 0 || i >= entries.len() {
        -1
    } else if entries[i].0 == key {
        i
    } else {
        spec_find_key_from(entries, key, i + 1)
    }
}

/// The first index of `key` among the entries, or `-1` when absent.
pub open spec fn spec_find_key(entries: Seq<(Seq<char>, SpecMessage)>, key: Seq<char>) -> int {
    spec_find_key_from(entries, key, 0)
}

/// A search result from `i` on is `-1` or an index in `[i, len)`.
pub proof fn lemma_spec_find_key_from_range(
    entries: Seq<(Seq<char>, SpecMessage)>,
    key: Seq<char>,
    i: int,
)
    ensures
        spec_find_key_from(entries, key, i) == -1 || (i <= spec_find_key_from(entries, key, i)
            < entries.len() && 0 <= i),
    decreases entries.len() - i,
{
    if !(i < 0 || i >= entries.len()) && entries[i].0 != key {
        lemma_spec_find_key_from_range(entries, key, i + 1);
    }
}

/// A key search result is `-1` or a valid entry index.
pub broadcast proof fn lemma_spec_find_key_range(
    entries: Seq<(Seq<char>, SpecMessage)>,
    key: Seq<char>,
)
    ensures
        -1 <= #[trigger] spec_find_key(entries, key) < entries.len(),
{
    lemma_spec_find_key_from_range(entries, key, 0);
}

/// Insertion with replacement: a fresh key is appended, a key already
/// present has its first occurrence overwritten in place.
pub open spec fn spec_dict_insert(
    entries: Seq<(Seq<char>, SpecMessage)>,
    key: Seq<char>,
    value: SpecMessage,
) -> Seq<(Seq<char>, SpecMessage)> {
    let i = spec_find_key(entries, key);
    if i >= 0 {
        entries.update(i, (key, value))
    } else {
        entries.push((key, value))
    }
}

/// The first entry index holding `key`, if any.
pub fn find_key(entries: &Vec<(String, Message)>, key: &String) -> (r: Option<usize>)
    ensures
        match r {
            Some(i) => i < entries@.len() && spec_find_key(view_entries(entries@), key@) == i as int,
            None => spec_find_key(view_entries(entries@), key@) == -1,
        },
{
    let ghost ve = view_entries(entries@);
    let len = entries.len();
    let mut i: usize = 0;
    while i < len
        invariant
            len == entries@.len(),
            i <= len,
            ve == view_entries(entries@),
            spec_find_key(ve, key@) == spec_find_key_from(ve, key@, i as int),
        decreases len - i,
    {
        if entries[i].0.eq(key) {
            return Some(i);
        }
        i = i + 1;
    }
    None
}

/// Insert `key -> value`, overwriting the first entry already under that
/// key, if any, and appending otherwise.
pub fn dict_insert(entries: &mut Vec<(String, Message)>, key: String, value: Message)
    ensures
        view_entries(final(entries)@) == spec_dict_insert(
            view_entries(old(entries)@),
            key@,
            value@,
        ),
{
    let ghost before = view_entries(entries@);
    match find_key(entries, &key) {
        Some(i) => {
            entries[i] = (key, value);
            proof {
                assert(view_entries(entries@) =~~= spec_dict_insert(before, key@, value@));
            }
        },
        None => {
            entries.push((key, value));
            proof {
                assert(view_entries(entries@) =~~= spec_dict_insert(before, key@, value@));
            }
        },
    }
}

/// The kind tag of a wire node, for building `Unexpected` error reports.
pub fn message_kind(m: &Message) -> (k: WireKind)
    ensures
        k == m@.kind(),
{
    match m {
        Message::Bool(_) => WireKind::Bool,
        Message::Double(_) => WireKind::Double,
        Message::Int64(_) => WireKind::Int64,
        Message::Uint64(_) => WireKind::Uint64,
        Message::Str(_) => WireKind::Str,
        Message::Data(_) => WireKind::Bytes,
        Message::Array(_) => WireKind::Array,
        Message::Dictionary(_) => WireKind::Dict,
        Message::Null => WireKind::Null,
    }
}

} // verus!
