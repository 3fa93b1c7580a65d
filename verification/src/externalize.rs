use vstd::prelude::*;
use vstd::string::StringExecFns;

use crate::BufFile;

verus! {

/// One externalized field value: text, raw bytes, or a size.
#[derive(Clone, Debug, PartialEq)]
pub enum FieldValue {
    Text(String),
    Bytes(Vec<u8>),
    Size(u64),
}

/// The spec-level image of one externalized field value.
pub ghost enum FieldView {
    Text(Seq<char>),
    Bytes(Seq<u8>),
    Size(u64),
}

/// The view of one externalized key-value pair.
pub open spec fn pair_view(p: (String, FieldValue)) -> (Seq<char>, FieldView) {
    (
        p.0@,
        match p.1 {
            FieldValue::Text(s) => FieldView::Text(s@),
            FieldValue::Bytes(b) => FieldView::Bytes(b@),
            FieldValue::Size(n) => FieldView::Size(n),
        },
    )
}

/// The view of a whole mapping.
pub open spec fn mapping_view(m: Seq<(String, FieldValue)>) -> Seq<(Seq<char>, FieldView)> {
    m.map_values(|p: (String, FieldValue)| pair_view(p))
}

/// Zero or one pairs for an optional text field.
pub open spec fn opt_text_pairs(key: Seq<char>, v: Option<String>) -> Seq<(Seq<char>, FieldView)> {
    match v {
        Some(s) => seq![(key, FieldView::Text(s@))],
        None => Seq::empty(),
    }
}

/// Zero or one pairs for an optional byte field.
pub open spec fn opt_bytes_pairs(key: Seq<char>, v: Option<Vec<u8>>) -> Seq<
    (Seq<char>, FieldView),
> {
    match v {
        Some(b) => seq![(key, FieldView::Bytes(b@))],
        None => Seq::empty(),
    }
}

/// Zero or one pairs for an optional size field.
pub open spec fn opt_size_pairs(key: Seq<char>, v: Option<u64>) -> Seq<(Seq<char>, FieldView)> {
    match v {
        Some(n) => seq![(key, FieldView::Size(n))],
        None => Seq::empty(),
    }
}

/// The mapping a record externalizes to: one pair per present field,
/// under a fixed key order, and no pair at all for an absent field —
/// never a null placeholder.
pub open spec fn record_mapping(f: BufFile) -> Seq<(Seq<char>, FieldView)> {
    opt_text_pairs("name"@, f.name) + opt_bytes_pairs("content"@, f.content) + opt_text_pairs(
        "file_id"@,
        f.file_id,
    ) + opt_text_pairs("content_type"@, f.content_type) + opt_text_pairs("path"@, f.path)
        + opt_size_pairs("size"@, f.size)
}

/// The first value stored under `key`, if any.
pub open spec fn spec_lookup(m: Seq<(Seq<char>, FieldView)>, key: Seq<char>) -> Option<FieldView>
    decreases m.len(),
{
    if m.len() == 0 {
        None
    } else if m[0].0 == key {
        Some(m[0].1)
    } else {
        spec_lookup(m.drop_first(), key)
    }
}

/// The mapping stores some value under `key`.
pub open spec fn spec_has_key(m: Seq<(Seq<char>, FieldView)>, key: Seq<char>) -> bool {
    spec_lookup(m, key) is Some
}

/// An optional text field parsed from the mapping: present with the
/// stored text exactly when the mapping holds a text value under
/// `key`; a missing key, like a value of another shape, is absent and
/// is not an error.
pub open spec fn parsed_text(
    m: Seq<(Seq<char>, FieldView)>,
    key: Seq<char>,
    v: Option<String>,
) -> bool {
    match spec_lookup(m, key) {
        Some(FieldView::Text(t)) => v matches Some(s) && s@ == t,
        _ => v is None,
    }
}

/// An optional byte field parsed from the mapping, as `parsed_text`.
pub open spec fn parsed_bytes(
    m: Seq<(Seq<char>, FieldView)>,
    key: Seq<char>,
    v: Option<Vec<u8>>,
) -> bool {
    match spec_lookup(m, key) {
        Some(FieldView::Bytes(t)) => v matches Some(b) && b@ == t,
        _ => v is None,
    }
}

/// An optional size field parsed from the mapping, as `parsed_text`.
pub open spec fn parsed_size(
    m: Seq<(Seq<char>, FieldView)>,
    key: Seq<char>,
    v: Option<u64>,
) -> bool {
    match spec_lookup(m, key) {
        Some(FieldView::Size(n)) => v == Some(n),
        _ => v is None,
    }
}

/// Finds the first text value stored under `key`.
fn lookup_text(m: &Vec<(String, FieldValue)>, key: &str) -> (v: Option<String>)
    ensures
        parsed_text(mapping_view(m@), key@, v),
{
    let key_owned = String::from_str(key);
    let n = m.len();
    let mut i: usize = 0;
    proof {
        assert(mapping_view(m@).skip(0) =~= mapping_view(m@));
    }
    while i < n
        invariant
            i <= n,
            n == m@.len(),
            key_owned@ == key@,
            spec_lookup(mapping_view(m@), key@) == spec_lookup(
                mapping_view(m@).skip(i as int),
                key@,
            ),
        decreases n - i,
    {
        let pair = vstd::slice::slice_index_get(m.as_slice(), i);
        let k = &pair.0;
        let value = &pair.1;
        proof {
            assert(mapping_view(m@).skip(i as int).drop_first() =~= mapping_view(m@).skip(
                i as int + 1,
            ));
            assert(mapping_view(m@).skip(i as int)[0] == pair_view(m@[i as int]));
        }
        if k.eq(&key_owned) {
            match value {
                FieldValue::Text(s) => {
                    return Some(s.clone());
                },
                _ => {
                    return None;
                },
            }
        }
        i = i + 1;
    }
    proof {
        assert(mapping_view(m@).skip(n as int) =~= Seq::empty());
    }
    None
}

/// Finds the first byte value stored under `key`.
fn lookup_bytes(m: &Vec<(String, FieldValue)>, key: &str) -> (v: Option<Vec<u8>>)
    ensures
        parsed_bytes(mapping_view(m@), key@, v),
{
    let key_owned = String::from_str(key);
    let n = m.len();
    let mut i: usize = 0;
    proof {
        assert(mapping_view(m@).skip(0) =~= mapping_view(m@));
    }
    while i < n
        invariant
            i <= n,
            n == m@.len(),
            key_owned@ == key@,
            spec_lookup(mapping_view(m@), key@) == spec_lookup(
                mapping_view(m@).skip(i as int),
                key@,
            ),
        decreases n - i,
    {
        let pair = vstd::slice::slice_index_get(m.as_slice(), i);
        let k = &pair.0;
        let value = &pair.1;
        proof {
            assert(mapping_view(m@).skip(i as int).drop_first() =~= mapping_view(m@).skip(
                i as int + 1,
            ));
            assert(mapping_view(m@).skip(i as int)[0] == pair_view(m@[i as int]));
        }
        if k.eq(&key_owned) {
            match value {
                FieldValue::Bytes(b) => {
                    let r = b.clone();
                    assert(r@ =~= b@);
                    return Some(r);
                },
                _ => {
                    return None;
                },
            }
        }
        i = i + 1;
    }
    proof {
        assert(mapping_view(m@).skip(n as int) =~= Seq::empty());
    }
    None
}

/// Finds the first size value stored under `key`.
fn lookup_size(m: &Vec<(String, FieldValue)>, key: &str) -> (v: Option<u64>)
    ensures
        parsed_size(mapping_view(m@), key@, v),
{
    let key_owned = String::from_str(key);
    let n = m.len();
    let mut i: usize = 0;
    proof {
        assert(mapping_view(m@).skip(0) =~= mapping_view(m@));
    }
    while i < n
        invariant
            i <= n,
            n == m@.len(),
            key_owned@ == key@,
            spec_lookup(mapping_view(m@), key@) == spec_lookup(
                mapping_view(m@).skip(i as int),
                key@,
            ),
        decreases n - i,
    {
        let pair = vstd::slice::slice_index_get(m.as_slice(), i);
        let k = &pair.0;
        let value = &pair.1;
        proof {
            assert(mapping_view(m@).skip(i as int).drop_first() =~= mapping_view(m@).skip(
                i as int + 1,
            ));
            assert(mapping_view(m@).skip(i as int)[0] == pair_view(m@[i as int]));
        }
        if k.eq(&key_owned) {
            match value {
                FieldValue::Size(s) => {
                    return Some(*s);
                },
                _ => {
                    return None;
                },
            }
        }
        i = i + 1;
    }
    proof {
        assert(mapping_view(m@).skip(n as int) =~= Seq::empty());
    }
    None
}

impl BufFile {
    /// Externalizes the record as a mapping: one key-value pair per
    /// present field, omitting exactly the absent fields.
    pub fn to_mapping(&self) -> (m: Vec<(String, FieldValue)>)
        ensures
            mapping_view(m@) == record_mapping(*self),
    {
        let mut m: Vec<(String, FieldValue)> = Vec::new();
        match &self.name {
            Some(s) => m.push((String::from_str("name"), FieldValue::Text(s.clone()))),
            None => (),
        }
        match &self.content {
            Some(b) => m.push((String::from_str("content"), FieldValue::Bytes(b.clone()))),
            None => (),
        }
        match &self.file_id {
            Some(s) => m.push((String::from_str("file_id"), FieldValue::Text(s.clone()))),
            None => (),
        }
        match &self.content_type {
            Some(s) => m.push((String::from_str("content_type"), FieldValue::Text(s.clone()))),
            None => (),
        }
        match &self.path {
            Some(s) => m.push((String::from_str("path"), FieldValue::Text(s.clone()))),
            None => (),
        }
        match &self.size {
            Some(n) => m.push((String::from_str("size"), FieldValue::Size(*n))),
            None => (),
        }
        proof {
            assert(mapping_view(m@) =~= record_mapping(*self));
        }
        m
    }

    /// Parses a record back from a mapping: each field is taken from
    /// its key when the mapping holds a value of the right shape
    /// there, and is absent otherwise — a missing key is not an error.
    pub fn from_mapping(m: &Vec<(String, FieldValue)>) -> (f: BufFile)
        ensures
            parsed_text(mapping_view(m@), "name"@, f.name),
            parsed_bytes(mapping_view(m@), "content"@, f.content),
            parsed_text(mapping_view(m@), "file_id"@, f.file_id),
            parsed_text(mapping_view(m@), "content_type"@, f.content_type),
            parsed_text(mapping_view(m@), "path"@, f.path),
            parsed_size(mapping_view(m@), "size"@, f.size),
    {
        BufFile {
            name: lookup_text(m, "name"),
            content: lookup_bytes(m, "content"),
            file_id: lookup_text(m, "file_id"),
            content_type: lookup_text(m, "content_type"),
            path: lookup_text(m, "path"),
            size: lookup_size(m, "size"),
        }
    }
}


/// Looking a key up in a concatenation looks it up on the left first.
proof fn lemma_lookup_concat(
    a: Seq<(Seq<char>, FieldView)>,
    b: Seq<(Seq<char>, FieldView)>,
    key: Seq<char>,
)
    ensures
        spec_lookup(a + b, key) == (match spec_lookup(a, key) {
            Some(v) => Some(v),
            None => spec_lookup(b, key),
        }),
    decreases a.len(),
{
    if a.len() == 0 {
        assert(a + b =~= b);
    } else {
        assert((a + b)[0] == a[0]);
        assert((a + b).drop_first() =~= a.drop_first() + b);
        lemma_lookup_concat(a.drop_first(), b, key);
    }
}

/// Looking a key up in a one-pair mapping.
proof fn lemma_lookup_single(p: (Seq<char>, FieldView), key: Seq<char>)
    ensures
        spec_lookup(seq![p], key) == (if p.0 == key {
            Some(p.1)
        } else {
            None::<FieldView>
        }),
{
    assert(seq![p].drop_first() =~= Seq::<(Seq<char>, FieldView)>::empty());
    assert(spec_lookup(Seq::<(Seq<char>, FieldView)>::empty(), key) is None);
    assert(seq![p][0] == p);
}

/// Looking a key up in the pairs of one optional text field.
proof fn lemma_lookup_opt_text(k: Seq<char>, v: Option<String>, key: Seq<char>)
    ensures
        spec_lookup(opt_text_pairs(k, v), key) == (match v {
            Some(s) => if k == key {
                Some(FieldView::Text(s@))
            } else {
                None::<FieldView>
            },
            None => None::<FieldView>,
        }),
{
    match v {
        Some(s) => lemma_lookup_single((k, FieldView::Text(s@)), key),
        None => (),
    }
}

/// Looking a key up in the pairs of one optional byte field.
proof fn lemma_lookup_opt_bytes(k: Seq<char>, v: Option<Vec<u8>>, key: Seq<char>)
    ensures
        spec_lookup(opt_bytes_pairs(k, v), key) == (match v {
            Some(b) => if k == key {
                Some(FieldView::Bytes(b@))
            } else {
                None::<FieldView>
            },
            None => None::<FieldView>,
        }),
{
    match v {
        Some(b) => lemma_lookup_single((k, FieldView::Bytes(b@)), key),
        None => (),
    }
}

/// Looking a key up in the pairs of one optional size field.
proof fn lemma_lookup_opt_size(k: Seq<char>, v: Option<u64>, key: Seq<char>)
    ensures
        spec_lookup(opt_size_pairs(k, v), key) == (match v {
            Some(n) => if k == key {
                Some(FieldView::Size(n))
            } else {
                None::<FieldView>
            },
            None => None::<FieldView>,
        }),
{
    match v {
        Some(n) => lemma_lookup_single((k, FieldView::Size(n)), key),
        None => (),
    }
}

/// Looking any key up in a record's mapping resolves to the six fields
/// in their fixed order.
proof fn lemma_record_mapping_lookup(f: BufFile, key: Seq<char>)
    ensures
        spec_lookup(record_mapping(f), key) == {
            let l1 = spec_lookup(opt_text_pairs("name"@, f.name), key);
            let l2 = spec_lookup(opt_bytes_pairs("content"@, f.content), key);
            let l3 = spec_lookup(opt_text_pairs("file_id"@, f.file_id), key);
            let l4 = spec_lookup(opt_text_pairs("content_type"@, f.content_type), key);
            let l5 = spec_lookup(opt_text_pairs("path"@, f.path), key);
            let l6 = spec_lookup(opt_size_pairs("size"@, f.size), key);
            if l1 is Some {
                l1
            } else if l2 is Some {
                l2
            } else if l3 is Some {
                l3
            } else if l4 is Some {
                l4
            } else if l5 is Some {
                l5
            } else {
                l6
            }
        },
{
    let a1 = opt_text_pairs("name"@, f.name);
    let a2 = opt_bytes_pairs("content"@, f.content);
    let a3 = opt_text_pairs("file_id"@, f.file_id);
    let a4 = opt_text_pairs("content_type"@, f.content_type);
    let a5 = opt_text_pairs("path"@, f.path);
    let a6 = opt_size_pairs("size"@, f.size);
    lemma_lookup_concat(a1, a2, key);
    lemma_lookup_concat(a1 + a2, a3, key);
    lemma_lookup_concat(a1 + a2 + a3, a4, key);
    lemma_lookup_concat(a1 + a2 + a3 + a4, a5, key);
    lemma_lookup_concat(a1 + a2 + a3 + a4 + a5, a6, key);
}

/// All six field lookups for one key, in one call.
proof fn lemma_field_lookups(f: BufFile, key: Seq<char>)
    ensures
        spec_lookup(opt_text_pairs("name"@, f.name), key) == (match f.name {
            Some(s) => if "name"@ == key {
                Some(FieldView::Text(s@))
            } else {
                None::<FieldView>
            },
            None => None::<FieldView>,
        }),
        spec_lookup(opt_bytes_pairs("content"@, f.content), key) == (match f.content {
            Some(b) => if "content"@ == key {
                Some(FieldView::Bytes(b@))
            } else {
                None::<FieldView>
            },
            None => None::<FieldView>,
        }),
        spec_lookup(opt_text_pairs("file_id"@, f.file_id), key) == (match f.file_id {
            Some(s) => if "file_id"@ == key {
                Some(FieldView::Text(s@))
            } else {
                None::<FieldView>
            },
            None => None::<FieldView>,
        }),
        spec_lookup(opt_text_pairs("content_type"@, f.content_type), key) == (match f
            .content_type {
            Some(s) => if "content_type"@ == key {
                Some(FieldView::Text(s@))
            } else {
                None::<FieldView>
            },
            None => None::<FieldView>,
        }),
        spec_lookup(opt_text_pairs("path"@, f.path), key) == (match f.path {
            Some(s) => if "path"@ == key {
                Some(FieldView::Text(s@))
            } else {
                None::<FieldView>
            },
            None => None::<FieldView>,
        }),
        spec_lookup(opt_size_pairs("size"@, f.size), key) == (match f.size {
            Some(n) => if "size"@ == key {
                Some(FieldView::Size(n))
            } else {
                None::<FieldView>
            },
            None => None::<FieldView>,
        }),
{
    lemma_lookup_opt_text("name"@, f.name, key);
    lemma_lookup_opt_bytes("content"@, f.content, key);
    lemma_lookup_opt_text("file_id"@, f.file_id, key);
    lemma_lookup_opt_text("content_type"@, f.content_type, key);
    lemma_lookup_opt_text("path"@, f.path, key);
    lemma_lookup_opt_size("size"@, f.size, key);
}

/// Reveals the six field keys, so that their views are concrete and
/// pairwise distinct.
proof fn lemma_distinct_keys()
    ensures
        "name"@ != "content"@,
        "name"@ != "file_id"@,
        "name"@ != "content_type"@,
        "name"@ != "path"@,
        "name"@ != "size"@,
        "content"@ != "file_id"@,
        "content"@ != "content_type"@,
        "content"@ != "path"@,
        "content"@ != "size"@,
        "file_id"@ != "content_type"@,
        "file_id"@ != "path"@,
        "file_id"@ != "size"@,
        "content_type"@ != "path"@,
        "content_type"@ != "size"@,
        "path"@ != "size"@,
{
    reveal_strlit("name");
    reveal_strlit("content");
    reveal_strlit("file_id");
    reveal_strlit("content_type");
    reveal_strlit("path");
    reveal_strlit("size");
    assert("name"@.len() == 4);
    assert("content"@.len() == 7);
    assert("file_id"@.len() == 7);
    assert("content_type"@.len() == 12);
    assert("path"@.len() == 4);
    assert("size"@.len() == 4);
    assert("name"@[0] == 'n');
    assert("content"@[0] == 'c');
    assert("file_id"@[0] == 'f');
    assert("path"@[0] == 'p');
    assert("size"@[0] == 's');
}

/// Round trip: looking each key up in a record's own externalized
/// mapping yields exactly that record's field, so externalizing a
/// record with `to_mapping` and parsing the mapping back with
/// `from_mapping` yields an equal record, field for field; and a key
/// is found exactly when its field is present.
pub proof fn lemma_mapping_round_trip(f: BufFile)
    ensures
        parsed_text(record_mapping(f), "name"@, f.name),
        parsed_bytes(record_mapping(f), "content"@, f.content),
        parsed_text(record_mapping(f), "file_id"@, f.file_id),
        parsed_text(record_mapping(f), "content_type"@, f.content_type),
        parsed_text(record_mapping(f), "path"@, f.path),
        parsed_size(record_mapping(f), "size"@, f.size),
{
    lemma_distinct_keys();
    lemma_record_mapping_lookup(f, "name"@);
    lemma_field_lookups(f, "name"@);
    lemma_record_mapping_lookup(f, "content"@);
    lemma_field_lookups(f, "content"@);
    lemma_record_mapping_lookup(f, "file_id"@);
    lemma_field_lookups(f, "file_id"@);
    lemma_record_mapping_lookup(f, "content_type"@);
    lemma_field_lookups(f, "content_type"@);
    lemma_record_mapping_lookup(f, "path"@);
    lemma_field_lookups(f, "path"@);
    lemma_record_mapping_lookup(f, "size"@);
    lemma_field_lookups(f, "size"@);
}

/// The externalized mapping holds a field's key exactly when that
/// field is present: absent fields are omitted, never emitted as a
/// placeholder.
pub proof fn lemma_mapping_omits_absent(f: BufFile)
    ensures
        spec_has_key(record_mapping(f), "name"@) <==> f.name is Some,
        spec_has_key(record_mapping(f), "content"@) <==> f.content is Some,
        spec_has_key(record_mapping(f), "file_id"@) <==> f.file_id is Some,
        spec_has_key(record_mapping(f), "content_type"@) <==> f.content_type is Some,
        spec_has_key(record_mapping(f), "path"@) <==> f.path is Some,
        spec_has_key(record_mapping(f), "size"@) <==> f.size is Some,
{
    lemma_distinct_keys();
    lemma_record_mapping_lookup(f, "name"@);
    lemma_field_lookups(f, "name"@);
    lemma_record_mapping_lookup(f, "content"@);
    lemma_field_lookups(f, "content"@);
    lemma_record_mapping_lookup(f, "file_id"@);
    lemma_field_lookups(f, "file_id"@);
    lemma_record_mapping_lookup(f, "content_type"@);
    lemma_field_lookups(f, "content_type"@);
    lemma_record_mapping_lookup(f, "path"@);
    lemma_field_lookups(f, "path"@);
    lemma_record_mapping_lookup(f, "size"@);
    lemma_field_lookups(f, "size"@);
}

} // verus!
