//! An ordered-insertion key/value store for header fields with
//! last-write-wins semantics on duplicate keys, used for the top-level
//! message and for each MIME body part.

use vstd::prelude::*;

verus! {

/// Mathematical model of one header field: a name/value pair.
#[verifier::ext_equal]
pub struct FieldModel {
    pub name: Seq<char>,
    pub value: Seq<char>,
}

/// One header field as the MIME decoder hands it out.
#[derive(Debug, PartialEq)]
pub struct HeaderField {
    pub name: String,
    pub value: String,
}

impl View for HeaderField {
    type V = FieldModel;

    open spec fn view(&self) -> FieldModel {
        FieldModel { name: self.name@, value: self.value@ }
    }
}

impl DeepView for HeaderField {
    type V = FieldModel;

    open spec fn deep_view(&self) -> FieldModel {
        self@
    }
}

/// The sentinel returned for an absent field.
pub open spec fn na_text() -> Seq<char> {
    "NA"@
}

/// The value stored for `name`: the first field with that name, if any.
/// A well-formed map has at most one field per name, so this is the
/// stored value.
pub open spec fn lookup(fields: Seq<FieldModel>, name: Seq<char>) -> Option<Seq<char>>
    decreases fields.len(),
{
    if fields.len() == 0 {
        None::<Seq<char>>
    } else if fields[0].name == name {
        Some(fields[0].value)
    } else {
        lookup(fields.skip(1), name)
    }
}

/// The stored value for `name`, or the `"NA"` sentinel if absent.
pub open spec fn lookup_or_na(fields: Seq<FieldModel>, name: Seq<char>) -> Seq<char> {
    match lookup(fields, name) {
        Some(v) => v,
        None => na_text(),
    }
}

/// Insertion with last-write-wins semantics: an existing field with the
/// same name is overwritten in place (keeping its position), otherwise
/// the new field is appended.
pub open spec fn field_insert(
    fields: Seq<FieldModel>,
    name: Seq<char>,
    value: Seq<char>,
) -> Seq<FieldModel>
    decreases fields.len(),
{
    if fields.len() == 0 {
        seq![FieldModel { name, value }]
    } else if fields[0].name == name {
        seq![FieldModel { name, value }] + fields.skip(1)
    } else {
        seq![fields[0]] + field_insert(fields.skip(1), name, value)
    }
}

/// At most one field per name.
pub open spec fn wf_fields(fields: Seq<FieldModel>) -> bool {
    forall|i: int, j: int|
        0 <= i < j < fields.len() ==> fields[i].name != fields[j].name
}

/// Looking a name up after inserting it finds exactly the inserted value.
pub proof fn lemma_lookup_after_insert(fields: Seq<FieldModel>, name: Seq<char>, value: Seq<char>)
    ensures
        lookup(field_insert(fields, name, value), name) == Some(value),
    decreases fields.len(),
{
    if fields.len() == 0 {
    } else if fields[0].name == name {
        let r = field_insert(fields, name, value);
        assert(r[0] == (FieldModel { name, value }));
    } else {
        lemma_lookup_after_insert(fields.skip(1), name, value);
        let r = field_insert(fields, name, value);
        assert(r.skip(1) =~= field_insert(fields.skip(1), name, value));
    }
}

/// Last write wins: after inserting the same name twice, exactly the
/// second value is retrievable (overwrite, not merge).
pub proof fn lemma_insert_twice_last_wins(
    fields: Seq<FieldModel>,
    name: Seq<char>,
    first: Seq<char>,
    second: Seq<char>,
)
    ensures
        lookup(field_insert(field_insert(fields, name, first), name, second), name)
            == Some(second),
{
    lemma_lookup_after_insert(field_insert(fields, name, first), name, second);
}

/// `lookup` returns the value at the first index whose name matches.
proof fn lemma_lookup_at_first_match(fields: Seq<FieldModel>, name: Seq<char>, i: int)
    requires
        0 <= i < fields.len(),
        fields[i].name == name,
        forall|j: int| 0 <= j < i ==> fields[j].name != name,
    ensures
        lookup(fields, name) == Some(fields[i].value),
    decreases i,
{
    if i > 0 {
        lemma_lookup_at_first_match(fields.skip(1), name, i - 1);
    }
}

/// `lookup` returns `None` when no field's name matches.
proof fn lemma_lookup_no_match(fields: Seq<FieldModel>, name: Seq<char>)
    requires
        forall|j: int| 0 <= j < fields.len() ==> fields[j].name != name,
    ensures
        lookup(fields, name) is None,
    decreases fields.len(),
{
    if fields.len() > 0 {
        lemma_lookup_no_match(fields.skip(1), name);
    }
}

/// When the first match is at index `i`, insertion overwrites in place.
proof fn lemma_field_insert_updates(
    fields: Seq<FieldModel>,
    name: Seq<char>,
    value: Seq<char>,
    i: int,
)
    requires
        0 <= i < fields.len(),
        fields[i].name == name,
        forall|j: int| 0 <= j < i ==> fields[j].name != name,
    ensures
        field_insert(fields, name, value) == fields.update(i, FieldModel { name, value }),
    decreases i,
{
    if i == 0 {
        assert(field_insert(fields, name, value)
            =~= fields.update(0, FieldModel { name, value }));
    } else {
        lemma_field_insert_updates(fields.skip(1), name, value, i - 1);
        assert(field_insert(fields, name, value)
            =~= fields.update(i, FieldModel { name, value }));
    }
}

/// When no name matches, insertion appends the new field.
proof fn lemma_field_insert_appends(fields: Seq<FieldModel>, name: Seq<char>, value: Seq<char>)
    requires
        forall|j: int| 0 <= j < fields.len() ==> fields[j].name != name,
    ensures
        field_insert(fields, name, value) == fields.push(FieldModel { name, value }),
    decreases fields.len(),
{
    if fields.len() == 0 {
        assert(field_insert(fields, name, value)
            =~= fields.push(FieldModel { name, value }));
    } else {
        lemma_field_insert_appends(fields.skip(1), name, value);
        assert(field_insert(fields, name, value)
            =~= fields.push(FieldModel { name, value }));
    }
}

/// The ordered-insertion header store. Each message and each body part
/// gets its own map; duplicate keys overwrite (last write wins) and an
/// absent key reads as the `"NA"` sentinel.
#[derive(Debug, PartialEq)]
pub struct HeaderMap {
    fields: Vec<HeaderField>,
}

impl View for HeaderMap {
    type V = Seq<FieldModel>;

    closed spec fn view(&self) -> Seq<FieldModel> {
        self.fields.deep_view()
    }
}

impl DeepView for HeaderMap {
    type V = Seq<FieldModel>;

    open spec fn deep_view(&self) -> Seq<FieldModel> {
        self@
    }
}

impl HeaderMap {
    /// Creates an empty map.
    pub fn new() -> (r: HeaderMap)
        ensures
            r@ == Seq::<FieldModel>::empty(),
    {
        let r = HeaderMap { fields: Vec::new() };
        proof {
            assert(r@ =~= Seq::<FieldModel>::empty());
        }
        r
    }

    /// Unconditional overwrite; returns the previously stored value so a
    /// caller can observe (and, if it wishes, log) the overwrite event.
    pub fn insert(&mut self, name: String, value: String) -> (prev: Option<String>)
        ensures
            final(self)@ == field_insert(old(self)@, name@, value@),
            (match prev {
                Some(p) => lookup(old(self)@, name@) == Some(p@),
                None => lookup(old(self)@, name@) is None,
            }),
            wf_fields(old(self)@) ==> wf_fields(final(self)@),
    {
        let mut i: usize = 0;
        while i < self.fields.len()
            invariant
                i <= self.fields.len(),
                *self == *old(self),
                forall|j: int| 0 <= j < i ==> self.fields.deep_view()[j].name != name@,
            decreases self.fields.len() - i,
        {
            if self.fields[i].name == name {
                let prev_value = self.fields[i].value.clone();
                self.fields[i] = HeaderField { name, value };
                proof {
                    lemma_lookup_at_first_match(old(self)@, name@, i as int);
                    lemma_field_insert_updates(old(self)@, name@, value@, i as int);
                    assert(self@ =~= old(self)@.update(i as int, FieldModel { name: name@, value: value@ }));
                }
                return Some(prev_value);
            }
            i += 1;
        }
        self.fields.push(HeaderField { name, value });
        proof {
            lemma_lookup_no_match(old(self)@, name@);
            lemma_field_insert_appends(old(self)@, name@, value@);
            assert(self@ =~= old(self)@.push(FieldModel { name: name@, value: value@ }));
        }
        None
    }

    /// Returns the stored value, or the literal `"NA"` if the key is
    /// absent. `"NA"` is the canonical "field absent" sentinel for all
    /// downstream formatting; it is never an empty string.
    pub fn get(&self, name: &str) -> (r: String)
        ensures
            r@ == lookup_or_na(self@, name@),
    {
        let key: String = name.to_owned();
        let mut i: usize = 0;
        while i < self.fields.len()
            invariant
                i <= self.fields.len(),
                key@ == name@,
                forall|j: int| 0 <= j < i ==> self.fields.deep_view()[j].name != name@,
            decreases self.fields.len() - i,
        {
            if self.fields[i].name == key {
                proof {
                    lemma_lookup_at_first_match(self@, name@, i as int);
                }
                return self.fields[i].value.clone();
            }
            i += 1;
        }
        proof {
            lemma_lookup_no_match(self@, name@);
        }
        "NA".to_owned()
    }

    /// The number of stored fields.
    pub fn len(&self) -> (n: usize)
        ensures
            n == self@.len(),
    {
        self.fields.len()
    }

    /// The stored fields, in insertion order.
    pub fn entries(&self) -> (r: &Vec<HeaderField>)
        ensures
            r.deep_view() == self@,
    {
        &self.fields
    }
}

} // verus!
