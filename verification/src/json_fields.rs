//! A survey of the fields of a batch of JSON values: which field names the
//! objects among them use, the type of each field's last value, and which
//! fields some object lacks.
use crate::text::{lemma_seq_lt_total, lemma_seq_lt_transitive, seq_lt, str_lt};
use vstd::prelude::*;

verus! {

/// The kind of a JSON value.
#[derive(Clone, Copy, Debug, PartialEq, Eq)]
pub enum JsonKind {
    Null,
    Bool,
    Number,
    String,
    Array,
    Object,
}

/// The name the survey gives a kind.
pub open spec fn kind_name_spec(k: JsonKind) -> Seq<char> {
    match k {
        JsonKind::Null => "Null"@,
        JsonKind::Bool => "Bool"@,
        JsonKind::Number => "Number"@,
        JsonKind::String => "String"@,
        JsonKind::Array => "Array"@,
        JsonKind::Object => "Object"@,
    }
}

/// The name of a value's kind.
pub fn get_json_type(kind: JsonKind) -> (s: &'static str)
    ensures
        s@ == kind_name_spec(kind),
{
    match kind {
        JsonKind::Null => "Null",
        JsonKind::Bool => "Bool",
        JsonKind::Number => "Number",
        JsonKind::String => "String",
        JsonKind::Array => "Array",
        JsonKind::Object => "Object",
    }
}

/// A field of a JSON object: its name and the kind of its value.
#[derive(Debug)]
pub struct JsonField {
    pub name: String,
    pub kind: JsonKind,
}

/// The fields of all objects among `values`, object after object; a value
/// that is not an object (`None`) has none.
pub open spec fn all_fields(values: Seq<Option<Vec<JsonField>>>) -> Seq<JsonField>
    decreases values.len(),
{
    if values.len() == 0 {
        Seq::empty()
    } else {
        all_fields(values.drop_last()) + match values.last() {
            Some(fields) => fields@,
            None => Seq::<JsonField>::empty(),
        }
    }
}

/// How many of `values` are objects.
pub open spec fn object_count(values: Seq<Option<Vec<JsonField>>>) -> nat
    decreases values.len(),
{
    if values.len() == 0 {
        0
    } else {
        object_count(values.drop_last()) + if values.last() is Some { 1nat } else { 0nat }
    }
}

/// Whether `fields` has one named `name`.
pub open spec fn has_field(fields: Seq<JsonField>, name: Seq<char>) -> bool {
    exists|j: int| 0 <= j < fields.len() && (#[trigger] fields[j]).name@ == name
}

/// How many objects among `values` have a field named `name`.
pub open spec fn objects_with(values: Seq<Option<Vec<JsonField>>>, name: Seq<char>) -> nat
    decreases values.len(),
{
    if values.len() == 0 {
        0
    } else {
        objects_with(values.drop_last(), name) + match values.last() {
            Some(fields) => if has_field(fields@, name) { 1nat } else { 0nat },
            None => 0nat,
        }
    }
}

/// The kind of the last field named `name` in `fields` (`Null` when there is none).
pub open spec fn last_kind(fields: Seq<JsonField>, name: Seq<char>) -> JsonKind
    decreases fields.len(),
{
    if fields.len() == 0 {
        JsonKind::Null
    } else if fields.last().name@ == name {
        fields.last().kind
    } else {
        last_kind(fields.drop_last(), name)
    }
}

/// The names in `names` increase strictly, in `str` order.
pub open spec fn strictly_sorted(names: Seq<Seq<char>>) -> bool {
    forall|i: int, j: int| 0 <= i < j < names.len() ==> seq_lt(#[trigger] names[i], #[trigger] names[j])
}

/// The surveyed type of the field `name`: the kind of its last value, marked
/// optional when some object lacks it.
pub open spec fn field_type_spec(values: Seq<Option<Vec<JsonField>>>, name: Seq<char>) -> Seq<char> {
    let base = kind_name_spec(last_kind(all_fields(values), name));
    if objects_with(values, name) < object_count(values) {
        base + " (Optional)"@
    } else {
        base
    }
}

/// The views of a sequence of strings.
pub open spec fn string_views(names: Seq<String>) -> Seq<Seq<char>> {
    names.map_values(|s: String| s@)
}

/// The fields of all objects, object after object.
fn flatten(values: &Vec<Option<Vec<JsonField>>>) -> (r: Vec<JsonField>)
    ensures
        r@ == all_fields(values@),
{
    let mut r: Vec<JsonField> = Vec::new();
    let mut i: usize = 0;
    while i < values.len()
        invariant
            i <= values@.len(),
            r@ == all_fields(values@.take(i as int)),
        decreases values@.len() - i,
    {
        assert(values@.take(i + 1).drop_last() =~= values@.take(i as int));
        let ghost before = r@;
        match &values[i] {
            Some(fields) => {
                let mut j: usize = 0;
                while j < fields.len()
                    invariant
                        j <= fields@.len(),
                        r@ == before + fields@.take(j as int),
                    decreases fields@.len() - j,
                {
                    r.push(JsonField { name: fields[j].name.clone(), kind: fields[j].kind });
                    assert(r@ =~= before + fields@.take(j + 1));
                    j = j + 1;
                }
                assert(fields@.take(fields@.len() as int) =~= fields@);
            },
            None => {
                assert(r@ =~= before + Seq::<JsonField>::empty());
            },
        }
        i = i + 1;
    }
    assert(values@.take(values@.len() as int) =~= values@);
    r
}

/// How many of `values` are objects.
fn count_objects(values: &Vec<Option<Vec<JsonField>>>) -> (n: usize)
    ensures
        n == object_count(values@),
{
    let mut n: usize = 0;
    let mut i: usize = 0;
    while i < values.len()
        invariant
            i <= values@.len(),
            n == object_count(values@.take(i as int)),
            n <= i,
        decreases values@.len() - i,
    {
        assert(values@.take(i + 1).drop_last() =~= values@.take(i as int));
        if values[i].is_some() {
            n = n + 1;
        }
        i = i + 1;
    }
    assert(values@.take(values@.len() as int) =~= values@);
    n
}

/// Whether `fields` has one named `name`.
fn contains_field(fields: &Vec<JsonField>, name: &String) -> (r: bool)
    ensures
        r == has_field(fields@, name@),
{
    let mut j: usize = 0;
    while j < fields.len()
        invariant
            j <= fields@.len(),
            forall|k: int| 0 <= k < j ==> (#[trigger] fields@[k]).name@ != name@,
        decreases fields@.len() - j,
    {
        if fields[j].name == *name {
            assert(fields@[j as int].name@ == name@);
            return true;
        }
        j = j + 1;
    }
    false
}

/// How many objects among `values` have a field named `name`.
fn count_objects_with(values: &Vec<Option<Vec<JsonField>>>, name: &String) -> (n: usize)
    ensures
        n == objects_with(values@, name@),
{
    let mut n: usize = 0;
    let mut i: usize = 0;
    while i < values.len()
        invariant
            i <= values@.len(),
            n == objects_with(values@.take(i as int), name@),
            n <= i,
        decreases values@.len() - i,
    {
        assert(values@.take(i + 1).drop_last() =~= values@.take(i as int));
        match &values[i] {
            Some(fields) => {
                if contains_field(fields, name) {
                    n = n + 1;
                }
            },
            None => {},
        }
        i = i + 1;
    }
    assert(values@.take(values@.len() as int) =~= values@);
    n
}

/// The kind of the last field named `name` in `fields`.
fn last_kind_of(fields: &Vec<JsonField>, name: &String) -> (k: JsonKind)
    ensures
        k == last_kind(fields@, name@),
{
    let mut k = JsonKind::Null;
    let mut i: usize = 0;
    while i < fields.len()
        invariant
            i <= fields@.len(),
            k == last_kind(fields@.take(i as int), name@),
        decreases fields@.len() - i,
    {
        assert(fields@.take(i + 1).drop_last() =~= fields@.take(i as int));
        if fields[i].name == *name {
            k = fields[i].kind;
        }
        i = i + 1;
    }
    assert(fields@.take(fields@.len() as int) =~= fields@);
    k
}

/// Whether `names` holds `name`.
fn contains_name(names: &Vec<String>, name: &String) -> (r: bool)
    ensures
        r == string_views(names@).contains(name@),
{
    let mut j: usize = 0;
    while j < names.len()
        invariant
            j <= names@.len(),
            forall|k: int| 0 <= k < j ==> (#[trigger] names@[k])@ != name@,
        decreases names@.len() - j,
    {
        if names[j] == *name {
            assert(string_views(names@)[j as int] == name@);
            return true;
        }
        j = j + 1;
    }
    assert forall|k: int| 0 <= k < string_views(names@).len() implies string_views(names@)[k] != name@ by {
        assert(string_views(names@)[k] == names@[k]@);
    }
    false
}

/// The names of `fields`, each once, in increasing `str` order.
fn sorted_names(fields: &Vec<JsonField>) -> (r: Vec<String>)
    ensures
        strictly_sorted(string_views(r@)),
        forall|k: int| 0 <= k < r@.len() ==> has_field(fields@, #[trigger] string_views(r@)[k]),
        forall|j: int| 0 <= j < fields@.len() ==> string_views(r@).contains(#[trigger] fields@[j].name@),
{
    let mut r: Vec<String> = Vec::new();
    let mut i: usize = 0;
    while i < fields.len()
        invariant
            i <= fields@.len(),
            strictly_sorted(string_views(r@)),
            forall|k: int| 0 <= k < r@.len() ==> has_field(fields@, #[trigger] string_views(r@)[k]),
            forall|j: int| 0 <= j < i ==> string_views(r@).contains(#[trigger] fields@[j].name@),
        decreases fields@.len() - i,
    {
        let ghost name = fields@[i as int].name@;
        if !contains_name(&r, &fields[i].name) {
            let ghost ov = string_views(r@);
            let mut p: usize = 0;
            while p < r.len()
                invariant
                    p <= r@.len(),
                    i < fields@.len(),
                    ov == string_views(r@),
                    name == fields@[i as int].name@,
                    forall|k: int| 0 <= k < p ==> seq_lt(#[trigger] ov[k], name),
                ensures
                    p <= r@.len(),
                    forall|k: int| 0 <= k < p ==> seq_lt(#[trigger] ov[k], name),
                    p == r@.len() || !seq_lt(ov[p as int], name),
                decreases r@.len() - p,
            {
                assert(ov[p as int] == r@[p as int]@);
                if !str_lt(r[p].as_str(), fields[i].name.as_str()) {
                    break;
                }
                p = p + 1;
            }
            r.insert(p, fields[i].name.clone());
            let ghost nv = string_views(r@);
            proof {
                assert(nv =~= ov.insert(p as int, name));
                assert forall|a: int, b: int| 0 <= a < b < nv.len() implies seq_lt(#[trigger] nv[a], #[trigger] nv[b]) by {
                    if b < p {
                        assert(nv[a] == ov[a] && nv[b] == ov[b]);
                    } else if b == p {
                        assert(nv[a] == ov[a] && nv[b] == name);
                    } else if a < p {
                        assert(nv[a] == ov[a] && nv[b] == ov[b - 1]);
                    } else if a == p {
                        assert(nv[a] == name && nv[b] == ov[b - 1]);
                        assert(ov[p as int] != name);
                        lemma_seq_lt_total(ov[p as int], name);
                        if b - 1 > p {
                            lemma_seq_lt_transitive(name, ov[p as int], ov[b - 1]);
                        }
                    } else {
                        assert(nv[a] == ov[a - 1] && nv[b] == ov[b - 1]);
                    }
                }
                assert forall|k: int| 0 <= k < nv.len() implies has_field(fields@, #[trigger] nv[k]) by {
                    if k < p {
                        assert(nv[k] == ov[k]);
                    } else if k == p {
                        assert(nv[k] == fields@[i as int].name@);
                    } else {
                        assert(nv[k] == ov[k - 1]);
                    }
                }
                assert forall|j: int| 0 <= j < i + 1 implies nv.contains(#[trigger] fields@[j].name@) by {
                    if j == i {
                        assert(nv[p as int] == name);
                    } else {
                        let k = choose|k: int| 0 <= k < ov.len() && ov[k] == fields@[j].name@;
                        if k < p {
                            assert(nv[k] == ov[k]);
                        } else {
                            assert(nv[k + 1] == ov[k]);
                        }
                    }
                }
            }
        }
        i = i + 1;
    }
    r
}

/// The fields the objects among `values` use (a value that is not an object
/// is `None`), each once in increasing `str` order of their names, paired
/// with the kind of its last value, followed by " (Optional)" when some
/// object lacks it.
pub fn get_fields(values: &Vec<Option<Vec<JsonField>>>) -> (r: Vec<(String, String)>)
    ensures
        forall|a: int, b: int| 0 <= a < b < r@.len() ==> seq_lt((#[trigger] r@[a]).0@, (#[trigger] r@[b]).0@),
        forall|k: int| 0 <= k < r@.len() ==> has_field(all_fields(values@), (#[trigger] r@[k]).0@),
        forall|name: Seq<char>| #[trigger] has_field(all_fields(values@), name) ==> exists|k: int| 0 <= k < r@.len() && (#[trigger] r@[k]).0@ == name,
        forall|k: int| 0 <= k < r@.len() ==> (#[trigger] r@[k]).1@ == field_type_spec(values@, r@[k].0@),
{
    let fields = flatten(values);
    let names = sorted_names(&fields);
    let total = count_objects(values);
    let ghost sv = string_views(names@);
    let mut r: Vec<(String, String)> = Vec::new();
    let mut k: usize = 0;
    while k < names.len()
        invariant
            k <= names@.len(),
            fields@ == all_fields(values@),
            sv == string_views(names@),
            total == object_count(values@),
            r@.len() == k,
            forall|i: int| 0 <= i < k ==> (#[trigger] r@[i]).0@ == sv[i]
                && r@[i].1@ == field_type_spec(values@, r@[i].0@),
        decreases names@.len() - k,
    {
        let kind = last_kind_of(&fields, &names[k]);
        let mut t = String::from_str(get_json_type(kind));
        if count_objects_with(values, &names[k]) < total {
            t.append(" (Optional)");
        }
        r.push((names[k].clone(), t));
        k = k + 1;
    }
    proof {
        assert forall|a: int, b: int| 0 <= a < b < r@.len() implies seq_lt((#[trigger] r@[a]).0@, (#[trigger] r@[b]).0@) by {
            assert(seq_lt(sv[a], sv[b]));
        }
        assert forall|k: int| 0 <= k < r@.len() implies has_field(all_fields(values@), (#[trigger] r@[k]).0@) by {
            assert(has_field(fields@, sv[k]));
        }
        assert forall|name: Seq<char>| #[trigger] has_field(all_fields(values@), name) implies exists|k: int| 0 <= k < r@.len() && (#[trigger] r@[k]).0@ == name by {
            let j = choose|j: int| 0 <= j < fields@.len() && (#[trigger] fields@[j]).name@ == name;
            assert(sv.contains(fields@[j].name@));
            let k = choose|k: int| 0 <= k < sv.len() && sv[k] == fields@[j].name@;
            assert(r@[k].0@ == name);
        }
    }
    r
}


/// The surveyed kind of a name is the kind of the last field with exactly
/// that name (`Null` when no field has it): fields with other names, before
/// or after it, play no part.
pub proof fn lemma_last_kind_is_last_exact_match(fields: Seq<JsonField>, name: Seq<char>)
    ensures
        has_field(fields, name) ==> exists|j: int|
            0 <= j < fields.len() && (#[trigger] fields[j]).name@ == name && last_kind(fields, name) == fields[j].kind
                && forall|k: int| j < k < fields.len() ==> (#[trigger] fields[k]).name@ != name,
        !has_field(fields, name) ==> last_kind(fields, name) == JsonKind::Null,
    decreases fields.len(),
{
    if fields.len() > 0 {
        let init = fields.drop_last();
        let n = fields.len() - 1;
        lemma_last_kind_is_last_exact_match(init, name);
        if fields[n].name@ == name {
            assert(fields[n].name@ == name && last_kind(fields, name) == fields[n].kind);
        } else {
            if has_field(fields, name) {
                let j = choose|j: int| 0 <= j < fields.len() && (#[trigger] fields[j]).name@ == name;
                assert(init[j] == fields[j]);
                assert(has_field(init, name));
                let j2 = choose|j2: int|
                    0 <= j2 < init.len() && (#[trigger] init[j2]).name@ == name && last_kind(init, name) == init[j2].kind
                        && forall|k: int| j2 < k < init.len() ==> (#[trigger] init[k]).name@ != name;
                assert(fields[j2] == init[j2]);
                assert forall|k: int| j2 < k < fields.len() implies (#[trigger] fields[k]).name@ != name by {
                    if k < n {
                        assert(fields[k] == init[k]);
                    }
                }
            } else {
                assert forall|j: int| 0 <= j < init.len() implies (#[trigger] init[j]).name@ != name by {
                    assert(init[j] == fields[j]);
                }
            }
        }
    }
}

/// Appending a field changes the surveyed kind of a name only when the new
/// field has exactly that name, and then to the new field's kind.
pub proof fn lemma_last_kind_push(fields: Seq<JsonField>, field: JsonField, name: Seq<char>)
    ensures
        field.name@ != name ==> last_kind(fields.push(field), name) == last_kind(fields, name),
        field.name@ == name ==> last_kind(fields.push(field), name) == field.kind,
{
    assert(fields.push(field).drop_last() =~= fields);
}

} // verus!
