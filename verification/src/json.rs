use vstd::prelude::*;

verus! {

/// A JSON number as the app-server sends it: a non-negative integer, a
/// negative integer, or a floating-point number kept as its text.
#[derive(Debug)]
pub enum JsonNumber {
    PosInt(u64),
    NegInt(i64),
    Float(FloatText),
}

/// The text of a floating-point number as serde_json writes it. Only a
/// parsed document makes one, so the text always reads back as a number.
#[derive(Debug)]
pub struct FloatText {
    pub(crate) text: String,
}

impl FloatText {
    /// The number's text.
    pub closed spec fn model(&self) -> Seq<char> {
        self.text@
    }

    /// The number's text.
    pub fn as_str(&self) -> (r: &str)
        ensures
            r@ == self.model(),
    {
        self.text.as_str()
    }
}

/// A JSON document. Objects are association lists; a lookup finds the first
/// entry with the key.
#[derive(Debug)]
pub enum JsonValue {
    Null,
    Bool(bool),
    Number(JsonNumber),
    String(String),
    Array(Vec<JsonValue>),
    Object(Vec<(String, JsonValue)>),
}

/// The mathematical model of a JSON number.
pub enum NumberModel {
    PosInt(u64),
    NegInt(i64),
    Float(Seq<char>),
}

/// The mathematical model of a JSON document.
pub enum JsonModel {
    Null,
    Bool(bool),
    Number(NumberModel),
    Text(Seq<char>),
    Array(Seq<JsonModel>),
    Object(Seq<(Seq<char>, JsonModel)>),
}

impl JsonNumber {
    pub open spec fn model(self) -> NumberModel {
        match self {
            JsonNumber::PosInt(n) => NumberModel::PosInt(n),
            JsonNumber::NegInt(n) => NumberModel::NegInt(n),
            JsonNumber::Float(s) => NumberModel::Float(s.model()),
        }
    }
}

impl JsonValue {
    pub open spec fn model(self) -> JsonModel
        decreases self,
    {
        match self {
            JsonValue::Null => JsonModel::Null,
            JsonValue::Bool(b) => JsonModel::Bool(b),
            JsonValue::Number(n) => JsonModel::Number(n.model()),
            JsonValue::String(s) => JsonModel::Text(s@),
            JsonValue::Array(items) => JsonModel::Array(
                Seq::new(
                    items.len() as nat,
                    |i: int|
                        if 0 <= i < items.len() {
                            items[i].model()
                        } else {
                            JsonModel::Null
                        },
                ),
            ),
            JsonValue::Object(entries) => JsonModel::Object(
                Seq::new(
                    entries.len() as nat,
                    |i: int|
                        if 0 <= i < entries.len() {
                            (entries[i].0@, entries[i].1.model())
                        } else {
                            (Seq::empty(), JsonModel::Null)
                        },
                ),
            ),
        }
    }
}

impl View for JsonValue {
    type V = JsonModel;

    open spec fn view(&self) -> JsonModel {
        self.model()
    }
}


/// The model of an object's entries, key by key.
pub open spec fn entries_model(entries: Seq<(String, JsonValue)>) -> Seq<(Seq<char>, JsonModel)> {
    Seq::new(entries.len(), |i: int| (entries[i].0@, entries[i].1@))
}

/// `i` is the first position of `key` among `entries`.
pub open spec fn key_at(entries: Seq<(Seq<char>, JsonModel)>, key: Seq<char>, i: int) -> bool {
    &&& 0 <= i < entries.len()
    &&& entries[i].0 == key
    &&& forall|j: int| 0 <= j < i ==> #[trigger] entries[j].0 != key
}

/// Some entry has `key`.
pub open spec fn has_key(entries: Seq<(Seq<char>, JsonModel)>, key: Seq<char>) -> bool {
    exists|i: int| 0 <= i < entries.len() && #[trigger] entries[i].0 == key
}

/// The first position of `key` among `entries` (meaningful where `has_key`).
pub open spec fn key_index(entries: Seq<(Seq<char>, JsonModel)>, key: Seq<char>) -> int {
    choose|i: int| key_at(entries, key, i)
}

/// The value stored under `key`: that of its first entry.
pub open spec fn lookup(entries: Seq<(Seq<char>, JsonModel)>, key: Seq<char>) -> Option<JsonModel> {
    if has_key(entries, key) {
        Some(entries[key_index(entries, key)].1)
    } else {
        None
    }
}

/// Storing `value` under `key`: the first entry with the key takes the value,
/// or a new entry is appended.
pub open spec fn insert_entry(
    entries: Seq<(Seq<char>, JsonModel)>,
    key: Seq<char>,
    value: JsonModel,
) -> Seq<(Seq<char>, JsonModel)> {
    if has_key(entries, key) {
        entries.update(key_index(entries, key), (key, value))
    } else {
        entries.push((key, value))
    }
}

impl JsonModel {
    /// `Value::get` with a string key: the member of an object.
    pub open spec fn get(self, key: Seq<char>) -> Option<JsonModel> {
        match self {
            JsonModel::Object(entries) => lookup(entries, key),
            _ => None,
        }
    }

    pub open spec fn as_str(self) -> Option<Seq<char>> {
        match self {
            JsonModel::Text(s) => Some(s),
            _ => None,
        }
    }

    pub open spec fn as_u64(self) -> Option<u64> {
        match self {
            JsonModel::Number(NumberModel::PosInt(n)) => Some(n),
            _ => None,
        }
    }

    pub open spec fn as_i64(self) -> Option<i64> {
        match self {
            JsonModel::Number(NumberModel::PosInt(n)) => if n <= i64::MAX {
                Some(n as i64)
            } else {
                None
            },
            JsonModel::Number(NumberModel::NegInt(n)) => Some(n),
            _ => None,
        }
    }

    pub open spec fn as_bool(self) -> Option<bool> {
        match self {
            JsonModel::Bool(b) => Some(b),
            _ => None,
        }
    }

    pub open spec fn is_null(self) -> bool {
        self is Null
    }

    pub open spec fn as_object(self) -> Option<Seq<(Seq<char>, JsonModel)>> {
        match self {
            JsonModel::Object(entries) => Some(entries),
            _ => None,
        }
    }
}

/// `Option::and_then(get)` over models.
pub open spec fn get_in(value: Option<JsonModel>, key: Seq<char>) -> Option<JsonModel> {
    match value {
        Some(v) => v.get(key),
        None => None,
    }
}

pub open spec fn str_of(value: Option<JsonModel>) -> Option<Seq<char>> {
    match value {
        Some(v) => v.as_str(),
        None => None,
    }
}

pub open spec fn u64_of(value: Option<JsonModel>) -> Option<u64> {
    match value {
        Some(v) => v.as_u64(),
        None => None,
    }
}

pub open spec fn i64_of(value: Option<JsonModel>) -> Option<i64> {
    match value {
        Some(v) => v.as_i64(),
        None => None,
    }
}

pub open spec fn bool_of(value: Option<JsonModel>) -> Option<bool> {
    match value {
        Some(v) => v.as_bool(),
        None => None,
    }
}

/// `Option::filter(|v| !v.is_null())` over models.
pub open spec fn non_null(value: Option<JsonModel>) -> Option<JsonModel> {
    match value {
        Some(v) => if v.is_null() {
            None
        } else {
            Some(v)
        },
        None => None,
    }
}

/// The model of an optional borrowed value.
pub open spec fn opt_model(value: Option<&JsonValue>) -> Option<JsonModel> {
    match value {
        Some(v) => Some(v@),
        None => None,
    }
}

/// An object's model is the model of its entries.
pub proof fn lemma_object_model(entries: Vec<(String, JsonValue)>)
    ensures
        JsonValue::Object(entries)@ == JsonModel::Object(entries_model(entries@)),
{
    assert(JsonValue::Object(entries)@->Object_0 =~= entries_model(entries@));
}

/// Where a key occurs, its first position exists and is the one `key_index` picks.
pub proof fn lemma_key_index(entries: Seq<(Seq<char>, JsonModel)>, key: Seq<char>)
    requires
        has_key(entries, key),
    ensures
        key_at(entries, key, key_index(entries, key)),
    decreases entries.len(),
{
    let n = entries.len();
    if entries[n - 1].0 == key && !has_key(entries.drop_last(), key) {
        assert forall|j: int| 0 <= j < n - 1 implies #[trigger] entries[j].0 != key by {
            assert(entries.drop_last()[j] == entries[j]);
        }
        assert(key_at(entries, key, n - 1));
    } else {
        let prefix = entries.drop_last();
        assert(has_key(prefix, key)) by {
            let i = choose|i: int| 0 <= i < entries.len() && #[trigger] entries[i].0 == key;
            if i == n - 1 {
                assert(prefix.len() < n);
            } else {
                assert(prefix[i].0 == key);
            }
        }
        lemma_key_index(prefix, key);
        let k = key_index(prefix, key);
        assert forall|j: int| 0 <= j < k implies #[trigger] entries[j].0 != key by {
            assert(prefix[j] == entries[j]);
        }
        assert(key_at(entries, key, k));
    }
}

/// The first position of a key is unique.
pub proof fn lemma_key_at_unique(entries: Seq<(Seq<char>, JsonModel)>, key: Seq<char>, i: int, j: int)
    requires
        key_at(entries, key, i),
        key_at(entries, key, j),
    ensures
        i == j,
{
    if i < j {
        assert(entries[i].0 != key);
    } else if j < i {
        assert(entries[j].0 != key);
    }
}

/// What a lookup gives back after a store: the stored value under the stored
/// key, and the old value under every other key.
pub proof fn lemma_lookup_insert(
    entries: Seq<(Seq<char>, JsonModel)>,
    key: Seq<char>,
    value: JsonModel,
    other: Seq<char>,
)
    ensures
        lookup(insert_entry(entries, key, value), other) == if other == key {
            Some(value)
        } else {
            lookup(entries, other)
        },
{
    let updated = insert_entry(entries, key, value);
    if has_key(entries, key) {
        lemma_key_index(entries, key);
        let k = key_index(entries, key);
        if other == key {
            assert(key_at(updated, key, k));
            assert(has_key(updated, key));
            lemma_key_index(updated, key);
            lemma_key_at_unique(updated, key, k, key_index(updated, key));
        } else if has_key(entries, other) {
            lemma_key_index(entries, other);
            let o = key_index(entries, other);
            assert(key_at(updated, other, o));
            assert(has_key(updated, other));
            lemma_key_index(updated, other);
            lemma_key_at_unique(updated, other, o, key_index(updated, other));
        } else {
            assert(!has_key(updated, other)) by {
                if has_key(updated, other) {
                    let i = choose|i: int| 0 <= i < updated.len() && #[trigger] updated[i].0 == other;
                    assert(entries[i].0 == other);
                }
            }
        }
    } else {
        let n = entries.len();
        if other == key {
            assert(key_at(updated, key, n as int));
            assert(has_key(updated, key));
            lemma_key_index(updated, key);
            lemma_key_at_unique(updated, key, n as int, key_index(updated, key));
        } else if has_key(entries, other) {
            lemma_key_index(entries, other);
            let o = key_index(entries, other);
            assert(key_at(updated, other, o));
            assert(has_key(updated, other));
            lemma_key_index(updated, other);
            lemma_key_at_unique(updated, other, o, key_index(updated, other));
        } else {
            assert(!has_key(updated, other)) by {
                if has_key(updated, other) {
                    let i = choose|i: int| 0 <= i < updated.len() && #[trigger] updated[i].0 == other;
                    if i < n {
                        assert(entries[i].0 == other);
                    }
                }
            }
        }
    }
}

/// The position of `key` among `entries`, searched from the front.
fn find_key(entries: &Vec<(String, JsonValue)>, key: &String) -> (r: Option<usize>)
    ensures
        match r {
            Some(i) => i < entries.len() && has_key(entries_model(entries@), key@) && i as int == key_index(
                entries_model(entries@),
                key@,
            ),
            None => !has_key(entries_model(entries@), key@),
        },
{
    let ghost model = entries_model(entries@);
    let mut i: usize = 0;
    while i < entries.len()
        invariant
            i <= entries.len(),
            model == entries_model(entries@),
            forall|j: int| 0 <= j < i ==> #[trigger] model[j].0 != key@,
        decreases entries.len() - i,
    {
        if entries[i].0 == *key {
            proof {
                assert(key_at(model, key@, i as int));
                lemma_key_index(model, key@);
                lemma_key_at_unique(model, key@, i as int, key_index(model, key@));
            }
            return Some(i);
        }
        i += 1;
    }
    proof {
        assert(!has_key(model, key@)) by {
            if has_key(model, key@) {
                let j = choose|j: int| 0 <= j < model.len() && #[trigger] model[j].0 == key@;
                assert(model[j].0 != key@);
            }
        }
    }
    None
}

/// Stores `value` under `key` in an object's entries.
pub fn insert_entry_exec(entries: &mut Vec<(String, JsonValue)>, key: String, value: JsonValue)
    ensures
        entries_model(final(entries)@) == insert_entry(entries_model(old(entries)@), key@, value@),
{
    match find_key(entries, &key) {
        Some(i) => {
            let ghost before = entries@;
            entries.set(i, (key, value));
            proof {
                assert(entries_model(entries@) =~= insert_entry(entries_model(before), key@, value@));
            }
        },
        None => {
            let ghost before = entries@;
            entries.push((key, value));
            proof {
                assert(entries_model(entries@) =~= insert_entry(entries_model(before), key@, value@));
            }
        },
    }
}

impl JsonValue {
    /// The member stored under `key`, where `self` is an object.
    pub fn get(&self, key: &str) -> (r: Option<&JsonValue>)
        ensures
            opt_model(r) == self@.get(key@),
    {
        match self {
            JsonValue::Object(entries) => {
                proof {
                    lemma_object_model(*entries);
                }
                let owned = key.to_owned();
                match find_key(entries, &owned) {
                    Some(i) => Some(&entries[i].1),
                    None => None,
                }
            },
            _ => None,
        }
    }

    pub fn as_str(&self) -> (r: Option<&str>)
        ensures
            match r {
                Some(s) => self@.as_str() == Some(s@),
                None => self@.as_str() is None,
            },
    {
        match self {
            JsonValue::String(s) => Some(s.as_str()),
            _ => None,
        }
    }

    pub fn as_u64(&self) -> (r: Option<u64>)
        ensures
            r == self@.as_u64(),
    {
        match self {
            JsonValue::Number(JsonNumber::PosInt(n)) => Some(*n),
            _ => None,
        }
    }

    pub fn as_i64(&self) -> (r: Option<i64>)
        ensures
            r == self@.as_i64(),
    {
        match self {
            JsonValue::Number(JsonNumber::PosInt(n)) => if *n <= 9223372036854775807u64 {
                Some(*n as i64)
            } else {
                None
            },
            JsonValue::Number(JsonNumber::NegInt(n)) => Some(*n),
            _ => None,
        }
    }

    pub fn as_bool(&self) -> (r: Option<bool>)
        ensures
            r == self@.as_bool(),
    {
        match self {
            JsonValue::Bool(b) => Some(*b),
            _ => None,
        }
    }

    pub fn is_null(&self) -> (r: bool)
        ensures
            r == self@.is_null(),
    {
        match self {
            JsonValue::Null => true,
            _ => false,
        }
    }

    /// The entries of an object.
    pub fn as_object(&self) -> (r: Option<&Vec<(String, JsonValue)>>)
        ensures
            match r {
                Some(entries) => self@.as_object() == Some(entries_model(entries@)),
                None => self@.as_object() is None,
            },
    {
        match self {
            JsonValue::Object(entries) => {
                proof {
                    lemma_object_model(*entries);
                }
                Some(entries)
            },
            _ => None,
        }
    }
}


/// An array's model is the model of its items.
pub proof fn lemma_array_model(items: Vec<JsonValue>)
    ensures
        JsonValue::Array(items)@ == JsonModel::Array(Seq::new(items@.len(), |i: int| items@[i]@)),
{
    assert(JsonValue::Array(items)@->Array_0 =~= Seq::new(items@.len(), |i: int| items@[i]@));
}

impl JsonNumber {
    pub fn deep_clone(&self) -> (r: JsonNumber)
        ensures
            r.model() == self.model(),
    {
        match self {
            JsonNumber::PosInt(n) => JsonNumber::PosInt(*n),
            JsonNumber::NegInt(n) => JsonNumber::NegInt(*n),
            JsonNumber::Float(s) => JsonNumber::Float(FloatText { text: s.text.clone() }),
        }
    }
}

impl JsonValue {
    /// A copy of the document with the same model.
    pub fn deep_clone(&self) -> (r: JsonValue)
        ensures
            r@ == self@,
        decreases self,
    {
        match self {
            JsonValue::Null => JsonValue::Null,
            JsonValue::Bool(b) => JsonValue::Bool(*b),
            JsonValue::Number(n) => JsonValue::Number(n.deep_clone()),
            JsonValue::String(s) => JsonValue::String(s.clone()),
            JsonValue::Array(items) => {
                let mut out: Vec<JsonValue> = Vec::new();
                let mut i: usize = 0;
                while i < items.len()
                    invariant
                        *self == JsonValue::Array(*items),
                        i <= items.len(),
                        out@.len() == i,
                        forall|j: int| 0 <= j < i ==> #[trigger] out@[j]@ == items@[j]@,
                    decreases items.len() - i,
                {
                    proof {
                        vstd::std_specs::vec::axiom_vec_index_decreases(*items, i as int);
                        assert(decreases_to!(*items => items[i as int]));
                        assert(decreases_to!(*self => (*self)->Array_0));
                    }
                    let copy = items[i].deep_clone();
                    out.push(copy);
                    i += 1;
                }
                proof {
                    lemma_array_model(*items);
                    lemma_array_model(out);
                    assert(Seq::new(out@.len(), |j: int| out@[j]@) =~= Seq::new(
                        items@.len(),
                        |j: int| items@[j]@,
                    ));
                }
                JsonValue::Array(out)
            },
            JsonValue::Object(entries) => {
                let mut out: Vec<(String, JsonValue)> = Vec::new();
                let mut i: usize = 0;
                while i < entries.len()
                    invariant
                        *self == JsonValue::Object(*entries),
                        i <= entries.len(),
                        out@.len() == i,
                        forall|j: int|
                            0 <= j < i ==> #[trigger] out@[j].0@ == entries@[j].0@ && out@[j].1@
                                == entries@[j].1@,
                    decreases entries.len() - i,
                {
                    let key = entries[i].0.clone();
                    proof {
                        vstd::std_specs::vec::axiom_vec_index_decreases(*entries, i as int);
                        assert(decreases_to!(*entries => entries[i as int]));
                        assert(decreases_to!(*self => (*self)->Object_0));
                        assert(decreases_to!(entries[i as int] => entries[i as int].1));
                    }
                    let value = entries[i].1.deep_clone();
                    out.push((key, value));
                    i += 1;
                }
                proof {
                    lemma_object_model(*entries);
                    lemma_object_model(out);
                    assert(entries_model(out@) =~= entries_model(entries@));
                }
                JsonValue::Object(out)
            },
        }
    }
}


/// The value stored under `key` among an object's entries.
pub fn entries_get<'a>(entries: &'a Vec<(String, JsonValue)>, key: &str) -> (r: Option<&'a JsonValue>)
    ensures
        opt_model(r) == lookup(entries_model(entries@), key@),
{
    let owned = key.to_owned();
    match find_key(entries, &owned) {
        Some(i) => Some(&entries[i].1),
        None => None,
    }
}

/// A copy of an object's entries with the same model.
pub fn clone_entries(entries: &Vec<(String, JsonValue)>) -> (r: Vec<(String, JsonValue)>)
    ensures
        entries_model(r@) == entries_model(entries@),
{
    let mut out: Vec<(String, JsonValue)> = Vec::new();
    let mut i: usize = 0;
    while i < entries.len()
        invariant
            i <= entries.len(),
            out@.len() == i,
            forall|j: int|
                0 <= j < i ==> #[trigger] out@[j].0@ == entries@[j].0@ && out@[j].1@
                    == entries@[j].1@,
        decreases entries.len() - i,
    {
        let key = entries[i].0.clone();
        let value = entries[i].1.deep_clone();
        out.push((key, value));
        i += 1;
    }
    proof {
        assert(entries_model(out@) =~= entries_model(entries@));
    }
    out
}


/// No two entries share a key, as in a serde_json map.
pub open spec fn keys_distinct(entries: Seq<(Seq<char>, JsonModel)>) -> bool {
    forall|i: int, j: int|
        0 <= i < entries.len() && 0 <= j < entries.len() && i != j ==> #[trigger] entries[i].0
            != #[trigger] entries[j].0
}

impl JsonModel {
    /// Every object in the document has distinct keys.
    pub open spec fn well_formed(self) -> bool
        decreases self,
    {
        match self {
            JsonModel::Array(items) => forall|i: int|
                0 <= i < items.len() ==> (#[trigger] items[i]).well_formed(),
            JsonModel::Object(entries) => keys_distinct(entries) && forall|i: int|
                0 <= i < entries.len() ==> (#[trigger] entries[i]).1.well_formed(),
            _ => true,
        }
    }
}

/// Storing the value a key already has changes nothing.
pub proof fn lemma_insert_present(entries: Seq<(Seq<char>, JsonModel)>, key: Seq<char>, value: JsonModel)
    requires
        lookup(entries, key) == Some(value),
    ensures
        insert_entry(entries, key, value) == entries,
{
    lemma_key_index(entries, key);
    let k = key_index(entries, key);
    assert(entries[k] == (key, value));
    assert(insert_entry(entries, key, value) =~= entries);
}

/// A value found in a well-formed object is well-formed.
pub proof fn lemma_lookup_well_formed(entries: Seq<(Seq<char>, JsonModel)>, key: Seq<char>)
    requires
        JsonModel::Object(entries).well_formed(),
    ensures
        lookup(entries, key) matches Some(v) ==> v.well_formed(),
{
    if has_key(entries, key) {
        lemma_key_index(entries, key);
        let k = key_index(entries, key);
        assert(entries[k].1.well_formed());
    }
}

/// Storing a well-formed value keeps an object well-formed: its keys stay
/// distinct.
pub proof fn lemma_insert_well_formed(
    entries: Seq<(Seq<char>, JsonModel)>,
    key: Seq<char>,
    value: JsonModel,
)
    requires
        JsonModel::Object(entries).well_formed(),
        value.well_formed(),
    ensures
        JsonModel::Object(insert_entry(entries, key, value)).well_formed(),
{
    let updated = insert_entry(entries, key, value);
    if has_key(entries, key) {
        lemma_key_index(entries, key);
        let k = key_index(entries, key);
        assert forall|i: int, j: int|
            0 <= i < updated.len() && 0 <= j < updated.len() && i != j implies #[trigger] updated[i].0
            != #[trigger] updated[j].0 by {
            assert(updated[i].0 == entries[i].0);
            assert(updated[j].0 == entries[j].0);
        }
        assert forall|i: int| 0 <= i < updated.len() implies (#[trigger] updated[i]).1.well_formed() by {
            if i != k {
                assert(updated[i] == entries[i]);
            }
        }
    } else {
        let n = entries.len() as int;
        assert forall|i: int, j: int|
            0 <= i < updated.len() && 0 <= j < updated.len() && i != j implies #[trigger] updated[i].0
            != #[trigger] updated[j].0 by {
            if i == n {
                assert(entries[j].0 != key);
            } else if j == n {
                assert(entries[i].0 != key);
            } else {
                assert(updated[i] == entries[i] && updated[j] == entries[j]);
            }
        }
        assert forall|i: int| 0 <= i < updated.len() implies (#[trigger] updated[i]).1.well_formed() by {
            if i < n {
                assert(updated[i] == entries[i]);
            }
        }
    }
}

} // verus!
