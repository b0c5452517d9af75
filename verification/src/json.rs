//! JSON values as plain data: what requests, snapshots and protocol lines hold.
use vstd::prelude::*;

use crate::text::same_text;

verus! {

/// A JSON value.
///
/// An object lists its members in order; where a name is repeated, the last
/// member of that name is the one that counts.
#[derive(Debug)]
pub enum Json {
    /// `null`.
    Null,
    /// `true` or `false`.
    Bool(bool),
    /// A non-negative integer of at most 64 bits.
    Unsigned(u64),
    /// A negative integer of at most 64 bits.
    Negative(i64),
    /// Any other number, in its shortest decimal notation.
    Decimal(String),
    /// A string.
    Text(String),
    /// An array.
    Array(Vec<Json>),
    /// An object.
    Object(Vec<(String, Json)>),
}

/// What a JSON value says, free of how it is laid out in memory.
///
/// Two values have the same view exactly when they compare equal: the order of
/// an object's members does not matter, and negative zero is zero.
#[verifier::ext_equal]
pub enum JsonView {
    /// `null`.
    Null,
    /// `true` or `false`.
    Bool(bool),
    /// A non-negative integer.
    Unsigned(u64),
    /// A negative integer.
    Negative(i64),
    /// Any other number, in decimal notation.
    Decimal(Seq<char>),
    /// A string.
    Text(Seq<char>),
    /// An array.
    Array(Seq<JsonView>),
    /// An object, by member name.
    Object(Map<Seq<char>, JsonView>),
}

/// What an integer says.
pub open spec fn integer(n: i64) -> JsonView {
    if n < 0 { JsonView::Negative(n) } else { JsonView::Unsigned(n as u64) }
}

/// A decimal notation with negative zero written as zero.
pub open spec fn zero_normalized(text: Seq<char>) -> Seq<char> {
    if text == "-0.0"@ { "0.0"@ } else { text }
}

/// The view of a value.
pub open spec fn json_view(json: Json) -> JsonView
    decreases json,
{
    match json {
        Json::Null => JsonView::Null,
        Json::Bool(b) => JsonView::Bool(b),
        Json::Unsigned(n) => JsonView::Unsigned(n),
        Json::Negative(n) => JsonView::Negative(n),
        Json::Decimal(s) => JsonView::Decimal(zero_normalized(s@)),
        Json::Text(s) => JsonView::Text(s@),
        Json::Array(items) => JsonView::Array(items_view(items@)),
        Json::Object(members) => JsonView::Object(members_view(members@)),
    }
}

/// The views of an array's elements.
pub open spec fn items_view(items: Seq<Json>) -> Seq<JsonView>
    decreases items,
{
    Seq::new(items.len(), |i: int| if 0 <= i < items.len() { json_view(items[i]) } else { JsonView::Null })
}

/// An object's members by name; a later member replaces an earlier one.
pub open spec fn members_view(members: Seq<(String, Json)>) -> Map<Seq<char>, JsonView>
    decreases members,
{
    if members.len() == 0 {
        Map::empty()
    } else {
        members_view(members.drop_last()).insert(members.last().0@, json_view(members.last().1))
    }
}

impl View for Json {
    type V = JsonView;

    open spec fn view(&self) -> JsonView {
        json_view(*self)
    }
}

impl Json {
    /// The names of an object's members, in the order in which they are written.
    pub open spec fn names(&self) -> Seq<Seq<char>> {
        match self {
            Json::Object(members) => members@.map_values(|member: (String, Json)| member.0@),
            _ => Seq::empty(),
        }
    }
}

/// The member of that name, where the value is an object that has one.
pub open spec fn member(json: JsonView, name: Seq<char>) -> Option<JsonView> {
    match json {
        JsonView::Object(members) if members.contains_key(name) => Some(members[name]),
        _ => None,
    }
}

/// The non-negative integer that a value is, if it is one.
pub open spec fn unsigned(json: JsonView) -> Option<u64> {
    match json {
        JsonView::Unsigned(n) => Some(n),
        _ => None,
    }
}

/// The non-negative integer member of that name, if the value has one.
pub open spec fn unsigned_member(json: JsonView, name: Seq<char>) -> Option<u64> {
    match member(json, name) {
        Some(found) => unsigned(found),
        None => None,
    }
}

/// Whether the value is an object with a member of another name.
pub open spec fn has_member_besides(json: JsonView, name: Seq<char>) -> bool {
    match json {
        JsonView::Object(members) => exists|other: Seq<char>| #[trigger] members.contains_key(other) && other != name,
        _ => false,
    }
}

/// The last member of a name decides what the object holds under it.
proof fn lemma_last_member(members: Seq<(String, Json)>, at: int, name: Seq<char>)
    requires
        0 <= at < members.len(),
        members[at].0@ == name,
        forall|j: int| at < j < members.len() ==> (#[trigger] members[j]).0@ != name,
    ensures
        members_view(members).contains_key(name),
        members_view(members)[name] == json_view(members[at].1),
    decreases members.len(),
{
    if at < members.len() - 1 {
        let rest = members.drop_last();
        assert(members.last() == members[members.len() - 1]);
        assert forall|j: int| at < j < rest.len() implies (#[trigger] rest[j]).0@ != name by {
            assert(rest[j] == members[j]);
        }
        lemma_last_member(rest, at, name);
    }
}

/// A name that no member has is not in the object.
proof fn lemma_no_member(members: Seq<(String, Json)>, name: Seq<char>)
    requires
        forall|j: int| 0 <= j < members.len() ==> (#[trigger] members[j]).0@ != name,
    ensures
        !members_view(members).contains_key(name),
    decreases members.len(),
{
    if members.len() > 0 {
        let rest = members.drop_last();
        assert(members.last() == members[members.len() - 1]);
        assert forall|j: int| 0 <= j < rest.len() implies (#[trigger] rest[j]).0@ != name by {
            assert(rest[j] == members[j]);
        }
        lemma_no_member(rest, name);
    }
}

/// Where the last member of that name stands.
fn last_member(members: &Vec<(String, Json)>, name: &str) -> (found: Option<usize>)
    ensures
        found is Some <==> members_view(members@).contains_key(name@),
        found matches Some(i) ==> i < members.len() && members_view(members@)[name@]
            == json_view(members[i as int].1),
{
    let mut i: usize = members.len();
    while i > 0
        invariant
            i <= members.len(),
            forall|j: int| i <= j < members.len() ==> (#[trigger] members[j]).0@ != name@,
        decreases i,
    {
        i = i - 1;
        if same_text(members[i].0.as_str(), name) {
            proof {
                lemma_last_member(members@, i as int, name@);
            }
            return Some(i);
        }
    }
    proof {
        lemma_no_member(members@, name@);
    }
    None
}

impl Json {
    /// The member of that name, where the value is an object that has one.
    pub fn get(&self, name: &str) -> (found: Option<&Json>)
        ensures
            found is Some <==> member(self@, name@) is Some,
            found matches Some(json) ==> member(self@, name@) == Some(json@),
    {
        match self {
            Json::Object(members) => match last_member(members, name) {
                Some(i) => Some(&members[i].1),
                None => None,
            },
            _ => None,
        }
    }

    /// The value as a non-negative integer, if it is one.
    pub fn as_u64(&self) -> (n: Option<u64>)
        ensures
            n == unsigned(self@),
    {
        match self {
            Json::Unsigned(n) => Some(*n),
            _ => None,
        }
    }

    /// The value as a string, if it is one.
    pub fn as_str(&self) -> (s: Option<&str>)
        ensures
            s is Some <==> self@ is Text,
            s matches Some(t) ==> self@ == JsonView::Text(t@),
    {
        match self {
            Json::Text(s) => Some(s.as_str()),
            _ => None,
        }
    }

    /// Whether the value is an object.
    pub fn is_object(&self) -> (yes: bool)
        ensures
            yes == (self@ is Object),
    {
        match self {
            Json::Object(_) => true,
            _ => false,
        }
    }

    /// The non-negative integer member of that name, if the value has one.
    pub fn u64_member(&self, name: &str) -> (n: Option<u64>)
        ensures
            n == unsigned_member(self@, name@),
    {
        match self.get(name) {
            Some(json) => json.as_u64(),
            None => None,
        }
    }
}

/// A copy of a value.
fn copy_json(json: &Json) -> (copy: Json)
    ensures
        copy@ == json@,
    decreases json,
{
    match json {
        Json::Null => Json::Null,
        Json::Bool(b) => Json::Bool(*b),
        Json::Unsigned(n) => Json::Unsigned(*n),
        Json::Negative(n) => Json::Negative(*n),
        Json::Decimal(s) => Json::Decimal(s.clone()),
        Json::Text(s) => Json::Text(s.clone()),
        Json::Array(items) => Json::Array(copy_items(items)),
        Json::Object(members) => Json::Object(copy_members(members)),
    }
}

/// Copies of an array's elements.
fn copy_items(items: &Vec<Json>) -> (copy: Vec<Json>)
    ensures
        items_view(copy@) == items_view(items@),
    decreases items,
{
    let mut copy: Vec<Json> = Vec::new();
    let mut i: usize = 0;
    while i < items.len()
        invariant
            i <= items.len(),
            copy.len() == i,
            forall|j: int| 0 <= j < i ==> json_view(#[trigger] copy[j]) == json_view(items[j]),
        decreases items.len() - i,
    {
        let item = copy_json(&items[i]);
        copy.push(item);
        i = i + 1;
    }
    assert(items_view(copy@) =~= items_view(items@));
    copy
}

/// Copies of an object's members.
fn copy_members(members: &Vec<(String, Json)>) -> (copy: Vec<(String, Json)>)
    ensures
        members_view(copy@) == members_view(members@),
    decreases members,
{
    let mut copy: Vec<(String, Json)> = Vec::new();
    let mut i: usize = 0;
    while i < members.len()
        invariant
            i <= members.len(),
            copy.len() == i,
            members_view(copy@) == members_view(members@.take(i as int)),
        decreases members.len() - i,
    {
        let value = copy_json(&members[i].1);
        let ghost before = copy@;
        copy.push((members[i].0.clone(), value));
        i = i + 1;
        proof {
            assert(copy@.drop_last() =~= before);
            assert(members@.take(i as int).drop_last() =~= members@.take(i - 1));
        }
    }
    assert(members@.take(i as int) =~= members@);
    copy
}

impl Clone for Json {
    fn clone(&self) -> (copy: Self)
        ensures
            copy@ == self@,
    {
        copy_json(self)
    }
}

/// A decimal notation with negative zero written as zero.
fn without_negative_zero(text: &String) -> (normal: String)
    ensures
        normal@ == zero_normalized(text@),
{
    if same_text(text.as_str(), "-0.0") {
        "0.0".to_owned()
    } else {
        text.clone()
    }
}

/// Whether two values say the same.
fn same_json(a: &Json, b: &Json) -> (same: bool)
    ensures
        same == (a@ == b@),
    decreases a,
{
    match (a, b) {
        (Json::Null, Json::Null) => true,
        (Json::Bool(x), Json::Bool(y)) => *x == *y,
        (Json::Unsigned(x), Json::Unsigned(y)) => *x == *y,
        (Json::Negative(x), Json::Negative(y)) => *x == *y,
        (Json::Decimal(x), Json::Decimal(y)) => without_negative_zero(x) == without_negative_zero(y),
        (Json::Text(x), Json::Text(y)) => *x == *y,
        (Json::Array(x), Json::Array(y)) => same_items(x, y),
        (Json::Object(x), Json::Object(y)) => same_members(x, y),
        _ => false,
    }
}

/// Whether two arrays hold the same elements in the same order.
fn same_items(a: &Vec<Json>, b: &Vec<Json>) -> (same: bool)
    ensures
        same == (items_view(a@) == items_view(b@)),
    decreases a,
{
    if a.len() != b.len() {
        assert(items_view(a@).len() != items_view(b@).len());
        return false;
    }
    let mut i: usize = 0;
    while i < a.len()
        invariant
            i <= a.len(),
            a.len() == b.len(),
            forall|j: int| 0 <= j < i ==> json_view(#[trigger] a[j]) == json_view(b[j]),
        decreases a.len() - i,
    {
        if !same_json(&a[i], &b[i]) {
            assert(items_view(a@)[i as int] != items_view(b@)[i as int]);
            return false;
        }
        i = i + 1;
    }
    assert(items_view(a@) =~= items_view(b@));
    true
}

/// Every name in the object belongs to one of the listed members.
proof fn lemma_member_listed(members: Seq<(String, Json)>, name: Seq<char>)
    requires
        members_view(members).contains_key(name),
    ensures
        exists|j: int| 0 <= j < members.len() && (#[trigger] members[j]).0@ == name,
{
    if forall|j: int| 0 <= j < members.len() ==> (#[trigger] members[j]).0@ != name {
        lemma_no_member(members, name);
    }
}

/// Every listed member's name is in the object.
proof fn lemma_listed_member(members: Seq<(String, Json)>, at: int)
    requires
        0 <= at < members.len(),
    ensures
        members_view(members).contains_key(members[at].0@),
    decreases members.len(),
{
    if at < members.len() - 1 {
        assert(members.drop_last()[at] == members[at]);
        lemma_listed_member(members.drop_last(), at);
    }
}

/// Whether two objects hold the same members, in whatever order.
fn same_members(a: &Vec<(String, Json)>, b: &Vec<(String, Json)>) -> (same: bool)
    ensures
        same == (members_view(a@) == members_view(b@)),
    decreases a,
{
    let ghost left = members_view(a@);
    let ghost right = members_view(b@);
    let mut i: usize = 0;
    while i < a.len()
        invariant
            i <= a.len(),
            left == members_view(a@),
            right == members_view(b@),
            forall|j: int| 0 <= j < i ==> right.contains_key((#[trigger] a[j]).0@)
                && left[a[j].0@] == right[a[j].0@],
        decreases a.len() - i,
    {
        proof {
            lemma_listed_member(a@, i as int);
        }
        match (last_member(a, a[i].0.as_str()), last_member(b, a[i].0.as_str())) {
            (Some(x), Some(y)) => {
                if !same_json(&a[x].1, &b[y].1) {
                    return false;
                }
            },
            _ => {
                return false;
            },
        }
        i = i + 1;
    }
    let mut k: usize = 0;
    while k < b.len()
        invariant
            k <= b.len(),
            left == members_view(a@),
            right == members_view(b@),
            forall|j: int| 0 <= j < k ==> left.contains_key((#[trigger] b[j]).0@),
        decreases b.len() - k,
    {
        if last_member(a, b[k].0.as_str()).is_none() {
            proof {
                lemma_listed_member(b@, k as int);
            }
            return false;
        }
        k = k + 1;
    }
    proof {
        assert forall|name: Seq<char>| left.contains_key(name) == right.contains_key(name) by {
            if left.contains_key(name) {
                lemma_member_listed(a@, name);
            }
            if right.contains_key(name) {
                lemma_member_listed(b@, name);
            }
        }
        assert forall|name: Seq<char>| left.contains_key(name) implies left[name] == right[name] by {
            lemma_member_listed(a@, name);
        }
        assert(left =~= right);
    }
    true
}

/// Whether a member has another name.
fn listed_besides(members: &Vec<(String, Json)>, name: &str) -> (yes: bool)
    ensures
        yes == has_member_besides(JsonView::Object(members_view(members@)), name@),
{
    let mut i: usize = 0;
    while i < members.len()
        invariant
            i <= members.len(),
            forall|j: int| 0 <= j < i ==> (#[trigger] members[j]).0@ == name@,
        decreases members.len() - i,
    {
        if !same_text(members[i].0.as_str(), name) {
            proof {
                lemma_listed_member(members@, i as int);
                let other = members[i as int].0@;
                let view = JsonView::Object(members_view(members@));
                assert(view->Object_0.contains_key(other) && other != name@);
            }
            return true;
        }
        i = i + 1;
    }
    proof {
        assert forall|other: Seq<char>| #[trigger] members_view(members@).contains_key(other) implies other == name@ by {
            lemma_member_listed(members@, other);
        }
    }
    false
}

impl Json {
    /// Whether the value is an object with a member of another name.
    pub fn has_besides(&self, name: &str) -> (yes: bool)
        ensures
            yes == has_member_besides(self@, name@),
    {
        match self {
            Json::Object(members) => listed_besides(members, name),
            _ => false,
        }
    }

    /// Whether two values say the same.
    pub fn same(&self, other: &Json) -> (same: bool)
        ensures
            same == (self@ == other@),
    {
        same_json(self, other)
    }
}

/// An object with one more member; anything else is left as it is.
pub open spec fn with_member(json: JsonView, name: Seq<char>, value: JsonView) -> JsonView {
    match json {
        JsonView::Object(members) => JsonView::Object(members.insert(name, value)),
        _ => json,
    }
}

impl Json {
    /// The object without members.
    pub fn object() -> (json: Json)
        ensures
            json@ == JsonView::Object(Map::empty()),
            json.names() == Seq::<Seq<char>>::empty(),
    {
        Json::Object(Vec::new())
    }

    /// A string.
    pub fn text(text: &str) -> (json: Json)
        ensures
            json@ == JsonView::Text(text@),
    {
        Json::Text(text.to_owned())
    }

    /// An integer.
    pub fn integer(n: i64) -> (json: Json)
        ensures
            json@ == integer(n),
    {
        if n < 0 {
            Json::Negative(n)
        } else {
            Json::Unsigned(n as u64)
        }
    }

    /// An object with one more member; anything else is left as it is.
    pub fn with(self, name: &str, value: Json) -> (json: Json)
        ensures
            json@ == with_member(self@, name@, value@),
            self@ is Object ==> json.names() == self.names().push(name@),
    {
        match self {
            Json::Object(members) => {
                let mut members = members;
                let ghost before = members@;
                members.push((name.to_owned(), value));
                assert(members@.drop_last() =~= before);
                let json = Json::Object(members);
                assert(json.names() =~= self.names().push(name@));
                json
            },
            other => other,
        }
    }
}

impl PartialEq for Json {
    fn eq(&self, other: &Json) -> (same: bool) {
        same_json(self, other)
    }
}

impl vstd::std_specs::cmp::PartialEqSpecImpl for Json {
    open spec fn obeys_eq_spec() -> bool {
        true
    }

    open spec fn eq_spec(&self, other: &Json) -> bool {
        self@ == other@
    }
}

/// A value as `serde_json` holds it.
#[verifier::external_type_specification]
#[verifier::external_body]
pub struct ExJsonValue(serde_json::Value);

/// What `serde_json` reads a text as, or the sentence in which it says why the
/// text is not JSON.
pub uninterp spec fn json_read(text: Seq<char>) -> Result<JsonView, Seq<char>>;

/// Reads a text with `serde_json::from_str`; an error is kept as the sentence in
/// which it words itself (its `Display`).
///
/// The outcome is named: the same text is read the same way every time. What
/// the name says of a given text is the JSON grammar and the wording of its
/// errors, which are not restated.
#[verifier::external_body]
pub(crate) fn read_json(text: &str) -> (read: Result<Json, String>)
    ensures
        match read {
            Ok(json) => json_read(text@) == Ok::<JsonView, Seq<char>>(json@),
            Err(why) => json_read(text@) == Err::<JsonView, Seq<char>>(why@),
        },
{
    match serde_json::from_str::<serde_json::Value>(text) {
        Ok(value) => Ok(plain_json(value)),
        Err(error) => Err(error.to_string()),
    }
}

/// The plain form of a `serde_json::Value`, variant by variant.
#[verifier::external_body]
fn plain_json(value: serde_json::Value) -> Json {
    match value {
        serde_json::Value::Null => Json::Null,
        serde_json::Value::Bool(b) => Json::Bool(b),
        serde_json::Value::Number(n) => match (n.as_u64(), n.as_i64()) {
            (Some(u), _) => Json::Unsigned(u),
            (None, Some(i)) => Json::Negative(i),
            (None, None) => Json::Decimal(n.to_string()),
        },
        serde_json::Value::String(s) => Json::Text(s),
        serde_json::Value::Array(items) => Json::Array(items.into_iter().map(plain_json).collect()),
        serde_json::Value::Object(m) => Json::Object(m.into_iter().map(|(k, v)| (k, plain_json(v))).collect()),
    }
}

/// Whether a value is the negative zero, which says the same as zero.
pub open spec fn negative_zero(json: Json) -> bool {
    json matches Json::Decimal(text) && text@ == "-0.0"@
}

/// The sentence in which `serde_json` refuses a value as a lease; a zero that is
/// written as a decimal is worded with its sign, which the value's view leaves
/// out.
pub uninterp spec fn lease_refusal(lease: JsonView, negative_zero: bool) -> Seq<char>;

/// The sentence in which `serde_json::from_value` refuses a value as a
/// `NonZeroU64` (its error's `Display`); it is empty for a value that is one.
///
/// The sentence is named: the same value is refused in the same words every
/// time. They quote the value and are not restated.
#[verifier::external_body]
pub(crate) fn refuse_lease(lease: &Json) -> (why: String)
    ensures
        why@ == lease_refusal(lease@, negative_zero(*lease)),
{
    match serde_json::from_value::<std::num::NonZeroU64>(outside_json(lease)) {
        Ok(_) => String::new(),
        Err(error) => error.to_string(),
    }
}

/// The `serde_json::Value` of a plain value, variant by variant; a decimal
/// notation that `serde_json` does not read is null.
#[verifier::external_body]
fn outside_json(json: &Json) -> serde_json::Value {
    match json {
        Json::Null => serde_json::Value::Null,
        Json::Bool(b) => serde_json::Value::Bool(*b),
        Json::Unsigned(n) => serde_json::Value::from(*n),
        Json::Negative(n) => serde_json::Value::from(*n),
        Json::Decimal(s) => serde_json::from_str(s).unwrap_or(serde_json::Value::Null),
        Json::Text(s) => serde_json::Value::String(s.clone()),
        Json::Array(items) => serde_json::Value::Array(items.iter().map(outside_json).collect()),
        Json::Object(m) => serde_json::Value::Object(m.iter().map(|(k, v)| (k.clone(), outside_json(v))).collect()),
    }
}

} // verus!
