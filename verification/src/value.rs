//! JSON values, held as the compact text that goes over the wire.

use vstd::prelude::*;

use crate::text;

verus! {

/// A JSON value.
///
/// The library builds numbers, strings and arrays of numbers for the parameters of requests, and
/// carries the values that a server sends without looking inside. So a value is its compact JSON
/// text, which never holds a line feed. Values are equal as JSON values: `0.0` equals `-0.0`.
pub struct Value {
    text: String,
}

impl View for Value {
    type V = Seq<char>;

    closed spec fn view(&self) -> Seq<char> {
        self.text@
    }
}

/// The compact texts of values.
pub open spec fn texts(values: Seq<Value>) -> Seq<Seq<char>> {
    values.map_values(|v: Value| v@)
}

/// The texts of values are the text of each, in order.
pub proof fn lemma_texts(values: Seq<Value>)
    ensures
        texts(values).len() == values.len(),
        forall|i: int| 0 <= i < values.len() ==> #[trigger] texts(values)[i] == values[i]@,
{
}

/// The decimal notations of numbers.
pub open spec fn decimals(numbers: Seq<u32>) -> Seq<Seq<char>> {
    numbers.map_values(|n: u32| text::decimal(n as nat))
}

/// The compact text of an array of numbers.
pub open spec fn number_array(numbers: Seq<u32>) -> Seq<char> {
    seq!['['] + text::joined(decimals(numbers), seq![',']) + seq![']']
}

/// An array holds its numbers one after the other between brackets, with a comma between
/// neighbours: the array of two parts is that of the first with that of the second after a comma.
pub proof fn lemma_number_array(a: Seq<u32>, b: Seq<u32>, n: u32)
    ensures
        number_array(Seq::<u32>::empty()) == seq!['[', ']'],
        number_array(seq![n]) == seq!['['] + text::decimal(n as nat) + seq![']'],
        a.len() > 0 && b.len() > 0 ==> number_array(a + b) == number_array(a).drop_last()
            + seq![','] + number_array(b).drop_first(),
{
    let comma = seq![','];
    assert(decimals(Seq::<u32>::empty()) =~= Seq::<Seq<char>>::empty());
    assert(number_array(Seq::<u32>::empty()) =~= seq!['[', ']']);
    assert(decimals(seq![n])[0] == text::decimal(n as nat));
    if a.len() > 0 && b.len() > 0 {
        assert(decimals(a + b) =~= decimals(a) + decimals(b));
        text::lemma_joined_parts(decimals(a), decimals(b), comma);
        assert(number_array(a).drop_last() =~= seq!['['] + text::joined(decimals(a), comma));
        assert(number_array(b).drop_first() =~= text::joined(decimals(b), comma) + seq![']']);
        assert(number_array(a + b) =~= number_array(a).drop_last() + comma
            + number_array(b).drop_first());
    }
}

/// The compact text of the JSON document in `text`, if `text` is one.
pub uninterp spec fn json_compact(text: Seq<char>) -> Option<Seq<char>>;

/// Reads a JSON document and writes it back compactly: `serde_json::from_str` into a
/// `serde_json::Value`, then that value's `Display`.
///
/// What comes out depends on the text alone. The compact form puts no white space between tokens
/// and escapes control characters inside strings, so it holds no line feed.
#[verifier::external_body]
fn compact_json(text: &str) -> (compact: Option<String>)
    ensures
        json_compact(text@) == (match compact {
            Some(c) => Some(c@),
            None => None,
        }),
        compact matches Some(c) ==> text::one_line(c@),
{
    match serde_json::from_str::<serde_json::Value>(text) {
        Ok(value) => Some(value.to_string()),
        Err(_) => None,
    }
}

/// Whether two texts are JSON documents with equal values.
pub uninterp spec fn json_equal(a: Seq<char>, b: Seq<char>) -> bool;

/// Compares two JSON documents: `==` of the `serde_json::Value`s that they are read as.
///
/// What comes out depends on the texts alone. It is `false` where one of them is no document.
#[verifier::external_body]
fn equal_json(a: &str, b: &str) -> (equal: bool)
    ensures
        equal == json_equal(a@, b@),
{
    let read = serde_json::from_str::<serde_json::Value>;
    match (read(a), read(b)) {
        (Ok(a), Ok(b)) => a == b,
        _ => false,
    }
}

impl PartialEq for Value {
    fn eq(&self, other: &Self) -> (equal: bool)
        ensures
            equal == json_equal(self@, other@),
    {
        equal_json(self.text.as_str(), other.text.as_str())
    }
}

impl vstd::std_specs::cmp::PartialEqSpecImpl for Value {
    open spec fn obeys_eq_spec() -> bool {
        true
    }

    open spec fn eq_spec(&self, other: &Self) -> bool {
        json_equal(self@, other@)
    }
}

impl Eq for Value {

}

impl std::fmt::Debug for Value {
    /// The `Debug` of the `serde_json::Value` that the text is read as. Nothing is claimed of it.
    #[verifier::external_body]
    fn fmt(&self, f: &mut std::fmt::Formatter<'_>) -> std::fmt::Result {
        match serde_json::from_str::<serde_json::Value>(&self.text) {
            Ok(value) => std::fmt::Debug::fmt(&value, f),
            Err(error) => std::fmt::Debug::fmt(&error, f),
        }
    }
}

impl std::hash::Hash for Value {
    /// The `Hash` of the `serde_json::Value` that the text is read as, which agrees with `==`.
    /// Nothing is claimed of it.
    #[verifier::external_body]
    fn hash<H: std::hash::Hasher>(&self, state: &mut H) {
        serde_json::from_str::<serde_json::Value>(&self.text).ok().hash(state)
    }
}

impl Value {
    #[verifier::type_invariant]
    closed spec fn wf(&self) -> bool {
        text::one_line(self.text@)
    }

    /// The value of a JSON document, or `None` where the text is not one.
    pub fn parse(text: &str) -> (value: Option<Value>)
        ensures
            json_compact(text@) == (match value {
                Some(v) => Some(v@),
                None => None,
            }),
    {
        match compact_json(text) {
            Some(text) => Some(Value { text }),
            None => None,
        }
    }

    /// A number.
    pub fn number(n: u64) -> (value: Value)
        ensures
            value@ == text::decimal(n as nat),
    {
        let mut text = String::new();
        text::push_decimal(&mut text, n);
        proof {
            text::lemma_decimal_one_line(n as nat);
            assert(text@ == text::decimal(n as nat));
        }
        Value { text }
    }

    /// A string.
    pub fn string(s: &str) -> (value: Value)
        ensures
            value@ == text::json_string(s@),
    {
        let text = text::to_json_string(s);
        proof {
            text::lemma_json_string_one_line(s@);
        }
        Value { text }
    }

    /// An array of numbers.
    pub fn numbers(numbers: &[u32]) -> (value: Value)
        ensures
            value@ == number_array(numbers@),
    {
        let mut text = String::new();
        text.append("[");
        proof {
            reveal_strlit("[");
            reveal_strlit(",");
            reveal_strlit("]");
        }
        let mut i: usize = 0;
        while i < numbers.len()
            invariant
                i <= numbers@.len(),
                text@ == seq!['['] + text::joined(decimals(numbers@.take(i as int)), seq![',']),
                ","@ == seq![','],
            decreases numbers@.len() - i,
        {
            proof {
                let before = decimals(numbers@.take(i as int));
                let after = decimals(numbers@.take(i + 1));
                assert(after.drop_last() == before);
                assert(after.last() == text::decimal(numbers@[i as int] as nat));
                assert(i == 0 ==> before == Seq::<Seq<char>>::empty());
                assert(i == 0 ==> text::joined(after, seq![',']) == after[0]);
            }
            if i > 0 {
                text.append(",");
            }
            text::push_decimal(&mut text, numbers[i] as u64);
            i = i + 1;
        }
        text.append("]");
        proof {
            assert(numbers@.take(i as int) == numbers@);
            let items = decimals(numbers@);
            assert forall|k: int| 0 <= k < items.len() implies text::one_line(
                #[trigger] items[k],
            ) by {
                text::lemma_decimal_one_line(numbers@[k] as nat);
            }
            text::lemma_joined_one_line(items, seq![',']);
            assert(text@ == number_array(numbers@));
        }
        Value { text }
    }

    /// The compact JSON text.
    pub fn as_str(&self) -> (text: &str)
        ensures
            text@ == self@,
            text::one_line(text@),
    {
        proof {
            use_type_invariant(self);
        }
        self.text.as_str()
    }
}

impl Clone for Value {
    fn clone(&self) -> (copy: Self)
        ensures
            copy == *self,
    {
        proof {
            use_type_invariant(self);
        }
        Value { text: self.text.clone() }
    }
}

} // verus!
