//! Read access to a parsed JSON document.
//!
//! A document is parsed once by serde_json and then read through JSON
//! pointers (RFC 6901). What a lookup yields is named by the document's text
//! and the pointer, so the decoders above this layer can state their results
//! exactly in terms of those names.
use vstd::prelude::*;

verus! {

#[verifier::external_type_specification]
#[verifier::external_body]
pub struct ExValue(serde_json::Value);

/// The text is one JSON value, as serde_json reads it.
pub uninterp spec fn json_parses(text: Seq<char>) -> bool;

/// Some value stands at pointer `ptr` of the document `text`.
pub uninterp spec fn json_present(text: Seq<char>, ptr: Seq<char>) -> bool;

/// The value at pointer `ptr` of `text` is `null`.
pub uninterp spec fn json_null(text: Seq<char>, ptr: Seq<char>) -> bool;

/// The string at pointer `ptr` of `text`, if a string stands there.
pub uninterp spec fn json_str(text: Seq<char>, ptr: Seq<char>) -> Option<Seq<char>>;

/// The non-negative integer at pointer `ptr` of `text`, if one stands there.
pub uninterp spec fn json_u64(text: Seq<char>, ptr: Seq<char>) -> Option<u64>;

/// The decimal text of the number at pointer `ptr` of `text`, if a number
/// stands there.
pub uninterp spec fn json_number(text: Seq<char>, ptr: Seq<char>) -> Option<Seq<char>>;

/// The length of the array at pointer `ptr` of `text`, if an array stands there.
pub uninterp spec fn json_len(text: Seq<char>, ptr: Seq<char>) -> Option<nat>;

/// A parsed JSON document together with the text it was parsed from.
pub struct JsonDoc {
    text: String,
    root: serde_json::Value,
}

impl JsonDoc {
    /// The text this document was parsed from.
    pub closed spec fn text(&self) -> Seq<char> {
        self.text@
    }

    /// Relies on serde_json::from_str into a serde_json::Value: it succeeds
    /// exactly on the texts that hold one JSON value.
    #[verifier::external_body]
    pub(crate) fn parse(text: &str) -> (r: Option<JsonDoc>)
        ensures
            r.is_some() == json_parses(text@),
            r matches Some(d) ==> d.text() == text@,
    {
        match serde_json::from_str::<serde_json::Value>(text) {
            Ok(root) => Some(JsonDoc { text: text.to_string(), root }),
            Err(_) => None,
        }
    }

    /// Relies on serde_json's Value::pointer: the value that the pointer
    /// addresses, if any. Where nothing is addressed, no lookup below finds
    /// anything there.
    #[verifier::external_body]
    pub(crate) fn at(&self, ptr: &str) -> (r: Option<JsonNode>)
        ensures
            r.is_some() == json_present(self.text(), ptr@),
            r matches Some(n) ==> n.doc() == self.text() && n.ptr() == ptr@,
            r is None ==> !json_null(self.text(), ptr@) && json_str(self.text(), ptr@) is None
                && json_u64(self.text(), ptr@) is None && json_number(self.text(), ptr@) is None
                && json_len(self.text(), ptr@) is None,
    {
        match self.root.pointer(ptr) {
            Some(v) => Some(JsonNode { value: v.clone(), doc: self.text.clone(), ptr: ptr.to_string() }),
            None => None,
        }
    }
}

/// The value at one pointer of a parsed document.
pub struct JsonNode {
    value: serde_json::Value,
    doc: String,
    ptr: String,
}

impl JsonNode {
    /// The text of the document this value was found in.
    pub closed spec fn doc(&self) -> Seq<char> {
        self.doc@
    }

    /// The pointer this value was found at.
    pub closed spec fn ptr(&self) -> Seq<char> {
        self.ptr@
    }

    /// Relies on serde_json's Value::is_null.
    #[verifier::external_body]
    pub(crate) fn is_null(&self) -> (r: bool)
        ensures
            r == json_null(self.doc(), self.ptr()),
    {
        self.value.is_null()
    }

    /// Relies on serde_json's Value::as_str: the string, when the value is one.
    #[verifier::external_body]
    pub(crate) fn as_str(&self) -> (r: Option<String>)
        ensures
            r matches Some(s) ==> json_str(self.doc(), self.ptr()) == Some(s@),
            r is None ==> json_str(self.doc(), self.ptr()) is None,
    {
        self.value.as_str().map(|s| s.to_string())
    }

    /// Relies on serde_json's Value::as_u64: the integer, when the value is
    /// one that fits in a u64.
    #[verifier::external_body]
    pub(crate) fn as_u64(&self) -> (r: Option<u64>)
        ensures
            r == json_u64(self.doc(), self.ptr()),
    {
        self.value.as_u64()
    }

    /// Relies on the Display of serde_json's Number: the decimal text, when
    /// the value is a number.
    #[verifier::external_body]
    pub(crate) fn number_text(&self) -> (r: Option<String>)
        ensures
            r matches Some(s) ==> json_number(self.doc(), self.ptr()) == Some(s@),
            r is None ==> json_number(self.doc(), self.ptr()) is None,
    {
        match &self.value {
            serde_json::Value::Number(n) => Some(n.to_string()),
            _ => None,
        }
    }

    /// Relies on serde_json's Value::as_array: the length, when the value is
    /// an array.
    #[verifier::external_body]
    pub(crate) fn array_len(&self) -> (r: Option<usize>)
        ensures
            r matches Some(n) ==> json_len(self.doc(), self.ptr()) == Some(n as nat),
            r is None ==> json_len(self.doc(), self.ptr()) is None,
    {
        self.value.as_array().map(|a| a.len())
    }
}

/// The string at `ptr`, if a string stands there.
pub(crate) fn str_at(doc: &JsonDoc, ptr: &str) -> (r: Option<String>)
    ensures
        r matches Some(s) ==> json_str(doc.text(), ptr@) == Some(s@),
        r is None ==> json_str(doc.text(), ptr@) is None,
{
    match doc.at(ptr) {
        Some(n) => n.as_str(),
        None => None,
    }
}

/// The integer at `ptr`, if one that fits in a u64 stands there.
pub(crate) fn u64_at(doc: &JsonDoc, ptr: &str) -> (r: Option<u64>)
    ensures
        r == json_u64(doc.text(), ptr@),
{
    match doc.at(ptr) {
        Some(n) => n.as_u64(),
        None => None,
    }
}

/// The decimal text of the number at `ptr`, if a number stands there.
pub(crate) fn number_at(doc: &JsonDoc, ptr: &str) -> (r: Option<String>)
    ensures
        r matches Some(s) ==> json_number(doc.text(), ptr@) == Some(s@),
        r is None ==> json_number(doc.text(), ptr@) is None,
{
    match doc.at(ptr) {
        Some(n) => n.number_text(),
        None => None,
    }
}

/// Whether `ptr` is absent or addresses `null`.
pub(crate) fn absent_or_null(doc: &JsonDoc, ptr: &str) -> (r: bool)
    ensures
        r == (!json_present(doc.text(), ptr@) || json_null(doc.text(), ptr@)),
{
    match doc.at(ptr) {
        Some(n) => n.is_null(),
        None => true,
    }
}

/// The length of the array at `ptr`, if an array stands there.
pub(crate) fn len_at(doc: &JsonDoc, ptr: &str) -> (r: Option<usize>)
    ensures
        r matches Some(n) ==> json_len(doc.text(), ptr@) == Some(n as nat),
        r is None ==> json_len(doc.text(), ptr@) is None,
{
    match doc.at(ptr) {
        Some(n) => n.array_len(),
        None => None,
    }
}

/// The character for a decimal digit.
pub open spec fn digit_char(d: nat) -> char
    recommends
        d < 10,
{
    seq!['0', '1', '2', '3', '4', '5', '6', '7', '8', '9'][d as int]
}

/// The decimal text of a natural number, without leading zeros.
pub open spec fn decimal(n: nat) -> Seq<char>
    decreases n,
{
    if n < 10 {
        seq![digit_char(n)]
    } else {
        decimal(n / 10).push(digit_char(n % 10))
    }
}

fn digit_str(d: usize) -> (r: &'static str)
    requires
        d < 10,
    ensures
        r@ == seq![digit_char(d as nat)],
{
    proof {
        reveal_strlit("0");
        reveal_strlit("1");
        reveal_strlit("2");
        reveal_strlit("3");
        reveal_strlit("4");
        reveal_strlit("5");
        reveal_strlit("6");
        reveal_strlit("7");
        reveal_strlit("8");
        reveal_strlit("9");
    }
    let r = match d {
        0 => "0",
        1 => "1",
        2 => "2",
        3 => "3",
        4 => "4",
        5 => "5",
        6 => "6",
        7 => "7",
        8 => "8",
        _ => "9",
    };
    assert(r@ =~= seq![digit_char(d as nat)]);
    r
}

/// The decimal text of `n`, as used for an array index in a JSON pointer.
pub fn decimal_text(n: usize) -> (r: String)
    ensures
        r@ == decimal(n as nat),
    decreases n,
{
    if n < 10 {
        String::from_str(digit_str(n))
    } else {
        let mut s = decimal_text(n / 10);
        s.append(digit_str(n % 10));
        s
    }
}

} // verus!
