use vstd::prelude::*;

verus! {

/// What `std::str::from_utf8` makes of a byte sequence: the decoded text, or
/// `None` where the bytes are not well-formed UTF-8.
pub uninterp spec fn utf8_text(bytes: Seq<u8>) -> Option<Seq<char>>;

/// The text an optional string holds.
pub open spec fn text_view(o: Option<String>) -> Option<Seq<char>> {
    match o {
        Some(t) => Some(t@),
        None => None,
    }
}

/// Relies on `std::str::from_utf8`: it succeeds exactly on well-formed UTF-8
/// and then yields the decoded text; empty input is well-formed and decodes to
/// the empty string.
#[verifier::external_body]
fn decode_utf8(bytes: &Vec<u8>) -> (r: Option<String>)
    ensures
        utf8_text(bytes@) == text_view(r),
        bytes@.len() == 0 ==> text_view(r) == Some(Seq::<char>::empty()),
{
    match std::str::from_utf8(bytes.as_slice()) {
        Ok(t) => Some(t.to_string()),
        Err(_) => None,
    }
}

/// One value stored in a record: a tagged value of which, by the store's
/// convention, exactly one field is populated.
///
/// Nothing here enforces that convention. Where several fields are populated,
/// the readers below take the first of binary, string and number.
#[derive(Debug, Default)]
pub struct AttributeValue {
    /// A binary payload.
    pub b: Option<Vec<u8>>,
    /// A boolean.
    pub bool: Option<bool>,
    /// A set of binary payloads.
    pub bs: Option<Vec<Vec<u8>>>,
    /// A list of values.
    pub l: Option<Vec<AttributeValue>>,
    /// A map from names to values.
    pub m: Option<Vec<(String, AttributeValue)>>,
    /// A number, kept as the decimal text it was stored as.
    pub n: Option<String>,
    /// A set of numbers, each as decimal text.
    pub ns: Option<Vec<String>>,
    /// The null marker.
    pub null: Option<bool>,
    /// A UTF-8 string.
    pub s: Option<String>,
    /// A set of strings.
    pub ss: Option<Vec<String>>,
}

/// The decoding failure of a binary payload that is not well-formed UTF-8.
#[derive(Debug, Clone, Copy, PartialEq, Eq)]
pub struct DecodeError;

/// Whether a value can be read as text at all: a binary payload, where there
/// is one, must be well-formed UTF-8.
pub open spec fn decodes(a: AttributeValue) -> bool {
    match a.b {
        Some(bytes) => utf8_text(bytes@) is Some,
        None => true,
    }
}

/// The text a value reads as: its binary payload decoded, else its string,
/// else its number's decimal text, else nothing.
pub open spec fn display_of(a: AttributeValue) -> Option<Seq<char>> {
    match a.b {
        Some(bytes) => utf8_text(bytes@),
        None => match a.s {
            Some(s) => Some(s@),
            None => match a.n {
                Some(n) => Some(n@),
                None => None,
            },
        },
    }
}

/// Reads a value as text, given what its binary payload decoded to
/// (`binary_text`, which is looked at only when the value has a binary
/// payload; `None` there means the payload was not well-formed UTF-8).
///
/// The binary payload wins over the string, and the string over the number;
/// no other field is looked at.
pub fn attribute_text(attr: &AttributeValue, binary_text: Option<String>) -> (r: Result<
    Option<String>,
    DecodeError,
>)
    ensures
        attr.b is Some ==> match binary_text {
            Some(t) => r == Ok::<Option<String>, DecodeError>(Some(t)),
            None => r is Err,
        },
        attr.b is None ==> r is Ok && match r->Ok_0 {
            Some(t) => match attr.s {
                Some(s) => t@ == s@,
                None => attr.n matches Some(n) && t@ == n@,
            },
            None => attr.s is None && attr.n is None,
        },
{
    if attr.b.is_some() {
        match binary_text {
            Some(t) => Ok(Some(t)),
            None => Err(DecodeError),
        }
    } else if let Some(s) = &attr.s {
        Ok(Some(s.clone()))
    } else if let Some(n) = &attr.n {
        Ok(Some(n.clone()))
    } else {
        Ok(None)
    }
}

/// Reads a value as text: its binary payload decoded as UTF-8, else its
/// string, else its number's decimal text, else nothing. A binary payload
/// that is not well-formed UTF-8 is an error.
pub fn get_str_from_attribute(attr: &AttributeValue) -> (r: Result<Option<String>, DecodeError>)
    ensures
        r is Ok <==> decodes(*attr),
        r matches Ok(o) ==> match o {
            Some(t) => display_of(*attr) == Some(t@),
            None => display_of(*attr) is None,
        },
        // a value with a binary payload reads as that payload, whatever else it holds
        attr.b matches Some(bytes) ==> match r {
            Ok(Some(t)) => utf8_text(bytes@) == Some(t@),
            Ok(None) => false,
            Err(_) => utf8_text(bytes@) is None,
        },
        // a value with only a string, or only a number, reads as exactly that text
        attr.b is None && attr.s is Some ==> (r matches Ok(Some(t)) && t@ == attr.s->Some_0@),
        attr.b is None && attr.s is None && attr.n is Some ==> (r matches Ok(Some(t)) && t@
            == attr.n->Some_0@),
        // a value with none of the three reads as nothing
        attr.b is None && attr.s is None && attr.n is None ==> r == Ok::<
            Option<String>,
            DecodeError,
        >(None),
{
    let binary_text = match &attr.b {
        Some(bytes) => decode_utf8(bytes),
        None => None,
    };
    attribute_text(attr, binary_text)
}

} // verus!
