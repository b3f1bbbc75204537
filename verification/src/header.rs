use vstd::prelude::*;

verus! {

/// A single parsed header: a name/value pair taken from one `key=value`
/// command-line token. Both parts are non-empty by construction.
#[derive(Debug, Clone, PartialEq, Eq)]
pub struct HeaderPair {
    pub name: String,
    pub value: String,
}

/// The error produced when a header token is not of the form `key=value`.
#[derive(Debug, Clone, Copy, PartialEq, Eq)]
pub enum ParseError {
    MalformedHeader,
}

impl ParseError {
    /// The human-readable description of the error.
    pub fn message(&self) -> (r: &'static str)
        ensures
            r@ == "malformed header"@,
    {
        "malformed header"
    }
}

/// Holds when `i` is the position of the only `=` in `s`.
pub open spec fn only_eq_at(s: Seq<char>, i: int) -> bool {
    &&& 0 <= i < s.len()
    &&& s[i] == '='
    &&& forall|j: int| 0 <= j < s.len() && j != i ==> s[j] != '='
}

/// A header token is well formed when it holds exactly one `=` and that `=`
/// has at least one character on each side.
pub open spec fn valid_header(s: Seq<char>) -> bool {
    exists|i: int| only_eq_at(s, i) && 0 < i && i + 1 < s.len()
}

/// Holds when `name` and `value` are the two sides of the only `=` in `s`.
pub open spec fn header_parts(s: Seq<char>, name: Seq<char>, value: Seq<char>) -> bool {
    exists|i: int|
        {
            &&& only_eq_at(s, i)
            &&& 0 < i
            &&& i + 1 < s.len()
            &&& name == s.subrange(0, i)
            &&& value == s.subrange(i + 1, s.len() as int)
        }
}

/// Splits one `key=value` token into a header pair.
///
/// Succeeds exactly when the token holds a single `=` with non-empty text on
/// both sides; the name is everything before the `=` and the value everything
/// after it. A token with no `=`, with more than one `=`, or with an empty
/// side is rejected.
pub fn parse_header(s: &str) -> (r: Result<HeaderPair, ParseError>)
    ensures
        r is Ok <==> valid_header(s@),
        r matches Ok(h) ==> header_parts(s@, h.name@, h.value@),
        r matches Err(e) ==> e == ParseError::MalformedHeader,
{
    let n = s.unicode_len();
    let mut i: usize = 0;
    let mut count: usize = 0;
    let mut first: usize = 0;
    let mut second: usize = 0;
    while i < n
        invariant
            n == s@.len(),
            i <= n,
            count <= i,
            count == 0 ==> forall|j: int| 0 <= j < i ==> s@[j] != '=',
            count >= 1 ==> first < i && s@[first as int] == '=' && (forall|j: int|
                0 <= j < first ==> s@[j] != '='),
            count == 1 ==> forall|j: int| first < j < i ==> s@[j] != '=',
            count >= 2 ==> first < second < i && s@[second as int] == '=',
        decreases n - i,
    {
        if s.get_char(i) == '=' {
            if count == 0 {
                first = i;
            } else if count == 1 {
                second = i;
            }
            count = count + 1;
        }
        i = i + 1;
    }
    if count != 1 {
        return Err(ParseError::MalformedHeader);
    }
    if first == 0 || first + 1 == n {
        return Err(ParseError::MalformedHeader);
    }
    proof {
        assert forall|j: int| 0 <= j < s@.len() && j != first implies s@[j] != '=' by {}
        assert(only_eq_at(s@, first as int));
    }
    let name = s.substring_char(0, first).to_owned();
    let value = s.substring_char(first + 1, n).to_owned();
    Ok(HeaderPair { name, value })
}

} // verus!
