//! The part of HTTP that the service decides on: which route a request takes,
//! and the status and body of the response.

use crate::request::{lemma_message_not_empty, DecodeError, DecodeErrorView};
use crate::text::str_eq;
use vstd::prelude::*;
use vstd::string::{is_ascii, is_ascii_spec_bytes, StringExecFns, StringSliceAdditionalSpecFns};
use vstd::utf8::{encode_scalar, encode_utf8, is_ascii_chars, is_ascii_chars_encode_utf8};

verus! {

/// Status of a response that carries what was asked for.
pub const OK: u16 = 200;

/// Status of the response to a request that matches no route.
pub const NOT_FOUND: u16 = 404;

/// Status of the response to a body that is no distribution request.
pub const UNPROCESSABLE_ENTITY: u16 = 422;

/// Status of the response when the drawn value could not be encoded.
pub const INTERNAL_SERVER_ERROR: u16 = 500;

/// The body that the service greets a `GET` with.
pub const INDEX: &'static str = "Random Microservice";

/// The method of a request. `Extension` stands for every method that has no
/// variant of its own.
#[derive(Clone, Copy, Debug, PartialEq, Eq, Structural)]
pub enum Method {
    Options,
    Get,
    Post,
    Put,
    Delete,
    Head,
    Trace,
    Connect,
    Patch,
    Extension,
}

/// Where a request goes.
#[derive(Clone, Copy, Debug, PartialEq, Eq, Structural)]
pub enum Route {
    /// `GET /` and `GET /random`: the greeting.
    Index,
    /// `POST /random`: one draw from the distribution that the body names.
    Random,
    /// Everything else.
    NotFound,
}

/// A response: its status code and the bytes of its body.
#[derive(Clone, Debug, PartialEq, Eq)]
pub struct HttpOutcome {
    pub status: u16,
    pub body: Vec<u8>,
}

/// The body that the service answers with when the value is not one that
/// JSON has a number for.
pub const NOT_A_NUMBER: &'static str = "the value is not a number";

/// The character is a decimal digit.
pub open spec fn digit(c: char) -> bool {
    '0' <= c <= '9'
}

/// From `from` up to `to` there is at least one character, and each is a
/// digit.
pub open spec fn digits_in(text: Seq<char>, from: int, to: int) -> bool {
    from < to && forall|i: int| from <= i < to ==> digit(#[trigger] text[i])
}

/// The text is a JSON number whose integer part starts at `a`, whose fraction
/// starts at `b` and whose exponent starts at `c`:
/// an optional minus; digits, with no zero before another digit; optionally a
/// point and digits; optionally `e` or `E`, an optional sign, and digits.
pub open spec fn json_number_at(text: Seq<char>, a: int, b: int, c: int) -> bool {
    &&& 0 <= a <= b <= c <= text.len()
    &&& a == 0 || (a == 1 && text[0] == '-')
    &&& digits_in(text, a, b) && (b == a + 1 || text[a] != '0')
    &&& c == b || (text[b] == '.' && digits_in(text, b + 1, c))
    &&& c == text.len() || ((text[c] == 'e' || text[c] == 'E') && (digits_in(
        text,
        c + 1,
        text.len() as int,
    ) || ((text[c + 1] == '+' || text[c + 1] == '-') && digits_in(
        text,
        c + 2,
        text.len() as int,
    ))))
}

/// The text is a number as JSON writes one, and nothing else: not `null`, not
/// a string, not a number with something before or after it.
pub open spec fn json_number(text: Seq<char>) -> bool {
    exists|a: int, b: int, c: int| json_number_at(text, a, b, c)
}

/// The body of a successful response: an object whose one member, `value`, is
/// the number.
pub open spec fn value_object(number: Seq<char>) -> Seq<char> {
    "{\"value\":"@ + number + "}"@
}

/// The route of a method and a path. Both are matched exactly: a path with a
/// trailing slash, a query or another case is a different path.
pub open spec fn route_of(method: Method, path: Seq<char>) -> Route {
    if method == Method::Get && (path == "/"@ || path == "/random"@) {
        Route::Index
    } else if method == Method::Post && path == "/random"@ {
        Route::Random
    } else {
        Route::NotFound
    }
}

/// Finds the route of a request.
pub fn route(method: Method, path: &str) -> (r: Route)
    ensures
        r == route_of(method, path@),
{
    match method {
        Method::Get => if str_eq(path, "/") || str_eq(path, "/random") {
            Route::Index
        } else {
            Route::NotFound
        },
        Method::Post => if str_eq(path, "/random") {
            Route::Random
        } else {
            Route::NotFound
        },
        _ => Route::NotFound,
    }
}

/// Three pairs of method and path have a route of their own, and every other
/// pair is not found.
pub proof fn lemma_three_routes(method: Method, path: Seq<char>)
    ensures
        route_of(method, path) == Route::NotFound <==> !(method == Method::Get && path == "/"@)
            && !(method == Method::Get && path == "/random"@) && !(method == Method::Post && path
            == "/random"@),
{
    reveal_strlit("/");
    reveal_strlit("/random");
}

/// The greeting, byte by byte.
pub proof fn lemma_index_bytes()
    ensures
        INDEX.spec_bytes() == seq![
            0x52u8, 0x61, 0x6e, 0x64, 0x6f, 0x6d, 0x20, 0x4d, 0x69, 0x63, 0x72, 0x6f, 0x73, 0x65,
            0x72, 0x76, 0x69, 0x63, 0x65,
        ],
{
    reveal_strlit("Random Microservice");
    is_ascii_spec_bytes(INDEX);
    assert(is_ascii(INDEX));
}

/// The body of the response that carries a number is `{"value":`, the number
/// and `}`, one byte to the character: an object with the one member `value`.
pub proof fn lemma_value_body(number: Seq<char>)
    requires
        json_number(number),
    ensures
        encode_utf8(value_object(number)) == seq![
            0x7bu8, 0x22, 0x76, 0x61, 0x6c, 0x75, 0x65, 0x22, 0x3a,
        ] + Seq::new(number.len(), |i: int| number[i] as u8) + seq![0x7du8],
{
    lemma_json_number_is_ascii(number);
    reveal_strlit("{\"value\":");
    reveal_strlit("}");
    let whole = value_object(number);
    assert(is_ascii_chars(whole)) by {
        assert forall|i: int| 0 <= i < whole.len() implies '\0' <= #[trigger] whole[i]
            <= '\u{7f}' by {
            if 9 <= i < 9 + number.len() {
                assert(whole[i] == number[i - 9]);
            }
        }
    }
    is_ascii_chars_encode_utf8(whole);
    let bytes = seq![0x7bu8, 0x22, 0x76, 0x61, 0x6c, 0x75, 0x65, 0x22, 0x3a] + Seq::new(
        number.len(),
        |i: int| number[i] as u8,
    ) + seq![0x7du8];
    assert forall|i: int| 0 <= i < whole.len() implies encode_utf8(whole)[i] == bytes[i] by {
        assert(whole[i] as u8 == encode_utf8(whole)[i]);
        if 9 <= i < 9 + number.len() {
            assert(whole[i] == number[i - 9]);
        }
    }
    assert(encode_utf8(whole) =~= bytes);
}

/// A JSON number holds nothing but ASCII.
pub proof fn lemma_json_number_is_ascii(text: Seq<char>)
    requires
        json_number(text),
    ensures
        is_ascii_chars(text),
{
    let (a, b, c) = choose|a: int, b: int, c: int| json_number_at(text, a, b, c);
    assert forall|i: int| 0 <= i < text.len() implies '\0' <= #[trigger] text[i] <= '\u{7f}' by {
        if a <= i < b {
            assert(digit(text[i]));
        } else if b < i < c {
            assert(digit(text[i]));
        } else if c + 1 <= i && digits_in(text, c + 1, text.len() as int) {
            assert(digit(text[i]));
        } else if c + 2 <= i {
            assert(digit(text[i]));
        }
    }
}

/// Where a run of digits ends: the first index from `from` on that holds no
/// digit, or the length.
fn digit_run(bytes: &[u8], from: usize, Ghost(text): Ghost<Seq<char>>) -> (end: usize)
    requires
        from <= bytes@.len(),
        is_ascii_chars(text),
        bytes@.len() == text.len(),
        forall|i: int| 0 <= i < text.len() ==> bytes@[i] == #[trigger] text[i] as u8,
    ensures
        from <= end <= text.len(),
        forall|i: int| from <= i < end ==> digit(#[trigger] text[i]),
        end == text.len() || !digit(text[end as int]),
{
    let mut end: usize = from;
    while end < bytes.len() && 0x30 <= bytes[end] && bytes[end] <= 0x39
        invariant
            from <= end <= bytes@.len(),
            is_ascii_chars(text),
            bytes@.len() == text.len(),
            forall|i: int| 0 <= i < text.len() ==> bytes@[i] == #[trigger] text[i] as u8,
            forall|i: int| from <= i < end ==> digit(#[trigger] text[i]),
        decreases bytes@.len() - end,
    {
        proof {
            ascii_byte(text, end as int);
        }
        end += 1;
    }
    proof {
        if end < bytes@.len() {
            ascii_byte(text, end as int);
        }
    }
    end
}

/// An ASCII character and its byte are the same number.
proof fn ascii_byte(text: Seq<char>, i: int)
    requires
        is_ascii_chars(text),
        0 <= i < text.len(),
    ensures
        text[i] as u8 as int == text[i] as int,
        text[i] as int <= 0x7f,
{
    let c = text[i];
    assert('\0' <= c <= '\u{7f}');
}

/// Whether the text is a number as JSON writes one.
pub fn is_json_number(text: &str) -> (r: bool)
    ensures
        r == json_number(text@),
{
    if !text.is_ascii() {
        proof {
            if json_number(text@) {
                lemma_json_number_is_ascii(text@);
            }
        }
        return false;
    }
    let bytes = text.as_bytes();
    let ghost s = text@;
    proof {
        is_ascii_spec_bytes(text);
        assert forall|i: int| 0 <= i < s.len() implies bytes@[i] == #[trigger] s[i] as u8 by {}
        assert forall|i: int| 0 <= i < s.len() implies #[trigger] s[i] as u8 as int == s[i] as int by {
            ascii_byte(s, i);
        }
    }
    let n = bytes.len();
    let a: usize = if n > 0 && bytes[0] == 0x2d {
        1
    } else {
        0
    };
    let b = digit_run(bytes, a, Ghost(s));
    if b == a || (bytes[a] == 0x30 && b != a + 1) {
        proof {
            assert forall|x: int, y: int, z: int| !json_number_at(s, x, y, z) by {
                if json_number_at(s, x, y, z) {
                    lemma_integer_part(s, x, y, z, a as int, b as int);
                }
            }
        }
        return false;
    }
    let mut c: usize = b;
    if b < n && bytes[b] == 0x2e {
        c = digit_run(bytes, b + 1, Ghost(s));
        if c == b + 1 {
            proof {
                assert forall|x: int, y: int, z: int| !json_number_at(s, x, y, z) by {
                    if json_number_at(s, x, y, z) {
                        lemma_integer_part(s, x, y, z, a as int, b as int);
                    }
                }
            }
            return false;
        }
    }
    let mut d: usize = c;
    if c < n {
        if bytes[c] != 0x65 && bytes[c] != 0x45 {
            proof {
                assert forall|x: int, y: int, z: int| !json_number_at(s, x, y, z) by {
                    if json_number_at(s, x, y, z) {
                        lemma_integer_part(s, x, y, z, a as int, b as int);
                        lemma_fraction_part(s, x, y, z, c as int);
                    }
                }
            }
            return false;
        }
        let mut t: usize = c + 1;
        if t < n && (bytes[t] == 0x2b || bytes[t] == 0x2d) {
            t = t + 1;
        }
        d = digit_run(bytes, t, Ghost(s));
        if d == t || d != n {
            proof {
                assert forall|x: int, y: int, z: int| !json_number_at(s, x, y, z) by {
                    if json_number_at(s, x, y, z) {
                        lemma_integer_part(s, x, y, z, a as int, b as int);
                        lemma_fraction_part(s, x, y, z, c as int);
                    }
                }
            }
            return false;
        }
    }
    proof {
        assert(json_number_at(s, a as int, b as int, c as int));
    }
    true
}

/// The integer part of a number starts after the minus, if there is one, and
/// runs as far as the digits do.
proof fn lemma_integer_part(text: Seq<char>, x: int, y: int, z: int, a: int, b: int)
    requires
        json_number_at(text, x, y, z),
        a == (if text.len() > 0 && text[0] == '-' {
            1int
        } else {
            0int
        }),
        a <= b <= text.len(),
        forall|i: int| a <= i < b ==> digit(#[trigger] text[i]),
        b == text.len() || !digit(text[b]),
    ensures
        x == a,
        y == b,
{
    assert(digit(text[x]));
    assert(x == a);
    if y < b {
        assert(digit(text[y]));
    }
    if y > b {
        assert(digit(text[b]));
    }
}

/// The fraction of a number runs as far as the digits after the point do, and
/// is empty where no point follows the integer part.
proof fn lemma_fraction_part(text: Seq<char>, x: int, y: int, z: int, c: int)
    requires
        json_number_at(text, x, y, z),
        y <= c <= text.len(),
        y < text.len() && text[y] == '.' ==> y + 1 < c,
        !(y < text.len() && text[y] == '.') ==> c == y,
        forall|i: int| y + 1 <= i < c ==> digit(#[trigger] text[i]),
        c == text.len() || !digit(text[c]),
    ensures
        z == c,
{
    if z > y {
        if z < c {
            assert(digit(text[z]));
        }
        if z > c {
            assert(digit(text[c]));
        }
    }
}

/// The body of the answer to a body that is no request is not empty.
pub proof fn lemma_refusal_has_body(error: DecodeErrorView)
    ensures
        encode_utf8(error.message()).len() > 0,
{
    lemma_message_not_empty(error);
    let message = error.message();
    assert(encode_utf8(message) == encode_scalar(message[0] as u32) + encode_utf8(
        message.drop_first(),
    ));
}

impl HttpOutcome {
    /// The response has status 200, and its body is the object that holds the
    /// number.
    pub open spec fn carries(self, number: Seq<char>) -> bool {
        self.status == OK && self.body@ == encode_utf8(value_object(number))
    }

    /// The response has status 500, and its body says that the value is not a
    /// number.
    pub open spec fn carries_no_number(self) -> bool {
        self.status == INTERNAL_SERVER_ERROR && self.body@ == NOT_A_NUMBER.spec_bytes()
    }

    /// The greeting: status 200 and the bytes of `INDEX`.
    pub fn index() -> (r: HttpOutcome)
        ensures
            r.status == OK,
            r.body@ == INDEX.spec_bytes(),
    {
        HttpOutcome { status: OK, body: INDEX.as_bytes_vec() }
    }

    /// The answer to a request that matches no route: status 404, no body.
    pub fn not_found() -> (r: HttpOutcome)
        ensures
            r.status == NOT_FOUND,
            r.body@.len() == 0,
    {
        HttpOutcome { status: NOT_FOUND, body: Vec::new() }
    }

    /// The answer to a body that is no request: status 422 and the error in
    /// words.
    pub fn unprocessable(error: &DecodeError) -> (r: HttpOutcome)
        ensures
            r.status == UNPROCESSABLE_ENTITY,
            r.body@ == encode_utf8(error@.message()),
    {
        let message = error.message();
        HttpOutcome { status: UNPROCESSABLE_ENTITY, body: message.as_str().as_bytes_vec() }
    }

    /// The answer that carries the value, where the text is a JSON number:
    /// status 200 and the object that holds the number. For any other text,
    /// `null` among them, the answer is that of `not_a_number`.
    pub fn value(number: &str) -> (r: HttpOutcome)
        ensures
            json_number(number@) ==> r.carries(number@),
            !json_number(number@) ==> r.carries_no_number(),
    {
        if is_json_number(number) {
            let mut text = String::from_str("{\"value\":");
            text.append(number);
            text.append("}");
            HttpOutcome { status: OK, body: text.as_str().as_bytes_vec() }
        } else {
            HttpOutcome::not_a_number()
        }
    }

    /// The answer when the value is not one that JSON has a number for:
    /// status 500 and the words of `NOT_A_NUMBER`.
    pub fn not_a_number() -> (r: HttpOutcome)
        ensures
            r.carries_no_number(),
    {
        HttpOutcome { status: INTERNAL_SERVER_ERROR, body: NOT_A_NUMBER.as_bytes_vec() }
    }

    /// The answer when the value could not be written: status 500 and the
    /// encoder's description.
    pub fn encoder_failed(message: &str) -> (r: HttpOutcome)
        ensures
            r.status == INTERNAL_SERVER_ERROR,
            r.body@ == encode_utf8(message@),
    {
        HttpOutcome { status: INTERNAL_SERVER_ERROR, body: message.as_bytes_vec() }
    }
}

} // verus!
