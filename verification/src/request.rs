//! What a request is made of, and the header lines that it is sent with.
use crate::error::Error;
use crate::text::{all_visible_ascii, ascii_text, debug_bytes, is_visible_ascii, is_visible_ascii_bytes, lemma_ascii_is_utf8, push_debug_bytes};
use vstd::prelude::*;
use vstd::utf8::*;

verus! {

broadcast use vstd::utf8::encode_utf8_decode_utf8;

/// The HTTP method of a request.
pub enum Method {
    Options,
    Get,
    Post,
    Put,
    Delete,
    Head,
    Trace,
    Connect,
    Patch,
    /// A method that is not one of the standard ones, by its name.
    Extension(String),
}

/// One header of a request: its name and the bytes of its value. The name
/// is the text of an HTTP header name (see `valid_header_name`).
pub struct HeaderField {
    pub name: String,
    pub value: Vec<u8>,
}

/// A request: where it goes, how, with which headers and which body.
pub struct HttpRequest {
    /// The URL, as text.
    pub url: String,
    pub method: Method,
    /// The headers, in the order in which they are sent.
    pub headers: Vec<HeaderField>,
    /// The body, which is sent with a POST only.
    pub body: Option<Vec<u8>>,
}

impl HeaderField {
    /// The header as a name and the bytes of its value.
    pub open spec fn pair(self) -> (Seq<char>, Seq<u8>) {
        (self.name@, self.value@)
    }
}

/// A byte that a header name may hold, as the HTTP types keep it: a
/// lowercase letter, a digit, or one of `! # $ % & ' * + - . ^ _ ` | ~`.
pub open spec fn is_header_name_byte(b: u8) -> bool {
    (97 <= b <= 122) || (48 <= b <= 57) || b == 33 || b == 35 || b == 36 || b == 37 || b == 38
        || b == 39 || b == 42 || b == 43 || b == 45 || b == 46 || b == 94 || b == 95 || b == 96
        || b == 124 || b == 126
}

/// A header name as the HTTP types give it: from 1 to 65535 bytes, each a
/// lowercase token character.
pub open spec fn valid_header_name(name: Seq<char>) -> bool {
    let bytes = encode_utf8(name);
    &&& 1 <= bytes.len() <= 65535
    &&& forall|i: int| 0 <= i < bytes.len() ==> is_header_name_byte(#[trigger] bytes[i])
}

/// Whether `name` is a header name as the HTTP types give it.
pub fn is_valid_header_name(name: &str) -> (r: bool)
    ensures
        r == valid_header_name(name@),
{
    let bytes = name.as_bytes();
    let n = bytes.len();
    if n < 1 || n > 65535 {
        return false;
    }
    let mut i: usize = 0;
    while i < n
        invariant
            n == bytes@.len(),
            bytes@ == encode_utf8(name@),
            i <= n,
            forall|j: int| 0 <= j < i ==> is_header_name_byte(#[trigger] bytes@[j]),
        decreases n - i,
    {
        let b = bytes[i];
        if !((97 <= b && b <= 122) || (48 <= b && b <= 57) || b == 33 || b == 35 || b == 36
            || b == 37 || b == 38 || b == 39 || b == 42 || b == 43 || b == 45 || b == 46 || b
            == 94 || b == 95 || b == 96 || b == 124 || b == 126) {
            assert(!is_header_name_byte(bytes@[i as int]));
            return false;
        }
        i = i + 1;
    }
    true
}

impl HttpRequest {
    /// Every header name is one that the HTTP types can give.
    pub open spec fn valid_header_names(self) -> bool {
        forall|i: int| 0 <= i < self.headers@.len() ==> valid_header_name(
            #[trigger] self.headers@[i].name@,
        )
    }

    /// The headers, each as a name and the bytes of its value.
    pub open spec fn fields(self) -> Seq<(Seq<char>, Seq<u8>)> {
        self.headers@.map_values(|h: HeaderField| h.pair())
    }

    /// The body's bytes, if there is a body.
    pub open spec fn body_bytes(self) -> Option<Seq<u8>> {
        match self.body {
            Some(b) => Some(b@),
            None => None,
        }
    }
}

/// The line by which a header is sent: `name: value`.
pub open spec fn header_text(name: Seq<char>, value: Seq<u8>) -> Seq<char> {
    name + ": "@ + ascii_text(value)
}

/// Why a header whose value is not visible ASCII is refused:
/// `invalid <name> header value [<bytes>]`.
pub open spec fn invalid_header_message(name: Seq<char>, value: Seq<u8>) -> Seq<char> {
    "invalid "@ + name + " header value "@ + debug_bytes(value)
}

/// What the headers of a request come to, taken in order: the lines to send,
/// or the first reason to stop.
pub enum HeaderPlan {
    /// Every header can be sent; these are the lines, in order.
    Lines(Seq<Seq<char>>),
    /// The first header that stops the request has a value that is not
    /// visible ASCII; this is the message that says so.
    InvalidValue(Seq<char>),
    /// The first header that stops the request has a line with a NUL
    /// character, which curl's string list refuses.
    NulCharacter,
}

/// The header plan of a sequence of headers.
pub open spec fn header_plan(fields: Seq<(Seq<char>, Seq<u8>)>) -> HeaderPlan
    decreases fields.len(),
{
    if fields.len() == 0 {
        HeaderPlan::Lines(seq![])
    } else {
        match header_plan(fields.drop_last()) {
            HeaderPlan::Lines(lines) => {
                let (name, value) = fields.last();
                if !all_visible_ascii(value) {
                    HeaderPlan::InvalidValue(invalid_header_message(name, value))
                } else if header_text(name, value).contains('\0') {
                    HeaderPlan::NulCharacter
                } else {
                    HeaderPlan::Lines(lines.push(header_text(name, value)))
                }
            },
            stopped => stopped,
        }
    }
}

/// A header that can be sent: its value is visible ASCII and its line holds
/// no NUL character.
pub open spec fn sendable(field: (Seq<char>, Seq<u8>)) -> bool {
    all_visible_ascii(field.1) && !header_text(field.0, field.1).contains('\0')
}

/// The lines of a sequence of headers, one `name: value` for each, in order.
pub open spec fn header_texts(fields: Seq<(Seq<char>, Seq<u8>)>) -> Seq<Seq<char>> {
    fields.map_values(|f: (Seq<char>, Seq<u8>)| header_text(f.0, f.1))
}

/// Headers are sent exactly when each of them can be sent, and then as
/// one `name: value` line each, in their order; otherwise the first header
/// that cannot be sent decides why: a value that is not visible ASCII, with
/// the message that names that header, or a NUL character in its line.
pub proof fn lemma_header_plan(fields: Seq<(Seq<char>, Seq<u8>)>)
    ensures
        (header_plan(fields) is Lines) <==> (forall|i: int|
            0 <= i < fields.len() ==> sendable(#[trigger] fields[i])),
        header_plan(fields) is Lines ==> header_plan(fields) == HeaderPlan::Lines(
            header_texts(fields),
        ),
        !(header_plan(fields) is Lines) ==> exists|k: int|
            0 <= k < fields.len() && (forall|i: int| 0 <= i < k ==> sendable(#[trigger] fields[i]))
                && !sendable(#[trigger] fields[k]) && header_plan(fields) == (if !all_visible_ascii(
                fields[k].1,
            ) {
                HeaderPlan::InvalidValue(invalid_header_message(fields[k].0, fields[k].1))
            } else {
                HeaderPlan::NulCharacter
            }),
    decreases fields.len(),
{
    if fields.len() > 0 {
        let init = fields.drop_last();
        lemma_header_plan(init);
        let n = fields.len() - 1;
        assert forall|i: int| 0 <= i < n implies init[i] == fields[i] by {}
        if header_plan(init) is Lines {
            assert(header_texts(fields) =~= header_texts(init).push(
                header_text(fields[n].0, fields[n].1),
            ));
            if !sendable(fields[n]) {
                assert(forall|i: int| 0 <= i < n ==> sendable(#[trigger] fields[i]) == sendable(
                    init[i],
                ));
            }
        } else {
            let k = choose|k: int|
                0 <= k < init.len() && (forall|i: int| 0 <= i < k ==> sendable(#[trigger] init[i]))
                    && !sendable(#[trigger] init[k]) && header_plan(init) == (if !all_visible_ascii(
                    init[k].1,
                ) {
                    HeaderPlan::InvalidValue(invalid_header_message(init[k].0, init[k].1))
                } else {
                    HeaderPlan::NulCharacter
                });
            assert(fields[k] == init[k]);
            assert(forall|i: int| 0 <= i < k ==> fields[i] == init[i]);
        }
    } else {
        assert(header_texts(fields) =~= Seq::<Seq<char>>::empty());
    }
}

/// The line by which a header is sent, `name: value`, when its value is
/// visible ASCII; otherwise the error that says which header it is and
/// what its bytes are.
pub fn header_line(field: &HeaderField) -> (r: Result<String, Error>)
    ensures
        all_visible_ascii(field.value@) ==> (r matches Ok(line) && line@ == header_text(
            field.name@,
            field.value@,
        )),
        !all_visible_ascii(field.value@) ==> (r matches Err(Error::Other(m)) && m@
            == invalid_header_message(field.name@, field.value@)),
{
    proof {
        reveal_strlit(": ");
        reveal_strlit("invalid ");
        reveal_strlit(" header value ");
    }
    if is_visible_ascii_bytes(field.value.as_slice()) {
        proof {
            assert forall|i: int| 0 <= i < field.value@.len() implies #[trigger] field.value@[i]
                < 128 by {
                assert(is_visible_ascii(field.value@[i]));
            }
            lemma_ascii_is_utf8(field.value@);
        }
        match core::str::from_utf8(field.value.as_slice()) {
            Ok(text) => {
                proof {
                    assert(decode_utf8(encode_utf8(text@)) == text@);
                }
                let mut line = field.name.clone();
                line.append(": ");
                line.append(text);
                Ok(line)
            },
            Err(_) => {
                proof {
                    assert(false);
                }
                Err(Error::Other(String::new()))
            },
        }
    } else {
        let mut message = String::new();
        message.append("invalid ");
        message.append(field.name.as_str());
        message.append(" header value ");
        push_debug_bytes(&mut message, field.value.as_slice());
        Err(Error::Other(message))
    }
}

} // verus!
