//! Decisions behind the request log and the cross-origin policy.

use vstd::prelude::*;
use vstd::string::StringSliceAdditionalSpecFns;
use vstd::utf8::{encode_utf8, is_leading_byte_width_1, partial_valid_utf8, valid_utf8};

use crate::error::{
    internal_error_response, internal_message, ErrorResponse, LogEvent, LogField, LogLevel,
};
use crate::text::string_views;

verus! {

/// The header that carries a request's id.
pub const REQUEST_ID_HEADER: &'static str = "x-request-id";

/// Whether `b` may stand in an HTTP header value: any byte from 32 up but
/// DEL (127), and the horizontal tab.
pub open spec fn header_value_byte(b: u8) -> bool {
    (b >= 32 && b != 127) || b == 9
}

/// Whether every byte of `bytes` may stand in an HTTP header value.
pub open spec fn header_value_bytes(bytes: Seq<u8>) -> bool {
    forall|i: int| 0 <= i < bytes.len() ==> header_value_byte(#[trigger] bytes[i])
}

/// Whether `b` is visible ASCII or the horizontal tab, which is what a
/// header value must hold to be read as text.
pub open spec fn visible_ascii(b: u8) -> bool {
    (32 <= b && b < 127) || b == 9
}

/// Whether every byte of `bytes` is visible ASCII or a tab.
pub open spec fn all_visible_ascii(bytes: Seq<u8>) -> bool {
    forall|i: int| 0 <= i < bytes.len() ==> visible_ascii(#[trigger] bytes[i])
}

/// The bytes a request id may hold are exactly those from 32 to 126 (space,
/// digits, letters, punctuation) and the tab; and a readable request id is
/// always a valid header value.
pub proof fn lemma_request_id_bytes(bytes: Seq<u8>)
    ensures
        all_visible_ascii(bytes) <==> (forall|i: int|
            0 <= i < bytes.len() ==> (32 <= #[trigger] bytes[i] <= 126 || bytes[i] == 9)),
        all_visible_ascii(bytes) ==> header_value_bytes(bytes),
{
    if !all_visible_ascii(bytes) {
        let i = choose|i: int| 0 <= i < bytes.len() && !visible_ascii(#[trigger] bytes[i]);
        assert(!(32 <= bytes[i] <= 126 || bytes[i] == 9));
    }
    if forall|i: int| 0 <= i < bytes.len() ==> (32 <= #[trigger] bytes[i] <= 126 || bytes[i] == 9) {
        assert forall|i: int| 0 <= i < bytes.len() implies visible_ascii(#[trigger] bytes[i]) by {
            assert(32 <= bytes[i] <= 126 || bytes[i] == 9);
        }
    }
}

/// Whether `text`'s UTF-8 encoding is a valid HTTP header value.
pub open spec fn origin_accepted(text: Seq<char>) -> bool {
    header_value_bytes(encode_utf8(text))
}

/// The entries of `v` that are (when `keep`) or are not (otherwise) valid
/// header values, in order.
pub open spec fn origins_where(v: Seq<Seq<char>>, keep: bool) -> Seq<Seq<char>>
    decreases v.len(),
{
    if v.len() == 0 {
        Seq::empty()
    } else {
        let rest = origins_where(v.drop_last(), keep);
        if origin_accepted(v.last()) == keep {
            rest.push(v.last())
        } else {
            rest
        }
    }
}

/// The configured origins split in two: each is either allowed (it is a
/// valid header value) or set aside, none is lost, and nothing that was
/// not configured is ever allowed.
pub proof fn lemma_origins_partition(v: Seq<Seq<char>>)
    ensures
        origins_where(v, true).len() + origins_where(v, false).len() == v.len(),
        forall|i: int|
            0 <= i < origins_where(v, true).len() ==> v.contains(
                #[trigger] origins_where(v, true)[i],
            ) && origin_accepted(origins_where(v, true)[i]),
        forall|i: int|
            0 <= i < origins_where(v, false).len() ==> v.contains(
                #[trigger] origins_where(v, false)[i],
            ) && !origin_accepted(origins_where(v, false)[i]),
    decreases v.len(),
{
    if v.len() > 0 {
        let init = v.drop_last();
        lemma_origins_partition(init);
        assert(v[v.len() - 1] == v.last());
        assert forall|i: int| 0 <= i < origins_where(v, true).len() implies v.contains(
            #[trigger] origins_where(v, true)[i],
        ) && origin_accepted(origins_where(v, true)[i]) by {
            if i < origins_where(init, true).len() {
                assert(origins_where(v, true)[i] == origins_where(init, true)[i]);
                let k = choose|k: int| 0 <= k < init.len() && init[k] == origins_where(init, true)[i];
                assert(v[k] == init[k]);
            }
        }
        assert forall|i: int| 0 <= i < origins_where(v, false).len() implies v.contains(
            #[trigger] origins_where(v, false)[i],
        ) && !origin_accepted(origins_where(v, false)[i]) by {
            if i < origins_where(init, false).len() {
                assert(origins_where(v, false)[i] == origins_where(init, false)[i]);
                let k = choose|k: int| 0 <= k < init.len() && init[k] == origins_where(init, false)[i];
                assert(v[k] == init[k]);
            }
        }
    }
}

/// Which cross-origin requests the service answers.
#[derive(Debug)]
pub enum CorsPolicy {
    /// None: no origin was configured.
    NoOrigins,
    /// Those from the listed origins, with any method and header; `ignored`
    /// holds the configured origins that are no valid header value.
    AllowList { origins: Vec<String>, ignored: Vec<String> },
}

/// Whether `text` parses as an HTTP header value, as
/// `<http::HeaderValue as FromStr>::from_str` decides it: every byte of its
/// UTF-8 encoding is 32 or more and not 127, or is a tab.
#[verifier::external_body]
fn parses_as_header_value(text: &str) -> (r: bool)
    ensures
        r == header_value_bytes(text.spec_bytes()),
{
    text.parse::<axum::http::HeaderValue>().is_ok()
}

/// The cross-origin policy for the configured origins: none allowed when
/// none is configured (never any origin at all), else exactly the
/// configured origins that are valid header values, the others set aside.
pub fn cors_policy(allowed_origins: &Vec<String>) -> (r: CorsPolicy)
    ensures
        allowed_origins.len() == 0 <==> r is NoOrigins,
        r matches CorsPolicy::AllowList { origins, ignored } ==> {
            &&& string_views(origins@) == origins_where(string_views(allowed_origins@), true)
            &&& string_views(ignored@) == origins_where(string_views(allowed_origins@), false)
        },
{
    if allowed_origins.len() == 0 {
        return CorsPolicy::NoOrigins;
    }
    let ghost all = string_views(allowed_origins@);
    let mut origins: Vec<String> = Vec::new();
    let mut ignored: Vec<String> = Vec::new();
    let n = allowed_origins.len();
    let mut i: usize = 0;
    assert(all.take(0) =~= Seq::<Seq<char>>::empty());
    while i < n
        invariant
            0 <= i <= n,
            n == allowed_origins.len(),
            all == string_views(allowed_origins@),
            string_views(origins@) == origins_where(all.take(i as int), true),
            string_views(ignored@) == origins_where(all.take(i as int), false),
        decreases n - i,
    {
        let origin = &allowed_origins[i];
        assert(all.take(i + 1).drop_last() =~= all.take(i as int));
        assert(all.take(i + 1).last() == origin@);
        if parses_as_header_value(origin.as_str()) {
            origins.push(origin.clone());
        } else {
            ignored.push(origin.clone());
        }
        assert(string_views(origins@) =~= origins_where(all.take(i + 1), true));
        assert(string_views(ignored@) =~= origins_where(all.take(i + 1), false));
        i = i + 1;
    }
    assert(all.take(n as int) =~= all);
    CorsPolicy::AllowList { origins, ignored }
}

/// The text of `bytes`, by `core::str::from_utf8`: claimed to succeed
/// exactly when the bytes are valid UTF-8, and then to give the text whose
/// encoding they are.
#[verifier::external_body]
fn text_of_utf8(bytes: &[u8]) -> (r: Option<&str>)
    ensures
        r is Some <==> valid_utf8(bytes@),
        r matches Some(s) ==> s.spec_bytes() == bytes@,
{
    core::str::from_utf8(bytes).ok()
}

/// The span that every request's log events are recorded under, with the
/// request's method, path and id.
#[derive(Debug, Clone, Copy)]
pub struct RequestSpan;

impl RequestSpan {
    /// The request id that a request's log span carries: the `x-request-id`
    /// header's value when the header is there and holds only visible ASCII
    /// (or tabs), as `http::HeaderValue::to_str` reads it; else the empty text.
    pub fn request_id(header: Option<&[u8]>) -> (r: String)
        ensures
            header matches Some(b) ==> ((forall|i: int|
                0 <= i < b@.len() ==> (32 <= #[trigger] b@[i] <= 126 || b@[i] == 9)) ==> encode_utf8(
                r@,
            ) == b@),
            header matches Some(b) ==> ((exists|i: int|
                0 <= i < b@.len() && !(32 <= #[trigger] b@[i] <= 126 || b@[i] == 9)) ==> r@.len()
                == 0),
            match header {
                Some(b) => if all_visible_ascii(b@) {
                    encode_utf8(r@) == b@
                } else {
                    r@.len() == 0
                },
                None => r@.len() == 0,
            },
    {
        proof {
            if let Some(b) = header {
                lemma_request_id_bytes(b@);
            }
        }
        match header {
            None => String::new(),
            Some(bytes) => {
                let n = bytes.len();
                let mut i: usize = 0;
                while i < n
                    invariant
                        0 <= i <= n,
                        n == bytes@.len(),
                        header == Some(bytes),
                        forall|j: int| 0 <= j < i ==> visible_ascii(#[trigger] bytes@[j]),
                    decreases n - i,
                {
                    let b = bytes[i];
                    if !((32 <= b && b < 127) || b == 9) {
                        assert(!visible_ascii(bytes@[i as int]));
                        assert(!all_visible_ascii(bytes@));
                        return String::new();
                    }
                    i = i + 1;
                }
                proof {
                    assert(bytes@.subrange(0, 0) =~= Seq::<u8>::empty());
                    assert(partial_valid_utf8(bytes@, 0));
                    assert forall|j: int| 0 <= 0 <= j < n <= bytes@.len() implies #[trigger] is_leading_byte_width_1(bytes@[j]) by {
                        assert(visible_ascii(bytes@[j]));
                    }
                    vstd::utf8::partial_valid_utf8_extend_ascii_block(bytes@, 0, n as int);
                    assert(bytes@.subrange(0, n as int) =~= bytes@);
                }
                match text_of_utf8(bytes) {
                    Some(text) => String::from_str(text),
                    None => String::new(),
                }
            },
        }
    }
}

/// What a caught panic is logged with: its message when the payload is a
/// `&str`, else when it is a `String`, else a fixed text.
pub fn panic_details(str_payload: Option<&str>, string_payload: Option<&String>) -> (r: String)
    ensures
        str_payload matches Some(s) ==> r@ == s@,
        str_payload is None ==> (string_payload matches Some(s) ==> r@ == s@),
        str_payload is None && string_payload is None ==> r@ == "unknown panic"@,
{
    match str_payload {
        Some(s) => s.to_owned(),
        None => match string_payload {
            Some(s) => s.clone(),
            None => "unknown panic".to_owned(),
        },
    }
}

/// The event a caught panic is logged with: at error level, with its
/// details in the `panic` field.
pub fn panic_event(details: String) -> (r: LogEvent)
    ensures
        r.level == LogLevel::Error,
        r.text@ == "handler panicked"@,
        r.field == LogField::Panic,
        r.detail == details,
{
    LogEvent {
        level: LogLevel::Error,
        text: "handler panicked".to_owned(),
        field: LogField::Panic,
        detail: details,
    }
}

/// What a client receives when a handler panics: the standard 500 body.
pub fn panic_response() -> (r: ErrorResponse)
    ensures
        r.status == 500,
        r.body.error@ == "internal_error"@,
        r.body.message@ == internal_message(),
{
    internal_error_response()
}

} // verus!
