//! The cache policy: no response may be stored, by a browser or on the way.

use axum::http::header::{HeaderMap, HeaderValue, CACHE_CONTROL};
use vstd::prelude::*;
use vstd::string::*;

verus! {

/// The value of one header field, as `http` holds it.
#[verifier::external_type_specification]
#[verifier::external_body]
pub struct ExHeaderValue(axum::http::header::HeaderValue);

/// The header fields of a request or response, as `http` holds them.
#[verifier::external_type_specification]
#[verifier::external_body]
#[verifier::reject_recursive_types(T)]
pub struct ExHeaderMap<T>(axum::http::header::HeaderMap<T>);

/// What a header map holds: under each header name that occurs in it, written
/// in lower case, the values of that name in order, each as its bytes.
pub uninterp spec fn header_fields(headers: HeaderMap<HeaderValue>) -> Map<Seq<char>, Seq<Seq<u8>>>;

/// A character that `http` takes in a header value given as static text: a
/// tab, or visible ASCII, the space included.
pub open spec fn is_visible_ascii(c: char) -> bool {
    c == '\t' || (' ' <= c && c <= '~')
}

/// The name of the header that carries the cache policy.
pub open spec fn cache_control_name() -> Seq<char> {
    "cache-control"@
}

/// The cache policy of every response, `no-store`, as bytes.
pub open spec fn no_store() -> Seq<u8> {
    seq![0x6e, 0x6f, 0x2d, 0x73, 0x74, 0x6f, 0x72, 0x65]
}

/// A number of distinct header names below which `http` never refuses one
/// more name.
///
/// `HeaderMap::try_insert` fails only where the map would have to grow its
/// table beyond 32768 slots, or holds 32768 names already. It grows a table
/// of `n` slots only when it holds `n - n / 4` names, or, after many hash
/// collisions, at least `n / 5`; a table that cannot be doubled has more than
/// 16384 slots, so a map that refuses holds at least 3277 names.
pub const ROOM_FOR_NAMES: usize = 3277;

/// Whether a header map holds fewer than `limit` distinct names.
pub open spec fn has_fewer_names(headers: HeaderMap<HeaderValue>, limit: nat) -> bool {
    header_fields(headers).dom().finite() && header_fields(headers).dom().len() < limit
}

/// Calls `HeaderMap::try_insert` of `http` with the name
/// `header::CACHE_CONTROL` and the value `HeaderValue::from_static(value)`.
///
/// Believed of it, not proved: `from_static` does not panic on text of tabs
/// and visible ASCII; when `try_insert` returns `Ok`, the map holds under
/// `cache-control` that one value and nothing else there, and all other names
/// as before; when it returns `Err`, which it does when the map cannot grow,
/// the map holds what it held; and it returns `Ok` on every map of fewer than
/// `ROOM_FOR_NAMES` distinct names.
#[verifier::external_body]
fn insert_cache_control(headers: &mut HeaderMap<HeaderValue>, value: &'static str) -> (inserted:
    bool)
    requires
        forall|i: int| 0 <= i < value@.len() ==> is_visible_ascii(#[trigger] value@[i]),
    ensures
        inserted ==> header_fields(*final(headers)) == header_fields(*old(headers)).insert(
            cache_control_name(),
            seq![value.spec_bytes()],
        ),
        !inserted ==> header_fields(*final(headers)) == header_fields(*old(headers)),
        has_fewer_names(*old(headers), ROOM_FOR_NAMES as nat) ==> inserted,
{
    headers.try_insert(CACHE_CONTROL, HeaderValue::from_static(value)).is_ok()
}

/// Forces `Cache-Control: no-store` on the headers of a response: whatever
/// stood under that name is replaced by the one value `no-store`, and every
/// other header stays as it was. Returns `false`, with the headers unchanged,
/// only when the map refuses to take one more entry, which it never does
/// while it holds fewer than `ROOM_FOR_NAMES` distinct names.
pub fn cache_control(headers: &mut HeaderMap<HeaderValue>) -> (set: bool)
    ensures
        set ==> header_fields(*final(headers)) == header_fields(*old(headers)).insert(
            cache_control_name(),
            seq![no_store()],
        ),
        set ==> header_fields(*final(headers)).contains_key(cache_control_name()),
        set ==> header_fields(*final(headers))[cache_control_name()] == seq![no_store()],
        set ==> forall|name: Seq<char>|
            name != cache_control_name() ==> (header_fields(*final(headers)).contains_key(name)
                <==> #[trigger] header_fields(*old(headers)).contains_key(name)),
        set ==> forall|name: Seq<char>|
            name != cache_control_name() && header_fields(*old(headers)).contains_key(name)
                ==> #[trigger] header_fields(*final(headers))[name] == header_fields(
                *old(headers),
            )[name],
        !set ==> header_fields(*final(headers)) == header_fields(*old(headers)),
        has_fewer_names(*old(headers), ROOM_FOR_NAMES as nat) ==> set,
{
    let value: &'static str = "no-store";
    proof {
        reveal_strlit("no-store");
        assert(is_ascii(value)) by {
            assert forall|i: int| 0 <= i < value@.len() implies (value@[i] as u32) < 128 by {}
        }
        is_ascii_spec_bytes(value);
        assert(value.spec_bytes() =~= no_store());
    }
    insert_cache_control(headers, value)
}

} // verus!
