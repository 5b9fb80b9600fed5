use vstd::prelude::*;
use vstd::slice::{slice_index_get, slice_subrange, slice_to_vec};

use crate::error::Error;

verus! {

// Address family tags, as the native socket definitions number them.
pub const AF_UNSPEC: u32 = 0;

pub const AF_INET: u32 = 2;

pub const AF_IPX: u32 = 6;

pub const AF_NETBIOS: u32 = 17;

pub const AF_INET6: u32 = 23;

/// Number of bytes in the fixed-size client-address buffer. The address
/// bytes themselves start at offset 2: an IPv4 address occupies bytes
/// 2..6, an IPv6 address bytes 2..18.
pub const CLIENT_ADDRESS_BYTES: usize = 20;

/// A decoded client network address. Only the IPv4 and IPv6 families are
/// decoded; an `IpAddress::V6` always holds exactly 16 bytes.
#[derive(Debug, Clone, PartialEq, Eq)]
pub enum IpAddress {
    V4(u8, u8, u8, u8),
    V6(Vec<u8>),
}

/// The address family tags the decoder knows. Everything else is an
/// invariant violation, surfaced as `Error::UnknownAddressFamily`.
pub open spec fn known_family(family: u32) -> bool {
    ||| family == AF_UNSPEC
    ||| family == AF_INET
    ||| family == AF_IPX
    ||| family == AF_NETBIOS
    ||| family == AF_INET6
}

/// What decoding a client-address buffer tagged `family` must yield:
/// IPv4 takes the four bytes at offset 2, IPv6 the sixteen bytes at
/// offset 2, the remaining known legacy families yield no address without
/// error, and an unknown family is rejected outright.
pub open spec fn decoded_address_ok(
    family: u32,
    address: Seq<u8>,
    r: Result<Option<IpAddress>, Error>,
) -> bool {
    &&& family == AF_INET ==> (r matches Ok(a) && a matches Some(ip)
        && ip matches IpAddress::V4(b0, b1, b2, b3)
        && b0 == address[2] && b1 == address[3] && b2 == address[4] && b3 == address[5])
    &&& family == AF_INET6 ==> (r matches Ok(a) && a matches Some(ip)
        && ip matches IpAddress::V6(b) && b@ == address.subrange(2, 18))
    &&& (family == AF_IPX || family == AF_NETBIOS || family == AF_UNSPEC) ==> (r matches Ok(a)
        && a is None)
    &&& !known_family(family) ==> (r matches Err(e)
        && e matches Error::UnknownAddressFamily(f) && f == family)
}

/// Decodes the fixed-size client-address buffer the native session query
/// fills, dispatching on its address family tag.
pub fn decode_client_address(family: u32, address: &[u8]) -> (r: Result<Option<IpAddress>, Error>)
    requires
        address@.len() == CLIENT_ADDRESS_BYTES,
    ensures
        decoded_address_ok(family, address@, r),
{
    if family == AF_INET {
        let b0 = *slice_index_get(address, 2);
        let b1 = *slice_index_get(address, 3);
        let b2 = *slice_index_get(address, 4);
        let b3 = *slice_index_get(address, 5);
        Ok(Some(IpAddress::V4(b0, b1, b2, b3)))
    } else if family == AF_INET6 {
        let bytes = slice_to_vec(slice_subrange(address, 2, 18));
        Ok(Some(IpAddress::V6(bytes)))
    } else if family == AF_IPX || family == AF_NETBIOS || family == AF_UNSPEC {
        Ok(None)
    } else {
        Err(Error::UnknownAddressFamily(family))
    }
}

/// True when some element of `chars` is a null code unit.
pub open spec fn has_null(chars: Seq<u16>) -> bool {
    exists|i: int| 0 <= i < chars.len() && chars[i] == 0
}

/// Index of the first null code unit of `chars`; meaningful only when one
/// exists.
pub open spec fn first_null(chars: Seq<u16>) -> int
    decreases chars.len(),
{
    if chars.len() == 0 {
        0
    } else if chars[0] == 0 {
        0
    } else {
        1 + first_null(chars.subrange(1, chars.len() as int))
    }
}

/// The portion of a wide-character buffer before its first null
/// terminator; a buffer with no null yields the empty prefix.
pub open spec fn wide_prefix(chars: Seq<u16>) -> Seq<u16> {
    if has_null(chars) {
        chars.subrange(0, first_null(chars))
    } else {
        Seq::empty()
    }
}

/// The result of decoding a sequence of UTF-16 code units, with every
/// undecodable sequence replaced by the replacement character.
pub uninterp spec fn utf16_lossy(units: Seq<u16>) -> Seq<char>;

/// Relies on String::from_utf16_lossy: it decodes a UTF-16 buffer,
/// substituting the replacement character for unpaired surrogates rather
/// than failing; the result depends on the code units alone, and an empty
/// buffer decodes to the empty string.
#[verifier::external_body]
fn decode_utf16_lossy(units: &[u16]) -> (r: String)
    ensures
        r@ == utf16_lossy(units@),
        units@.len() == 0 ==> r@.len() == 0,
{
    String::from_utf16_lossy(units)
}

/// The prefix kept by wide-string decoding ends exactly at the first
/// null: that null lies inside the buffer, just past the prefix, and the
/// prefix itself holds no null.
pub proof fn lemma_wide_prefix_sound(chars: Seq<u16>)
    requires
        has_null(chars),
    ensures
        0 <= first_null(chars) < chars.len(),
        chars[first_null(chars)] == 0,
        forall|j: int| 0 <= j < first_null(chars) ==> chars[j] != 0,
        wide_prefix(chars) == chars.subrange(0, first_null(chars)),
    decreases chars.len(),
{
    if chars[0] != 0 {
        let tail = chars.subrange(1, chars.len() as int);
        let i = choose|i: int| 0 <= i < chars.len() && chars[i] == 0;
        assert(tail[i - 1] == 0);
        lemma_wide_prefix_sound(tail);
        let p = first_null(tail);
        assert(chars[p + 1] == tail[p]);
        assert forall|j: int| 0 <= j < p + 1 implies chars[j] != 0 by {
            if j > 0 {
                assert(chars[j] == tail[j - 1]);
            }
        }
    }
}

/// A position holding a null, with none before it, is the first null.
proof fn lemma_first_null_at(chars: Seq<u16>, pos: int)
    requires
        0 <= pos < chars.len(),
        chars[pos] == 0,
        forall|j: int| 0 <= j < pos ==> chars[j] != 0,
    ensures
        has_null(chars),
        first_null(chars) == pos,
    decreases pos,
{
    if pos > 0 {
        let tail = chars.subrange(1, chars.len() as int);
        assert(tail[pos - 1] == chars[pos]);
        assert forall|j: int| 0 <= j < pos - 1 implies tail[j] != 0 by {
            assert(tail[j] == chars[j + 1]);
        }
        lemma_first_null_at(tail, pos - 1);
    }
}

/// One interactive login session, identified by the OS-assigned session
/// handle. The handle's validity is owned by the OS; the native queries
/// made with it are interpreted by the methods below.
#[derive(Debug, Clone, Copy, PartialEq, Eq, Structural)]
pub struct Session {
    pub session_id: u32,
}

impl Session {
    /// A session wrapper for the given OS-assigned session identifier.
    pub fn new(session_id: u32) -> (r: Session)
        ensures
            r.session_id == session_id,
    {
        Session { session_id }
    }

    /// Interprets the outcome of the native session-information query:
    /// `status` is the value the call returned (zero means failure),
    /// `last_error` the OS error code read after a failed call, and
    /// `payload` the opaque session-information bytes the call produced.
    /// The payload is handed back untouched on success; a failed call is
    /// wrapped with the name of the native routine.
    pub fn info(&self, status: i32, last_error: i32, payload: Vec<u8>) -> (r: Result<
        Vec<u8>,
        Error,
    >)
        ensures
            status == 0 ==> (r matches Err(e)
                && e matches Error::SysCall { call, code }
                && call@ == "WTSQuerySessionInformationW"@ && code == last_error),
            status != 0 ==> (r matches Ok(p) && p@ == payload@),
    {
        if status == 0 {
            Err(Error::SysCall { call: "WTSQuerySessionInformationW", code: last_error })
        } else {
            Ok(payload)
        }
    }

    /// Interprets the outcome of the native client-address query: a failed
    /// call (zero `status`) is wrapped with the name of the native
    /// routine; a successful one has its fixed-size address buffer decoded
    /// by its family tag.
    pub fn address(&self, status: i32, last_error: i32, family: u32, address: &[u8]) -> (r: Result<
        Option<IpAddress>,
        Error,
    >)
        requires
            address@.len() == CLIENT_ADDRESS_BYTES,
        ensures
            status == 0 ==> (r matches Err(e)
                && e matches Error::SysCall { call, code }
                && call@ == "WTSQuerySessionInformationW"@ && code == last_error),
            status != 0 ==> decoded_address_ok(family, address@, r),
    {
        if status == 0 {
            Err(Error::SysCall { call: "WTSQuerySessionInformationW", code: last_error })
        } else {
            decode_client_address(family, address)
        }
    }

    /// Decodes a wide-character buffer into a readable string: the buffer
    /// is truncated at its first null terminator — or treated as empty if
    /// no null is found — and the remaining code units are decoded with
    /// substitution for any undecodable sequence.
    pub fn from_wide(chars: &[u16]) -> (r: String)
        ensures
            r@ == utf16_lossy(wide_prefix(chars@)),
            !has_null(chars@) ==> r@.len() == 0,
    {
        let n: usize = chars.len();
        let mut i: usize = 0;
        let mut cut: usize = 0;
        let mut found = false;
        while i < n && !found
            invariant
                n == chars@.len(),
                i <= n,
                !found ==> cut == 0 && (forall|j: int| 0 <= j < i ==> chars@[j] != 0),
                found ==> cut < i <= n && chars@[cut as int] == 0
                    && (forall|j: int| 0 <= j < cut ==> chars@[j] != 0),
            decreases n - i,
        {
            if *slice_index_get(chars, i) == 0 {
                cut = i;
                found = true;
            }
            i = i + 1;
        }
        let prefix: &[u16] = if found {
            slice_subrange(chars, 0, cut)
        } else {
            slice_subrange(chars, 0, 0)
        };
        proof {
            if found {
                lemma_first_null_at(chars@, cut as int);
                assert(prefix@ =~= wide_prefix(chars@));
            } else {
                assert(!has_null(chars@));
                assert(prefix@ =~= wide_prefix(chars@));
            }
        }
        decode_utf16_lossy(prefix)
    }
}

} // verus!
