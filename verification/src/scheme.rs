//! Which URL schemes a proxied HTTP connector serves, and how the stream to
//! the target is to be protected for each.

use crate::error::Error;
use vstd::prelude::*;
use vstd::utf8::encode_utf8;

verus! {

/// What is to be done with the stream to the target.
#[derive(Debug, Clone, Copy, PartialEq, Eq, Structural)]
pub enum Protection {
    /// The stream is used as it is.
    Plain,
    /// The stream is wrapped in TLS.
    Tls,
}

/// The protection that a connector which speaks both HTTP and HTTPS gives
/// to a scheme, or the failure for a scheme that it does not serve.
pub open spec fn protection_of(scheme: Seq<char>) -> Result<Protection, Error> {
    if scheme == "http"@ {
        Ok(Protection::Plain)
    } else if scheme == "https"@ {
        Ok(Protection::Tls)
    } else {
        Err(Error::InvalidHttpsScheme)
    }
}

/// Whether two strings hold the same text.
pub fn same_text(a: &str, b: &str) -> (same: bool)
    ensures
        same == (a@ == b@),
{
    let x = a.as_bytes();
    let y = b.as_bytes();
    proof {
        vstd::utf8::encode_utf8_decode_utf8(a@);
        vstd::utf8::encode_utf8_decode_utf8(b@);
    }
    if x.len() != y.len() {
        return false;
    }
    let n = x.len();
    let mut i: usize = 0;
    while i < n
        invariant
            i <= n,
            n == x@.len(),
            n == y@.len(),
            x@ == encode_utf8(a@),
            y@ == encode_utf8(b@),
            forall|j: int| 0 <= j < i ==> x@[j] == y@[j],
        decreases n - i,
    {
        if x[i] != y[i] {
            assert(a@ != b@) by {
                if a@ == b@ {
                    assert(x@[i as int] == y@[i as int]);
                }
            }
            return false;
        }
        i += 1;
    }
    assert(x@ =~= y@);
    true
}

/// The rule of a connector that speaks plain HTTP only: the scheme must be
/// `http`.
pub fn plain_only(scheme: &str) -> (r: Result<(), Error>)
    ensures
        r is Ok <==> scheme@ == "http"@,
        r is Err ==> r == Err::<(), Error>(Error::InvalidHttpScheme),
{
    if same_text(scheme, "http") {
        Ok(())
    } else {
        Err(Error::InvalidHttpScheme)
    }
}

/// The rule of a connector that speaks HTTP and HTTPS: `http` leaves the
/// stream as it is, `https` wraps it in TLS, and no other scheme is served.
pub fn plain_or_tls(scheme: &str) -> (r: Result<Protection, Error>)
    ensures
        r == protection_of(scheme@),
{
    if same_text(scheme, "http") {
        Ok(Protection::Plain)
    } else if same_text(scheme, "https") {
        Ok(Protection::Tls)
    } else {
        Err(Error::InvalidHttpsScheme)
    }
}

} // verus!
