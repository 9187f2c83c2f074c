//! The stateless routing policy.
//!
//! A request whose method is POST and whose path contains the
//! classification marker `/classify` is dispatched to the actor named by
//! the request's geography metadata (its continent code); every other
//! request is handed to the static-asset collaborator unchanged. A
//! classification request without geography metadata fails: there is no
//! default identity. Paths and identities are carried as their bytes.

use vstd::prelude::*;

use crate::errors::ClassifyError;

verus! {

/// The bytes of the path marker "/classify" that selects the
/// classification endpoint.
pub open spec fn classify_marker() -> Seq<u8> {
    seq![47u8, 99u8, 108u8, 97u8, 115u8, 115u8, 105u8, 102u8, 121u8]
}

/// `needle` occurs in `hay` starting at position `i`.
pub open spec fn occurs_at(hay: Seq<u8>, needle: Seq<u8>, i: int) -> bool {
    &&& 0 <= i
    &&& i + needle.len() <= hay.len()
    &&& forall|k: int| 0 <= k < needle.len() ==> hay[i + k] == needle[k]
}

/// The path contains the classification marker somewhere.
pub open spec fn contains_marker(hay: Seq<u8>) -> bool {
    exists|i: int| occurs_at(hay, classify_marker(), i)
}

/// The identity a continent code names; distinct codes name distinct
/// identities.
pub open spec fn identity_for(continent: Seq<u8>) -> Seq<u8> {
    continent
}

/// Builds the marker bytes for the scan.
fn marker_bytes() -> (m: Vec<u8>)
    ensures
        m@ == classify_marker(),
{
    let mut m: Vec<u8> = Vec::new();
    m.push(47);
    m.push(99);
    m.push(108);
    m.push(97);
    m.push(115);
    m.push(115);
    m.push(105);
    m.push(102);
    m.push(121);
    proof {
        assert(m@ =~= classify_marker());
    }
    m
}

/// Whether the marker occurs at position `i` of the path.
fn matches_at(path: &Vec<u8>, marker: &Vec<u8>, i: usize) -> (r: bool)
    requires
        marker@ == classify_marker(),
        i + marker@.len() <= path@.len(),
    ensures
        r <==> occurs_at(path@, classify_marker(), i as int),
{
    let n = path.len();
    let mlen = marker.len();
    let mut j: usize = 0;
    while j < mlen
        invariant
            marker@ == classify_marker(),
            n == path@.len(),
            mlen == marker@.len(),
            i + mlen <= n,
            j <= mlen,
            forall|k: int| 0 <= k < j ==> path@[i + k] == classify_marker()[k],
        decreases mlen - j,
    {
        if path[i + j] != marker[j] {
            proof {
                assert(path@[i + j as int] != classify_marker()[j as int]);
            }
            return false;
        }
        j = j + 1;
    }
    true
}

/// Whether the request path contains the classification marker.
pub fn path_is_classify(path: &Vec<u8>) -> (r: bool)
    ensures
        r <==> contains_marker(path@),
{
    let marker = marker_bytes();
    let n = path.len();
    let mlen = marker.len();
    if n < mlen {
        proof {
            assert forall|i: int| !occurs_at(path@, classify_marker(), i) by {
                assert(classify_marker().len() == 9);
            }
        }
        return false;
    }
    let end = n - mlen;
    let mut i: usize = 0;
    while i <= end
        invariant
            marker@ == classify_marker(),
            n == path@.len(),
            mlen == marker@.len(),
            mlen == 9,
            end + mlen == n,
            i <= end + 1,
            forall|k: int| 0 <= k < i ==> !occurs_at(path@, classify_marker(), k),
        decreases end + 1 - i,
    {
        if matches_at(path, &marker, i) {
            return true;
        }
        i = i + 1;
    }
    proof {
        // Positions up to `end` were all scanned; any later start would run
        // past the end of the path.
        assert forall|k: int| !occurs_at(path@, classify_marker(), k) by {
            assert(classify_marker().len() == 9);
        }
    }
    false
}

/// Where one request goes.
pub enum Route {
    /// Forward the body to the actor with this identity.
    Dispatch { identity: Vec<u8> },
    /// Not a classification request: hand it to the static-asset
    /// collaborator unchanged.
    Assets,
    /// A classification request whose identity cannot be derived.
    Fail { error: ClassifyError },
}

/// The routing policy: a POST to a path containing the classification
/// marker is dispatched to the actor named by the continent metadata;
/// without that metadata such a request fails with
/// `RoutingMetadataMissing`; every other request goes to the static-asset
/// collaborator.
pub fn route(is_post: bool, path: &Vec<u8>, continent: Option<Vec<u8>>) -> (r: Route)
    ensures
        !(is_post && contains_marker(path@)) ==> r is Assets,
        is_post && contains_marker(path@) ==> match continent {
            Some(c) => (r matches Route::Dispatch { identity } && identity@ == identity_for(c@)),
            None => r == Route::Fail { error: ClassifyError::RoutingMetadataMissing },
        },
{
    if is_post && path_is_classify(path) {
        match continent {
            Some(c) => Route::Dispatch { identity: c },
            None => Route::Fail { error: ClassifyError::RoutingMetadataMissing },
        }
    } else {
        Route::Assets
    }
}

/// The fixed identity for single-instance deployments, in place of a
/// geography-derived one: the bytes of "GLOBAL".
pub fn singleton_identity() -> (id: Vec<u8>)
    ensures
        id@ == seq![71u8, 76u8, 79u8, 66u8, 65u8, 76u8],
{
    let mut id: Vec<u8> = Vec::new();
    id.push(71);
    id.push(76);
    id.push(79);
    id.push(66);
    id.push(65);
    id.push(76);
    proof {
        assert(id@ =~= seq![71u8, 76u8, 79u8, 66u8, 65u8, 76u8]);
    }
    id
}

/// Distinct continent codes name distinct actor identities, so their
/// actors hold independent state and load independently of one another.
pub proof fn lemma_identities_independent(c1: Seq<u8>, c2: Seq<u8>)
    requires
        c1 != c2,
    ensures
        identity_for(c1) != identity_for(c2),
{
}

} // verus!
