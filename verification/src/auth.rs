//! The bearer-token check behind the API routes.
//!
//! The HTTP middleware itself lives outside the library; the decision —
//! does an Authorization header carry exactly the expected token? — is
//! verified here.

use vstd::prelude::*;
use vstd::string::StrSliceExecFns;

verus! {

/// An Authorization header authorizes exactly when it is present and reads
/// `Bearer ` followed by the expected token.
pub open spec fn bearer_authorized(header: Option<Seq<char>>, token: Seq<char>) -> bool {
    match header {
        Some(h) => h == "Bearer "@ + token,
        None => false,
    }
}

/// Decide whether an Authorization header value carries the expected
/// bearer token.
pub fn bearer_token_matches(header: Option<&str>, token: &str) -> (r: bool)
    ensures
        r == bearer_authorized(
            match header {
                Some(h) => Some(h@),
                None => None,
            },
            token@,
        ),
{
    let h = match header {
        Some(h) => h,
        None => {
            return false;
        },
    };
    proof {
        reveal_strlit("Bearer ");
    }
    let hl = h.unicode_len();
    let tl = token.unicode_len();
    if hl < 7 || hl - 7 != tl {
        return false;
    }
    let p = "Bearer ";
    let mut i: usize = 0;
    while i < 7
        invariant
            header matches Some(hh) && hh@ == h@,
            i <= 7,
            hl == h@.len(),
            hl == 7 + token@.len(),
            p@ == "Bearer "@,
            p@.len() == 7,
            forall|j: int| 0 <= j < i ==> h@[j] == p@[j],
        decreases 7 - i,
    {
        if h.get_char(i) != p.get_char(i) {
            proof {
                assert(("Bearer "@ + token@)[i as int] == p@[i as int]);
            }
            return false;
        }
        i += 1;
    }
    let mut k: usize = 0;
    while k < tl
        invariant
            header matches Some(hh) && hh@ == h@,
            k <= tl,
            tl == token@.len(),
            hl == h@.len(),
            hl == 7 + tl,
            "Bearer "@.len() == 7,
            forall|j: int| 0 <= j < 7 ==> h@[j] == "Bearer "@[j],
            forall|j: int| 0 <= j < k ==> h@[7 + j] == token@[j],
        decreases tl - k,
    {
        if h.get_char(7 + k) != token.get_char(k) {
            proof {
                assert(("Bearer "@ + token@)[7 + k as int] == token@[k as int]);
            }
            return false;
        }
        k += 1;
    }
    proof {
        assert(h@ =~= "Bearer "@ + token@);
    }
    true
}

} // verus!
