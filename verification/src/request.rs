//! The typed request surface and the one piece of request handling with
//! algorithmic content: parsing a relative resource reference such as
//! `Patient/1234` into the bare identifier. Route binding, query-string
//! decoding and transport concerns stay outside this crate.

use vstd::prelude::*;
use vstd::string::StrSliceExecFns;
use std::borrow::ToOwned;

verus! {

/// The query parameters of an explanation-of-benefit search: the patient
/// whose claims are requested, as a relative reference (`Patient/<id>`).
pub struct EobQueryParams {
    pub patient: String,
}

/// `s` is the relative reference of type `ty` to the resource `id`: the
/// type name, one slash, then an identifier that contains no further slash.
pub open spec fn is_relative_reference(s: Seq<char>, ty: Seq<char>, id: Seq<char>) -> bool {
    &&& s == ty + seq!['/'] + id
    &&& !id.contains('/')
}

/// Parses a relative reference of the expected resource type and returns
/// the bare identifier, or `None` when the input is not such a reference.
pub fn parse_relative_reference_expected(reference: &str, expected_type: &str) -> (r: Option<String>)
    ensures
        r matches Some(id) ==> is_relative_reference(reference@, expected_type@, id@),
        r is None ==> forall|id: Seq<char>| !is_relative_reference(reference@, expected_type@, id),
{
    let n = reference.unicode_len();
    let tl = expected_type.unicode_len();
    if n <= tl {
        proof {
            assert forall|id: Seq<char>| !is_relative_reference(reference@, expected_type@, id) by {
                if reference@ == expected_type@ + seq!['/'] + id {
                    assert(reference@.len() == expected_type@.len() + 1 + id.len());
                }
            }
        }
        return None;
    }

    // The reference must start with the expected type name.
    let mut i: usize = 0;
    while i < tl
        invariant
            n == reference@.len(),
            tl == expected_type@.len(),
            tl < n,
            0 <= i <= tl,
            forall|j: int| 0 <= j < i ==> reference@[j] == expected_type@[j],
        decreases tl - i,
    {
        if reference.get_char(i) != expected_type.get_char(i) {
            proof {
                let bad = i as int;
                assert forall|id: Seq<char>| !is_relative_reference(reference@, expected_type@, id) by {
                    if reference@ == expected_type@ + seq!['/'] + id {
                        assert(reference@[bad] == (expected_type@ + seq!['/'] + id)[bad]);
                        assert(reference@[bad] == expected_type@[bad]);
                    }
                }
            }
            return None;
        }
        i += 1;
    }

    // Then one slash.
    if reference.get_char(tl) != '/' {
        proof {
            let at = tl as int;
            assert forall|id: Seq<char>| !is_relative_reference(reference@, expected_type@, id) by {
                if reference@ == expected_type@ + seq!['/'] + id {
                    assert(reference@[at] == (expected_type@ + seq!['/'] + id)[at]);
                    assert(reference@[at] == '/');
                }
            }
        }
        return None;
    }

    // Then an identifier with no further slash.
    let mut k: usize = tl + 1;
    while k < n
        invariant
            n == reference@.len(),
            tl == expected_type@.len(),
            tl < n,
            tl + 1 <= k <= n,
            forall|j: int| tl + 1 <= j < k ==> reference@[j] != '/',
        decreases n - k,
    {
        if reference.get_char(k) == '/' {
            proof {
                let at = k as int;
                let tli = tl as int;
                assert forall|id: Seq<char>| !is_relative_reference(reference@, expected_type@, id) by {
                    if reference@ == expected_type@ + seq!['/'] + id && !id.contains('/') {
                        let cat = expected_type@ + seq!['/'] + id;
                        assert(cat.len() == tli + 1 + id.len());
                        assert(at < cat.len());
                        assert(cat[at] == id[at - tli - 1]);
                        assert(reference@[at] == cat[at]);
                        assert(id[at - tli - 1] == '/');
                        assert(id.contains('/'));
                    }
                }
            }
            return None;
        }
        k += 1;
    }

    let id = reference.substring_char(tl + 1, n).to_owned();
    proof {
        let tli = tl as int;
        assert(reference@ =~= expected_type@ + seq!['/'] + id@);
        assert forall|j: int| 0 <= j < id@.len() implies id@[j] != '/' by {
            assert(id@[j] == reference@[tli + 1 + j]);
        }
        assert(!id@.contains('/'));
    }
    Some(id)
}

} // verus!
