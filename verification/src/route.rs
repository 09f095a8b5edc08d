//! The route table of the HTTP surface: three endpoints, matched from the
//! request method and path. The item path carries the identifier as a
//! decimal segment, parsed and checked against overflow here.

use vstd::prelude::*;

verus! {

/// Which endpoint a request addresses.
pub enum Route {
    /// `GET /items`
    ListItems,
    /// `POST /items`
    CreateItem,
    /// `GET /item/{id}`, with the parsed identifier.
    GetItem(i64),
    /// No endpoint matches.
    Unknown,
}

/// Whether `c` is a decimal digit.
pub open spec fn is_digit(c: char) -> bool {
    48 <= c as u32 <= 57
}

/// Whether every character of `s` is a decimal digit.
pub open spec fn all_digits(s: Seq<char>) -> bool {
    forall|k: int| 0 <= k < s.len() ==> is_digit(#[trigger] s[k])
}

/// The number the digit characters of `s` spell, most significant first.
pub open spec fn digits_val(s: Seq<char>) -> int
    decreases s.len(),
{
    if s.len() == 0 {
        0
    } else {
        digits_val(s.drop_last()) * 10 + (s.last() as u32 - 48)
    }
}

/// Whether `s` is an identifier segment the service accepts: non-empty,
/// digits only, and a value that fits the identifier type.
pub open spec fn valid_id_segment(s: Seq<char>) -> bool {
    s.len() > 0 && all_digits(s) && digits_val(s) <= i64::MAX
}

/// The route for a method and path: `/items` answers GET and POST,
/// `/item/{id}` answers GET when the segment after `/item/` is a valid
/// identifier; everything else is unknown.
pub open spec fn spec_route(method: Seq<char>, path: Seq<char>) -> Route {
    if path == "/items"@ && method == "GET"@ {
        Route::ListItems
    } else if path == "/items"@ && method == "POST"@ {
        Route::CreateItem
    } else if method == "GET"@ && path.len() > 6 && path.take(6) == "/item/"@ && valid_id_segment(
        path.skip(6),
    ) {
        Route::GetItem(digits_val(path.skip(6)) as i64)
    } else {
        Route::Unknown
    }
}

/// A prefix of a digit string spells at most the whole string's value.
proof fn lemma_digits_val_nonneg(s: Seq<char>)
    requires
        all_digits(s),
    ensures
        digits_val(s) >= 0,
    decreases s.len(),
{
    if s.len() > 0 {
        assert forall|k: int| 0 <= k < s.drop_last().len() implies is_digit(
            #[trigger] s.drop_last()[k],
        ) by {
            assert(s.drop_last()[k] == s[k]);
        }
        lemma_digits_val_nonneg(s.drop_last());
        assert(is_digit(s.last()));
    }
}

proof fn lemma_digits_val_prefix_le(s: Seq<char>, i: int)
    requires
        all_digits(s),
        0 <= i <= s.len(),
    ensures
        digits_val(s.take(i)) <= digits_val(s),
    decreases s.len() - i,
{
    if i < s.len() {
        lemma_digits_val_prefix_le(s, i + 1);
        let t = s.take(i + 1);
        assert(t.drop_last() =~= s.take(i));
        assert(t.last() == s[i]);
        assert(is_digit(s[i]));
        assert forall|k: int| 0 <= k < s.take(i).len() implies is_digit(
            #[trigger] s.take(i)[k],
        ) by {
            assert(s.take(i)[k] == s[k]);
        }
        lemma_digits_val_nonneg(s.take(i));
    } else {
        assert(s.take(i) =~= s);
    }
}

/// Whether two strings hold the same characters.
pub fn str_eq(a: &str, b: &str) -> (r: bool)
    ensures
        r == (a@ == b@),
{
    let na = a.unicode_len();
    let nb = b.unicode_len();
    if na != nb {
        proof {
            assert(a@ != b@) by {
                if a@ == b@ {
                    assert(a@.len() == b@.len());
                }
            }
        }
        return false;
    }
    let mut i: usize = 0;
    while i < na
        invariant
            i <= na,
            na == a@.len(),
            na == b@.len(),
            forall|k: int| 0 <= k < i ==> a@[k] == b@[k],
        decreases na - i,
    {
        if a.get_char(i) != b.get_char(i) {
            proof {
                assert(a@ != b@) by {
                    if a@ == b@ {
                        assert(a@[i as int] == b@[i as int]);
                    }
                }
            }
            return false;
        }
        i += 1;
    }
    proof {
        assert(a@ =~= b@);
    }
    true
}

/// Parses a decimal identifier segment; the spelled value when the segment
/// is valid, nothing when it is empty, holds a non-digit, or overflows.
pub fn parse_id(s: &str) -> (r: Option<i64>)
    ensures
        valid_id_segment(s@) ==> (r matches Some(v) && v as int == digits_val(s@)),
        !valid_id_segment(s@) ==> r is None,
{
    let n = s.unicode_len();
    if n == 0 {
        return None;
    }
    let mut acc: i64 = 0;
    let mut i: usize = 0;
    while i < n
        invariant
            i <= n,
            n == s@.len(),
            n > 0,
            all_digits(s@.take(i as int)),
            0 <= acc,
            acc as int == digits_val(s@.take(i as int)),
        decreases n - i,
    {
        let c = s.get_char(i);
        let u = c as u32;
        if u < 48 || u > 57 {
            proof {
                assert(!is_digit(s@[i as int]));
            }
            return None;
        }
        let d = (u - 48) as i64;
        proof {
            let t = s@.take(i + 1 as int);
            assert(t.drop_last() =~= s@.take(i as int));
            assert(t.last() == s@[i as int]);
            assert(digits_val(t) == acc * 10 + d);
            assert forall|k: int| 0 <= k < t.len() implies is_digit(#[trigger] t[k]) by {
                if k < i {
                    assert(t[k] == s@.take(i as int)[k]);
                } else {
                    assert(t[k] == s@[i as int]);
                }
            }
        }
        if acc > (i64::MAX - d) / 10 {
            proof {
                let t = s@.take(i + 1 as int);
                assert(digits_val(t) > i64::MAX);
                if all_digits(s@) {
                    lemma_digits_val_prefix_le(s@, i + 1);
                    assert(digits_val(s@) > i64::MAX);
                }
            }
            return None;
        }
        acc = acc * 10 + d;
        i += 1;
    }
    proof {
        assert(s@.take(n as int) =~= s@);
    }
    Some(acc)
}

/// Matches a request against the route table.
pub fn match_route(method: &str, path: &str) -> (r: Route)
    ensures
        r == spec_route(method@, path@),
{
    let is_get = str_eq(method, "GET");
    let is_post = str_eq(method, "POST");
    if str_eq(path, "/items") {
        if is_get {
            Route::ListItems
        } else if is_post {
            Route::CreateItem
        } else {
            Route::Unknown
        }
    } else {
        let n = path.unicode_len();
        if is_get && n > 6 {
            let head = path.substring_char(0, 6);
            let tail = path.substring_char(6, n);
            proof {
                assert(head@ =~= path@.take(6));
                assert(tail@ =~= path@.skip(6));
            }
            if str_eq(head, "/item/") {
                match parse_id(tail) {
                    Some(id) => Route::GetItem(id),
                    None => Route::Unknown,
                }
            } else {
                Route::Unknown
            }
        } else {
            Route::Unknown
        }
    }
}

} // verus!
