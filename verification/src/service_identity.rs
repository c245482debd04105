//! Validation of the package-family hint that routes requests to the sandbox service.
//!
//! A hint must be a Windows package family name, `Name_PublisherId`, and nothing else:
//! no path separators, no control characters, no extra segments.

use vstd::prelude::*;

verus! {

/// A character allowed in a package name: ASCII letters, digits, `.` and `-`.
pub open spec fn package_name_char(c: char) -> bool {
    ('a' <= c && c <= 'z') || ('A' <= c && c <= 'Z') || ('0' <= c && c <= '9') || c == '.' || c == '-'
}

/// A character of a publisher id: lowercase Crockford base32 (digits and letters
/// other than `i`, `l`, `o`, `u`).
pub open spec fn publisher_id_char(c: char) -> bool {
    ('0' <= c && c <= '9') || (('a' <= c && c <= 'z') && c != 'i' && c != 'l' && c != 'o' && c != 'u')
}

/// A package name: 3 to 50 allowed characters.
pub open spec fn valid_package_name(s: Seq<char>) -> bool {
    3 <= s.len() <= 50 && forall|i: int| 0 <= i < s.len() ==> package_name_char(#[trigger] s[i])
}

/// A publisher id: exactly 13 base32 characters.
pub open spec fn valid_publisher_id(s: Seq<char>) -> bool {
    s.len() == 13 && forall|i: int| 0 <= i < s.len() ==> publisher_id_char(#[trigger] s[i])
}

/// A package family name: a package name and a publisher id joined by `_`.
pub open spec fn valid_package_family(s: Seq<char>) -> bool {
    exists|i: int| 0 <= i < s.len() && s[i] == '_' && valid_package_name(#[trigger] s.subrange(0, i))
        && valid_publisher_id(s.subrange(i + 1, s.len() as int))
}

/// Why a service family hint was refused.
#[derive(Clone, Copy, Debug, PartialEq, Eq, Structural)]
pub enum ServiceFamilyError {
    /// The hint is not a package family name.
    MalformedFamily,
}

fn name_char(c: char) -> (r: bool)
    ensures
        r == package_name_char(c),
{
    ('a' <= c && c <= 'z') || ('A' <= c && c <= 'Z') || ('0' <= c && c <= '9') || c == '.' || c == '-'
}

fn publisher_char(c: char) -> (r: bool)
    ensures
        r == publisher_id_char(c),
{
    ('0' <= c && c <= '9') || (('a' <= c && c <= 'z') && c != 'i' && c != 'l' && c != 'o' && c != 'u')
}

/// Accepts a package family name, refuses anything else.
pub fn validate_service_family_hint(family: &str) -> (r: Result<(), ServiceFamilyError>)
    ensures
        r is Ok <==> valid_package_family(family@),
{
    let n = family.unicode_len();
    let ghost s = family@;
    // Find the first underscore.
    let mut sep: usize = 0;
    while sep < n && family.get_char(sep) != '_'
        invariant
            n == s.len(),
            s == family@,
            sep <= n,
            forall|k: int| 0 <= k < sep ==> s[k] != '_',
        decreases n - sep,
    {
        sep = sep + 1;
    }
    if sep == n {
        assert(!valid_package_family(s)) by {
            if valid_package_family(s) {
                let i = choose|i: int| 0 <= i < s.len() && s[i] == '_' && valid_package_name(#[trigger] s.subrange(0, i))
                    && valid_publisher_id(s.subrange(i + 1, s.len() as int));
            }
        }
        return Err(ServiceFamilyError::MalformedFamily);
    }
    // Any valid split must be at the first underscore, since names hold none.
    assert(valid_package_family(s) ==> valid_package_name(s.subrange(0, sep as int))
        && valid_publisher_id(s.subrange(sep + 1, s.len() as int))) by {
        if valid_package_family(s) {
            let i = choose|i: int| 0 <= i < s.len() && s[i] == '_' && valid_package_name(#[trigger] s.subrange(0, i))
                && valid_publisher_id(s.subrange(i + 1, s.len() as int));
            if i < sep {
                assert(s[i] != '_');
            } else if i > sep {
                assert(s.subrange(0, i)[sep as int] == '_');
                assert(!package_name_char(s.subrange(0, i)[sep as int]));
            }
        }
    }
    let name_len = sep;
    let mut ok = 3 <= name_len && name_len <= 50;
    let mut i: usize = 0;
    while i < sep
        invariant
            n == s.len(),
            s == family@,
            sep < n,
            i <= sep,
            ok == (3 <= sep <= 50 && forall|k: int| 0 <= k < i ==> package_name_char(#[trigger] s[k])),
        decreases sep - i,
    {
        if !name_char(family.get_char(i)) {
            ok = false;
        }
        i = i + 1;
    }
    assert(ok == valid_package_name(s.subrange(0, sep as int))) by {
        let t = s.subrange(0, sep as int);
        assert forall|k: int| 0 <= k < sep implies #[trigger] t[k] == s[k] by {}
        if ok {
            assert forall|k: int| 0 <= k < t.len() implies package_name_char(#[trigger] t[k]) by {
                assert(package_name_char(s[k]));
            }
        } else if 3 <= sep <= 50 {
            let k = choose|k: int| 0 <= k < sep && !package_name_char(#[trigger] s[k]);
            assert(t[k] == s[k]);
        }
    }
    let pub_len = n - sep - 1;
    let mut ok2 = pub_len == 13;
    let mut j: usize = sep + 1;
    while j < n
        invariant
            n == s.len(),
            s == family@,
            sep < n,
            sep + 1 <= j <= n,
            ok2 == (n - sep - 1 == 13 && forall|k: int| sep + 1 <= k < j ==> publisher_id_char(#[trigger] s[k])),
        decreases n - j,
    {
        if !publisher_char(family.get_char(j)) {
            ok2 = false;
        }
        j = j + 1;
    }
    assert(ok2 == valid_publisher_id(s.subrange(sep + 1, s.len() as int))) by {
        let t = s.subrange(sep + 1, s.len() as int);
        assert forall|k: int| 0 <= k < t.len() implies #[trigger] t[k] == s[sep + 1 + k] by {}
        if ok2 {
            assert forall|k: int| 0 <= k < t.len() implies publisher_id_char(#[trigger] t[k]) by {
                assert(publisher_id_char(s[sep + 1 + k]));
            }
        } else if t.len() == 13 {
            let k = choose|k: int| sep + 1 <= k < n && !publisher_id_char(#[trigger] s[k]);
            assert(t[k - sep - 1] == s[k]);
        }
    }
    if ok && ok2 {
        assert(s[sep as int] == '_');
        assert(valid_package_name(s.subrange(0, sep as int)));
        Ok(())
    } else {
        Err(ServiceFamilyError::MalformedFamily)
    }
}

} // verus!

verus! {

/// An accepted family hint can never name a path: it holds no path separator, no parent
/// reference and no control character.
pub proof fn law_valid_family_is_not_a_path(s: Seq<char>)
    requires
        valid_package_family(s),
    ensures
        forall|k: int| 0 <= k < s.len() ==> #[trigger] s[k] != '\\' && s[k] != '/' && s[k] != ':' && (s[k] as u32) >= 32,
{
    let i = choose|i: int| 0 <= i < s.len() && s[i] == '_' && valid_package_name(#[trigger] s.subrange(0, i))
        && valid_publisher_id(s.subrange(i + 1, s.len() as int));
    assert forall|k: int| 0 <= k < s.len() implies #[trigger] s[k] != '\\' && s[k] != '/' && s[k] != ':' && (s[k] as u32) >= 32 by {
        if k < i {
            assert(s.subrange(0, i)[k] == s[k]);
            assert(package_name_char(s[k]));
        } else if k > i {
            assert(s.subrange(i + 1, s.len() as int)[k - i - 1] == s[k]);
            assert(publisher_id_char(s[k]));
        }
    }
}

} // verus!
