//! Path derivation for freshly generated projects.
//!
//! Writing the scaffolding itself is filesystem work that lives outside
//! the library; the one piece of logic in it — turning a dotted package
//! path into the source directory it lives under — is here, exact.

use vstd::prelude::*;

verus! {

/// `s` with every `.` replaced by `/`.
pub open spec fn dot_to_slash(s: Seq<char>) -> Seq<char> {
    s.map(|i: int, c: char| if c == '.' { '/' } else { c })
}

/// The source directory a dotted package name unpacks to: `src/` plus
/// the package path with every dot a separator.
pub fn dotted_package_name_to_package_path(name: &str) -> (r: String)
    ensures
        r@ == "src/"@ + dot_to_slash(name@),
{
    let mut r = String::from_str("src/");
    let len: usize = name.unicode_len();
    let mut i: usize = 0;
    while i < len
        invariant
            i <= len,
            len == name@.len(),
            r@ == "src/"@ + dot_to_slash(name@.take(i as int)),
        decreases len - i,
    {
        let ghost prev = r@;
        let c = name.get_char(i);
        if c == '.' {
            r.append("/");
        } else {
            let piece = name.substring_char(i, i + 1);
            proof {
                assert(piece@ =~= seq![name@[i as int]]);
            }
            r.append(piece);
        }
        proof {
            reveal_strlit("/");
            assert(dot_to_slash(name@.take(i as int + 1)) =~= dot_to_slash(
                name@.take(i as int),
            ).push(if name@[i as int] == '.' {
                '/'
            } else {
                name@[i as int]
            }));
            assert(r@ =~= "src/"@ + dot_to_slash(name@.take(i as int + 1)));
        }
        i = i + 1;
    }
    proof {
        assert(name@.take(len as int) =~= name@);
    }
    r
}

} // verus!
