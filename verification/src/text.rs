//! Small verified text utilities: string equality over character
//! sequences and whitespace tokenization for directive comments.

use vstd::prelude::*;
use vstd::string::StringExecFns;

verus! {

/// Character-wise string equality, with its meaning stated over the
/// strings' character sequences.
pub fn str_eq(a: &str, b: &str) -> (r: bool)
    ensures
        r == (a@ == b@),
{
    let a_len = a.unicode_len();
    let b_len = b.unicode_len();
    if a_len != b_len {
        proof {
            assert(a@ != b@);
        }
        return false;
    }
    let mut i: usize = 0;
    while i < a_len
        invariant
            a_len == a@.len(),
            b_len == b@.len(),
            a_len == b_len,
            0 <= i <= a_len,
            forall|j: int| 0 <= j < i ==> a@[j] == b@[j],
        decreases a_len - i,
    {
        if a.get_char(i) != b.get_char(i) {
            proof {
                assert(a@[i as int] != b@[i as int]);
            }
            return false;
        }
        i += 1;
    }
    proof {
        assert(a@ =~= b@);
    }
    true
}

/// Whether a list of names contains a given name.
pub open spec fn spec_contains_str(names: Seq<Seq<char>>, name: Seq<char>) -> bool {
    exists|i: int| 0 <= i < names.len() && names[i] == name
}

pub fn contains_name(names: &Vec<String>, name: &str) -> (r: bool)
    ensures
        r == spec_contains_str(names.deep_view(), name@),
{
    let mut i: usize = 0;
    while i < names.len()
        invariant
            0 <= i <= names@.len(),
            names.deep_view().len() == names@.len(),
            forall|j: int| 0 <= j < i ==> names.deep_view()[j] != name@,
        decreases names@.len() - i,
    {
        if str_eq(names[i].as_str(), name) {
            proof {
                assert(names.deep_view()[i as int] == name@);
            }
            return true;
        }
        i += 1;
    }
    false
}

/// Whether `prefix` is a prefix of `name`, character-wise.
pub open spec fn spec_has_prefix(name: Seq<char>, prefix: Seq<char>) -> bool {
    prefix.len() <= name.len() && name.subrange(0, prefix.len() as int) == prefix
}

pub fn has_prefix(name: &str, prefix: &str) -> (r: bool)
    ensures
        r == spec_has_prefix(name@, prefix@),
{
    let name_len = name.unicode_len();
    let prefix_len = prefix.unicode_len();
    if prefix_len > name_len {
        return false;
    }
    let head = name.substring_char(0, prefix_len);
    str_eq(head, prefix)
}

/// A child path resolved against a base directory: an absolute child
/// stands alone; otherwise the two are joined with a single separator.
pub open spec fn spec_join_path(base: Seq<char>, child: Seq<char>) -> Seq<char> {
    if child.len() > 0 && child[0] == '/' {
        child
    } else if base.len() == 0 {
        child
    } else if base.last() == '/' {
        base + child
    } else {
        base + "/"@ + child
    }
}

pub fn join_path(base: &str, child: &str) -> (r: String)
    ensures
        r@ == spec_join_path(base@, child@),
{
    let child_len = child.unicode_len();
    let base_len = base.unicode_len();
    if child_len > 0 && child.get_char(0) == '/' {
        child.to_owned()
    } else if base_len == 0 {
        child.to_owned()
    } else if base.get_char(base_len - 1) == '/' {
        base.to_owned().concat(child)
    } else {
        base.to_owned().concat("/").concat(child)
    }
}

} // verus!
