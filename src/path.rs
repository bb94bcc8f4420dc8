//! Paths held as text, joined the way a Unix path gains a relative component.
use vstd::prelude::*;
use vstd::string::StrSliceExecFns;

verus! {

/// Appending text to a `String` (`String::push_str`): the new text is the old
/// text followed by the argument.
pub assume_specification[ String::push_str ](s: &mut String, string: &str)
    ensures
        final(s)@ == old(s)@ + string@,
;

/// The path `base` with the relative component `name` appended: no separator
/// is added after an empty base or one that already ends in `/`.
pub open spec fn path_join(base: Seq<char>, name: Seq<char>) -> Seq<char> {
    if base.len() == 0 || base.last() == '/' {
        base + name
    } else {
        base + seq!['/'] + name
    }
}

/// A path joined with a component ends with that component.
pub proof fn lemma_join_ends_with(base: Seq<char>, name: Seq<char>)
    ensures
        path_join(base, name).len() >= name.len(),
        path_join(base, name).subrange(
            path_join(base, name).len() - name.len(),
            path_join(base, name).len() as int,
        ) == name,
{
    let j = path_join(base, name);
    assert(j.subrange(j.len() - name.len(), j.len() as int) =~= name);
}

/// Joins the relative component `name` onto `base`.
pub fn join(base: &str, name: &str) -> (r: String)
    ensures
        r@ == path_join(base@, name@),
{
    let mut r = base.to_owned();
    let n = base.unicode_len();
    if n > 0 && base.get_char(n - 1) != '/' {
        r.push_str("/");
        proof {
            reveal_strlit("/");
        }
    }
    r.push_str(name);
    r
}

} // verus!
