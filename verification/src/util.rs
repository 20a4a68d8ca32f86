//! Small string utilities: membership tests over lists of names, and the
//! line-per-item renderings used for the human-readable checklist.

use vstd::prelude::*;
use vstd::string::StringExecFns;

verus! {

/// Whether some element of `v` has exactly the characters `x`.
pub open spec fn spec_contains_str(v: Seq<String>, x: Seq<char>) -> bool {
    exists|i: int| 0 <= i < v.len() && v[i]@ == x
}

/// Linear search for a string in a list of strings.
pub fn contains_string(v: &Vec<String>, x: &String) -> (r: bool)
    ensures
        r == spec_contains_str(v@, x@),
{
    let mut i: usize = 0;
    while i < v.len()
        invariant
            i <= v@.len(),
            forall|j: int| 0 <= j < i ==> v@[j]@ != x@,
        decreases v@.len() - i,
    {
        if v[i] == *x {
            return true;
        }
        i += 1;
    }
    false
}

/// The items of `items`, each preceded by `prefix`, joined by single
/// newlines: empty for no items, and no trailing newline.
pub open spec fn spec_tagged_lines(items: Seq<Seq<char>>, prefix: Seq<char>) -> Seq<char>
    decreases items.len(),
{
    if items.len() == 0 {
        Seq::empty()
    } else if items.len() == 1 {
        prefix + items[0]
    } else {
        prefix + items[0] + seq!['\n'] + spec_tagged_lines(items.drop_first(), prefix)
    }
}

/// Appending one item extends the rendering by a newline (when something
/// is already there), the prefix, and the item.
proof fn lemma_tagged_lines_push(items: Seq<Seq<char>>, prefix: Seq<char>, x: Seq<char>)
    ensures
        items.len() == 0 ==> spec_tagged_lines(items.push(x), prefix) == prefix + x,
        items.len() > 0 ==> spec_tagged_lines(items.push(x), prefix) == spec_tagged_lines(
            items,
            prefix,
        ) + seq!['\n'] + prefix + x,
    decreases items.len(),
{
    if items.len() == 0 {
        assert(items.push(x).len() == 1);
        assert(items.push(x)[0] == x);
    } else if items.len() == 1 {
        assert(items.push(x).drop_first() =~= items.drop_first().push(x));
        assert(items.drop_first().push(x).len() == 1);
        assert(items.drop_first().push(x)[0] == x);
        assert(spec_tagged_lines(items.push(x).drop_first(), prefix) == prefix + x);
        assert(items.push(x)[0] == items[0]);
    } else {
        lemma_tagged_lines_push(items.drop_first(), prefix, x);
        assert(items.push(x).drop_first() =~= items.drop_first().push(x));
        assert(items.push(x)[0] == items[0]);
        assert(prefix + items[0] + seq!['\n'] + (spec_tagged_lines(items.drop_first(), prefix)
            + seq!['\n'] + prefix + x) =~= (prefix + items[0] + seq!['\n'] + spec_tagged_lines(
            items.drop_first(),
            prefix,
        )) + seq!['\n'] + prefix + x);
    }
}

/// One line per item, each starting with `prefix`, joined by newlines.
fn tagged_lines(v: &Vec<String>, prefix: &str) -> (r: String)
    ensures
        r@ == spec_tagged_lines(v@.map_values(|s: String| s@), prefix@),
{
    let ghost views = v@.map_values(|s: String| s@);
    let mut out = String::new();
    let mut i: usize = 0;
    proof {
        assert(views.take(0) =~= Seq::<Seq<char>>::empty());
    }
    while i < v.len()
        invariant
            i <= v@.len(),
            views == v@.map_values(|s: String| s@),
            out@ == spec_tagged_lines(views.take(i as int), prefix@),
        decreases v@.len() - i,
    {
        if i > 0 {
            out.append("\n");
            proof {
                reveal_strlit("\n");
                assert("\n"@ =~= seq!['\n']);
            }
        }
        out.append(prefix);
        out.append(v[i].as_str());
        proof {
            lemma_tagged_lines_push(views.take(i as int), prefix@, views[i as int]);
            assert(views.take(i as int + 1) =~= views.take(i as int).push(views[i as int]));
        }
        i += 1;
    }
    proof {
        assert(views.take(v@.len() as int) =~= views);
    }
    out
}

/// Renders a list of names as a dashed list, one `- name` per line.
pub fn display_vecs(vec: &Vec<String>) -> (r: String)
    ensures
        r@ == spec_tagged_lines(vec@.map_values(|s: String| s@), "- "@),
{
    tagged_lines(vec, "- ")
}

/// Renders a list of check names as an unticked checklist, one
/// `[ ] name` per line.
pub fn display_checks(vec: &Vec<String>) -> (r: String)
    ensures
        r@ == spec_tagged_lines(vec@.map_values(|s: String| s@), "[ ] "@),
{
    tagged_lines(vec, "[ ] ")
}

} // verus!
