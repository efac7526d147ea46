//! Options of the git e-mail configuration helper.
use vstd::prelude::*;
use vstd::string::*;

verus! {

/// Options: the patch subject prefix (the repository name when absent) and
/// the addresses to send patches to.
pub struct GitEmail {
    pub prefix: Option<String>,
    pub to: Vec<String>,
}


/// The patch subject prefix for a repository or project name.
pub fn subject_prefix(name: &str) -> (r: String)
    ensures
        r@ == "PATCH "@ + name@,
{
    let mut r = String::from_str("PATCH ");
    r.append(name);
    r
}

/// The texts of `items` separated by commas.
pub open spec fn comma_joined(items: Seq<Seq<char>>) -> Seq<char>
    decreases items.len(),
{
    if items.len() == 0 {
        Seq::empty()
    } else if items.len() == 1 {
        items[0]
    } else {
        comma_joined(items.drop_last()) + ","@ + items.last()
    }
}

/// The views of a list of strings.
pub open spec fn texts(items: Seq<String>) -> Seq<Seq<char>> {
    items.map_values(|s: String| s@)
}

/// The recipient list: the addresses separated by commas.
pub fn join_emails(to: &Vec<String>) -> (r: String)
    ensures
        r@ == comma_joined(texts(to@)),
{
    let mut r = String::new();
    let mut i: usize = 0;
    while i < to.len()
        invariant
            i <= to@.len(),
            r@ == comma_joined(texts(to@.subrange(0, i as int))),
        decreases to@.len() - i,
    {
        assert(texts(to@.subrange(0, i + 1)).drop_last() =~= texts(to@.subrange(0, i as int)));
        if i > 0 {
            r.append(",");
        } else {
            assert(r@ =~= Seq::<char>::empty());
        }
        r.append(to[i].as_str());
        i = i + 1;
        assert(r@ =~= comma_joined(texts(to@.subrange(0, i as int))));
    }
    assert(to@.subrange(0, i as int) =~= to@);
    r
}

} // verus!
