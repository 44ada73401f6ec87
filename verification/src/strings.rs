use vstd::prelude::*;

verus! {

/// The sequence of character sequences that a list of strings stands for.
pub open spec fn strings_view(v: Seq<String>) -> Seq<Seq<char>> {
    Seq::new(v.len(), |i: int| v[i]@)
}

/// The character sequence that an optional string stands for, if any.
pub open spec fn option_view(s: Option<String>) -> Option<Seq<char>> {
    match s {
        Some(s) => Some(s@),
        None => None,
    }
}

/// A copy of a list of strings.
pub fn copy_strings(list: &Vec<String>) -> (copy: Vec<String>)
    ensures
        strings_view(copy@) == strings_view(list@),
{
    let mut copy: Vec<String> = Vec::new();
    let mut i: usize = 0;
    while i < list.len()
        invariant
            i <= list.len(),
            copy.len() == i,
            forall|k: int| 0 <= k < i ==> copy@[k]@ == list@[k]@,
        decreases list.len() - i,
    {
        copy.push(list[i].clone());
        i = i + 1;
    }
    assert(strings_view(copy@) =~= strings_view(list@));
    copy
}

/// Appends copies of the strings of `more` to `list`.
pub fn append_strings(list: &mut Vec<String>, more: &Vec<String>)
    ensures
        strings_view(final(list)@) == strings_view(old(list)@) + strings_view(more@),
{
    let mut i: usize = 0;
    while i < more.len()
        invariant
            i <= more.len(),
            list.len() == old(list).len() + i,
            forall|k: int| 0 <= k < old(list).len() ==> list@[k]@ == old(list)@[k]@,
            forall|k: int| 0 <= k < i ==> list@[old(list).len() + k]@ == more@[k]@,
        decreases more.len() - i,
    {
        list.push(more[i].clone());
        i = i + 1;
    }
    assert(strings_view(list@) =~= strings_view(old(list)@) + strings_view(more@));
}

} // verus!
