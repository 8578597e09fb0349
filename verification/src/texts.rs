//! Lists of texts and their mathematical content.

use vstd::prelude::*;
use vstd::string::*;

verus! {

/// The characters of each text of `texts`, in order.
pub open spec fn text_views(texts: Seq<String>) -> Seq<Seq<char>> {
    Seq::new(texts.len(), |i: int| texts[i]@)
}

/// The texts of `parts`, each led by one space, one after the other.
pub open spec fn spaced(parts: Seq<Seq<char>>) -> Seq<char>
    decreases parts.len(),
{
    if parts.len() == 0 {
        Seq::empty()
    } else {
        spaced(parts.drop_last()) + " "@ + parts.last()
    }
}

/// Copies a list of texts.
pub fn clone_texts(texts: &Vec<String>) -> (copy: Vec<String>)
    ensures
        text_views(copy@) == text_views(texts@),
{
    let mut copy: Vec<String> = Vec::new();
    let mut i: usize = 0;
    while i < texts.len()
        invariant
            i <= texts.len(),
            copy@.len() == i,
            forall|j: int| 0 <= j < i ==> copy@[j]@ == texts@[j]@,
        decreases texts.len() - i,
    {
        copy.push(texts[i].clone());
        i += 1;
    }
    copy
}

/// Appends to `line` each text of `parts`, led by one space.
pub fn append_spaced(line: &mut String, parts: &Vec<String>)
    ensures
        final(line)@ == old(line)@ + spaced(text_views(parts@)),
{
    let ghost start = line@;
    let mut i: usize = 0;
    while i < parts.len()
        invariant
            i <= parts.len(),
            line@ == start + spaced(text_views(parts@).take(i as int)),
        decreases parts.len() - i,
    {
        let ghost before = text_views(parts@).take(i as int);
        let ghost after = text_views(parts@).take(i as int + 1);
        line.append(" ");
        line.append(parts[i].as_str());
        assert(after.drop_last() =~= before);
        i += 1;
    }
    assert(text_views(parts@).take(parts@.len() as int) =~= text_views(parts@));
}

} // verus!
