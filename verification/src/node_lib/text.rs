//! Pieces of text, put together.

use vstd::prelude::*;
use vstd::string::StringExecFns;

verus! {

/// The texts that `parts` hold.
pub open spec fn texts_of(parts: Seq<String>) -> Seq<Seq<char>> {
    parts.map_values(|part: String| part@)
}

/// The texts `parts`, one after the other, with `separator` between each
/// two of them.
pub open spec fn join(parts: Seq<Seq<char>>, separator: Seq<char>) -> Seq<char>
    decreases parts.len(),
{
    if parts.len() == 0 {
        Seq::empty()
    } else if parts.len() == 1 {
        parts[0]
    } else {
        join(parts.drop_last(), separator) + separator + parts.last()
    }
}

/// The texts of `parts` from the index `from` on, one after the other, with
/// `separator` between each two of them.
pub fn join_texts(parts: &Vec<String>, from: usize, separator: &str) -> (joined: String)
    requires
        from <= parts@.len(),
    ensures
        joined@ == join(texts_of(parts@).skip(from as int), separator@),
{
    let ghost texts = texts_of(parts@).skip(from as int);
    let mut joined = String::new();
    let mut i: usize = from;
    while i < parts.len()
        invariant
            from <= i <= parts@.len(),
            texts == texts_of(parts@).skip(from as int),
            joined@ == join(texts.take(i - from), separator@),
        decreases parts@.len() - i,
    {
        proof {
            let seen = texts.take(i - from);
            let longer = texts.take(i - from + 1);
            assert(longer.drop_last() =~= seen);
            assert(longer.last() == parts@[i as int]@);
            if i == from {
                assert(join(longer, separator@) =~= joined@ + parts@[i as int]@);
            }
        }
        if i > from {
            joined.append(separator);
        }
        joined.append(parts[i].as_str());
        i = i + 1;
    }
    assert(texts.take(i - from) =~= texts);
    joined
}

} // verus!
