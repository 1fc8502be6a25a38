use vstd::prelude::*;

verus! {

/// Segments joined in order, with one newline between consecutive ones and
/// none at the end.
pub open spec fn joined(segments: Seq<Seq<char>>) -> Seq<char>
    decreases segments.len(),
{
    if segments.len() == 0 {
        Seq::empty()
    } else if segments.len() == 1 {
        segments[0]
    } else {
        joined(segments.drop_last()) + "\n"@ + segments.last()
    }
}

/// The text of each segment, in order.
pub open spec fn segment_texts(segments: Seq<String>) -> Seq<Seq<char>> {
    segments.map_values(|s: String| s@)
}

/// Joins the recognised segments into one transcript, a newline between
/// consecutive segments.
pub fn assemble(segments: &Vec<String>) -> (r: String)
    ensures
        r@ == joined(segment_texts(segments@)),
{
    let mut out = String::new();
    let mut i: usize = 0;
    while i < segments.len()
        invariant
            i <= segments@.len(),
            out@ == joined(segment_texts(segments@.subrange(0, i as int))),
        decreases segments@.len() - i,
    {
        let ghost prev = segment_texts(segments@.subrange(0, i as int));
        let ghost next = segment_texts(segments@.subrange(0, i as int + 1));
        assert(next.drop_last() =~= prev);
        assert(next.last() == segments@[i as int]@);
        if i > 0 {
            out.append("\n");
        }
        out.append(segments[i].as_str());
        i = i + 1;
    }
    assert(segments@.subrange(0, segments@.len() as int) =~= segments@);
    out
}

} // verus!
