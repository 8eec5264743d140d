//! Truncating a string with a trailing ellipsis.
use vstd::prelude::*;
use crate::util::text::{
    concat_all, grapheme_clusters, graphemes_of, lemma_concat_take_step, push_char, views,
};

verus! {

/// Number of trailing graphemes replaced by dots.
pub const ELLIPSIS_LEN: usize = 2;

/// The first `min(#graphemes, max_width)` graphemes of a string whose last
/// `ELLIPSIS_LEN` graphemes are each replaced by one '.'; nothing when fewer
/// than `ELLIPSIS_LEN` graphemes would be kept.
pub open spec fn ellipsis_spec(gs: Seq<Seq<char>>, max_width: nat) -> Option<Seq<char>> {
    let final_len = if gs.len() < max_width { gs.len() } else { max_width };
    if final_len < 2 {
        None
    } else {
        Some(concat_all(gs.take(final_len - 2)) + seq!['.', '.'])
    }
}

pub fn set_str_end_as_ellipsis(content: &str, max_width: usize) -> (r: Option<String>)
    ensures
        r matches Some(s) ==> ellipsis_spec(grapheme_clusters(content@), max_width as nat) == Some(s@),
        r is None <==> ellipsis_spec(grapheme_clusters(content@), max_width as nat) is None,
{
    let gs = graphemes_of(content);
    let grapheme_len: usize = gs.len();
    let final_len: usize = if grapheme_len < max_width { grapheme_len } else { max_width };
    if final_len < ELLIPSIS_LEN {
        return None;
    }
    let ghost parts = views(gs@);
    let mut result_str = String::new();
    let mut idx: usize = 0;
    while idx < final_len
        invariant
            final_len <= gs@.len(),
            final_len >= 2,
            parts == views(gs@),
            0 <= idx <= final_len,
            idx <= final_len - 2 ==> result_str@ == concat_all(parts.take(idx as int)),
            idx > final_len - 2 ==> result_str@ == concat_all(parts.take(final_len - 2))
                + Seq::new((idx - (final_len - 2)) as nat, |j: int| '.'),
        decreases final_len - idx,
    {
        if idx >= final_len - ELLIPSIS_LEN {
            let ghost before = result_str@;
            push_char(&mut result_str, '.');
            proof {
                if idx == final_len - 2 {
                    assert(result_str@ =~= concat_all(parts.take(final_len - 2)) + Seq::new(
                        1,
                        |j: int| '.',
                    ));
                } else {
                    assert(result_str@ =~= concat_all(parts.take(final_len - 2)) + Seq::new(
                        (idx + 1 - (final_len - 2)) as nat,
                        |j: int| '.',
                    ));
                }
            }
        } else {
            proof {
                lemma_concat_take_step(parts, idx as int);
            }
            result_str.append(gs[idx].as_str());
        }
        idx = idx + 1;
    }
    assert(result_str@ =~= concat_all(parts.take(final_len - 2)) + seq!['.', '.']);
    Some(result_str)
}

} // verus!
