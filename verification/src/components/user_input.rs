//! A single-line text entry box with a cursor.
//!
//! The cursor is 1-based: offset 1 stands before the first grapheme, and
//! offset `n + 1` stands after the last of `n` graphemes.  Inserting and
//! deleting locate the cursor by grapheme, while moving forward is bounded by
//! the display width of the text.
use vstd::prelude::*;
use crate::util::text::{
    concat_all, display_width, grapheme_clusters, graphemes_of, lemma_concat_nonempty,
    lemma_concat_subrange_step, lemma_concat_take_step, push_char, str_width, views,
};

verus! {

pub struct UserInput {
    pub input: String,
    pub is_secret: bool,
    pub cursor_offset: usize,
}

/// A text entry box whose cursor starts at offset 0.
pub fn new(is_secret: bool) -> (r: UserInput)
    ensures
        r.input@ == Seq::<char>::empty(),
        r.is_secret == is_secret,
        r.cursor_offset == 0,
{
    UserInput { input: String::new(), is_secret, cursor_offset: 0 }
}

/// The text with `ch` placed between the first `k` graphemes and the rest.
pub open spec fn inserted(gs: Seq<Seq<char>>, k: int, ch: char) -> Seq<char> {
    concat_all(gs.take(k)) + seq![ch] + concat_all(gs.subrange(k, gs.len() as int))
}

/// The text with the first character of grapheme `k` removed.
pub open spec fn first_char_removed(gs: Seq<Seq<char>>, k: int) -> Seq<char> {
    concat_all(gs.take(k)) + gs[k].drop_first() + concat_all(gs.subrange(k + 1, gs.len() as int))
}

/// Inserting at the cursor needs the cursor to stand at a grapheme boundary.
pub open spec fn insert_allowed(u: UserInput) -> bool {
    &&& 1 <= u.cursor_offset <= grapheme_clusters(u.input@).len() + 1
    &&& u.cursor_offset < usize::MAX
}

/// Deleting before the cursor needs the cursor to stand at a grapheme
/// boundary, unless it stands at the start of the line.
pub open spec fn delete_allowed(u: UserInput) -> bool {
    u.cursor_offset >= 2 ==> u.cursor_offset <= grapheme_clusters(u.input@).len() + 1
}

/// What the entry box shows: one '*' per grapheme for secret input, the
/// input itself otherwise.
pub open spec fn shown_text(u: UserInput) -> Seq<char> {
    if u.is_secret {
        Seq::new(grapheme_clusters(u.input@).len(), |i: int| '*')
    } else {
        u.input@
    }
}

/// `fin` is `u` after `try_insert(ch)`.
pub open spec fn insert_result(u: UserInput, ch: char, fin: UserInput) -> bool {
    if insert_allowed(u) {
        &&& fin.input@ == inserted(grapheme_clusters(u.input@), u.cursor_offset - 1, ch)
        &&& fin.cursor_offset == u.cursor_offset + 1
        &&& fin.is_secret == u.is_secret
    } else {
        fin == u
    }
}

/// `fin` is `u` after `try_delete()`.
pub open spec fn delete_result(u: UserInput, fin: UserInput) -> bool {
    if !delete_allowed(u) || u.cursor_offset < 2 {
        fin == u
    } else {
        &&& fin.input@ == if u.cursor_offset - 1 == grapheme_clusters(u.input@).len() {
            u.input@.drop_last()
        } else {
            first_char_removed(grapheme_clusters(u.input@), u.cursor_offset - 2)
        }
        &&& fin.cursor_offset == u.cursor_offset - 1
        &&& fin.is_secret == u.is_secret
    }
}

/// `fin` is `u` after `try_set_input` with a string holding `text`.
pub open spec fn set_input_result(u: UserInput, text: Seq<char>, fin: UserInput) -> bool {
    if display_width(text) < usize::MAX {
        &&& fin.input@ == text
        &&& fin.cursor_offset == display_width(text) + 1
        &&& fin.is_secret == u.is_secret
    } else {
        fin == u
    }
}

/// `fin` is `u` with the cursor moved forward within the display width.
pub open spec fn forward_result(u: UserInput, fin: UserInput) -> bool {
    fin == (UserInput {
        cursor_offset: if u.cursor_offset <= display_width(u.input@) && u.cursor_offset < usize::MAX {
            (u.cursor_offset + 1) as usize
        } else {
            u.cursor_offset
        },
        ..u
    })
}

/// `fin` is `u` with the cursor moved back, never before the start.
pub open spec fn back_result(u: UserInput, fin: UserInput) -> bool {
    fin == (UserInput {
        cursor_offset: if u.cursor_offset > 1 { (u.cursor_offset - 1) as usize } else { u.cursor_offset },
        ..u
    })
}

/// Moving the cursor back undoes moving it forward, wherever the forward
/// move was possible (the cursor stood within the display width).
pub proof fn lemma_back_undoes_forward(u: UserInput, mid: UserInput, fin: UserInput)
    requires
        1 <= u.cursor_offset <= display_width(u.input@),
        u.cursor_offset < usize::MAX,
        forward_result(u, mid),
        back_result(mid, fin),
    ensures
        fin == u,
{
}

/// Moving the cursor forward undoes moving it back, wherever the back move
/// was possible (the cursor stood after the start and within one past the
/// display width).
pub proof fn lemma_forward_undoes_back(u: UserInput, mid: UserInput, fin: UserInput)
    requires
        2 <= u.cursor_offset <= display_width(u.input@) + 1,
        back_result(u, mid),
        forward_result(mid, fin),
    ensures
        fin == u,
{
}

proof fn lemma_concat_split(gs: Seq<Seq<char>>, k: int, n: int)
    requires
        0 <= k <= n <= gs.len(),
    ensures
        concat_all(gs.take(n)) == concat_all(gs.take(k)) + concat_all(gs.subrange(k, n)),
    decreases n - k,
{
    if n == k {
        assert(gs.subrange(k, n) =~= Seq::<Seq<char>>::empty());
        assert(concat_all(gs.take(k)) + Seq::<char>::empty() =~= concat_all(gs.take(k)));
    } else {
        lemma_concat_split(gs, k, n - 1);
        lemma_concat_take_step(gs, n - 1);
        lemma_concat_subrange_step(gs, k, n - 1);
        assert(concat_all(gs.take(k)) + concat_all(gs.subrange(k, n - 1)) + gs[n - 1]
            =~= concat_all(gs.take(k)) + (concat_all(gs.subrange(k, n - 1)) + gs[n - 1]));
    }
}

/// Deleting right after inserting restores the text and the cursor, where
/// the text is the join of its graphemes and the inserted character stands
/// as a grapheme of its own in the new text (a combining mark, for one,
/// joins the grapheme before it, and the deletion then takes that whole
/// character back off another grapheme).
pub proof fn lemma_delete_undoes_insert(u: UserInput, ch: char, mid: UserInput, fin: UserInput)
    requires
        insert_allowed(u),
        concat_all(grapheme_clusters(u.input@)) == u.input@,
        grapheme_clusters(inserted(grapheme_clusters(u.input@), u.cursor_offset - 1, ch))
            == grapheme_clusters(u.input@).insert(u.cursor_offset - 1, seq![ch]),
        insert_result(u, ch, mid),
        delete_result(mid, fin),
    ensures
        fin.input@ == u.input@,
        fin.cursor_offset == u.cursor_offset,
        fin.is_secret == u.is_secret,
{
    let g = grapheme_clusters(u.input@);
    let p = u.cursor_offset - 1;
    let g2 = g.insert(p, seq![ch]);
    let n = g.len() as int;
    lemma_concat_split(g, p, n);
    assert(g.take(n) =~= g);
    assert(grapheme_clusters(mid.input@) == g2);
    assert(delete_allowed(mid));
    if p == n {
        assert(g.subrange(p, n) =~= Seq::<Seq<char>>::empty());
        assert(mid.input@ =~= u.input@.push(ch));
        assert(u.input@.push(ch).drop_last() =~= u.input@);
    } else {
        assert(g2.take(p) =~= g.take(p));
        assert(g2[p] == seq![ch]);
        assert(seq![ch].drop_first() =~= Seq::<char>::empty());
        assert(g2.subrange(p + 1, g2.len() as int) =~= g.subrange(p, n));
        assert(fin.input@ =~= concat_all(g.take(p)) + concat_all(g.subrange(p, n)));
    }
}

/// Moving the cursor either way keeps it on the line: from a place between
/// the start and one past the display width, it lands on such a place.
pub proof fn lemma_moves_keep_cursor_on_line(u: UserInput, fwd: UserInput, back: UserInput)
    requires
        1 <= u.cursor_offset <= display_width(u.input@) + 1,
        forward_result(u, fwd),
        back_result(u, back),
    ensures
        1 <= fwd.cursor_offset <= display_width(fwd.input@) + 1,
        1 <= back.cursor_offset <= display_width(back.input@) + 1,
{
}

impl UserInput {
    /// An empty text entry box with the cursor at the start of the line.
    pub fn new(is_secret: bool) -> (r: UserInput)
        ensures
            r.input@ == Seq::<char>::empty(),
            r.is_secret == is_secret,
            r.cursor_offset == 1,
    {
        UserInput { input: String::new(), is_secret, cursor_offset: 1 }
    }

    /// The text the box displays.
    pub fn display_str(&self) -> (r: String)
        ensures
            r@ == shown_text(*self),
    {
        if self.is_secret {
            let gs = graphemes_of(self.input.as_str());
            let mut s = String::new();
            let mut i: usize = 0;
            while i < gs.len()
                invariant
                    i <= gs@.len(),
                    s@ == Seq::new(i as nat, |j: int| '*'),
                decreases gs@.len() - i,
            {
                push_char(&mut s, '*');
                assert(s@ =~= Seq::new((i + 1) as nat, |j: int| '*'));
                i = i + 1;
            }
            assert(gs@.len() == views(gs@).len());
            s
        } else {
            self.input.clone()
        }
    }

    /// Display width of the current input.
    pub fn unicode_width(&self) -> (r: usize)
        ensures
            r == display_width(self.input@),
    {
        str_width(self.input.as_str())
    }

    /// Replaces the input and puts the cursor after its last column.
    pub fn set_input(&mut self, input_init: String)
        requires
            display_width(input_init@) < usize::MAX,
        ensures
            final(self).input@ == input_init@,
            final(self).cursor_offset == display_width(input_init@) + 1,
            final(self).is_secret == old(self).is_secret,
    {
        self.input = input_init;
        self.cursor_offset = self.unicode_width() + 1;
    }

    /// `set_input` where the cursor position after the input fits in a
    /// `usize`; otherwise nothing changes.  Returns whether the input was set.
    pub fn try_set_input(&mut self, input_init: String) -> (r: bool)
        ensures
            r == (display_width(input_init@) < usize::MAX),
            set_input_result(*old(self), input_init@, *final(self)),
    {
        let w = str_width(input_init.as_str());
        if w < usize::MAX {
            self.set_input(input_init);
            true
        } else {
            false
        }
    }

    /// Inserts `ch` at the cursor and moves the cursor past it.
    pub fn insert(&mut self, ch: char)
        requires
            insert_allowed(*old(self)),
        ensures
            final(self).input@ == inserted(
                grapheme_clusters(old(self).input@),
                old(self).cursor_offset - 1,
                ch,
            ),
            final(self).cursor_offset == old(self).cursor_offset + 1,
            final(self).is_secret == old(self).is_secret,
    {
        let gs = graphemes_of(self.input.as_str());
        let ghost parts = views(gs@);
        let k: usize = self.cursor_offset - 1;
        let mut res = String::new();
        let mut i: usize = 0;
        while i < gs.len()
            invariant
                parts == views(gs@),
                k <= gs@.len(),
                i <= gs@.len(),
                i <= k ==> res@ == concat_all(parts.take(i as int)),
                i > k ==> res@ == concat_all(parts.take(k as int)) + seq![ch] + concat_all(
                    parts.subrange(k as int, i as int),
                ),
            decreases gs@.len() - i,
        {
            if i == k {
                push_char(&mut res, ch);
                assert(concat_all(parts.subrange(k as int, k as int)) =~= Seq::<char>::empty());
                assert(res@ =~= concat_all(parts.take(k as int)) + seq![ch] + concat_all(
                    parts.subrange(k as int, k as int),
                ));
            }
            let ghost before = res@;
            res.append(gs[i].as_str());
            proof {
                if i < k {
                    lemma_concat_take_step(parts, i as int);
                } else {
                    lemma_concat_subrange_step(parts, k as int, i as int);
                    assert(res@ =~= concat_all(parts.take(k as int)) + seq![ch] + concat_all(
                        parts.subrange(k as int, i + 1),
                    ));
                }
            }
            i = i + 1;
        }
        if k == gs.len() {
            push_char(&mut res, ch);
            assert(concat_all(parts.subrange(k as int, k as int)) =~= Seq::<char>::empty());
            assert(res@ =~= concat_all(parts.take(k as int)) + seq![ch] + concat_all(
                parts.subrange(k as int, k as int),
            ));
        }
        assert(parts.len() == gs@.len());
        self.input = res;
        self.cursor_offset = self.cursor_offset + 1;
    }

    /// `insert` where the cursor stands at a grapheme boundary; otherwise
    /// nothing changes.  Returns whether `ch` was inserted.
    /// Whether a character can be inserted at the cursor.
    pub fn can_insert(&self) -> (r: bool)
        ensures
            r == insert_allowed(*self),
    {
        let gs = graphemes_of(self.input.as_str());
        assert(gs@.len() == views(gs@).len());
        1 <= self.cursor_offset && self.cursor_offset - 1 <= gs.len() && self.cursor_offset < usize::MAX
    }

    /// Whether the grapheme before the cursor can be deleted.
    pub fn can_delete(&self) -> (r: bool)
        ensures
            r == delete_allowed(*self),
    {
        let gs = graphemes_of(self.input.as_str());
        assert(gs@.len() == views(gs@).len());
        self.cursor_offset < 2 || self.cursor_offset - 1 <= gs.len()
    }

    pub fn try_insert(&mut self, ch: char) -> (r: bool)
        ensures
            r == insert_allowed(*old(self)),
            insert_result(*old(self), ch, *final(self)),
    {
        let gs = graphemes_of(self.input.as_str());
        assert(gs@.len() == views(gs@).len());
        if 1 <= self.cursor_offset && self.cursor_offset - 1 <= gs.len() && self.cursor_offset
            < usize::MAX {
            self.insert(ch);
            true
        } else {
            false
        }
    }

    /// Deletes before the cursor and moves the cursor back: at the end of the
    /// line the last character goes, elsewhere the first character of the
    /// grapheme before the cursor.  Nothing happens at the start of the line.
    pub fn delete(&mut self)
        requires
            delete_allowed(*old(self)),
        ensures
            old(self).cursor_offset < 2 ==> *final(self) == *old(self),
            old(self).cursor_offset >= 2 && old(self).cursor_offset - 1 == grapheme_clusters(
                old(self).input@,
            ).len() ==> final(self).input@ == old(self).input@.drop_last(),
            old(self).cursor_offset >= 2 && old(self).cursor_offset - 1 != grapheme_clusters(
                old(self).input@,
            ).len() ==> final(self).input@ == first_char_removed(
                grapheme_clusters(old(self).input@),
                old(self).cursor_offset - 2,
            ),
            old(self).cursor_offset >= 2 ==> final(self).cursor_offset == old(self).cursor_offset
                - 1,
            final(self).is_secret == old(self).is_secret,
    {
        if self.cursor_offset < 2 {
            return;
        }
        let gs = graphemes_of(self.input.as_str());
        let ghost parts = views(gs@);
        assert(parts.len() == gs@.len());
        if self.cursor_offset - 1 == gs.len() {
            proof {
                assert forall|j: int| 0 <= j < parts.len() implies #[trigger] parts[j].len()
                    > 0 by {
                    assert(parts[j] == gs@[j]@);
                }
                lemma_concat_nonempty(parts);
            }
            let n = self.input.as_str().unicode_len();
            let s = self.input.as_str().substring_char(0, n - 1);
            self.input = s.to_owned();
            assert(self.input@ =~= old(self).input@.drop_last());
        } else {
            let k: usize = self.cursor_offset - 2;
            let mut res = String::new();
            let mut i: usize = 0;
            while i < gs.len()
                invariant
                    parts == views(gs@),
                    k < gs@.len(),
                    i <= gs@.len(),
                    forall|j: int| 0 <= j < gs@.len() ==> #[trigger] gs@[j]@.len() > 0,
                    i <= k ==> res@ == concat_all(parts.take(i as int)),
                    i > k ==> res@ == concat_all(parts.take(k as int)) + parts[k as int].drop_first()
                        + concat_all(parts.subrange(k + 1, i as int)),
                decreases gs@.len() - i,
            {
                let ghost before = res@;
                if i == k {
                    let g = gs[i].as_str();
                    let glen = g.unicode_len();
                    assert(g@ == parts[k as int]);
                    assert(gs@[k as int]@.len() > 0);
                    let rest = g.substring_char(1, glen);
                    res.append(rest);
                    assert(concat_all(parts.subrange(k + 1, k + 1)) =~= Seq::<char>::empty());
                    assert(rest@ =~= parts[k as int].drop_first());
                    assert(res@ =~= concat_all(parts.take(k as int)) + parts[k as int].drop_first()
                        + concat_all(parts.subrange(k + 1, k + 1)));
                } else {
                    res.append(gs[i].as_str());
                    proof {
                        if i < k {
                            lemma_concat_take_step(parts, i as int);
                        } else {
                            lemma_concat_subrange_step(parts, k + 1, i as int);
                            assert(res@ =~= concat_all(parts.take(k as int)) + parts[k as int].drop_first()
                                + concat_all(parts.subrange(k + 1, i + 1)));
                        }
                    }
                }
                i = i + 1;
            }
            self.input = res;
        }
        self.cursor_offset = self.cursor_offset - 1;
    }

    /// `delete` where the cursor stands at a grapheme boundary or at the
    /// start of the line; otherwise nothing changes.  Returns whether the
    /// deletion was carried out.
    pub fn try_delete(&mut self) -> (r: bool)
        ensures
            r == delete_allowed(*old(self)),
            delete_result(*old(self), *final(self)),
    {
        let gs = graphemes_of(self.input.as_str());
        assert(gs@.len() == views(gs@).len());
        if self.cursor_offset < 2 || self.cursor_offset - 1 <= gs.len() {
            self.delete();
            true
        } else {
            false
        }
    }

    /// Moves the cursor one step back, never before the start of the line.
    pub fn move_cursor_back(&mut self)
        ensures
            final(self).input == old(self).input,
            final(self).is_secret == old(self).is_secret,
            final(self).cursor_offset == if old(self).cursor_offset > 1 {
                (old(self).cursor_offset - 1) as usize
            } else {
                old(self).cursor_offset
            },
    {
        if self.cursor_offset > 1 {
            self.cursor_offset = self.cursor_offset - 1;
        }
    }

    /// Moves the cursor one step forward while it stands within the display
    /// width of the input.
    pub fn move_cursor_forwards(&mut self)
        requires
            old(self).cursor_offset < usize::MAX,
        ensures
            final(self).input == old(self).input,
            final(self).is_secret == old(self).is_secret,
            final(self).cursor_offset == if old(self).cursor_offset <= display_width(
                old(self).input@,
            ) {
                (old(self).cursor_offset + 1) as usize
            } else {
                old(self).cursor_offset
            },
    {
        if self.cursor_offset <= self.unicode_width() {
            self.cursor_offset = self.cursor_offset + 1;
        }
    }
}

} // verus!
