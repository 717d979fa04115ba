//! The block primitive: a small algebra for assembling ordered,
//! indentation-aware text without manual string concatenation.
//!
//! A block is a single line, a concatenation of blocks at the same
//! indentation level, or a nesting that places a block's lines one level
//! deeper.  Rendering walks the lines in construction order and prefixes
//! each with four spaces per nesting level; it never reorders anything.

use vstd::prelude::*;

verus! {

/// One line of a block: its nesting depth and its text.
pub struct LineShape {
    pub depth: nat,
    pub text: Seq<char>,
}

/// An ordered, indentation-aware piece of text.
pub enum Block {
    /// No lines at all.
    Empty,
    /// A single line at the current level.
    Line(String),
    /// The lines of the first block followed by those of the second,
    /// both at the current level.
    Pair(Box<Block>, Box<Block>),
    /// The lines of the inner block, each one level deeper.
    Nest(Box<Block>),
}

/// The four spaces that one nesting level adds in front of a line.
pub open spec fn indent_unit() -> Seq<char> {
    seq![' ', ' ', ' ', ' ']
}

/// The indentation prefix of a line at depth `d`.
pub open spec fn spec_indent(d: nat) -> Seq<char>
    decreases d,
{
    if d == 0 {
        Seq::<char>::empty()
    } else {
        indent_unit() + spec_indent((d - 1) as nat)
    }
}

/// Every line one level deeper.
pub open spec fn deepen(ls: Seq<LineShape>) -> Seq<LineShape> {
    ls.map_values(|l: LineShape| LineShape { depth: l.depth + 1, text: l.text })
}

/// Every line with its indentation folded into its text, at depth zero.
pub open spec fn flat_lines(ls: Seq<LineShape>) -> Seq<LineShape> {
    ls.map_values(|l: LineShape| LineShape { depth: 0, text: spec_indent(l.depth) + l.text })
}

/// The ordered lines of a block.
pub open spec fn block_lines(b: Block) -> Seq<LineShape>
    decreases b,
{
    match b {
        Block::Empty => Seq::empty(),
        Block::Line(s) => seq![LineShape { depth: 0, text: s@ }],
        Block::Pair(a, c) => block_lines(*a) + block_lines(*c),
        Block::Nest(a) => deepen(block_lines(*a)),
    }
}

impl View for Block {
    type V = Seq<LineShape>;

    open spec fn view(&self) -> Seq<LineShape> {
        block_lines(*self)
    }
}

/// The text of each line, prefixed by `pre` and by its own indentation.
pub open spec fn baked(ls: Seq<LineShape>, pre: Seq<char>) -> Seq<Seq<char>> {
    ls.map_values(|l: LineShape| pre + spec_indent(l.depth) + l.text)
}

/// The given texts concatenated, each followed by a newline.
pub open spec fn spec_cat(texts: Seq<Seq<char>>) -> Seq<char>
    decreases texts.len(),
{
    if texts.len() == 0 {
        Seq::<char>::empty()
    } else {
        texts[0] + seq!['\n'] + spec_cat(texts.drop_first())
    }
}

/// The rendered text of a sequence of lines: each line indented by four
/// spaces per depth level and closed by a newline.
pub open spec fn spec_render(ls: Seq<LineShape>) -> Seq<char> {
    spec_cat(baked(ls, Seq::empty()))
}

/// Baking distributes over concatenation of line sequences.
pub proof fn lemma_baked_concat(a: Seq<LineShape>, b: Seq<LineShape>, pre: Seq<char>)
    ensures
        baked(a + b, pre) == baked(a, pre) + baked(b, pre),
{
    assert(baked(a + b, pre) =~= baked(a, pre) + baked(b, pre));
}

/// Baking deepened lines equals baking the original lines under a prefix
/// lengthened by one indentation unit.
pub proof fn lemma_baked_deepen(ls: Seq<LineShape>, pre: Seq<char>)
    ensures
        baked(deepen(ls), pre) == baked(ls, pre + indent_unit()),
{
    assert forall|i: int| 0 <= i < ls.len() implies baked(deepen(ls), pre)[i] == baked(
        ls,
        pre + indent_unit(),
    )[i] by {
        let l = ls[i];
        assert(spec_indent(l.depth + 1) == indent_unit() + spec_indent(l.depth));
        assert(pre + (indent_unit() + spec_indent(l.depth)) + l.text =~= (pre + indent_unit())
            + spec_indent(l.depth) + l.text);
    }
    assert(baked(deepen(ls), pre) =~= baked(ls, pre + indent_unit()));
}


/// Concatenating the texts of two line lists in order concatenates their
/// rendered forms.
pub proof fn lemma_cat_concat(a: Seq<Seq<char>>, b: Seq<Seq<char>>)
    ensures
        spec_cat(a + b) == spec_cat(a) + spec_cat(b),
    decreases a.len(),
{
    if a.len() == 0 {
        assert(a + b =~= b);
        assert(spec_cat(a) + spec_cat(b) =~= spec_cat(b));
    } else {
        assert((a + b).drop_first() =~= a.drop_first() + b);
        lemma_cat_concat(a.drop_first(), b);
        assert(spec_cat(a + b) =~= spec_cat(a) + spec_cat(b));
    }
}

/// Discarding the nesting structure with `flatten` does not change the
/// rendered text: the indentation is already folded into each line.
pub proof fn lemma_render_flat(ls: Seq<LineShape>)
    ensures
        spec_render(flat_lines(ls)) == spec_render(ls),
{
    let pre = Seq::<char>::empty();
    assert forall|i: int| 0 <= i < ls.len() implies baked(flat_lines(ls), pre)[i] == baked(
        ls,
        pre,
    )[i] by {
        let l = ls[i];
        assert(pre + spec_indent(0) + (spec_indent(l.depth) + l.text) =~= pre + spec_indent(
            l.depth,
        ) + l.text);
    }
    assert(baked(flat_lines(ls), pre) =~= baked(ls, pre));
}

/// The view of each string in the sequence.
pub open spec fn texts_of(v: Seq<String>) -> Seq<Seq<char>> {
    v.map_values(|s: String| s@)
}

/// The rendered text of one line, alone.
pub proof fn lemma_cat_singleton(x: Seq<char>)
    ensures
        spec_cat(seq![x]) == x + seq!['\n'],
{
    assert(seq![x].len() == 1);
    assert(seq![x][0] == x);
    assert(seq![x].drop_first() =~= Seq::<Seq<char>>::empty());
    assert(spec_cat(Seq::<Seq<char>>::empty()) == Seq::<char>::empty());
    assert(spec_cat(seq![x]) == x + seq!['\n'] + Seq::<char>::empty());
    assert(x + seq!['\n'] + Seq::<char>::empty() =~= x + seq!['\n']);
}

/// Appending one more text to a prefix appends that text and a newline
/// to the rendered form.
pub proof fn lemma_cat_snoc(s: Seq<Seq<char>>, i: int)
    requires
        0 <= i < s.len(),
    ensures
        spec_cat(s.take(i + 1)) == spec_cat(s.take(i)) + s[i] + seq!['\n'],
{
    lemma_cat_concat(s.take(i), seq![s[i]]);
    assert(s.take(i) + seq![s[i]] =~= s.take(i + 1));
    lemma_cat_singleton(s[i]);
    assert(spec_cat(s.take(i)) + (s[i] + seq!['\n']) =~= spec_cat(s.take(i)) + s[i]
        + seq!['\n']);
}

/// Collects the baked texts of `b`, each prefixed by `pre`, onto `out`.
fn push_baked(b: &Block, pre: &String, out: &mut Vec<String>)
    ensures
        texts_of(final(out)@) == texts_of(old(out)@) + baked(block_lines(*b), pre@),
    decreases *b,
{
    match b {
        Block::Empty => {
            proof {
                assert(texts_of(out@) + baked(block_lines(*b), pre@) =~= texts_of(out@));
            }
        },
        Block::Line(s) => {
            let t = pre.clone().concat(s.as_str());
            let ghost before = out@;
            out.push(t);
            proof {
                assert(pre@ + spec_indent(0) + s@ =~= pre@ + s@);
                assert(texts_of(out@) =~= texts_of(before) + baked(block_lines(*b), pre@));
            }
        },
        Block::Pair(a, c) => {
            push_baked(a, pre, out);
            push_baked(c, pre, out);
            proof {
                lemma_baked_concat(block_lines(**a), block_lines(**c), pre@);
                assert(texts_of(out@) =~= texts_of(old(out)@) + baked(block_lines(*b), pre@));
            }
        },
        Block::Nest(a) => {
            let mut deeper = pre.clone();
            deeper.append("    ");
            proof {
                reveal_strlit("    ");
                assert(deeper@ =~= pre@ + indent_unit());
            }
            push_baked(a, &deeper, out);
            proof {
                lemma_baked_deepen(block_lines(**a), pre@);
                assert(texts_of(out@) =~= texts_of(old(out)@) + baked(block_lines(*b), pre@));
            }
        },
    }
}

impl Block {
    /// The lines of `a` followed by the lines of `b`, at the same level.
    pub fn pair(a: Block, b: Block) -> (r: Block)
        ensures
            r@ == a@ + b@,
    {
        Block::Pair(Box::new(a), Box::new(b))
    }

    /// The lines of `b`, each one level deeper.
    pub fn nest(b: Block) -> (r: Block)
        ensures
            r@ == deepen(b@),
    {
        Block::Nest(Box::new(b))
    }

    /// A block of one line holding the given text.
    pub fn line(s: &str) -> (r: Block)
        ensures
            r@ == seq![LineShape { depth: 0, text: s@ }],
    {
        Block::Line(String::from_str(s))
    }

    /// Renders the block: every line indented four spaces per nesting
    /// level and closed by a newline, in construction order.
    pub fn string(&self) -> (r: String)
        ensures
            r@ == spec_render(self@),
    {
        let pre = String::new();
        let mut lines: Vec<String> = Vec::new();
        push_baked(self, &pre, &mut lines);
        let ghost all = baked(block_lines(*self), Seq::<char>::empty());
        proof {
            assert(texts_of(lines@) =~= all);
        }
        let mut r = String::new();
        let mut i: usize = 0;
        while i < lines.len()
            invariant
                i <= lines@.len(),
                texts_of(lines@) == all,
                r@ == spec_cat(all.take(i as int)),
            decreases lines@.len() - i,
        {
            r.append(lines[i].as_str());
            r.append("\n");
            proof {
                reveal_strlit("\n");
                assert("\n"@ =~= seq!['\n']);
                assert(lines@[i as int]@ == all[i as int]);
                lemma_cat_snoc(all, i as int);
                assert(r@ =~= spec_cat(all.take(i + 1 as int)));
            }
            i = i + 1;
        }
        proof {
            assert(all.take(all.len() as int) =~= all);
        }
        r
    }
}

/// The same lines with the nesting structure discarded: each line's
/// indentation is folded into its text and the result is flat.
pub fn flatten(b: &Block) -> (r: Block)
    ensures
        r@ == flat_lines(b@),
{
    let pre = String::new();
    let mut lines: Vec<String> = Vec::new();
    push_baked(b, &pre, &mut lines);
    let ghost flat = flat_lines(block_lines(*b));
    proof {
        assert forall|j: int| 0 <= j < flat.len() implies #[trigger] flat[j] == (LineShape {
            depth: 0,
            text: lines@[j]@,
        }) by {
            let l = block_lines(*b)[j];
            assert(lines@[j]@ == texts_of(lines@)[j]);
            assert(Seq::<char>::empty() + spec_indent(l.depth) + l.text =~= spec_indent(l.depth)
                + l.text);
        }
    }
    let mut r = Block::Empty;
    let mut i: usize = 0;
    while i < lines.len()
        invariant
            i <= lines@.len(),
            lines@.len() == flat.len(),
            forall|j: int|
                0 <= j < flat.len() ==> #[trigger] flat[j] == (LineShape {
                    depth: 0,
                    text: lines@[j]@,
                }),
            r@ == flat.take(i as int),
        decreases lines@.len() - i,
    {
        let next = Block::Line(lines[i].clone());
        let ghost prev = r@;
        let ghost nl = block_lines(next);
        proof {
            assert(nl =~= seq![flat[i as int]]);
        }
        r = Block::Pair(Box::new(r), Box::new(next));
        proof {
            assert(r@ == prev + nl);
            assert(prev + nl =~= flat.take(i + 1 as int));
        }
        i = i + 1;
    }
    proof {
        assert(flat.take(flat.len() as int) =~= flat);
    }
    r
}

} // verus!
