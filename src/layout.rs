//! Finished layouts, the errors of layouting, and the line-oriented text
//! encoding that a renderer reads.

use vstd::prelude::*;
use crate::geometry::LayoutAlignment;
use crate::size::{Size, Size2D};

verus! {

broadcast use vstd::string::group_string_axioms;

/// One drawing step inside a layout box.
#[derive(Debug, Clone, PartialEq, Eq)]
pub enum LayoutAction {
    /// Move to an absolute position.
    MoveAbsolute(Size2D),
    /// Select the font with the given index, at the given size.
    SetFont(u64, Size),
    /// Write text (UTF-8 bytes) at the current position.
    WriteText(Vec<u8>),
    /// Draw a debugging box at a position, of a size.
    DebugBox(Size2D, Size2D),
}

/// A sequence of layouting actions inside a box.
#[derive(Debug, Clone)]
pub struct Layout {
    /// The size of the box.
    pub dimensions: Size2D,
    /// The baseline, as an offset from the top-left.
    pub baseline: Option<Size>,
    /// How to align this layout in a parent container.
    pub alignment: LayoutAlignment,
    /// The actions composing this layout, in execution order.
    pub actions: Vec<LayoutAction>,
}

/// A collection of layouts, in order (one per page, for instance).
pub type MultiLayout = Vec<Layout>;

/// The error of layouting: a human-readable message.
#[derive(Debug, Clone)]
pub struct LayoutError {
    pub message: String,
}

/// The result type of layouting.
pub type LayoutResult<T> = Result<T, LayoutError>;

impl LayoutError {
    /// An error with the given message.
    pub fn new(message: &str) -> (r: LayoutError)
        ensures
            r.message@ == message@,
    {
        LayoutError { message: message.to_string() }
    }
}

/// The ASCII digit of a value below ten.
pub open spec fn digit(d: nat) -> u8 {
    (48 + d % 10) as u8
}

/// The decimal digits of a natural number, without leading zeros.
pub open spec fn decimal(n: nat) -> Seq<u8>
    decreases n,
{
    if n < 10 {
        seq![digit(n)]
    } else {
        decimal(n / 10) + seq![digit(n % 10)]
    }
}

/// A raw size in points with exactly four decimals (`-1.2500`).
pub open spec fn fixed4(v: int) -> Seq<u8> {
    let a: nat = if v < 0 { (-v) as nat } else { v as nat };
    let f: nat = a % 10000;
    (if v < 0 { seq![45u8] } else { Seq::empty() }) + decimal(a / 10000) + seq![
        46u8,
        digit(f / 1000),
        digit((f / 100) % 10),
        digit((f / 10) % 10),
        digit(f % 10),
    ]
}

/// A byte of text, escaped so that no newline stays in it.
pub open spec fn escaped_byte(b: u8) -> Seq<u8> {
    if b == 10 {
        seq![92u8, 110u8]
    } else if b == 92 {
        seq![92u8, 92u8]
    } else {
        seq![b]
    }
}

/// Text with each newline written `\n` and each backslash `\\`.
pub open spec fn escaped(s: Seq<u8>) -> Seq<u8>
    decreases s.len(),
{
    if s.len() == 0 {
        Seq::empty()
    } else {
        escaped(s.drop_last()) + escaped_byte(s.last())
    }
}

/// The record of one action, without its newline.
pub open spec fn action_record(a: LayoutAction) -> Seq<u8> {
    match a {
        LayoutAction::MoveAbsolute(p) => seq![109u8, 32u8] + fixed4(p.x.raw as int) + seq![32u8]
            + fixed4(p.y.raw as int),
        LayoutAction::SetFont(i, s) => seq![102u8, 32u8] + decimal(i as nat) + seq![32u8] + fixed4(
            s.raw as int,
        ),
        LayoutAction::WriteText(t) => seq![119u8, 32u8] + escaped(t@),
        LayoutAction::DebugBox(p, s) => seq![98u8, 32u8] + fixed4(p.x.raw as int) + seq![32u8]
            + fixed4(p.y.raw as int) + seq![32u8] + fixed4(s.x.raw as int) + seq![32u8] + fixed4(
            s.y.raw as int,
        ),
    }
}

/// The records of a list of actions, each ended by a newline.
pub open spec fn actions_text(acts: Seq<LayoutAction>) -> Seq<u8>
    decreases acts.len(),
{
    if acts.len() == 0 {
        Seq::empty()
    } else {
        actions_text(acts.drop_last()) + action_record(acts.last()) + seq![10u8]
    }
}

/// The encoding of one layout: dimensions, action count, one record per action.
pub open spec fn layout_text(l: Layout) -> Seq<u8> {
    fixed4(l.dimensions.x.raw as int) + seq![32u8] + fixed4(l.dimensions.y.raw as int) + seq![10u8]
        + decimal(l.actions@.len()) + seq![10u8] + actions_text(l.actions@)
}

/// The encodings of a list of layouts, one after the other.
pub open spec fn layouts_text(ls: Seq<Layout>) -> Seq<u8>
    decreases ls.len(),
{
    if ls.len() == 0 {
        Seq::empty()
    } else {
        layouts_text(ls.drop_last()) + layout_text(ls.last())
    }
}

/// The encoding of a multi-layout: the layout count, then each layout.
pub open spec fn multi_text(ls: Seq<Layout>) -> Seq<u8> {
    decimal(ls.len()) + seq![10u8] + layouts_text(ls)
}

/// Appends the decimal digits of `n`.
pub fn push_decimal(out: &mut Vec<u8>, n: u64)
    ensures
        final(out)@ == old(out)@ + decimal(n as nat),
    decreases n,
{
    if n >= 10 {
        push_decimal(out, n / 10);
    }
    let ghost before = out@;
    out.push(48u8 + (n % 10) as u8);
    proof {
        assert(out@ =~= before.push(digit((n % 10) as nat)));
    }
}

/// A value below ten becomes its ASCII digit.
proof fn lemma_digit(d: nat)
    requires
        d < 10,
    ensures
        digit(d) == (48 + d) as u8,
{
}

/// Appends the ASCII digit of a value below ten.
fn push_digit(out: &mut Vec<u8>, d: u64)
    requires
        d < 10,
    ensures
        final(out)@ == old(out)@.push(digit(d as nat)),
{
    proof {
        lemma_digit(d as nat);
    }
    out.push(48u8 + d as u8);
}

/// Appends a raw size in points with exactly four decimals.
pub fn push_fixed4(out: &mut Vec<u8>, v: i64)
    ensures
        final(out)@ == old(out)@ + fixed4(v as int),
{
    let ghost start = out@;
    let a: u64 = if v < 0 {
        out.push(45u8);
        (-(v as i128)) as u64
    } else {
        v as u64
    };
    let ghost after_sign = out@;
    let ghost an: nat = if v < 0 { (-v) as nat } else { v as nat };
    assert(a as nat == an);
    push_decimal(out, a / 10000);
    let ghost after_int = out@;
    let f: u64 = a % 10000;
    out.push(46u8);
    assert(f / 1000 < 10) by (nonlinear_arith)
        requires f < 10000;
    push_digit(out, f / 1000);
    push_digit(out, (f / 100) % 10);
    push_digit(out, (f / 10) % 10);
    push_digit(out, f % 10);
    proof {
        assert(after_sign =~= start + (if v < 0 { seq![45u8] } else { Seq::<u8>::empty() }));
        assert(after_int == after_sign + decimal(an / 10000));
        let fr: nat = an % 10000;
        assert(out@ =~= after_int + seq![
            46u8,
            digit(fr / 1000),
            digit((fr / 100) % 10),
            digit((fr / 10) % 10),
            digit(fr % 10),
        ]);
        assert(out@ =~= start + fixed4(v as int));
    }
}

/// Appends text with newlines and backslashes escaped.
pub fn push_escaped(out: &mut Vec<u8>, text: &Vec<u8>)
    ensures
        final(out)@ == old(out)@ + escaped(text@),
{
    let ghost start = out@;
    let mut i: usize = 0;
    while i < text.len()
        invariant
            i <= text@.len(),
            out@ == start + escaped(text@.take(i as int)),
        decreases text@.len() - i,
    {
        let b = text[i];
        if b == 10u8 {
            out.push(92u8);
            out.push(110u8);
        } else if b == 92u8 {
            out.push(92u8);
            out.push(92u8);
        } else {
            out.push(b);
        }
        proof {
            assert(text@.take(i + 1).drop_last() == text@.take(i as int));
            assert(out@ =~= start + escaped(text@.take(i + 1)));
        }
        i = i + 1;
    }
    proof {
        assert(text@.take(i as int) == text@);
    }
}

/// Appends the record of one action, without its newline.
pub fn push_action(out: &mut Vec<u8>, action: &LayoutAction)
    ensures
        final(out)@ == old(out)@ + action_record(*action),
{
    let ghost start = out@;
    match action {
        LayoutAction::MoveAbsolute(p) => {
            out.push(109u8);
            out.push(32u8);
            push_fixed4(out, p.x.raw);
            out.push(32u8);
            push_fixed4(out, p.y.raw);
        },
        LayoutAction::SetFont(i, s) => {
            out.push(102u8);
            out.push(32u8);
            push_decimal(out, *i);
            out.push(32u8);
            push_fixed4(out, s.raw);
        },
        LayoutAction::WriteText(t) => {
            out.push(119u8);
            out.push(32u8);
            push_escaped(out, t);
        },
        LayoutAction::DebugBox(p, s) => {
            out.push(98u8);
            out.push(32u8);
            push_fixed4(out, p.x.raw);
            out.push(32u8);
            push_fixed4(out, p.y.raw);
            out.push(32u8);
            push_fixed4(out, s.x.raw);
            out.push(32u8);
            push_fixed4(out, s.y.raw);
        },
    }
    proof {
        assert(out@ =~= start + action_record(*action));
    }
}

impl Layout {
    /// Appends the encoding of this layout: a line with width and height in
    /// points, a line with the action count, then one line per action.
    pub fn serialize(&self, out: &mut Vec<u8>)
        ensures
            final(out)@ == old(out)@ + layout_text(*self),
    {
        let ghost start = out@;
        push_fixed4(out, self.dimensions.x.raw);
        out.push(32u8);
        push_fixed4(out, self.dimensions.y.raw);
        out.push(10u8);
        let ghost dims = out@;
        push_decimal(out, self.actions.len() as u64);
        out.push(10u8);
        let ghost head = out@;
        let ghost dims_text = fixed4(self.dimensions.x.raw as int) + seq![32u8] + fixed4(
            self.dimensions.y.raw as int,
        ) + seq![10u8];
        assert(dims =~= start + dims_text);
        assert(head =~= start + (dims_text + decimal(self.actions@.len()) + seq![10u8]));
        let mut i: usize = 0;
        while i < self.actions.len()
            invariant
                i <= self.actions@.len(),
                out@ == head + actions_text(self.actions@.take(i as int)),
            decreases self.actions@.len() - i,
        {
            push_action(out, &self.actions[i]);
            out.push(10u8);
            proof {
                assert(self.actions@.take(i + 1).drop_last() == self.actions@.take(i as int));
                assert(out@ =~= head + actions_text(self.actions@.take(i + 1)));
            }
            i = i + 1;
        }
        proof {
            assert(self.actions@.take(i as int) == self.actions@);
            assert(layout_text(*self) == dims_text + decimal(self.actions@.len()) + seq![10u8]
                + actions_text(self.actions@));
            assert(out@ =~= start + layout_text(*self));
        }
    }
}

/// Appends the encoding of a multi-layout: a line with the layout count, then
/// each layout's encoding in order.
pub fn serialize_multi(layouts: &MultiLayout, out: &mut Vec<u8>)
    ensures
        final(out)@ == old(out)@ + multi_text(layouts@),
{
    let ghost start = out@;
    push_decimal(out, layouts.len() as u64);
    out.push(10u8);
    let ghost head = out@;
    let mut i: usize = 0;
    while i < layouts.len()
        invariant
            i <= layouts@.len(),
            out@ == head + layouts_text(layouts@.take(i as int)),
        decreases layouts@.len() - i,
    {
        layouts[i].serialize(out);
        proof {
            assert(layouts@.take(i + 1).drop_last() == layouts@.take(i as int));
            assert(out@ =~= head + layouts_text(layouts@.take(i + 1)));
        }
        i = i + 1;
    }
    proof {
        assert(layouts@.take(i as int) == layouts@);
        assert(out@ =~= start + multi_text(layouts@));
    }
}

/// The number of newline bytes in a byte string.
#[verifier::opaque]
pub open spec fn newlines(s: Seq<u8>) -> nat
    decreases s.len(),
{
    if s.len() == 0 {
        0
    } else {
        newlines(s.drop_last()) + if s.last() == 10u8 { 1nat } else { 0nat }
    }
}

/// The number of lines a list of layouts takes: two each, plus one per action.
pub open spec fn layout_lines(ls: Seq<Layout>) -> nat
    decreases ls.len(),
{
    if ls.len() == 0 {
        0
    } else {
        layout_lines(ls.drop_last()) + 2 + ls.last().actions@.len()
    }
}

/// Holds no newline byte.
pub open spec fn single_line(s: Seq<u8>) -> bool {
    forall|i: int| 0 <= i < s.len() ==> s[i] != 10u8
}

proof fn lemma_newlines_concat(a: Seq<u8>, b: Seq<u8>)
    ensures
        newlines(a + b) == newlines(a) + newlines(b),
    decreases b.len(),
{
    reveal(newlines);
    if b.len() > 0 {
        assert((a + b).drop_last() =~= a + b.drop_last());
        lemma_newlines_concat(a, b.drop_last());
    } else {
        assert(a + b =~= a);
    }
}

proof fn lemma_single_line(s: Seq<u8>)
    requires
        single_line(s),
    ensures
        newlines(s) == 0,
    decreases s.len(),
{
    reveal(newlines);
    if s.len() > 0 {
        lemma_single_line(s.drop_last());
    }
}

proof fn lemma_decimal_single_line(n: nat)
    ensures
        single_line(decimal(n)),
    decreases n,
{
    if n >= 10 {
        lemma_decimal_single_line(n / 10);
    }
}

proof fn lemma_fixed4_single_line(v: int)
    ensures
        single_line(fixed4(v)),
{
    let a: nat = if v < 0 { (-v) as nat } else { v as nat };
    lemma_decimal_single_line(a / 10000);
}

proof fn lemma_escaped_single_line(s: Seq<u8>)
    ensures
        single_line(escaped(s)),
    decreases s.len(),
{
    if s.len() > 0 {
        lemma_escaped_single_line(s.drop_last());
    }
}

proof fn lemma_record_single_line(a: LayoutAction)
    ensures
        single_line(action_record(a)),
{
    match a {
        LayoutAction::MoveAbsolute(p) => {
            lemma_fixed4_single_line(p.x.raw as int);
            lemma_fixed4_single_line(p.y.raw as int);
        },
        LayoutAction::SetFont(i, s) => {
            lemma_decimal_single_line(i as nat);
            lemma_fixed4_single_line(s.raw as int);
        },
        LayoutAction::WriteText(t) => {
            lemma_escaped_single_line(t@);
        },
        LayoutAction::DebugBox(p, s) => {
            lemma_fixed4_single_line(p.x.raw as int);
            lemma_fixed4_single_line(p.y.raw as int);
            lemma_fixed4_single_line(s.x.raw as int);
            lemma_fixed4_single_line(s.y.raw as int);
        },
    }
}

proof fn lemma_newline_byte()
    ensures
        newlines(seq![10u8]) == 1,
{
    reveal_with_fuel(newlines, 2);
    assert(seq![10u8].drop_last() =~= Seq::<u8>::empty());
}

proof fn lemma_actions_lines(acts: Seq<LayoutAction>)
    ensures
        newlines(actions_text(acts)) == acts.len(),
    decreases acts.len(),
{
    if acts.len() > 0 {
        let rest = actions_text(acts.drop_last());
        let rec = action_record(acts.last());
        lemma_actions_lines(acts.drop_last());
        lemma_record_single_line(acts.last());
        lemma_single_line(rec);
        lemma_newlines_concat(rest, rec);
        lemma_newlines_concat(rest + rec, seq![10u8]);
        lemma_newline_byte();
    } else {
        reveal(newlines);
    }
}

/// A layout's encoding takes two lines plus one line per action.
pub proof fn lemma_layout_lines(l: Layout)
    ensures
        newlines(layout_text(l)) == 2 + l.actions@.len(),
{
    let w = fixed4(l.dimensions.x.raw as int);
    let h = fixed4(l.dimensions.y.raw as int);
    let c = decimal(l.actions@.len());
    let sp = seq![32u8];
    let nl = seq![10u8];
    lemma_fixed4_single_line(l.dimensions.x.raw as int);
    lemma_fixed4_single_line(l.dimensions.y.raw as int);
    lemma_decimal_single_line(l.actions@.len());
    lemma_single_line(w);
    lemma_single_line(h);
    lemma_single_line(c);
    lemma_single_line(sp);
    lemma_newline_byte();
    lemma_newlines_concat(w, sp);
    lemma_newlines_concat(w + sp, h);
    lemma_newlines_concat(w + sp + h, nl);
    lemma_newlines_concat(w + sp + h + nl, c);
    lemma_newlines_concat(w + sp + h + nl + c, nl);
    lemma_newlines_concat(w + sp + h + nl + c + nl, actions_text(l.actions@));
    lemma_actions_lines(l.actions@);
}

proof fn lemma_layouts_lines(ls: Seq<Layout>)
    ensures
        newlines(layouts_text(ls)) == layout_lines(ls),
    decreases ls.len(),
{
    if ls.len() > 0 {
        lemma_layouts_lines(ls.drop_last());
        lemma_layout_lines(ls.last());
        lemma_newlines_concat(layouts_text(ls.drop_last()), layout_text(ls.last()));
    } else {
        reveal(newlines);
    }
}

/// A multi-layout of `n` layouts, holding `k_i` actions each, is encoded in
/// exactly `1 + (2 + k_1) + ... + (2 + k_n)` lines.
pub proof fn lemma_multi_lines(ls: Seq<Layout>)
    ensures
        newlines(multi_text(ls)) == 1 + layout_lines(ls),
{
    let c = decimal(ls.len());
    let nl = seq![10u8];
    lemma_decimal_single_line(ls.len());
    lemma_single_line(c);
    lemma_newline_byte();
    lemma_newlines_concat(c, nl);
    lemma_newlines_concat(c + nl, layouts_text(ls));
    lemma_layouts_lines(ls);
}

} // verus!
