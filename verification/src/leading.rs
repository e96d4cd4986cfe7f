//! What holds of the line break at the start of every slide.
use crate::laws::lemma_prelude;
use crate::model::footer;
use crate::model::leads;
use crate::model::prelude;
use crate::model::slide_wf;
use crate::model::visible;
use crate::presentation::RenderOperationView;
use crate::theme::PresentationTheme;
use vstd::prelude::*;

verus! {

pub(crate) proof fn lemma_visible_add(first: Seq<RenderOperationView>, second: Seq<RenderOperationView>)
    ensures
        visible(first + second) == visible(first) + visible(second),
    decreases first.len(),
{
    if first.len() == 0 {
        assert(first + second =~= second);
        assert(visible(first) + visible(second) =~= visible(second));
    } else {
        assert((first + second).drop_first() =~= first.drop_first() + second);
        assert((first + second)[0] == first[0]);
        lemma_visible_add(first.drop_first(), second);
        assert(visible(first + second) =~= visible(first) + visible(second));
    }
}

pub(crate) proof fn lemma_leads_add(first: Seq<RenderOperationView>, second: Seq<RenderOperationView>)
    requires
        leads(first),
        leads(second),
    ensures
        leads(first + second),
{
    lemma_visible_add(first, second);
}

pub(crate) proof fn lemma_leads_front(first: Seq<RenderOperationView>, second: Seq<RenderOperationView>)
    requires
        leads(first + second),
    ensures
        leads(first),
{
    lemma_visible_add(first, second);
}

/// What is visible of a sequence that begins with `first`.
pub(crate) proof fn lemma_visible_first(first: RenderOperationView, rest: Seq<RenderOperationView>)
    ensures
        visible(seq![first] + rest) == if first.is_visible() {
            seq![first] + visible(rest)
        } else {
            visible(rest)
        },
{
    let all = seq![first] + rest;
    assert(all[0] == first);
    assert(all.drop_first() =~= rest);
}

pub(crate) proof fn lemma_visible_empty()
    ensures
        visible(Seq::<RenderOperationView>::empty()) == Seq::<RenderOperationView>::empty(),
{
}

/// Of four instructions of which only the last is visible, the last is what
/// is visible.
proof fn lemma_visible_last_of_four(operations: Seq<RenderOperationView>)
    requires
        operations.len() == 4,
        !operations[0].is_visible(),
        !operations[1].is_visible(),
        !operations[2].is_visible(),
        operations[3].is_visible(),
    ensures
        visible(operations) == seq![operations[3]],
{
    let last = seq![operations[3]];
    lemma_visible_empty();
    lemma_visible_first(operations[3], Seq::empty());
    assert(last + Seq::empty() =~= last);
    assert(visible(last) =~= last);
    lemma_visible_first(operations[2], last);
    lemma_visible_first(operations[1], seq![operations[2]] + last);
    lemma_visible_first(operations[0], seq![operations[1]] + (seq![operations[2]] + last));
    assert(operations =~= seq![operations[0]] + (seq![operations[1]] + (seq![operations[2]] + last)));
}

pub(crate) proof fn lemma_footer_leads(theme: PresentationTheme, index: usize)
    ensures
        leads(footer(theme, index)),
{
    lemma_visible_last_of_four(footer(theme, index));
}

/// A slide of the right shape that goes on with content after its prelude
/// shows, of all that is visible, a line break first, and then something that
/// is no line break.
pub proof fn lemma_one_leading_line_break(slide: Seq<RenderOperationView>, index: usize)
    requires
        slide_wf(slide, index),
        leads(slide.skip(4)),
    ensures
        visible(slide).len() >= 2,
        visible(slide)[0] == RenderOperationView::RenderLineBreak,
        visible(slide)[1] != RenderOperationView::RenderLineBreak,
{
    let start = slide.take(4);
    let rest = slide.skip(4);
    let end = slide.skip(slide.len() - 4);
    assert(slide =~= start + rest);
    lemma_visible_add(start, rest);
    lemma_visible_last_of_four(start);
    let middle = rest.take(rest.len() - 4);
    assert(rest =~= middle + end);
    lemma_visible_add(middle, end);
    lemma_visible_last_of_four(end);
    assert(visible(rest).len() >= 1);
    assert(visible(slide)[1] == visible(rest)[0]);
}

} // verus!
