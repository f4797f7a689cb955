//! Text injection: the verified plans for replacing the selection with the
//! translated text, deleting the selection, and typing streamed fragments.
//! A plan is a list of primitive steps (clipboard write, simulated key,
//! sleep) the driver performs in order; the contracts pin down exactly what
//! text each plan writes.

use vstd::prelude::*;

verus! {

/// One primitive step of an injection plan.
#[derive(Debug)]
pub enum InjectStep {
    /// Write this text to the clipboard (with the usual retries).
    WriteClipboard(String),
    /// Simulate the paste key sequence.
    SimPaste,
    /// Simulate the delete key.
    SimDelete,
    /// Sleep this many milliseconds.
    SleepMs(u64),
}

/// The clipboard text one step writes.
pub open spec fn spec_step_written(x: InjectStep) -> Seq<char> {
    match x {
        InjectStep::WriteClipboard(s) => s@,
        _ => Seq::<char>::empty(),
    }
}

/// The clipboard text a plan writes, in step order, concatenated.
pub open spec fn spec_plan_written(steps: Seq<InjectStep>) -> Seq<char>
    decreases steps.len(),
{
    if steps.len() == 0 {
        Seq::empty()
    } else {
        spec_plan_written(steps.drop_last()) + spec_step_written(steps.last())
    }
}

/// Appending a step appends exactly what that step writes.
proof fn lemma_plan_written_push(steps: Seq<InjectStep>, x: InjectStep)
    ensures
        spec_plan_written(steps.push(x)) == spec_plan_written(steps) + spec_step_written(x),
{
    assert(steps.push(x).drop_last() =~= steps);
    assert(steps.push(x).last() == x);
}

/// The plan of a one-shot replacement: write the whole text, let the
/// clipboard settle, paste.
pub fn paste_plan(text: &str) -> (r: Vec<InjectStep>)
    ensures
        r@.len() == 3,
        r@[0] matches InjectStep::WriteClipboard(s) && s@ == text@,
        r@[1] == InjectStep::SleepMs(50u64),
        r@[2] is SimPaste,
        spec_plan_written(r@) == text@,
{
    let mut v: Vec<InjectStep> = Vec::new();
    let ghost g0 = v@;
    v.push(InjectStep::WriteClipboard(String::from_str(text)));
    let ghost g1 = v@;
    v.push(InjectStep::SleepMs(50));
    let ghost g2 = v@;
    v.push(InjectStep::SimPaste);
    proof {
        lemma_plan_written_push(g0, g1.last());
        lemma_plan_written_push(g1, g2.last());
        lemma_plan_written_push(g2, v@.last());
        assert(spec_plan_written(g0) =~= Seq::<char>::empty());
        assert(spec_plan_written(v@) =~= text@);
    }
    v
}

/// The plan of one streamed fragment: write it and paste at once; an empty
/// fragment needs nothing.
pub fn type_chunk_plan(text: &str) -> (r: Vec<InjectStep>)
    ensures
        text@.len() == 0 ==> r@.len() == 0,
        text@.len() > 0 ==> r@.len() == 3 && (r@[0] matches InjectStep::WriteClipboard(s)
            && s@ == text@) && r@[1] is SimPaste && r@[2] == InjectStep::SleepMs(10u64),
        spec_plan_written(r@) == text@,
{
    let mut v: Vec<InjectStep> = Vec::new();
    if text.is_empty() {
        proof {
            assert(spec_plan_written(v@) =~= text@);
        }
        return v;
    }
    let ghost g0 = v@;
    v.push(InjectStep::WriteClipboard(String::from_str(text)));
    let ghost g1 = v@;
    v.push(InjectStep::SimPaste);
    let ghost g2 = v@;
    v.push(InjectStep::SleepMs(10));
    proof {
        lemma_plan_written_push(g0, g1.last());
        lemma_plan_written_push(g1, g2.last());
        lemma_plan_written_push(g2, v@.last());
        assert(spec_plan_written(g0) =~= Seq::<char>::empty());
        assert(spec_plan_written(v@) =~= text@);
    }
    v
}

/// The plan that deletes the current selection before streaming begins.
pub fn delete_selection_plan() -> (r: Vec<InjectStep>)
    ensures
        r@.len() == 2,
        r@[0] is SimDelete,
        r@[1] == InjectStep::SleepMs(50u64),
        spec_plan_written(r@) == Seq::<char>::empty(),
{
    let mut v: Vec<InjectStep> = Vec::new();
    let ghost g0 = v@;
    v.push(InjectStep::SimDelete);
    let ghost g1 = v@;
    v.push(InjectStep::SleepMs(50));
    proof {
        lemma_plan_written_push(g0, g1.last());
        lemma_plan_written_push(g1, v@.last());
        assert(spec_plan_written(g0) =~= Seq::<char>::empty());
        assert(spec_plan_written(v@) =~= Seq::<char>::empty());
    }
    v
}

/// The plan that types a whole text through the clipboard in chunks of at
/// most fifty characters, in order: exactly the given text is written.
pub fn type_text_plan(text: &str) -> (r: Vec<InjectStep>)
    ensures
        spec_plan_written(r@) == text@,
        forall|k: int|
            0 <= k < r@.len() ==> ((#[trigger] r@[k]) matches InjectStep::WriteClipboard(s)
                ==> s@.len() <= 50),
{
    let len = text.unicode_len();
    let mut v: Vec<InjectStep> = Vec::new();
    let mut i: usize = 0;
    proof {
        assert(spec_plan_written(v@) =~= text@.take(0));
    }
    while i < len
        invariant
            0 <= i <= len,
            len == text@.len(),
            spec_plan_written(v@) == text@.take(i as int),
            forall|k: int|
                0 <= k < v@.len() ==> ((#[trigger] v@[k]) matches
                    InjectStep::WriteClipboard(s) ==> s@.len() <= 50),
        decreases len - i,
    {
        let end = if len - i > 50 {
            i + 50
        } else {
            len
        };
        let chunk = text.substring_char(i, end);
        let ghost g0 = v@;
        v.push(InjectStep::WriteClipboard(String::from_str(chunk)));
        let ghost g1 = v@;
        v.push(InjectStep::SleepMs(10));
        let ghost g2 = v@;
        v.push(InjectStep::SimPaste);
        let ghost g3 = v@;
        v.push(InjectStep::SleepMs(10));
        proof {
            lemma_plan_written_push(g0, g1.last());
            lemma_plan_written_push(g1, g2.last());
            lemma_plan_written_push(g2, g3.last());
            lemma_plan_written_push(g3, v@.last());
            assert(text@.take(i as int) + text@.subrange(i as int, end as int)
                =~= text@.take(end as int));
            assert(spec_plan_written(v@) =~= text@.take(end as int));
        }
        i = end;
    }
    proof {
        assert(text@.take(len as int) =~= text@);
    }
    v
}

} // verus!
