use vstd::prelude::*;
use crate::canvas::{after_frame, renders, Canvas};
use crate::painter::{batch, batch_of, Queued};
use crate::record::QuadBezierData;

verus! {

/// One draw call: a batch of records and where it goes (`None`: the main framebuffer). A
/// canvas target is cleared before its batch is drawn.
pub struct DrawCall {
    pub target: Option<u64>,
    pub records: Vec<QuadBezierData>,
}

/// The canvases, with their ids, that are drawn this frame, each with its batch.
pub open spec fn canvas_calls(q: Seq<Queued>, cs: Seq<(u64, Canvas)>) -> Seq<(u64, Seq<QuadBezierData>)>
    decreases cs.len(),
{
    if cs.len() == 0 {
        Seq::empty()
    } else {
        let rest = canvas_calls(q, cs.drop_last());
        if renders(cs.last().1) {
            rest.push((cs.last().0, batch_of(q, Some(cs.last().0))))
        } else {
            rest
        }
    }
}

/// Plans the submission of a frame's records. The first call draws the main framebuffer's
/// batch, always; then each canvas that its policy draws this frame gets one call with its
/// batch, in the order of `canvases`. Records for a canvas id not among `canvases` are
/// dropped. Every canvas then ends its frame.
pub fn plan_frame(queue: &Vec<Queued>, canvases: &mut Vec<(u64, Canvas)>) -> (r: Vec<DrawCall>)
    ensures
        r@.len() == 1 + canvas_calls(queue@, old(canvases)@).len(),
        r@[0].target.is_none(),
        r@[0].records@ == batch_of(queue@, None),
        forall|i: int|
            0 <= i < canvas_calls(queue@, old(canvases)@).len() ==> {
                &&& #[trigger] r@[i + 1].target == Some(canvas_calls(queue@, old(canvases)@)[i].0)
                &&& r@[i + 1].records@ == canvas_calls(queue@, old(canvases)@)[i].1
            },
        final(canvases)@.len() == old(canvases)@.len(),
        forall|i: int|
            0 <= i < old(canvases)@.len() ==> #[trigger] final(canvases)@[i] == (
            old(canvases)@[i].0,
            after_frame(old(canvases)@[i].1),
        ),
{
    let mut r: Vec<DrawCall> = Vec::new();
    r.push(DrawCall { target: None, records: batch(queue, None) });
    let ghost cs0 = canvases@;
    let mut i: usize = 0;
    while i < canvases.len()
        invariant
            0 <= i <= canvases@.len(),
            canvases@.len() == cs0.len(),
            forall|j: int| i <= j < cs0.len() ==> #[trigger] canvases@[j] == cs0[j],
            forall|j: int|
                0 <= j < i ==> #[trigger] canvases@[j] == (cs0[j].0, after_frame(cs0[j].1)),
            r@.len() == 1 + canvas_calls(queue@, cs0.take(i as int)).len(),
            r@[0].target.is_none(),
            r@[0].records@ == batch_of(queue@, None),
            forall|k: int|
                0 <= k < canvas_calls(queue@, cs0.take(i as int)).len() ==> {
                    &&& #[trigger] r@[k + 1].target == Some(canvas_calls(queue@, cs0.take(i as int))[k].0)
                    &&& r@[k + 1].records@ == canvas_calls(queue@, cs0.take(i as int))[k].1
                },
        decreases cs0.len() - i,
    {
        let (id, mut c) = canvases[i];
        assert(cs0.take(i + 1).drop_last() == cs0.take(i as int));
        let ghost prev = canvas_calls(queue@, cs0.take(i as int));
        let ghost r0 = r@;
        if c.end_frame() {
            r.push(DrawCall { target: Some(id), records: batch(queue, Some(id)) });
        }
        canvases.set(i, (id, c));
        i += 1;
        assert forall|k: int|
            0 <= k < canvas_calls(queue@, cs0.take(i as int)).len() implies {
                &&& #[trigger] r@[k + 1].target == Some(canvas_calls(queue@, cs0.take(i as int))[k].0)
                &&& r@[k + 1].records@ == canvas_calls(queue@, cs0.take(i as int))[k].1
            } by {
            if k < prev.len() {
                assert(r@[k + 1] == r0[k + 1]);
            }
        }
    }
    assert(cs0.take(cs0.len() as int) == cs0);
    r
}

/// Whether some canvas in `cs` has the id `id`.
pub open spec fn has_canvas(cs: Seq<(u64, Canvas)>, id: u64) -> bool {
    exists|j: int| 0 <= j < cs.len() && #[trigger] cs[j].0 == id
}

/// For each record of `q` aimed at a canvas that is not in `cs`, that canvas id, in drawing
/// order: the draws that `plan_frame` drops.
pub open spec fn missing_of(q: Seq<Queued>, cs: Seq<(u64, Canvas)>) -> Seq<u64>
    decreases q.len(),
{
    if q.len() == 0 {
        Seq::empty()
    } else {
        let rest = missing_of(q.drop_last(), cs);
        match q.last().target {
            Some(id) => if has_canvas(cs, id) {
                rest
            } else {
                rest.push(id)
            },
            None => rest,
        }
    }
}

fn find_canvas(cs: &Vec<(u64, Canvas)>, id: u64) -> (r: bool)
    ensures
        r == has_canvas(cs@, id),
{
    let mut j: usize = 0;
    while j < cs.len()
        invariant
            0 <= j <= cs@.len(),
            forall|k: int| 0 <= k < j ==> #[trigger] cs@[k].0 != id,
        decreases cs@.len() - j,
    {
        if cs[j].0 == id {
            return true;
        }
        j += 1;
    }
    false
}

/// The target-not-found report of a frame: for each record aimed at a canvas id that is
/// not among `canvases` (destroyed, or never created), that id, in drawing order. These are
/// the records that `plan_frame` drops; the host logs them.
pub fn missing_targets(queue: &Vec<Queued>, canvases: &Vec<(u64, Canvas)>) -> (r: Vec<u64>)
    ensures
        r@ == missing_of(queue@, canvases@),
{
    let mut r: Vec<u64> = Vec::new();
    let mut i: usize = 0;
    while i < queue.len()
        invariant
            0 <= i <= queue@.len(),
            r@ == missing_of(queue@.take(i as int), canvases@),
        decreases queue@.len() - i,
    {
        assert(queue@.take(i + 1).drop_last() == queue@.take(i as int));
        match queue[i].target {
            Some(id) => {
                if !find_canvas(canvases, id) {
                    r.push(id);
                }
            },
            None => {},
        }
        i += 1;
    }
    assert(queue@.take(queue@.len() as int) == queue@);
    r
}

} // verus!
