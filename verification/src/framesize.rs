use vstd::prelude::*;

use crate::error::Error;

verus! {

/// A four-byte tag identifying a pixel or container encoding, as capture
/// devices advertise it. The four bytes are held as separate fields so
/// that equality of tags is plain field equality.
#[derive(Clone, Copy, Debug, PartialEq, Eq, Structural)]
pub struct FourCC {
    pub b0: u8,
    pub b1: u8,
    pub b2: u8,
    pub b3: u8,
}

impl FourCC {
    pub fn new(repr: &[u8; 4]) -> (r: FourCC)
        ensures
            r.b0 == repr[0] && r.b1 == repr[1] && r.b2 == repr[2] && r.b3 == repr[3],
    {
        FourCC { b0: repr[0], b1: repr[1], b2: repr[2], b3: repr[3] }
    }
}

/// The frame size a caller would like to capture at; the negotiator picks
/// the advertised mode closest to it.
#[derive(Clone, Copy, Debug)]
pub struct TargetFrameSize {
    pub width: u32,
    pub height: u32,
}

/// One advertised frame-size entry: either a single discrete resolution or
/// a stepwise range that stands for every resolution on its grid.
#[derive(Clone, Copy, Debug)]
pub enum CandidateSize {
    Discrete { width: u32, height: u32 },
    Stepwise {
        min_width: u32,
        max_width: u32,
        step_width: u32,
        min_height: u32,
        max_height: u32,
        step_height: u32,
    },
}

/// A stepwise range only stands for a finite grid when its steps are
/// positive; a zero step advertises nothing a device could be set to.
pub open spec fn valid_steps(s: CandidateSize) -> bool {
    match s {
        CandidateSize::Discrete { .. } => true,
        CandidateSize::Stepwise { step_width, step_height, .. } => step_width >= 1 && step_height
            >= 1,
    }
}

/// The values `min, min + step, min + 2*step, ...` up to `max`.
pub open spec fn step_values(min: u32, max: u32, step: u32) -> Seq<u32>
    decreases max - min,
{
    if step == 0 || min > max {
        Seq::empty()
    } else if max - min < step {
        seq![min]
    } else {
        seq![min] + step_values((min + step) as u32, max, step)
    }
}

/// All candidates of one width paired with each height in turn.
pub open spec fn size_row(f: FourCC, w: u32, hs: Seq<u32>) -> Seq<(FourCC, u32, u32)> {
    Seq::new(hs.len(), |i: int| (f, w, hs[i]))
}

/// The width-major cross product of the stepwise grid.
pub open spec fn size_grid(f: FourCC, ws: Seq<u32>, hs: Seq<u32>) -> Seq<(FourCC, u32, u32)>
    decreases ws.len(),
{
    if ws.len() == 0 {
        Seq::empty()
    } else {
        size_grid(f, ws.drop_last(), hs) + size_row(f, ws.last(), hs)
    }
}

/// The discrete (format, width, height) candidates one advertised entry
/// stands for, in enumeration order.
pub open spec fn size_candidates(f: FourCC, s: CandidateSize) -> Seq<(FourCC, u32, u32)> {
    match s {
        CandidateSize::Discrete { width, height } => seq![(f, width, height)],
        CandidateSize::Stepwise {
            min_width,
            max_width,
            step_width,
            min_height,
            max_height,
            step_height,
        } => size_grid(
            f,
            step_values(min_width, max_width, step_width),
            step_values(min_height, max_height, step_height),
        ),
    }
}

/// Every discrete candidate the advertised list stands for, in the order
/// the backend supplied the entries.
pub open spec fn all_candidates(formats: Seq<(FourCC, CandidateSize)>) -> Seq<(FourCC, u32, u32)>
    decreases formats.len(),
{
    if formats.len() == 0 {
        Seq::empty()
    } else {
        all_candidates(formats.drop_last()) + size_candidates(
            formats.last().0,
            formats.last().1,
        )
    }
}

/// The absolute difference of two side lengths.
pub open spec fn axis_diff(a: u32, b: u32) -> int {
    if a >= b {
        a - b
    } else {
        b - a
    }
}

/// The negotiation cost of a candidate resolution against the target:
/// `diff_h^2 + diff_w^2 + diff_h*diff_w`, a distance that penalizes an
/// aspect-ratio mismatch more than either axis alone.
pub open spec fn size_cost(target: TargetFrameSize, width: u32, height: u32) -> int {
    let dw = axis_diff(target.width, width);
    let dh = axis_diff(target.height, height);
    dh * dh + dw * dw + dh * dw
}

/// Keep the running best unless the new candidate is strictly cheaper:
/// on a tie the earlier-enumerated candidate stays.
pub open spec fn pick_better(
    target: TargetFrameSize,
    best: Option<(FourCC, u32, u32)>,
    c: (FourCC, u32, u32),
) -> Option<(FourCC, u32, u32)> {
    match best {
        None => Some(c),
        Some(b) => if size_cost(target, c.1, c.2) < size_cost(target, b.1, b.2) {
            Some(c)
        } else {
            Some(b)
        },
    }
}

/// The candidate `choose_framesize` settles on: the first-enumerated
/// candidate of minimal cost, or `None` for an empty list.
pub open spec fn best_candidate(
    cands: Seq<(FourCC, u32, u32)>,
    target: TargetFrameSize,
) -> Option<(FourCC, u32, u32)>
    decreases cands.len(),
{
    if cands.len() == 0 {
        None
    } else {
        pick_better(target, best_candidate(cands.drop_last(), target), cands.last())
    }
}

/// The widths (or heights) a stepwise range stands for, as a vector.
fn step_values_vec(min: u32, max: u32, step: u32) -> (r: Vec<u32>)
    requires
        step >= 1,
    ensures
        r@ == step_values(min, max, step),
{
    let mut out: Vec<u32> = Vec::new();
    let mut cur: u64 = min as u64;
    while cur <= max as u64
        invariant
            step >= 1,
            cur <= max as u64 ==> step_values(min, max, step) == out@ + step_values(
                cur as u32,
                max,
                step,
            ),
            cur > max as u64 ==> step_values(min, max, step) == out@,
        decreases max as int + step as int - cur as int,
    {
        let prev: u32 = cur as u32;
        out.push(prev);
        cur = cur + step as u64;
        proof {
            if cur <= max as u64 {
                assert(step_values(prev, max, step) == seq![prev] + step_values(
                    cur as u32,
                    max,
                    step,
                ));
                assert(out@ + step_values(cur as u32, max, step) =~= step_values(min, max, step));
            } else {
                assert(step_values(prev, max, step) == seq![prev]);
                assert(out@ =~= step_values(min, max, step));
            }
        }
    }
    out
}

/// Expand one advertised entry into the discrete candidates it stands for.
fn expand_candidate(f: &FourCC, s: &CandidateSize) -> (r: Vec<(FourCC, u32, u32)>)
    requires
        valid_steps(*s),
    ensures
        r@ == size_candidates(*f, *s),
{
    match s {
        CandidateSize::Discrete { width, height } => {
            let mut out: Vec<(FourCC, u32, u32)> = Vec::new();
            out.push((*f, *width, *height));
            proof {
                assert(out@ =~= size_candidates(*f, *s));
            }
            out
        },
        CandidateSize::Stepwise {
            min_width,
            max_width,
            step_width,
            min_height,
            max_height,
            step_height,
        } => {
            let ws = step_values_vec(*min_width, *max_width, *step_width);
            let hs = step_values_vec(*min_height, *max_height, *step_height);
            let mut out: Vec<(FourCC, u32, u32)> = Vec::new();
            let mut k: usize = 0;
            while k < ws.len()
                invariant
                    out@ == size_grid(*f, ws@.take(k as int), hs@),
                    k <= ws@.len(),
                decreases ws@.len() - k,
            {
                let w = ws[k];
                let mut l: usize = 0;
                while l < hs.len()
                    invariant
                        k < ws@.len(),
                        l <= hs@.len(),
                        w == ws@[k as int],
                        out@ == size_grid(*f, ws@.take(k as int), hs@) + size_row(
                            *f,
                            w,
                            hs@.take(l as int),
                        ),
                    decreases hs@.len() - l,
                {
                    out.push((*f, w, hs[l]));
                    proof {
                        assert(size_row(*f, w, hs@.take(l + 1)) =~= size_row(
                            *f,
                            w,
                            hs@.take(l as int),
                        ).push((*f, w, hs@[l as int])));
                        assert(out@ =~= size_grid(*f, ws@.take(k as int), hs@) + size_row(
                            *f,
                            w,
                            hs@.take(l + 1),
                        ));
                    }
                    l = l + 1;
                }
                proof {
                    assert(hs@.take(hs@.len() as int) =~= hs@);
                    assert(ws@.take(k + 1).drop_last() =~= ws@.take(k as int));
                    assert(size_grid(*f, ws@.take(k + 1), hs@) == size_grid(
                        *f,
                        ws@.take(k as int),
                        hs@,
                    ) + size_row(*f, w, hs@));
                }
                k = k + 1;
            }
            proof {
                assert(ws@.take(ws@.len() as int) =~= ws@);
            }
            out
        },
    }
}

/// Expand the whole advertised list, keeping enumeration order.
fn expand_all(formats: &Vec<(FourCC, CandidateSize)>) -> (r: Vec<(FourCC, u32, u32)>)
    requires
        forall|i: int| 0 <= i < formats@.len() ==> valid_steps(formats@[i].1),
    ensures
        r@ == all_candidates(formats@),
{
    let mut out: Vec<(FourCC, u32, u32)> = Vec::new();
    let mut i: usize = 0;
    while i < formats.len()
        invariant
            i <= formats@.len(),
            forall|j: int| 0 <= j < formats@.len() ==> valid_steps(formats@[j].1),
            out@ == all_candidates(formats@.take(i as int)),
        decreases formats@.len() - i,
    {
        let mut piece = expand_candidate(&formats[i].0, &formats[i].1);
        out.append(&mut piece);
        proof {
            assert(formats@.take(i + 1).drop_last() =~= formats@.take(i as int));
            assert(all_candidates(formats@.take(i + 1)) == all_candidates(formats@.take(i as int))
                + size_candidates(formats@[i as int].0, formats@[i as int].1));
        }
        i = i + 1;
    }
    proof {
        assert(formats@.take(formats@.len() as int) =~= formats@);
    }
    out
}

/// The cost, computed exactly in wide integers.
fn size_cost_exec(target: &TargetFrameSize, width: u32, height: u32) -> (c: u128)
    ensures
        c == size_cost(*target, width, height),
{
    let dw: u128 = if target.width >= width {
        (target.width - width) as u128
    } else {
        (width - target.width) as u128
    };
    let dh: u128 = if target.height >= height {
        (target.height - height) as u128
    } else {
        (height - target.height) as u128
    };
    proof {
        assert(dh * dh <= 0xffffffff * 0xffffffff && dw * dw <= 0xffffffff * 0xffffffff && dh * dw
            <= 0xffffffff * 0xffffffff) by (nonlinear_arith)
            requires
                dh <= 0xffffffff,
                dw <= 0xffffffff,
        ;
    }
    dh * dh + dw * dw + dh * dw
}

/// Scan the candidates in order, keeping the first one of minimal cost.
fn scan_candidates(cands: &Vec<(FourCC, u32, u32)>, target: &TargetFrameSize) -> (r: Option<
    (FourCC, u32, u32),
>)
    ensures
        r == best_candidate(cands@, *target),
{
    let mut best: Option<(FourCC, u32, u32)> = None;
    let mut best_cost: u128 = 0;
    let mut i: usize = 0;
    while i < cands.len()
        invariant
            i <= cands@.len(),
            best == best_candidate(cands@.take(i as int), *target),
            best matches Some(b) ==> best_cost == size_cost(*target, b.1, b.2),
        decreases cands@.len() - i,
    {
        let c = cands[i];
        let c_cost = size_cost_exec(target, c.1, c.2);
        match best {
            None => {
                best = Some(c);
                best_cost = c_cost;
            },
            Some(_) => {
                if c_cost < best_cost {
                    best = Some(c);
                    best_cost = c_cost;
                }
            },
        }
        proof {
            assert(cands@.take(i + 1).drop_last() =~= cands@.take(i as int));
            assert(cands@.take(i + 1).last() == cands@[i as int]);
        }
        i = i + 1;
    }
    proof {
        assert(cands@.take(cands@.len() as int) =~= cands@);
    }
    best
}

/// Pick the advertised capture mode whose resolution is closest to the
/// target, by the cost above; candidates are taken in enumeration order
/// and only a strictly cheaper one displaces the running best, so the
/// first-enumerated candidate wins ties. Fails with `UnsupportedFormat`
/// when the list stands for no discrete mode at all.
pub fn choose_framesize(formats: Vec<(FourCC, CandidateSize)>, target: TargetFrameSize) -> (r:
    Result<(FourCC, u32, u32), Error>)
    requires
        forall|i: int| 0 <= i < formats@.len() ==> valid_steps(formats@[i].1),
    ensures
        match r {
            Ok(c) => best_candidate(all_candidates(formats@), target) == Some(c),
            Err(e) => e == Error::UnsupportedFormat && all_candidates(formats@).len() == 0,
        },
{
    let cands = expand_all(&formats);
    match scan_candidates(&cands, &target) {
        Some(c) => Ok(c),
        None => {
            proof {
                if all_candidates(formats@).len() > 0 {
                    assert(best_candidate(all_candidates(formats@), target) is Some);
                }
            }
            Err(Error::UnsupportedFormat)
        },
    }
}

/// Law: on a non-empty candidate list the negotiator always settles on a
/// member of the list; moreover that member has minimal cost, and every
/// candidate enumerated before it costs strictly more, so the
/// first-enumerated candidate wins ties.
pub proof fn lemma_best_is_first_minimum(cands: Seq<(FourCC, u32, u32)>, target: TargetFrameSize)
    requires
        cands.len() > 0,
    ensures
        best_candidate(cands, target) is Some,
        ({
            let c = best_candidate(cands, target)->Some_0;
            exists|i: int|
                0 <= i < cands.len() && cands[i] == c && (forall|j: int|
                    0 <= j < cands.len() ==> size_cost(target, #[trigger] cands[j].1, cands[j].2)
                        >= size_cost(target, c.1, c.2)) && (forall|j: int|
                    0 <= j < i ==> size_cost(target, #[trigger] cands[j].1, cands[j].2)
                        > size_cost(target, c.1, c.2))
        }),
    decreases cands.len(),
{
    let c = best_candidate(cands, target)->Some_0;
    let last = cands.last();
    if cands.len() == 1 {
        assert(cands[0] == last);
        assert(c == last);
    } else {
        let head = cands.drop_last();
        lemma_best_is_first_minimum(head, target);
        let b = best_candidate(head, target)->Some_0;
        let i = choose|i: int|
            0 <= i < head.len() && head[i] == b && (forall|j: int|
                0 <= j < head.len() ==> size_cost(target, #[trigger] head[j].1, head[j].2)
                    >= size_cost(target, b.1, b.2)) && (forall|j: int|
                0 <= j < i ==> size_cost(target, #[trigger] head[j].1, head[j].2) > size_cost(
                    target,
                    b.1,
                    b.2,
                ));
        assert(forall|j: int| 0 <= j < head.len() ==> cands[j] == head[j]);
        if size_cost(target, last.1, last.2) < size_cost(target, b.1, b.2) {
            assert(c == last);
            let w = cands.len() - 1;
            assert(cands[w] == c);
            assert(forall|j: int|
                0 <= j < w ==> size_cost(target, #[trigger] cands[j].1, cands[j].2) > size_cost(
                    target,
                    c.1,
                    c.2,
                ));
        } else {
            assert(c == b);
            assert(cands[i] == c);
        }
    }
}

/// Law: if one candidate's width and height differences against the
/// target are each no larger than another's, its cost is no larger
/// either.
pub proof fn lemma_cost_monotone(
    target: TargetFrameSize,
    wa: u32,
    ha: u32,
    wb: u32,
    hb: u32,
)
    requires
        axis_diff(target.width, wa) <= axis_diff(target.width, wb),
        axis_diff(target.height, ha) <= axis_diff(target.height, hb),
    ensures
        size_cost(target, wa, ha) <= size_cost(target, wb, hb),
{
    let dwa = axis_diff(target.width, wa);
    let dha = axis_diff(target.height, ha);
    let dwb = axis_diff(target.width, wb);
    let dhb = axis_diff(target.height, hb);
    assert(dha * dha + dwa * dwa + dha * dwa <= dhb * dhb + dwb * dwb + dhb * dwb)
        by (nonlinear_arith)
        requires
            0 <= dwa <= dwb,
            0 <= dha <= dhb,
    ;
}

/// Confirm that the device kept the requested pixel format; a backend
/// that silently substitutes another one is fatal to construction.
pub fn confirm_format_honored(requested: &FourCC, applied: &FourCC) -> (r: Result<(), Error>)
    ensures
        r is Ok <==> *requested == *applied,
        r is Err ==> r->Err_0 == Error::FormatNotHonored,
{
    if requested == applied {
        Ok(())
    } else {
        Err(Error::FormatNotHonored)
    }
}

} // verus!
