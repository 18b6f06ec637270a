use vstd::prelude::*;

verus! {

/// A run of pixels in one column, from its first point `.0` down to its last
/// point `.1`; a disc is drawn as a list of such runs.
pub open spec fn run_ok(r: ((i32, i32), (i32, i32))) -> bool {
    r.0.0 == r.1.0 && r.0.1 <= r.1.1
}

/// Every run of the list stands in one column and does not go upward.
pub open spec fn runs_ok(lines: Seq<((i32, i32), (i32, i32))>) -> bool {
    forall|i: int| 0 <= i < lines.len() ==> #[trigger] run_ok(lines[i])
}

/// The run covers the pixel (px, py).
pub open spec fn run_covers(r: ((i32, i32), (i32, i32)), px: int, py: int) -> bool {
    r.0.0 == px && r.0.1 <= py <= r.1.1
}

/// Some run of the list covers the pixel (px, py).
pub open spec fn covers(lines: Seq<((i32, i32), (i32, i32))>, px: int, py: int) -> bool {
    exists|i: int| 0 <= i < lines.len() && #[trigger] run_covers(lines[i], px, py)
}

/// Whether the pixel (x, y) continues the last run: that run ends on the
/// pixel just above it.
pub open spec fn continues_last(lines: Seq<((i32, i32), (i32, i32))>, x: int, y: int) -> bool {
    lines.len() > 0 && lines.last().1.0 == x && lines.last().1.1 == y - 1
}

/// Adds the body pixel (x, y) to the runs: when it lies just below the end of
/// the last run, that run grows down by one; otherwise a run of this single
/// pixel is appended. Runs in good order stay so, and they then cover exactly
/// the pixels they covered before and (x, y).
pub fn add_body_pixel(lines: &mut Vec<((i32, i32), (i32, i32))>, x: i32, y: i32)
    requires
        y > i32::MIN || old(lines)@.len() == 0 || old(lines)@.last().1.0 != x,
    ensures
        continues_last(old(lines)@, x as int, y as int) ==> final(lines)@ == old(lines)@.update(
            old(lines)@.len() - 1,
            (old(lines)@.last().0, (x, y)),
        ),
        !continues_last(old(lines)@, x as int, y as int) ==> final(lines)@ == old(lines)@.push(
            ((x, y), (x, y)),
        ),
        runs_ok(old(lines)@) ==> runs_ok(final(lines)@),
        runs_ok(old(lines)@) ==> forall|px: int, py: int|
            #[trigger] covers(final(lines)@, px, py) <==> (covers(old(lines)@, px, py) || (px
                == x && py == y)),
{
    let ghost before = lines@;
    if lines.len() > 0 {
        let last = lines.len() - 1;
        if lines[last].1.0 == x && lines[last].1.1 == y - 1 {
            let start = lines[last].0;
            lines.set(last, (start, (x, y)));
            proof {
                if runs_ok(before) {
                    lemma_extend_covers(before, x as int, y as int);
                }
            }
        } else {
            lines.push(((x, y), (x, y)));
            proof {
                if runs_ok(before) {
                    lemma_push_covers(before, x, y);
                }
            }
        }
    } else {
        lines.push(((x, y), (x, y)));
        proof {
            lemma_push_covers(before, x, y);
        }
    }
}

proof fn lemma_push_covers(lines: Seq<((i32, i32), (i32, i32))>, x: i32, y: i32)
    requires
        runs_ok(lines),
    ensures
        runs_ok(lines.push(((x, y), (x, y)))),
        forall|px: int, py: int|
            #[trigger] covers(lines.push(((x, y), (x, y))), px, py) <==> (covers(lines, px, py) || (px
                == x && py == y)),
{
    let after = lines.push(((x, y), (x, y)));
    assert forall|i: int| 0 <= i < after.len() implies #[trigger] run_ok(after[i]) by {
        if i < lines.len() {
            assert(after[i] == lines[i]);
        }
    }
    assert forall|px: int, py: int|
        #[trigger] covers(after, px, py) <==> (covers(lines, px, py) || (px == x && py == y)) by {
        if covers(after, px, py) {
            let i = choose|i: int| 0 <= i < after.len() && #[trigger] run_covers(after[i], px, py);
            if i < lines.len() {
                assert(after[i] == lines[i]);
                assert(run_covers(lines[i], px, py));
            }
        }
        if covers(lines, px, py) {
            let i = choose|i: int| 0 <= i < lines.len() && #[trigger] run_covers(lines[i], px, py);
            assert(after[i] == lines[i]);
            assert(run_covers(after[i], px, py));
        }
        if px == x && py == y {
            assert(run_covers(after[lines.len() as int], px, py));
        }
    }
}

proof fn lemma_extend_covers(lines: Seq<((i32, i32), (i32, i32))>, x: int, y: int)
    requires
        runs_ok(lines),
        continues_last(lines, x, y),
        i32::MIN <= x <= i32::MAX,
        i32::MIN <= y <= i32::MAX,
    ensures
        ({
            let after = lines.update(lines.len() - 1, (lines.last().0, (x as i32, y as i32)));
            &&& runs_ok(after)
            &&& forall|px: int, py: int|
                #[trigger] covers(after, px, py) <==> (covers(lines, px, py) || (px == x && py == y))
        }),
{
    let n = lines.len() - 1;
    let after = lines.update(n, (lines.last().0, (x as i32, y as i32)));
    assert(run_ok(lines[n]));
    assert forall|i: int| 0 <= i < after.len() implies #[trigger] run_ok(after[i]) by {
        if i != n {
            assert(after[i] == lines[i]);
        }
    }
    assert forall|px: int, py: int|
        #[trigger] covers(after, px, py) <==> (covers(lines, px, py) || (px == x && py == y)) by {
        if covers(after, px, py) {
            let i = choose|i: int| 0 <= i < after.len() && #[trigger] run_covers(after[i], px, py);
            if i != n {
                assert(after[i] == lines[i]);
                assert(run_covers(lines[i], px, py));
            } else if py != y {
                assert(run_covers(lines[n], px, py));
            }
        }
        if covers(lines, px, py) {
            let i = choose|i: int| 0 <= i < lines.len() && #[trigger] run_covers(lines[i], px, py);
            if i != n {
                assert(after[i] == lines[i]);
            }
            assert(run_covers(after[i], px, py));
        }
        if px == x && py == y {
            assert(run_covers(after[n], px, py));
        }
    }
}

} // verus!
