use vstd::prelude::*;

verus! {

/// What fills the positions that a shift uncovers at the edge of a row.
#[derive(Debug)]
pub enum BoundaryHandling<T> {
    /// Repeat the sample that stood at the uncovered edge.
    Extend,
    /// Use the given value.
    Constant(T),
}

/// The value that fills uncovered positions when `row` is displaced by `shift` samples.
pub open spec fn boundary_value<T>(row: Seq<T>, shift: int, boundary: BoundaryHandling<T>) -> T {
    match boundary {
        BoundaryHandling::Extend => if shift > 0 {
            row[0]
        } else {
            row[row.len() - 1]
        },
        BoundaryHandling::Constant(v) => v,
    }
}

/// `row` displaced by `shift` positions (to higher indices when positive), with `fill`
/// wherever no original sample lands.
pub open spec fn displaced<T>(row: Seq<T>, shift: int, fill: T) -> Seq<T> {
    Seq::new(
        row.len(),
        |i: int|
            if 0 <= i - shift < row.len() {
                row[i - shift]
            } else {
                fill
            },
    )
}

/// Moves every sample of `row` by the whole number `shift` of positions, filling the
/// uncovered edge according to `boundary`.
pub fn shift_row_whole<T: Copy>(row: &mut Vec<T>, shift: i64, boundary: BoundaryHandling<T>)
    ensures
        final(row)@ == displaced(old(row)@, shift as int, boundary_value(old(row)@, shift as int, boundary)),
{
    let width = row.len();
    if width == 0 {
        proof {
            assert(final(row)@ =~= displaced(old(row)@, shift as int, boundary_value(old(row)@, shift as int, boundary)));
        }
        return;
    }
    let fill: T = match boundary {
        BoundaryHandling::Extend => if shift > 0 {
            row[0]
        } else {
            row[width - 1]
        },
        BoundaryHandling::Constant(v) => v,
    };
    let ghost orig = row@;
    let ghost target = displaced(orig, shift as int, fill);
    if shift > 0 {
        let offset: usize = if shift as u64 >= width as u64 {
            width
        } else {
            shift as usize
        };
        let mut i: usize = width;
        while i > 0
            invariant
                0 <= i <= width,
                width == orig.len(),
                row@.len() == width,
                target == displaced(orig, shift as int, fill),
                offset as int == if shift >= width { width as int } else { shift as int },
                forall|j: int| i <= j < width ==> row@[j] == target[j],
                forall|j: int| 0 <= j < i ==> row@[j] == orig[j],
            decreases i,
        {
            i = i - 1;
            let v: T = if i >= offset {
                row[i - offset]
            } else {
                fill
            };
            row.set(i, v);
        }
    } else {
        let magnitude: u64 = if shift == 0 {
            0
        } else {
            (-(shift + 1)) as u64 + 1
        };
        let offset: usize = if magnitude >= width as u64 {
            width
        } else {
            magnitude as usize
        };
        let mut i: usize = 0;
        while i < width
            invariant
                0 <= i <= width,
                width == orig.len(),
                row@.len() == width,
                target == displaced(orig, shift as int, fill),
                offset as int == if shift <= -width { width as int } else { -shift },
                forall|j: int| 0 <= j < i ==> row@[j] == target[j],
                forall|j: int| i <= j < width ==> row@[j] == orig[j],
            decreases width - i,
        {
            let v: T = if offset < width - i {
                row[i + offset]
            } else {
                fill
            };
            row.set(i, v);
            i = i + 1;
        }
    }
    proof {
        assert(row@ =~= target);
    }
}

/// Displacing a row by zero positions leaves it as it was, whatever the fill.
pub proof fn lemma_zero_shift_identity<T>(row: Seq<T>, fill: T)
    ensures
        displaced(row, 0, fill) == row,
{
    assert(displaced(row, 0, fill) =~= row);
}

} // verus!
