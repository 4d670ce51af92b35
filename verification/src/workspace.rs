//! The workspace indicator of the bar: a row of ten marks, one for each of the
//! first ten workspaces, and a slider that rests on the active one.
//!
//! Which workspaces hold windows is kept as a mask of sixteen bits: bit `n`
//! stands for the workspace numbered `n + 1`.

use crate::command::Workspace;
use crate::text::{parse_int, parsed_int};
use vstd::prelude::*;

verus! {

/// How many workspaces the indicator shows, and how many of the compositor's
/// list it looks at.
pub const SHOWN: usize = 10;

/// Whether bit `n` of `mask` is set.
pub open spec fn bit(mask: u16, n: int) -> bool {
    0 <= n < 16 && mask & (1u16 << (n as u16)) != 0
}

/// The bit that stands for the workspace named `name`: one less than the
/// number that the name spells, and bit 0 for a name that spells none.
pub open spec fn slot(name: Seq<char>) -> int {
    match parsed_int(name) {
        Some(number) => number - 1,
        None => 0,
    }
}

/// Whether one of the first ten of `workspaces` holds a window and stands on
/// bit `n`.
pub open spec fn occupied(workspaces: Seq<Workspace>, n: int) -> bool {
    exists|j: int| occupies(workspaces, j, n)
}

/// Whether workspace `j` of the list is among the first ten, holds a window
/// and stands on bit `n`.
pub open spec fn occupies(workspaces: Seq<Workspace>, j: int, n: int) -> bool {
    0 <= j < workspaces.len() && j < 10 && workspaces[j].windows > 0 && slot(workspaces[j].name@)
        == n
}

/// The classes of mark `n` under `mask`.
pub open spec fn classes(mask: u16, n: int) -> Seq<Seq<char>> {
    if bit(mask, n) {
        seq!["workspace-indicator"@, "with-windows"@]
    } else {
        seq!["workspace-indicator"@]
    }
}

proof fn lemma_set_bit(mask: u16, i: u16, n: u16)
    requires
        i < 16,
        n < 16,
    ensures
        ((mask | (1u16 << i)) & (1u16 << n) != 0) == (n == i || mask & (1u16 << n) != 0),
        0u16 & (1u16 << n) == 0,
{
    assert(((mask | (1u16 << i)) & (1u16 << n) != 0) == (n == i || mask & (1u16 << n) != 0))
        by (bit_vector)
        requires
            i < 16,
            n < 16,
    ;
    assert(0u16 & (1u16 << n) == 0) by (bit_vector);
}

/// The mask of the workspaces that hold windows. Only the first ten entries of
/// the list count. A workspace whose bit would lie outside the mask has none.
pub fn calculate(workspaces: &[Workspace]) -> (mask: u16)
    ensures
        forall|n: int| 0 <= n < 16 ==> (bit(mask, n) <==> occupied(workspaces@, n)),
{
    let mut mask: u16 = 0;
    let mut j: usize = 0;
    proof {
        assert forall|n: int| 0 <= n < 16 implies !bit(mask, n) by {
            lemma_set_bit(0, 0, n as u16);
        }
    }
    while j < workspaces.len() && j < SHOWN
        invariant
            j <= workspaces.len(),
            j <= 10,
            forall|n: int|
                0 <= n < 16 ==> (bit(mask, n) <==> exists|k: int|
                    k < j && occupies(workspaces@, k, n)),
        decreases workspaces.len() - j,
    {
        let workspace = &workspaces[j];
        let index: i64 = match parse_int(workspace.name.as_str()) {
            Some(number) => number as i64 - 1,
            None => 0,
        };
        let ghost before = mask;
        if workspace.windows > 0 && 0 <= index && index < 16 {
            let shift = index as u16;
            mask = mask | (1u16 << shift);
            proof {
                assert forall|n: int| 0 <= n < 16 implies (bit(mask, n) <==> exists|k: int|
                    k < j + 1 && occupies(workspaces@, k, n)) by {
                    lemma_set_bit(before, shift, n as u16);
                    if n == index {
                        assert(occupies(workspaces@, j as int, n));
                    }
                    if bit(before, n) {
                        let k = choose|k: int| k < j && occupies(workspaces@, k, n);
                        assert(k < j + 1 && occupies(workspaces@, k, n));
                    }
                    if exists|k: int| k < j + 1 && occupies(workspaces@, k, n) {
                        let k = choose|k: int| k < j + 1 && occupies(workspaces@, k, n);
                        if k < j {
                            assert(bit(before, n));
                        }
                    }
                }
            }
        } else {
            proof {
                assert forall|n: int| 0 <= n < 16 implies (bit(mask, n) <==> exists|k: int|
                    k < j + 1 && occupies(workspaces@, k, n)) by {
                    assert(!occupies(workspaces@, j as int, n));
                    if bit(mask, n) {
                        let k = choose|k: int| k < j && occupies(workspaces@, k, n);
                        assert(k < j + 1 && occupies(workspaces@, k, n));
                    }
                    if exists|k: int| k < j + 1 && occupies(workspaces@, k, n) {
                        let k = choose|k: int| k < j + 1 && occupies(workspaces@, k, n);
                        assert(k < j);
                    }
                }
            }
        }
        j += 1;
    }
    proof {
        assert forall|n: int| 0 <= n < 16 implies (bit(mask, n) <==> occupied(workspaces@, n)) by {
            if occupied(workspaces@, n) {
                let k = choose|k: int| occupies(workspaces@, k, n);
                assert(k < j && occupies(workspaces@, k, n));
            }
            if bit(mask, n) {
                let k = choose|k: int| k < j && occupies(workspaces@, k, n);
                assert(occupies(workspaces@, k, n));
            }
        }
    }
    mask
}

/// The classes of mark `n`: every mark is an indicator, and the mark of a
/// workspace that holds windows says so.
pub fn cname(mask: u16, n: usize) -> (names: Vec<&'static str>)
    ensures
        crate::text::views(names@) == classes(mask, n as int),
{
    let mut names: Vec<&'static str> = Vec::new();
    names.push("workspace-indicator");
    if n < 16 && mask & (1u16 << (n as u16)) != 0 {
        names.push("with-windows");
    }
    assert(crate::text::views(names@) =~= classes(mask, n as int));
    names
}

/// The row of marks.
pub struct OpenIndicator {
    mask: u16,
}

impl OpenIndicator {
    /// The mask that the marks are drawn from.
    pub closed spec fn mask(&self) -> u16 {
        self.mask
    }

    /// A row in which no workspace is marked.
    pub fn new() -> (indicator: Self)
        ensures
            indicator.mask() == 0,
    {
        OpenIndicator { mask: 0 }
    }

    /// Takes a new mask.
    pub fn update(&mut self, message: u16)
        ensures
            final(self).mask() == message,
    {
        self.mask = message;
    }

    /// The classes of each of the ten marks, in order.
    pub fn update_view(&self) -> (marks: Vec<Vec<&'static str>>)
        ensures
            marks@.len() == 10,
            forall|i: int|
                0 <= i < 10 ==> crate::text::views(#[trigger] marks@[i]@) == classes(
                    self.mask(),
                    i,
                ),
    {
        let mut marks: Vec<Vec<&'static str>> = Vec::new();
        let mut i: usize = 0;
        while i < SHOWN
            invariant
                i <= 10,
                marks@.len() == i,
                forall|k: int|
                    0 <= k < i ==> crate::text::views(#[trigger] marks@[k]@) == classes(
                        self.mask(),
                        k,
                    ),
            decreases 10 - i,
        {
            marks.push(cname(self.mask, i));
            i += 1;
        }
        marks
    }
}

/// The number of the active workspace that `name` spells, if it spells one: a
/// decimal number from 0 to 255, without a minus sign.
pub open spec fn active_number(name: Seq<char>) -> Option<u8> {
    match parsed_int(name) {
        Some(number) => if name[0] != '-' && 0 <= number <= 255 {
            Some(number as u8)
        } else {
            None
        },
        None => None,
    }
}

/// Reads the number of the active workspace out of its name.
pub fn recalculate_active(name: &str) -> (number: Option<u8>)
    ensures
        number == active_number(name@),
{
    let chars = crate::text::chars_of(name);
    match parse_int(name) {
        Some(number) => {
            if chars[0] != '-' && 0 <= number && number <= 255 {
                Some(number as u8)
            } else {
                None
            }
        },
        None => None,
    }
}

/// What the slider is drawn from: where it was, where it is going, and how
/// many frames of the way were drawn.
pub struct DrawData {
    last: u8,
    current: u8,
    nth: usize,
}

/// The slider that rests on the active workspace.
pub struct ActiveSlider {
    draw_data: DrawData,
}

impl DrawData {
    /// The position, counted from zero, that the slider moves away from.
    pub closed spec fn last(&self) -> u8 {
        self.last
    }

    /// The position, counted from zero, that the slider moves to.
    pub closed spec fn current(&self) -> u8 {
        self.current
    }

    /// How many frames of the move were drawn.
    pub closed spec fn nth(&self) -> usize {
        self.nth
    }

    /// The position that the slider moves away from.
    pub fn from(&self) -> (position: u8)
        ensures
            position == self.last(),
    {
        self.last
    }

    /// The position that the slider moves to.
    pub fn to(&self) -> (position: u8)
        ensures
            position == self.current(),
    {
        self.current
    }

    /// How many frames of the move were drawn.
    pub fn frames(&self) -> (n: usize)
        ensures
            n == self.nth(),
    {
        self.nth
    }

    /// Counts one more frame and returns the count; the count wraps round at
    /// the end of its range.
    pub fn next_frame(&mut self) -> (n: usize)
        ensures
            n == if old(self).nth() == usize::MAX {
                0usize
            } else {
                (old(self).nth() + 1) as usize
            },
            final(self).nth() == n,
            final(self).last() == old(self).last(),
            final(self).current() == old(self).current(),
    {
        self.nth = if self.nth == usize::MAX {
            0
        } else {
            self.nth + 1
        };
        self.nth
    }
}

impl ActiveSlider {
    /// What the slider is drawn from.
    pub closed spec fn data(&self) -> DrawData {
        self.draw_data
    }

    /// A slider at rest on the workspace numbered `current`. Workspaces are
    /// numbered from one.
    pub fn new(current: u8) -> (slider: Self)
        requires
            current >= 1,
        ensures
            slider.data().last() == current - 1,
            slider.data().current() == current - 1,
            slider.data().nth() == 0,
    {
        ActiveSlider { draw_data: DrawData { last: current - 1, current: current - 1, nth: 0 } }
    }

    /// What the slider is drawn from.
    pub fn draw_data(&self) -> (data: &DrawData)
        ensures
            *data == self.data(),
    {
        &self.draw_data
    }

    /// Counts one more frame of the move and returns the count.
    pub fn next_frame(&mut self) -> (n: usize)
        ensures
            n == if old(self).data().nth() == usize::MAX {
                0usize
            } else {
                (old(self).data().nth() + 1) as usize
            },
            final(self).data().nth() == n,
            final(self).data().last() == old(self).data().last(),
            final(self).data().current() == old(self).data().current(),
    {
        self.draw_data.next_frame()
    }

    /// Sends the slider to the workspace numbered `message`: it moves from
    /// where it was going to the new place.
    pub fn update(&mut self, message: u8)
        requires
            message >= 1,
        ensures
            final(self).data().last() == old(self).data().current(),
            final(self).data().current() == message - 1,
            final(self).data().nth() == old(self).data().nth(),
    {
        self.draw_data.last = self.draw_data.current;
        self.draw_data.current = message - 1;
    }

    /// Starts the move over: no frame of it is drawn yet.
    pub fn update_view(&mut self)
        ensures
            final(self).data().last() == old(self).data().last(),
            final(self).data().current() == old(self).data().current(),
            final(self).data().nth() == 0,
    {
        self.draw_data.nth = 0;
    }
}

} // verus!
