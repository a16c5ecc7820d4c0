use vstd::prelude::*;

verus! {

/// Number of notes of a scale an offset can be set for.
pub const MAX_STEPS: usize = 7;

/// Number of scales per group offsets are kept for.
pub const MAX_SCALES: usize = 8;

/// Number of scale groups offsets are kept for.
pub const MAX_GROUPS: usize = 5;

/// Largest offset, in quarter tones, in either direction.
pub const MAX_OFFSET: i8 = 4;

/// Per-note pitch offsets, by group, scale and note.
pub type Offsets = [[[i8; 7]; 8]; 5];

/// Offsets of a scale that has none set.
pub const NO_OFFSETS: [i8; 7] = [0, 0, 0, 0, 0, 0, 0];

/// User-tuned pitch offsets of the notes of each scale.
#[derive(PartialEq, Default, Debug, Clone, Copy)]
pub struct ScaleOffsets {
    offsets: Offsets,
    locked: bool,
}

#[derive(Default, PartialEq, Debug, Clone, Copy)]
pub struct PersistentConfig {
    pub offsets: Offsets,
}

/// The offset stored for a note, as a function of the stored table.
pub open spec fn offset_at(offsets: Offsets, group: int, scale: int, step: int) -> i8 {
    offsets[group][scale][step]
}

/// Whether the position names a stored note.
pub open spec fn in_table(group: int, scale: int, step: int) -> bool {
    0 <= group < MAX_GROUPS && 0 <= scale < MAX_SCALES && 0 <= step < MAX_STEPS
}

/// Whether every stored offset lies within `-MAX_OFFSET..=MAX_OFFSET`.
pub open spec fn offsets_in_range(offsets: Offsets) -> bool {
    forall|g: int, s: int, st: int|
        in_table(g, s, st) ==> -MAX_OFFSET <= #[trigger] offset_at(offsets, g, s, st) <= MAX_OFFSET
}

/// Whether `after` is `before` with the note's offset moved by `delta`
/// and every other offset kept.
pub open spec fn moved_by(before: Offsets, after: Offsets, group: int, scale: int, step: int, delta: int) -> bool {
    forall|g: int, s: int, st: int|
        in_table(g, s, st) ==> #[trigger] offset_at(after, g, s, st) == if g == group && s == scale && st
            == step {
            (offset_at(before, g, s, st) + delta) as i8
        } else {
            offset_at(before, g, s, st)
        }
}

impl ScaleOffsets {
    pub closed spec fn table(&self) -> Offsets {
        self.offsets
    }

    pub closed spec fn is_locked(&self) -> bool {
        self.locked
    }

    /// Offsets as saved, locked against edits.
    pub fn new(config: PersistentConfig) -> (r: Self)
        ensures
            r.table() == config.offsets,
            r.is_locked(),
    {
        Self { offsets: config.offsets, locked: true }
    }

    pub fn copy_config(&self) -> (r: PersistentConfig)
        ensures
            r.offsets == self.table(),
    {
        PersistentConfig { offsets: self.offsets }
    }

    fn set_offset(&mut self, group: usize, scale: usize, step: usize, value: i8)
        requires
            in_table(group as int, scale as int, step as int),
        ensures
            forall|g: int, s: int, st: int|
                in_table(g, s, st) ==> #[trigger] offset_at(final(self).table(), g, s, st) == if g == group
                    && s == scale && st == step {
                    value
                } else {
                    offset_at(old(self).table(), g, s, st)
                },
            final(self).is_locked() == old(self).is_locked(),
    {
        let mut row = self.offsets[group][scale];
        row[step] = value;
        let mut rows = self.offsets[group];
        rows[scale] = row;
        self.offsets[group] = rows;
    }

    /// Raises the note's offset by a quarter tone unless it is at the top
    /// already; tells whether it changed.
    pub fn request_increase(&mut self, group: usize, scale: usize, step: usize) -> (changed: bool)
        ensures
            changed == (in_table(group as int, scale as int, step as int) && offset_at(
                old(self).table(),
                group as int,
                scale as int,
                step as int,
            ) < MAX_OFFSET),
            final(self).is_locked() == old(self).is_locked(),
            moved_by(
                old(self).table(),
                final(self).table(),
                group as int,
                scale as int,
                step as int,
                if changed {
                    1
                } else {
                    0
                },
            ),
            offsets_in_range(old(self).table()) ==> offsets_in_range(final(self).table()),
    {
        if !(group < MAX_GROUPS && scale < MAX_SCALES && step < MAX_STEPS) {
            return false;
        }
        let current = self.offsets[group][scale][step];
        if current < MAX_OFFSET {
            self.set_offset(group, scale, step, current + 1);
            return true;
        }
        false
    }

    /// Lowers the note's offset by a quarter tone unless it is at the
    /// bottom already; tells whether it changed.
    pub fn request_decrease(&mut self, group: usize, scale: usize, step: usize) -> (changed: bool)
        ensures
            changed == (in_table(group as int, scale as int, step as int) && offset_at(
                old(self).table(),
                group as int,
                scale as int,
                step as int,
            ) > -MAX_OFFSET),
            final(self).is_locked() == old(self).is_locked(),
            moved_by(
                old(self).table(),
                final(self).table(),
                group as int,
                scale as int,
                step as int,
                if changed {
                    -1
                } else {
                    0
                },
            ),
            offsets_in_range(old(self).table()) ==> offsets_in_range(final(self).table()),
    {
        if !(group < MAX_GROUPS && scale < MAX_SCALES && step < MAX_STEPS) {
            return false;
        }
        let current = self.offsets[group][scale][step];
        if current > -MAX_OFFSET {
            self.set_offset(group, scale, step, current - 1);
            return true;
        }
        false
    }

    /// The note's offset; zero for positions the table does not hold.
    pub fn offset(&self, group: usize, scale: usize, step: usize) -> (r: i8)
        ensures
            r == if in_table(group as int, scale as int, step as int) {
                offset_at(self.table(), group as int, scale as int, step as int)
            } else {
                0
            },
    {
        if !(group < MAX_GROUPS && scale < MAX_SCALES && step < MAX_STEPS) {
            return 0;
        }
        self.offsets[group][scale][step]
    }

    /// The offsets of all notes of a scale; zeros for scales the table
    /// does not hold.
    pub fn scale_offsets_ref(&self, group: usize, scale: usize) -> (r: &[i8; 7])
        ensures
            forall|st: int|
                0 <= st < MAX_STEPS ==> #[trigger] r[st] == if in_table(group as int, scale as int, st) {
                    offset_at(self.table(), group as int, scale as int, st)
                } else {
                    0
                },
    {
        if !(group < MAX_GROUPS && scale < MAX_SCALES) {
            return &NO_OFFSETS;
        }
        &self.offsets[group][scale]
    }

    /// Clears the offsets of a scale; tells whether any was set.
    pub fn reset_scale(&mut self, group: usize, scale: usize) -> (changed: bool)
        ensures
            changed == (0 <= group < MAX_GROUPS && 0 <= scale < MAX_SCALES && exists|st: int|
                0 <= st < MAX_STEPS && #[trigger] offset_at(old(self).table(), group as int, scale as int, st)
                    != 0),
            final(self).is_locked() == old(self).is_locked(),
            forall|g: int, s: int, st: int|
                in_table(g, s, st) ==> #[trigger] offset_at(final(self).table(), g, s, st) == if g == group
                    && s == scale {
                    0
                } else {
                    offset_at(old(self).table(), g, s, st)
                },
            offsets_in_range(old(self).table()) ==> offsets_in_range(final(self).table()),
    {
        if !(group < MAX_GROUPS && scale < MAX_SCALES) {
            return false;
        }
        let row = self.offsets[group][scale];
        let mut i: usize = 0;
        let mut any_set = false;
        while i < MAX_STEPS
            invariant
                i <= MAX_STEPS,
                group < MAX_GROUPS,
                scale < MAX_SCALES,
                row == self.offsets[group as int][scale as int],
                any_set == exists|st: int| 0 <= st < i && #[trigger] row[st] != 0,
            decreases MAX_STEPS - i,
        {
            if row[i] != 0 {
                any_set = true;
            }
            i = i + 1;
        }
        assert forall|st: int| 0 <= st < MAX_STEPS implies #[trigger] offset_at(
            self.table(),
            group as int,
            scale as int,
            st,
        ) == row[st] by {}
        if any_set {
            proof {
                let st = choose|st: int| 0 <= st < MAX_STEPS && #[trigger] row[st] != 0;
                assert(offset_at(self.table(), group as int, scale as int, st) != 0);
            }
            let mut rows = self.offsets[group];
            rows[scale] = NO_OFFSETS;
            self.offsets[group] = rows;
            proof {
                if offsets_in_range(old(self).table()) {
                    assert forall|g: int, s: int, st: int| in_table(g, s, st) implies -MAX_OFFSET
                        <= #[trigger] offset_at(self.table(), g, s, st) <= MAX_OFFSET by {
                        if g == group && s == scale {
                            assert(offset_at(self.table(), g, s, st) == NO_OFFSETS[st]);
                        } else {
                            assert(offset_at(self.table(), g, s, st) == offset_at(old(self).table(), g, s, st));
                        }
                    }
                }
            }
            return true;
        }
        false
    }

    pub fn locked(&self) -> (r: bool)
        ensures
            r == self.is_locked(),
    {
        self.locked
    }

    /// Flips the lock; returns whether it is now locked.
    pub fn toggle_lock(&mut self) -> (r: bool)
        ensures
            r == !old(self).is_locked(),
            final(self).is_locked() == r,
            final(self).table() == old(self).table(),
    {
        self.locked = !self.locked;
        self.locked
    }
}

/// Raising a note's offset and then lowering it gives back the offsets
/// it started from, when the offset was within range and below the top.
pub proof fn lemma_raise_then_lower(
    start: Offsets,
    raised: Offsets,
    lowered: Offsets,
    group: int,
    scale: int,
    step: int,
)
    requires
        in_table(group, scale, step),
        -MAX_OFFSET <= offset_at(start, group, scale, step) < MAX_OFFSET,
        moved_by(start, raised, group, scale, step, 1),
        moved_by(raised, lowered, group, scale, step, -1),
    ensures
        offset_at(raised, group, scale, step) > -MAX_OFFSET,
        forall|g: int, s: int, st: int|
            in_table(g, s, st) ==> #[trigger] offset_at(lowered, g, s, st) == offset_at(start, g, s, st),
{
    assert(offset_at(raised, group, scale, step) == offset_at(start, group, scale, step) + 1);
    assert forall|g: int, s: int, st: int| in_table(g, s, st) implies #[trigger] offset_at(lowered, g, s, st)
        == offset_at(start, g, s, st) by {
        assert(offset_at(raised, g, s, st) == offset_at(raised, g, s, st));
    }
}

} // verus!
