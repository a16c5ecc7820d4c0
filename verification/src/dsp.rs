//! The integer side of the signal processing: stereo modes and the
//! rotation of strings among triggered notes.
use vstd::prelude::*;

verus! {

/// How the signal processing spreads the strings between the outputs.
#[derive(Clone, Copy, PartialEq, Eq, Debug, Structural)]
pub enum StereoMode {
    Haas,
    RootRest,
    PingPong,
}

/// Number of strings.
pub const STRINGS: usize = 8;

/// Number of strings reserved for root notes for a chord of the given
/// size; eight is the ping-pong setting that treats every note as root.
pub open spec fn root_strings_for(len: usize) -> usize {
    if 1 <= len <= 2 {
        4
    } else if 3 <= len <= 6 {
        3
    } else if len == 8 {
        8
    } else {
        2
    }
}

/// How many of the eight strings are kept for root notes, by the size of
/// the chord: four for chords of one or two notes, three for chords of
/// three to six notes, all eight for chords of eight, two otherwise.
pub proof fn lemma_root_strings_by_chord_size(len: usize)
    ensures
        1 <= len <= 2 ==> root_strings_for(len) == 4,
        3 <= len <= 6 ==> root_strings_for(len) == 3,
        len == 8 ==> root_strings_for(len) == 8,
        len == 0 || len == 7 || len > 8 ==> root_strings_for(len) == 2,
{
}

/// Which string plays the next root note and which the next other note.
///
/// The first strings are kept for root notes, the rest for the other
/// notes; each group is used in turn.
pub struct StringRotation {
    root_strings_len: usize,
    active_root_string_index: usize,
    active_rest_string_index: usize,
}

impl StringRotation {
    pub closed spec fn root_len(&self) -> nat {
        self.root_strings_len as nat
    }

    pub closed spec fn root(&self) -> nat {
        self.active_root_string_index as nat
    }

    pub closed spec fn rest(&self) -> nat {
        self.active_rest_string_index as nat
    }

    /// Root strings form a non-empty prefix and the next root string is
    /// one of them; the next other string is at most one past the last.
    pub closed spec fn wf(&self) -> bool {
        &&& 0 < self.root_strings_len <= STRINGS
        &&& self.active_root_string_index < self.root_strings_len
        &&& self.active_rest_string_index <= STRINGS
    }

    /// Four root strings, both rotations at the first string.
    pub fn new() -> (r: Self)
        ensures
            r.wf(),
            r.root_len() == 4,
            r.root() == 0,
            r.rest() == 0,
    {
        Self { root_strings_len: 4, active_root_string_index: 0, active_rest_string_index: 0 }
    }

    /// Resizes the root strings for a chord of the given size; rotations
    /// out of their new range restart at its start.
    pub fn set_root_strings_len(&mut self, len: usize)
        requires
            old(self).wf(),
        ensures
            final(self).wf(),
            final(self).root_len() == root_strings_for(len),
            final(self).root() == if old(self).root_len() != root_strings_for(len) && old(self).root()
                >= root_strings_for(len) {
                0
            } else {
                old(self).root()
            },
            final(self).rest() == if old(self).root_len() != root_strings_for(len) && old(self).rest()
                < root_strings_for(len) {
                root_strings_for(len) as nat
            } else {
                old(self).rest()
            },
    {
        let new_root_strings_len = if 1 <= len && len <= 2 {
            4
        } else if 3 <= len && len <= 6 {
            3
        } else if len == 8 {
            8
        } else {
            2
        };
        if new_root_strings_len == self.root_strings_len {
            return;
        }
        self.root_strings_len = new_root_strings_len;
        if self.active_root_string_index >= self.root_strings_len {
            self.active_root_string_index = 0;
        }
        if self.active_rest_string_index < self.root_strings_len {
            self.active_rest_string_index = self.root_strings_len;
        }
    }

    /// Sizes the root strings for the stereo mode and chord: ping-pong
    /// treats every string as a root string.
    pub fn configure(&mut self, stereo_mode: StereoMode, chord_size: usize)
        requires
            old(self).wf(),
        ensures
            final(self).wf(),
            ({
                let len = root_strings_for(
                    if stereo_mode == StereoMode::PingPong {
                        STRINGS
                    } else {
                        chord_size
                    },
                );
                &&& final(self).root_len() == len
                &&& final(self).root() == if old(self).root_len() != len && old(self).root() >= len {
                    0
                } else {
                    old(self).root()
                }
                &&& final(self).rest() == if old(self).root_len() != len && old(self).rest() < len {
                    len as nat
                } else {
                    old(self).rest()
                }
            }),
    {
        if stereo_mode == StereoMode::PingPong {
            self.set_root_strings_len(STRINGS);
        } else {
            self.set_root_strings_len(chord_size);
        }
    }

    pub fn root_string_index(&self) -> (r: usize)
        ensures
            r == self.root(),
    {
        self.active_root_string_index
    }

    /// Moves to the next root string, wrapping around.
    pub fn bump_root_string_index(&mut self)
        requires
            old(self).wf(),
        ensures
            final(self).wf(),
            final(self).root_len() == old(self).root_len(),
            final(self).rest() == old(self).rest(),
            final(self).root() == (old(self).root() + 1) % old(self).root_len(),
    {
        self.active_root_string_index = (self.active_root_string_index + 1) % self.root_strings_len;
    }

    pub fn rest_string_index(&self) -> (r: usize)
        ensures
            r == self.rest(),
    {
        self.active_rest_string_index
    }

    /// Moves to the next other string, wrapping back to the first string
    /// after the root strings.
    pub fn bump_rest_string_index(&mut self)
        requires
            old(self).wf(),
        ensures
            final(self).wf(),
            final(self).root_len() == old(self).root_len(),
            final(self).root() == old(self).root(),
            final(self).rest() == if old(self).rest() + 1 >= STRINGS {
                old(self).root_len()
            } else {
                old(self).rest() + 1
            },
    {
        self.active_rest_string_index = self.active_rest_string_index + 1;
        if self.active_rest_string_index >= STRINGS {
            self.active_rest_string_index = self.root_strings_len;
        }
    }

    /// The string for a triggered note, and the one after it (to be
    /// silenced), moving the rotation on: root strings in ping-pong or for
    /// a root note, the other strings otherwise.
    pub fn next_strings(&mut self, stereo_mode: StereoMode, is_root: bool) -> (r: (usize, usize))
        requires
            old(self).wf(),
        ensures
            final(self).wf(),
            final(self).root_len() == old(self).root_len(),
            if stereo_mode == StereoMode::PingPong || is_root {
                &&& r.0 == old(self).root()
                &&& r.1 == final(self).root()
                &&& final(self).root() == (old(self).root() + 1) % old(self).root_len()
                &&& final(self).rest() == old(self).rest()
            } else {
                &&& r.0 == old(self).rest()
                &&& r.1 == final(self).rest()
                &&& final(self).rest() == if old(self).rest() + 1 >= STRINGS {
                    old(self).root_len()
                } else {
                    old(self).rest() + 1
                }
                &&& final(self).root() == old(self).root()
            },
    {
        if stereo_mode == StereoMode::PingPong || is_root {
            let string_index = self.root_string_index();
            self.bump_root_string_index();
            (string_index, self.root_string_index())
        } else {
            let string_index = self.rest_string_index();
            self.bump_rest_string_index();
            (string_index, self.rest_string_index())
        }
    }
}

/// Where a string sounds between the two outputs.
#[derive(Clone, Copy, PartialEq, Eq, Debug, Structural)]
pub enum Placement {
    /// Spread across both outputs by a short delay.
    Haas,
    FocusLeft,
    FocusRight,
}

/// Where the string at `index` sounds in the stereo mode: spread in Haas,
/// root notes on the left and other notes on the right in root/rest, and
/// even and odd strings alternating left and right in ping-pong.
pub fn string_placement(stereo_mode: StereoMode, index: usize, is_root: bool) -> (r: Placement)
    ensures
        r == match stereo_mode {
            StereoMode::Haas => Placement::Haas,
            StereoMode::RootRest => if is_root {
                Placement::FocusLeft
            } else {
                Placement::FocusRight
            },
            StereoMode::PingPong => if index % 2 == 0 {
                Placement::FocusLeft
            } else {
                Placement::FocusRight
            },
        },
{
    match stereo_mode {
        StereoMode::Haas => Placement::Haas,
        StereoMode::RootRest => if is_root {
            Placement::FocusLeft
        } else {
            Placement::FocusRight
        },
        StereoMode::PingPong => if index % 2 == 0 {
            Placement::FocusLeft
        } else {
            Placement::FocusRight
        },
    }
}

} // verus!
