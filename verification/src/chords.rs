use vstd::prelude::*;

use crate::bounded::{chord_degrees, degrees_clone, degrees_from_slice, MAX_CHORD_SIZE};

verus! {

/// An arpeggiated chord: degrees of the scale, relative to the root note.
pub type Chord = heapless::Vec<i16, 25>;

/// Groups of the chord library, by the number of degrees in their chords.
#[derive(Clone, Copy, Debug, PartialEq, Eq, Structural)]
pub enum GroupId {
    Size1,
    Size2,
    Size3,
    Size4,
    Size5,
    Size6,
    Size7,
    Size8,
}

/// Number of groups in the chord library.
pub const GROUPS: usize = 8;

/// The group at the given position.
pub open spec fn group_from_index(index: usize) -> Result<GroupId, ()> {
    match index {
        0 => Ok(GroupId::Size1),
        1 => Ok(GroupId::Size2),
        2 => Ok(GroupId::Size3),
        3 => Ok(GroupId::Size4),
        4 => Ok(GroupId::Size5),
        5 => Ok(GroupId::Size6),
        6 => Ok(GroupId::Size7),
        7 => Ok(GroupId::Size8),
        _ => Err(()),
    }
}

impl TryFrom<usize> for GroupId {
    type Error = ();

    fn try_from(index: usize) -> (r: Result<Self, ()>)
        ensures
            r == group_from_index(index),
            r is Ok <==> index < GROUPS,
            r matches Ok(g) ==> g as usize == index,
    {
        match index {
            0 => Ok(GroupId::Size1),
            1 => Ok(GroupId::Size2),
            2 => Ok(GroupId::Size3),
            3 => Ok(GroupId::Size4),
            4 => Ok(GroupId::Size5),
            5 => Ok(GroupId::Size6),
            6 => Ok(GroupId::Size7),
            7 => Ok(GroupId::Size8),
            _ => Err(()),
        }
    }
}

impl vstd::std_specs::convert::TryFromSpecImpl<usize> for GroupId {
    open spec fn obeys_try_from_spec() -> bool {
        true
    }

    open spec fn try_from_spec(index: usize) -> Result<Self, ()> {
        group_from_index(index)
    }
}

/// Number of degrees in every chord of the group.
pub open spec fn group_degrees(group: GroupId) -> nat {
    group as nat + 1
}

/// The chords of each library group, in the order they are dialed in.
///
/// Ordered by growing fullness, each group ending with a resolution.
pub open spec fn chord_table(group: GroupId) -> Seq<Seq<i16>> {
    match group {
        GroupId::Size1 => seq![
            seq![0i16],
            seq![1i16],
            seq![2i16],
            seq![3i16],
            seq![4i16],
            seq![5i16],
            seq![6i16],
            seq![7i16],
        ],
        GroupId::Size2 => seq![
            seq![0i16, 0],
            seq![0i16, 1],
            seq![0i16, 2],
            seq![0i16, 3],
            seq![0i16, 4],
            seq![0i16, 5],
            seq![0i16, 6],
            seq![0i16, 7],
        ],
        GroupId::Size3 => seq![
            seq![0i16, 2, 4],
            seq![0i16, 2, 5],
            seq![0i16, 2, 6],
            seq![0i16, 1, 4],
            seq![0i16, 1, 5],
            seq![0i16, 1, 6],
            seq![0i16, 3, 4],
            seq![0i16, 3, 5],
            seq![0i16, 3, 6],
            seq![0i16, 4, 8],
            seq![0i16, 4, 9],
            seq![0i16, 4, 10],
            seq![0i16, 5, 8],
            seq![0i16, 5, 9],
            seq![0i16, 5, 10],
            seq![0i16, 6, 8],
            seq![0i16, 6, 9],
            seq![0i16, 6, 10],
            seq![0i16, 4, 7],
        ],
        GroupId::Size4 => seq![
            seq![0i16, 2, 4, 7],
            seq![0i16, 2, 5, 7],
            seq![0i16, 2, 6, 7],
            seq![0i16, 3, 5, 7],
            seq![0i16, 3, 6, 7],
            seq![0i16, 3, 7, 8],
            seq![0i16, 1, 4, 7],
            seq![0i16, 1, 5, 7],
            seq![0i16, 1, 6, 7],
            seq![0i16, 2, 4, 5],
            seq![0i16, 2, 4, 6],
            seq![0i16, 2, 4, 8],
            seq![0i16, 3, 4, 5],
            seq![0i16, 3, 4, 6],
            seq![0i16, 3, 4, 8],
            seq![0i16, 1, 4, 5],
            seq![0i16, 1, 4, 6],
            seq![0i16, 4, 6, 7],
        ],
        GroupId::Size5 => seq![
            seq![0i16, 2, 4, 5, 7],
            seq![0i16, 2, 4, 6, 7],
            seq![0i16, 2, 4, 7, 8],
            seq![0i16, 3, 4, 5, 7],
            seq![0i16, 3, 4, 6, 7],
            seq![0i16, 3, 4, 7, 8],
            seq![0i16, 1, 4, 5, 7],
            seq![0i16, 1, 4, 6, 7],
            seq![0i16, 1, 4, 8, 9],
            seq![0i16, 2, 4, 6, 8],
            seq![0i16, 3, 4, 5, 8],
            seq![0i16, 3, 4, 6, 9],
            seq![0i16, 2, 4, 5, 6],
            seq![0i16, 3, 4, 5, 6],
            seq![0i16, 4, 5, 6, 8],
            seq![0i16, 1, 4, 5, 6],
            seq![0i16, 2, 3, 5, 6],
            seq![0i16, 4, 6, 8, 9],
        ],
        GroupId::Size6 => seq![
            seq![0i16, 2, 4, 5, 7, 9],
            seq![0i16, 2, 4, 6, 7, 9],
            seq![0i16, 2, 4, 7, 8, 11],
            seq![0i16, 3, 4, 5, 7, 11],
            seq![0i16, 3, 4, 6, 7, 10],
            seq![0i16, 2, 4, 6, 8, 9],
            seq![0i16, 1, 4, 5, 7, 8],
            seq![0i16, 3, 4, 5, 8, 10],
            seq![0i16, 4, 5, 6, 8, 11],
        ],
        GroupId::Size7 => seq![
            seq![0i16, 2, 4, 5, 7, 9, 11],
            seq![0i16, 1, 4, 5, 7, 8, 11],
            seq![0i16, 1, 4, 6, 7, 8, 11],
            seq![0i16, 2, 3, 5, 7, 9, 10],
            seq![0i16, 1, 3, 5, 7, 8, 10],
            seq![0i16, 2, 3, 6, 7, 9, 10],
            seq![0i16, 1, 3, 6, 7, 8, 10],
        ],
        GroupId::Size8 => seq![
            seq![0i16, 2, 4, 5, 7, 9, 11, 12],
            seq![0i16, 1, 4, 5, 7, 8, 11, 12],
            seq![0i16, 2, 4, 6, 7, 9, 11, 13],
            seq![0i16, 1, 4, 6, 7, 8, 11, 13],
            seq![0i16, 2, 3, 5, 7, 9, 10, 12],
            seq![0i16, 1, 3, 5, 7, 8, 10, 12],
            seq![0i16, 2, 3, 6, 7, 9, 10, 13],
            seq![0i16, 1, 3, 6, 7, 8, 10, 13],
            seq![0i16, 1, 2, 3, 4, 5, 6, 7],
        ],
    }
}

/// Whether the degrees never go down.
pub open spec fn ascending(degrees: Seq<i16>) -> bool {
    forall|a: int, b: int| 0 <= a <= b < degrees.len() ==> degrees[a] <= degrees[b]
}

/// What the library holds, as [`Chords::chord`] hands it out:
/// - every chord of a group has the group's number of degrees, never
///   going down, and every chord of two or more degrees starts on the
///   root, degree 0;
/// - the single notes are the degrees 0 to 7 in turn, the two-note chords
///   the root with each of the degrees 0 to 7;
/// - the three-note chords are the root with a second (1 to 3 degrees up)
///   and a fourth to sixth degree, then the root with a fifth to seventh
///   degree and the next octave's second to fourth, ending on the triad
///   0 4 7;
/// - the eight-note chords are the eight combinations of a second of 1 or
///   2, a third of 3 or 4 and a fourth of 5 or 6 degrees, each doubled an
///   octave up over the fifth degree 7, ending on the scale 0 to 7; the
///   seven-note chords are those combinations but 2 4 6, without the
///   doubled fourth;
/// - the chords of four to six notes are the ones listed.
pub proof fn lemma_chord_library()
    ensures
        forall|g: GroupId, i: int|
            0 <= i < chord_table(g).len() ==> {
                &&& (#[trigger] chord_table(g)[i]).len() == group_degrees(g)
                &&& ascending(chord_table(g)[i])
                &&& g != GroupId::Size1 ==> chord_table(g)[i][0] == 0
            },
        chord_table(GroupId::Size1).len() == 8,
        forall|i: int| 0 <= i < 8 ==> #[trigger] chord_table(GroupId::Size1)[i] == seq![i as i16],
        chord_table(GroupId::Size2).len() == 8,
        forall|i: int| 0 <= i < 8 ==> #[trigger] chord_table(GroupId::Size2)[i] == seq![0i16, i as i16],
        chord_table(GroupId::Size3).len() == 19,
        forall|i: int|
            0 <= i < 9 ==> #[trigger] chord_table(GroupId::Size3)[i] == seq![
                0i16,
                seq![2i16, 1, 3][i / 3],
                (4 + i % 3) as i16,
            ],
        forall|i: int|
            9 <= i < 18 ==> #[trigger] chord_table(GroupId::Size3)[i] == seq![
                0i16,
                (4 + (i - 9) / 3) as i16,
                (8 + (i - 9) % 3) as i16,
            ],
        chord_table(GroupId::Size3)[18] == seq![0i16, 4, 7],
        chord_table(GroupId::Size8).len() == 9,
        forall|i: int|
            0 <= i < 8 ==> {
                let c = #[trigger] chord_table(GroupId::Size8)[i];
                &&& c[1] == if i % 2 == 0 { 2i16 } else { 1 }
                &&& c[2] == if i < 4 { 4i16 } else { 3 }
                &&& c[3] == if (i / 2) % 2 == 0 { 5i16 } else { 6 }
                &&& c[4] == 7
                &&& c[5] == 7 + c[1]
                &&& c[6] == 7 + c[2]
                &&& c[7] == 7 + c[3]
            },
        chord_table(GroupId::Size8)[8] == seq![0i16, 1, 2, 3, 4, 5, 6, 7],
        chord_table(GroupId::Size7).len() == 7,
        forall|i: int|
            0 <= i < 7 ==> #[trigger] chord_table(GroupId::Size7)[i] == chord_table(GroupId::Size8)[if i < 2 {
                i
            } else {
                i + 1
            }].take(7),
        chord_table(GroupId::Size4) == seq![
                seq![0i16, 2, 4, 7],
                seq![0i16, 2, 5, 7],
                seq![0i16, 2, 6, 7],
                seq![0i16, 3, 5, 7],
                seq![0i16, 3, 6, 7],
                seq![0i16, 3, 7, 8],
                seq![0i16, 1, 4, 7],
                seq![0i16, 1, 5, 7],
                seq![0i16, 1, 6, 7],
                seq![0i16, 2, 4, 5],
                seq![0i16, 2, 4, 6],
                seq![0i16, 2, 4, 8],
                seq![0i16, 3, 4, 5],
                seq![0i16, 3, 4, 6],
                seq![0i16, 3, 4, 8],
                seq![0i16, 1, 4, 5],
                seq![0i16, 1, 4, 6],
                seq![0i16, 4, 6, 7],
            ],
        chord_table(GroupId::Size5) == seq![
                seq![0i16, 2, 4, 5, 7],
                seq![0i16, 2, 4, 6, 7],
                seq![0i16, 2, 4, 7, 8],
                seq![0i16, 3, 4, 5, 7],
                seq![0i16, 3, 4, 6, 7],
                seq![0i16, 3, 4, 7, 8],
                seq![0i16, 1, 4, 5, 7],
                seq![0i16, 1, 4, 6, 7],
                seq![0i16, 1, 4, 8, 9],
                seq![0i16, 2, 4, 6, 8],
                seq![0i16, 3, 4, 5, 8],
                seq![0i16, 3, 4, 6, 9],
                seq![0i16, 2, 4, 5, 6],
                seq![0i16, 3, 4, 5, 6],
                seq![0i16, 4, 5, 6, 8],
                seq![0i16, 1, 4, 5, 6],
                seq![0i16, 2, 3, 5, 6],
                seq![0i16, 4, 6, 8, 9],
            ],
        chord_table(GroupId::Size6) == seq![
                seq![0i16, 2, 4, 5, 7, 9],
                seq![0i16, 2, 4, 6, 7, 9],
                seq![0i16, 2, 4, 7, 8, 11],
                seq![0i16, 3, 4, 5, 7, 11],
                seq![0i16, 3, 4, 6, 7, 10],
                seq![0i16, 2, 4, 6, 8, 9],
                seq![0i16, 1, 4, 5, 7, 8],
                seq![0i16, 3, 4, 5, 8, 10],
                seq![0i16, 4, 5, 6, 8, 11],
            ],
{
    assert forall|i: int| 0 <= i < 8 implies #[trigger] chord_table(GroupId::Size1)[i] == seq![i as i16] by {
        assert(chord_table(GroupId::Size1)[i] =~= seq![i as i16]);
    }
    assert forall|i: int| 0 <= i < 8 implies #[trigger] chord_table(GroupId::Size2)[i] == seq![0i16, i as i16] by {
        assert(chord_table(GroupId::Size2)[i] =~= seq![0i16, i as i16]);
    }
    assert forall|i: int| 0 <= i < 9 implies #[trigger] chord_table(GroupId::Size3)[i] == seq![
        0i16,
        seq![2i16, 1, 3][i / 3],
        (4 + i % 3) as i16,
    ] by {
        assert(chord_table(GroupId::Size3)[i] =~= seq![0i16, seq![2i16, 1, 3][i / 3], (4 + i % 3) as i16]);
    }
    assert forall|i: int| 9 <= i < 18 implies #[trigger] chord_table(GroupId::Size3)[i] == seq![
        0i16,
        (4 + (i - 9) / 3) as i16,
        (8 + (i - 9) % 3) as i16,
    ] by {
        assert(chord_table(GroupId::Size3)[i] =~= seq![0i16, (4 + (i - 9) / 3) as i16, (8 + (i - 9) % 3) as i16]);
    }
    assert forall|i: int| 0 <= i < 7 implies #[trigger] chord_table(GroupId::Size7)[i] == chord_table(GroupId::Size8)[if i < 2 {
        i
    } else {
        i + 1
    }].take(7) by {
        let j = if i < 2 {
            i
        } else {
            i + 1
        };
        assert(chord_table(GroupId::Size7)[i] =~= chord_table(GroupId::Size8)[j].take(7));
    }
    assert forall|g: GroupId, i: int| 0 <= i < chord_table(g).len() implies {
        &&& (#[trigger] chord_table(g)[i]).len() == group_degrees(g)
        &&& ascending(chord_table(g)[i])
        &&& g != GroupId::Size1 ==> chord_table(g)[i][0] == 0
    } by {
        let c = chord_table(g)[i];
        assert forall|k: int| 0 <= k < c.len() - 1 implies #[trigger] c[k] <= c[k + 1] by {}
        lemma_steps_up(c);
    }
}

/// Degrees that never go down from one to the next never go down.
proof fn lemma_steps_up(c: Seq<i16>)
    requires
        forall|k: int| 0 <= k < c.len() - 1 ==> #[trigger] c[k] <= c[k + 1],
    ensures
        ascending(c),
    decreases c.len(),
{
    if c.len() > 1 {
        let d = c.drop_last();
        assert forall|k: int| 0 <= k < d.len() - 1 implies #[trigger] d[k] <= d[k + 1] by {
            assert(c[k] <= c[k + 1]);
        }
        lemma_steps_up(d);
        assert forall|a: int, b: int| 0 <= a <= b < c.len() implies c[a] <= c[b] by {
            if b == c.len() - 1 && a < b {
                assert(d[a] <= d[b - 1]);
                assert(c[b - 1] <= c[b]);
            } else if b < c.len() - 1 {
                assert(d[a] <= d[b]);
            }
        }
    }
}

/// The library of chords the chord parameter selects from.
pub struct Chords {
    size_1: Vec<Chord>,
    size_2: Vec<Chord>,
    size_3: Vec<Chord>,
    size_4: Vec<Chord>,
    size_5: Vec<Chord>,
    size_6: Vec<Chord>,
    size_7: Vec<Chord>,
    size_8: Vec<Chord>,
}

/// Builds a group from its chords, each given by its degrees.
fn initialize_group<const D: usize>(chords: &[[i16; D]]) -> (group: Vec<Chord>)
    requires
        D <= MAX_CHORD_SIZE,
    ensures
        group@.len() == chords@.len(),
        forall|i: int| 0 <= i < chords@.len() ==> chord_degrees(#[trigger] group@[i]) == chords@[i]@,
{
    let mut group: Vec<Chord> = Vec::new();
    let mut i: usize = 0;
    while i < chords.len()
        invariant
            D <= MAX_CHORD_SIZE,
            i <= chords@.len(),
            group@.len() == i,
            forall|k: int| 0 <= k < i ==> chord_degrees(#[trigger] group@[k]) == chords@[k]@,
        decreases chords@.len() - i,
    {
        let degrees: &[i16; D] = &chords[i];
        let chord = degrees_from_slice(degrees.as_slice()).unwrap();
        group.push(chord);
        i = i + 1;
    }
    group
}

impl Chords {
    /// The chord groups as the library holds them.
    pub closed spec fn group(&self, group: GroupId) -> Seq<Chord> {
        match group {
            GroupId::Size1 => self.size_1@,
            GroupId::Size2 => self.size_2@,
            GroupId::Size3 => self.size_3@,
            GroupId::Size4 => self.size_4@,
            GroupId::Size5 => self.size_5@,
            GroupId::Size6 => self.size_6@,
            GroupId::Size7 => self.size_7@,
            GroupId::Size8 => self.size_8@,
        }
    }

    /// Every group holds the chords of [`chord_table`], in order.
    pub closed spec fn wf(&self) -> bool {
        forall|g: GroupId|
            {
                &&& #[trigger] self.group(g).len() == chord_table(g).len()
                &&& forall|i: int|
                    0 <= i < chord_table(g).len() ==> chord_degrees(#[trigger] self.group(g)[i])
                        == chord_table(g)[i]
            }
    }

    /// Builds the chord library.
    #[verifier::rlimit(50)]
    pub fn new() -> (chords: Self)
        ensures
            chords.wf(),
    {
        let size_1 = initialize_group::<1>(&[[0], [1], [2], [3], [4], [5], [6], [7]]);
        let size_2 = initialize_group::<2>(&[[0, 0], [0, 1], [0, 2], [0, 3], [0, 4], [0, 5], [0, 6], [0, 7]]);
        let size_3 = initialize_group::<3>(&[[0, 2, 4], [0, 2, 5], [0, 2, 6], [0, 1, 4], [0, 1, 5], [0, 1, 6], [0, 3, 4], [0, 3, 5], [0, 3, 6], [0, 4, 7 + 1], [0, 4, 7 + 2], [0, 4, 7 + 3], [0, 5, 7 + 1], [0, 5, 7 + 2], [0, 5, 7 + 3], [0, 6, 7 + 1], [0, 6, 7 + 2], [0, 6, 7 + 3], [0, 4, 7]]);
        let size_4 = initialize_group::<4>(&[[0, 2, 4, 7], [0, 2, 5, 7], [0, 2, 6, 7], [0, 3, 5, 7], [0, 3, 6, 7], [0, 3, 7, 8], [0, 1, 4, 7], [0, 1, 5, 7], [0, 1, 6, 7], [0, 2, 4, 5], [0, 2, 4, 6], [0, 2, 4, 8], [0, 3, 4, 5], [0, 3, 4, 6], [0, 3, 4, 8], [0, 1, 4, 5], [0, 1, 4, 6], [0, 4, 6, 7]]);
        let size_5 = initialize_group::<5>(&[[0, 2, 4, 5, 7], [0, 2, 4, 6, 7], [0, 2, 4, 7, 8], [0, 3, 4, 5, 7], [0, 3, 4, 6, 7], [0, 3, 4, 7, 8], [0, 1, 4, 5, 7], [0, 1, 4, 6, 7], [0, 1, 4, 8, 9], [0, 2, 4, 6, 8], [0, 3, 4, 5, 8], [0, 3, 4, 6, 9], [0, 2, 4, 5, 6], [0, 3, 4, 5, 6], [0, 4, 5, 6, 8], [0, 1, 4, 5, 6], [0, 2, 3, 5, 6], [0, 4, 6, 8, 9]]);
        let size_6 = initialize_group::<6>(&[[0, 2, 4, 5, 7, 9], [0, 2, 4, 6, 7, 9], [0, 2, 4, 7, 8, 11], [0, 3, 4, 5, 7, 11], [0, 3, 4, 6, 7, 10], [0, 2, 4, 6, 8, 9], [0, 1, 4, 5, 7, 8], [0, 3, 4, 5, 8, 10], [0, 4, 5, 6, 8, 11]]);
        let size_7 = initialize_group::<7>(&[[0, 2, 4, 5, 7, 7 + 2, 7 + 4], [0, 1, 4, 5, 7, 7 + 1, 7 + 4], [0, 1, 4, 6, 7, 7 + 1, 7 + 4], [0, 2, 3, 5, 7, 7 + 2, 7 + 3], [0, 1, 3, 5, 7, 7 + 1, 7 + 3], [0, 2, 3, 6, 7, 7 + 2, 7 + 3], [0, 1, 3, 6, 7, 7 + 1, 7 + 3]]);
        let size_8 = initialize_group::<8>(&[[0, 2, 4, 5, 7, 7 + 2, 7 + 4, 7 + 5], [0, 1, 4, 5, 7, 7 + 1, 7 + 4, 7 + 5], [0, 2, 4, 6, 7, 7 + 2, 7 + 4, 7 + 6], [0, 1, 4, 6, 7, 7 + 1, 7 + 4, 7 + 6], [0, 2, 3, 5, 7, 7 + 2, 7 + 3, 7 + 5], [0, 1, 3, 5, 7, 7 + 1, 7 + 3, 7 + 5], [0, 2, 3, 6, 7, 7 + 2, 7 + 3, 7 + 6], [0, 1, 3, 6, 7, 7 + 1, 7 + 3, 7 + 6], [0, 1, 2, 3, 4, 5, 6, 7]]);
        assert(size_1@.len() == chord_table(GroupId::Size1).len());
        assert forall|i: int| 0 <= i < chord_table(GroupId::Size1).len() implies chord_degrees(#[trigger] size_1@[i]) == chord_table(GroupId::Size1)[i] by {}
        assert(size_2@.len() == chord_table(GroupId::Size2).len());
        assert forall|i: int| 0 <= i < chord_table(GroupId::Size2).len() implies chord_degrees(#[trigger] size_2@[i]) == chord_table(GroupId::Size2)[i] by {}
        assert(size_3@.len() == chord_table(GroupId::Size3).len());
        assert forall|i: int| 0 <= i < chord_table(GroupId::Size3).len() implies chord_degrees(#[trigger] size_3@[i]) == chord_table(GroupId::Size3)[i] by {}
        assert(size_4@.len() == chord_table(GroupId::Size4).len());
        assert forall|i: int| 0 <= i < chord_table(GroupId::Size4).len() implies chord_degrees(#[trigger] size_4@[i]) == chord_table(GroupId::Size4)[i] by {}
        assert(size_5@.len() == chord_table(GroupId::Size5).len());
        assert forall|i: int| 0 <= i < chord_table(GroupId::Size5).len() implies chord_degrees(#[trigger] size_5@[i]) == chord_table(GroupId::Size5)[i] by {}
        assert(size_6@.len() == chord_table(GroupId::Size6).len());
        assert forall|i: int| 0 <= i < chord_table(GroupId::Size6).len() implies chord_degrees(#[trigger] size_6@[i]) == chord_table(GroupId::Size6)[i] by {}
        assert(size_7@.len() == chord_table(GroupId::Size7).len());
        assert forall|i: int| 0 <= i < chord_table(GroupId::Size7).len() implies chord_degrees(#[trigger] size_7@[i]) == chord_table(GroupId::Size7)[i] by {}
        assert(size_8@.len() == chord_table(GroupId::Size8).len());
        assert forall|i: int| 0 <= i < chord_table(GroupId::Size8).len() implies chord_degrees(#[trigger] size_8@[i]) == chord_table(GroupId::Size8)[i] by {}
        let chords = Self { size_1, size_2, size_3, size_4, size_5, size_6, size_7, size_8 };
        assert forall|g: GroupId| #[trigger] chords.group(g).len() == chord_table(g).len() by {}
        chords
    }

    /// Number of chords in the group.
    pub fn number_of_chords(&self, group_id: GroupId) -> (r: usize)
        requires
            self.wf(),
        ensures
            r == chord_table(group_id).len(),
    {
        assert(self.group(group_id).len() == chord_table(group_id).len());
        match group_id {
            GroupId::Size1 => self.size_1.len(),
            GroupId::Size2 => self.size_2.len(),
            GroupId::Size3 => self.size_3.len(),
            GroupId::Size4 => self.size_4.len(),
            GroupId::Size5 => self.size_5.len(),
            GroupId::Size6 => self.size_6.len(),
            GroupId::Size7 => self.size_7.len(),
            GroupId::Size8 => self.size_8.len(),
        }
    }

    /// The chord at the given position of the group, or an error past the
    /// end of the group.
    pub fn chord(&self, group_id: GroupId, chord_index: usize) -> (r: Result<Chord, ()>)
        requires
            self.wf(),
        ensures
            r is Ok <==> chord_index < chord_table(group_id).len(),
            r matches Ok(c) ==> chord_degrees(c) == chord_table(group_id)[chord_index as int],
    {
        if chord_index >= self.number_of_chords(group_id) {
            return Err(());
        }
        let group = match group_id {
            GroupId::Size1 => &self.size_1,
            GroupId::Size2 => &self.size_2,
            GroupId::Size3 => &self.size_3,
            GroupId::Size4 => &self.size_4,
            GroupId::Size5 => &self.size_5,
            GroupId::Size6 => &self.size_6,
            GroupId::Size7 => &self.size_7,
            GroupId::Size8 => &self.size_8,
        };
        assert(group@ == self.group(group_id));
        assert(self.group(group_id).len() == chord_table(group_id).len());
        Ok(degrees_clone(&group[chord_index]))
    }

    /// Number of degrees in each chord of the group.
    pub fn group_size(&self, group_id: GroupId) -> (r: usize)
        ensures
            r == group_degrees(group_id),
    {
        match group_id {
            GroupId::Size1 => 1,
            GroupId::Size2 => 2,
            GroupId::Size3 => 3,
            GroupId::Size4 => 4,
            GroupId::Size5 => 5,
            GroupId::Size6 => 6,
            GroupId::Size7 => 7,
            GroupId::Size8 => 8,
        }
    }
}

} // verus!
