use vstd::prelude::*;

use super::scale::{Scale as ProjectedScale, Step, Q, S, T};
use super::tonic::Tonic;
use crate::bounded::{scale_steps, steps_clone, steps_from_slice, MAX_SCALE_STEPS};

verus! {

/// Families of scales in the library.
#[derive(Clone, Copy, Debug, PartialEq, Eq, Structural)]
pub enum GroupId {
    Diatonic,
    Maqam,
    Melakarta,
    Chromatic,
}

/// Number of scale groups.
pub const GROUPS: usize = 4;

/// The group at the given position.
pub open spec fn group_from_index(index: usize) -> Result<GroupId, ()> {
    match index {
        0 => Ok(GroupId::Diatonic),
        1 => Ok(GroupId::Maqam),
        2 => Ok(GroupId::Melakarta),
        3 => Ok(GroupId::Chromatic),
        _ => Err(()),
    }
}

impl TryFrom<usize> for GroupId {
    type Error = ();

    fn try_from(index: usize) -> (r: Result<Self, ()>)
        ensures
            r == group_from_index(index),
            r is Ok <==> index < GROUPS,
            r matches Ok(g) ==> g as usize == index,
    {
        match index {
            0 => Ok(GroupId::Diatonic),
            1 => Ok(GroupId::Maqam),
            2 => Ok(GroupId::Melakarta),
            3 => Ok(GroupId::Chromatic),
            _ => Err(()),
        }
    }
}

impl vstd::std_specs::convert::TryFromSpecImpl<usize> for GroupId {
    open spec fn obeys_try_from_spec() -> bool {
        true
    }

    open spec fn try_from_spec(index: usize) -> Result<Self, ()> {
        group_from_index(index)
    }
}

/// Number of steps in one octave of every scale of the group.
pub open spec fn group_steps(group: GroupId) -> nat {
    match group {
        GroupId::Chromatic => 12,
        _ => 7,
    }
}

/// The ascending steps of the scales of each group, in the order they are
/// selected.
pub open spec fn scale_table(group: GroupId) -> Seq<Seq<u8>> {
    match group {
        GroupId::Diatonic => seq![
            seq![4u8, 4, 2, 4, 4, 4, 2],  // Ionian
            seq![4u8, 2, 4, 4, 4, 2, 4],  // Dorian
            seq![2u8, 4, 4, 4, 2, 4, 4],  // Phrygian
            seq![4u8, 4, 4, 2, 4, 4, 2],  // Lydian
            seq![4u8, 4, 2, 4, 4, 2, 4],  // Mixolydian
            seq![4u8, 2, 4, 4, 2, 4, 4],  // Aeolian
            seq![2u8, 4, 4, 2, 4, 4, 4],  // Locrian
        ],
        GroupId::Maqam => seq![
            seq![3u8, 3, 4, 4, 2, 4, 4],  // Bayati
            seq![2u8, 6, 2, 4, 2, 4, 4],  // Hijaz
            seq![2u8, 4, 4, 4, 2, 4, 4],  // Kurd
            seq![4u8, 2, 4, 4, 2, 6, 2],  // Nahawand
            seq![4u8, 2, 6, 2, 2, 6, 2],  // Nawa Athar
            seq![4u8, 3, 3, 4, 4, 3, 3],  // Rast
            seq![3u8, 3, 2, 6, 2, 4, 4],  // Saba
            seq![3u8, 4, 4, 3, 3, 4, 3],  // Sikah
        ],
        GroupId::Melakarta => seq![
            seq![2u8, 2, 6, 4, 2, 4, 4],  // Ratnangi
            seq![2u8, 4, 4, 4, 6, 2, 2],  // Rupavati
            seq![2u8, 6, 2, 4, 2, 6, 2],  // Mayamalavagowla
            seq![4u8, 2, 4, 4, 2, 4, 4],  // Natabhairavi
            seq![4u8, 2, 4, 4, 4, 2, 4],  // Karaharapriya
            seq![4u8, 4, 2, 4, 4, 4, 2],  // Sangarabharanam
            seq![2u8, 2, 8, 2, 2, 6, 2],  // Jalavarali
            seq![2u8, 6, 4, 2, 4, 4, 2],  // Gamanasrama
        ],
        GroupId::Chromatic => seq![
            seq![2u8, 2, 2, 2, 2, 2, 2, 2, 2, 2, 2, 2],  // Chromatic
        ],
    }
}

/// The steps of a scale summed: the interval it spans, in quarter tones.
pub open spec fn steps_total(steps: Seq<u8>) -> int
    decreases steps.len(),
{
    if steps.len() == 0 {
        0
    } else {
        steps_total(steps.drop_last()) + steps.last()
    }
}

/// The scale started from its `k`-th degree: its `k`-th mode.
pub open spec fn rotated(steps: Seq<u8>, k: int) -> Seq<u8> {
    Seq::new(steps.len(), |j: int| steps[(j + k) % (steps.len() as int)])
}

/// What the library holds, as [`Scales::scale`] hands it out:
/// - every scale spans exactly one octave (24 quarter tones), in seven
///   steps, twelve for the chromatic scale;
/// - the diatonic scales are the modes of the major scale T T S T T T S,
///   the `i`-th scale starting on its `i`-th degree;
/// - Kurd is the Phrygian mode, Hijaz the fifth mode of Nahawand, Nawa
///   Athar the fourth mode of Mayamalavagowla, Sikah the third mode of
///   Rast;
/// - every melakarta keeps the perfect fifth (its first four steps span
///   14 quarter tones); Natabhairavi, Karaharapriya and Sangarabharanam
///   are the Aeolian, Dorian and Ionian modes;
/// - the chromatic scale is twelve semitones;
/// - the remaining scales have the steps listed.
pub proof fn lemma_scale_library()
    ensures
        forall|g: GroupId, i: int|
            0 <= i < scale_table(g).len() ==> {
                &&& (#[trigger] scale_table(g)[i]).len() == group_steps(g)
                &&& steps_total(scale_table(g)[i]) == 24
            },
        scale_table(GroupId::Diatonic).len() == 7,
        forall|i: int|
            0 <= i < 7 ==> #[trigger] scale_table(GroupId::Diatonic)[i] == rotated(
                seq![4u8, 4, 2, 4, 4, 4, 2],
                i,
            ),
        scale_table(GroupId::Maqam).len() == 8,
        scale_table(GroupId::Maqam)[0] == seq![3u8, 3, 4, 4, 2, 4, 4],
        scale_table(GroupId::Maqam)[1] == rotated(scale_table(GroupId::Maqam)[3], 4),
        scale_table(GroupId::Maqam)[2] == scale_table(GroupId::Diatonic)[2],
        scale_table(GroupId::Maqam)[3] == seq![4u8, 2, 4, 4, 2, 6, 2],
        scale_table(GroupId::Maqam)[4] == rotated(scale_table(GroupId::Melakarta)[2], 3),
        scale_table(GroupId::Maqam)[5] == seq![4u8, 3, 3, 4, 4, 3, 3],
        scale_table(GroupId::Maqam)[6] == seq![3u8, 3, 2, 6, 2, 4, 4],
        scale_table(GroupId::Maqam)[7] == rotated(scale_table(GroupId::Maqam)[5], 2),
        scale_table(GroupId::Melakarta).len() == 8,
        forall|i: int|
            0 <= i < 8 ==> {
                let m = #[trigger] scale_table(GroupId::Melakarta)[i];
                m[0] + m[1] + m[2] + m[3] == 14
            },
        scale_table(GroupId::Melakarta)[0] == seq![2u8, 2, 6, 4, 2, 4, 4],
        scale_table(GroupId::Melakarta)[1] == seq![2u8, 4, 4, 4, 6, 2, 2],
        scale_table(GroupId::Melakarta)[2] == seq![2u8, 6, 2, 4, 2, 6, 2],
        scale_table(GroupId::Melakarta)[3] == scale_table(GroupId::Diatonic)[5],
        scale_table(GroupId::Melakarta)[4] == scale_table(GroupId::Diatonic)[1],
        scale_table(GroupId::Melakarta)[5] == scale_table(GroupId::Diatonic)[0],
        scale_table(GroupId::Melakarta)[6] == seq![2u8, 2, 8, 2, 2, 6, 2],
        scale_table(GroupId::Melakarta)[7] == seq![2u8, 6, 4, 2, 4, 4, 2],
        scale_table(GroupId::Chromatic).len() == 1,
        scale_table(GroupId::Chromatic)[0] == Seq::new(12, |j: int| 2u8),
{
    reveal_with_fuel(steps_total, 13);
    let ionian = seq![4u8, 4, 2, 4, 4, 4, 2];
    assert forall|i: int| 0 <= i < 7 implies #[trigger] scale_table(GroupId::Diatonic)[i] == rotated(ionian, i) by {
        assert(scale_table(GroupId::Diatonic)[i] =~= rotated(ionian, i));
    }
    assert(scale_table(GroupId::Maqam)[1] =~= rotated(scale_table(GroupId::Maqam)[3], 4));
    assert(scale_table(GroupId::Maqam)[4] =~= rotated(scale_table(GroupId::Melakarta)[2], 3));
    assert(scale_table(GroupId::Maqam)[7] =~= rotated(scale_table(GroupId::Maqam)[5], 2));
    assert(scale_table(GroupId::Chromatic)[0] =~= Seq::new(12, |j: int| 2u8));
    assert forall|g: GroupId, i: int| 0 <= i < scale_table(g).len() implies {
        &&& (#[trigger] scale_table(g)[i]).len() == group_steps(g)
        &&& steps_total(scale_table(g)[i]) == 24
    } by {
        let s = scale_table(g)[i];
        assert(s.drop_last().drop_last().drop_last().drop_last().drop_last().drop_last().drop_last().len() == s.len() - 7);
    }
}

/// A scale of the library, not yet projected onto a tonic.
#[derive(Debug)]
pub struct LibraryScale {
    ascending: heapless::Vec<Step, 12>,
}

/// A scale of the library.
pub type Scale = LibraryScale;

impl LibraryScale {
    /// The ascending steps of the scale.
    pub closed spec fn steps(&self) -> Seq<u8> {
        scale_steps(self.ascending)
    }

    fn new(ascending: &[Step]) -> (r: Result<Self, ()>)
        ensures
            r is Ok <==> ascending@.len() <= MAX_SCALE_STEPS,
            r matches Ok(s) ==> s.steps() == ascending@,
    {
        match steps_from_slice(ascending) {
            Ok(ascending) => Ok(Self { ascending }),
            Err(()) => Err(()),
        }
    }

    /// The scale projected onto the given tonic.
    pub fn with_tonic(&self, tonic: Tonic) -> (r: ProjectedScale)
        ensures
            r.steps() == self.steps(),
            r.spec_tonic() == tonic,
    {
        ProjectedScale::from_steps(tonic, steps_clone(&self.ascending))
    }
}

impl Clone for LibraryScale {
    fn clone(&self) -> (r: Self)
        ensures
            r.steps() == self.steps(),
    {
        Self { ascending: steps_clone(&self.ascending) }
    }
}

/// Builds a group from the ascending steps of its scales.
fn initialize_group<const N: usize>(scales: &[[Step; N]]) -> (group: Vec<LibraryScale>)
    requires
        N <= MAX_SCALE_STEPS,
    ensures
        group@.len() == scales@.len(),
        forall|i: int| 0 <= i < scales@.len() ==> (#[trigger] group@[i]).steps() == scales@[i]@,
{
    let mut group: Vec<LibraryScale> = Vec::new();
    let mut i: usize = 0;
    while i < scales.len()
        invariant
            N <= MAX_SCALE_STEPS,
            i <= scales@.len(),
            group@.len() == i,
            forall|k: int| 0 <= k < i ==> (#[trigger] group@[k]).steps() == scales@[k]@,
        decreases scales@.len() - i,
    {
        let steps: &[Step; N] = &scales[i];
        let scale = LibraryScale::new(steps.as_slice()).unwrap();
        group.push(scale);
        i = i + 1;
    }
    group
}

/// The library of scales the scale parameter selects from.
pub struct Scales {
    diatonic: Vec<LibraryScale>,
    maqam: Vec<LibraryScale>,
    melakarta: Vec<LibraryScale>,
    chromatic: Vec<LibraryScale>,
}

impl Scales {
    /// The scales of a group as the library holds them.
    pub closed spec fn group(&self, group: GroupId) -> Seq<LibraryScale> {
        match group {
            GroupId::Diatonic => self.diatonic@,
            GroupId::Maqam => self.maqam@,
            GroupId::Melakarta => self.melakarta@,
            GroupId::Chromatic => self.chromatic@,
        }
    }

    /// Every group holds the scales of [`scale_table`], in order.
    pub closed spec fn wf(&self) -> bool {
        forall|g: GroupId|
            {
                &&& #[trigger] self.group(g).len() == scale_table(g).len()
                &&& forall|i: int|
                    0 <= i < scale_table(g).len() ==> (#[trigger] self.group(g)[i]).steps()
                        == scale_table(g)[i]
            }
    }

    /// Builds the scale library.
    #[verifier::rlimit(50)]
    pub fn new() -> (scales: Self)
        ensures
            scales.wf(),
    {
        let q3: Step = 3 * Q;
        let s3: Step = 3 * S;
        let t2: Step = 2 * T;

        let diatonic = initialize_group::<7>(&[
            [T, T, S, T, T, T, S],
            [T, S, T, T, T, S, T],
            [S, T, T, T, S, T, T],
            [T, T, T, S, T, T, S],
            [T, T, S, T, T, S, T],
            [T, S, T, T, S, T, T],
            [S, T, T, S, T, T, T],
        ]);
        let maqam = initialize_group::<7>(&[
            [q3, q3, T, T, S, T, T],
            [S, s3, S, T, S, T, T],
            [S, T, T, T, S, T, T],
            [T, S, T, T, S, s3, S],
            [T, S, s3, S, S, s3, S],
            [T, q3, q3, T, T, q3, q3],
            [q3, q3, S, s3, S, T, T],
            [q3, T, T, q3, q3, T, q3],
        ]);
        let melakarta = initialize_group::<7>(&[
            [S, S, s3, T, S, T, T],
            [S, T, T, T, s3, S, S],
            [S, s3, S, T, S, s3, S],
            [T, S, T, T, S, T, T],
            [T, S, T, T, T, S, T],
            [T, T, S, T, T, T, S],
            [S, S, t2, S, S, s3, S],
            [S, s3, T, S, T, T, S],
        ]);
        let chromatic = initialize_group::<12>(&[
            [S, S, S, S, S, S, S, S, S, S, S, S],
        ]);
        assert forall|i: int| 0 <= i < scale_table(GroupId::Diatonic).len() implies (#[trigger] diatonic@[i]).steps() == scale_table(GroupId::Diatonic)[i] by {}
        assert forall|i: int| 0 <= i < scale_table(GroupId::Maqam).len() implies (#[trigger] maqam@[i]).steps() == scale_table(GroupId::Maqam)[i] by {}
        assert forall|i: int| 0 <= i < scale_table(GroupId::Melakarta).len() implies (#[trigger] melakarta@[i]).steps() == scale_table(GroupId::Melakarta)[i] by {}
        assert forall|i: int| 0 <= i < scale_table(GroupId::Chromatic).len() implies (#[trigger] chromatic@[i]).steps() == scale_table(GroupId::Chromatic)[i] by {}
        let scales = Self { diatonic, maqam, melakarta, chromatic };
        assert forall|g: GroupId| #[trigger] scales.group(g).len() == scale_table(g).len() by {}
        scales
    }

    /// Number of scales in the group.
    pub fn number_of_scales(&self, group_id: GroupId) -> (r: usize)
        requires
            self.wf(),
        ensures
            r == scale_table(group_id).len(),
    {
        assert(self.group(group_id).len() == scale_table(group_id).len());
        match group_id {
            GroupId::Diatonic => self.diatonic.len(),
            GroupId::Maqam => self.maqam.len(),
            GroupId::Melakarta => self.melakarta.len(),
            GroupId::Chromatic => self.chromatic.len(),
        }
    }

    /// The scale at the given position of the group, or an error past the
    /// end of the group.
    pub fn scale(&self, group_id: GroupId, scale_index: usize) -> (r: Result<LibraryScale, ()>)
        requires
            self.wf(),
        ensures
            r is Ok <==> scale_index < scale_table(group_id).len(),
            r matches Ok(s) ==> s.steps() == scale_table(group_id)[scale_index as int],
    {
        if scale_index >= self.number_of_scales(group_id) {
            return Err(());
        }
        let group = match group_id {
            GroupId::Diatonic => &self.diatonic,
            GroupId::Maqam => &self.maqam,
            GroupId::Melakarta => &self.melakarta,
            GroupId::Chromatic => &self.chromatic,
        };
        assert(group@ == self.group(group_id));
        assert(self.group(group_id).len() == scale_table(group_id).len());
        Ok(group[scale_index].clone())
    }

    /// Number of steps in one octave of each scale of the group.
    pub fn number_of_steps_in_group(&self, group_id: GroupId) -> (r: usize)
        ensures
            r == group_steps(group_id),
    {
        match group_id {
            GroupId::Chromatic => 12,
            _ => 7,
        }
    }
}

} // verus!
