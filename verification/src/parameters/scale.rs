//! The scale parameter: the group and the scale within it, chosen by taps
//! of their buttons or by CVs, and the scale they give projected onto the
//! tonic. The CVs, the tonic and the note are read by continuous controls
//! that settle on positions; this keeps what those positions select.
use vstd::prelude::*;

use super::configs::ScalePersistentConfig;
use super::selection::{fitted, scale_at};
use super::toggle::Toggle;
use crate::controller::ScaleChanges;
use crate::scales::library::{group_from_index, scale_table, GROUPS};
use crate::scales::{GroupId, ProjectedScale, Scales, Tonic};

verus! {

/// Number of octaves the note pot spans.
pub const OCTAVES: usize = 6;

/// What steered the note in one reconciliation.
#[derive(Clone, Copy, PartialEq, Eq, Debug, Structural)]
pub enum NoteReading {
    /// The tone CV is plugged; the pot picks the octave, which may have
    /// changed.
    Cv { octave_changed: bool },
    /// No tone CV; the pot picks the note, which may have changed.
    Pot { note_changed: bool },
}

/// The group and scale selection, with the scale it gives.
pub struct Scale {
    button_group: Toggle,
    cv_group: usize,
    cv_controls_group: bool,
    button_scale: Toggle,
    cv_scale: usize,
    cv_controls_scale: bool,
    cv_note_control: bool,
    scale_cache: ProjectedScale,
}

/// The group at a position, the first group past the last.
pub open spec fn group_at(position: usize) -> GroupId {
    match group_from_index(position) {
        Ok(g) => g,
        Err(_) => GroupId::Diatonic,
    }
}

impl Scale {
    /// Position of the group the buttons select.
    pub closed spec fn button_group_position(&self) -> nat {
        self.button_group.spec_selected()
    }

    /// Stored position of the group button's toggle.
    pub closed spec fn button_group_stored(&self) -> nat {
        self.button_group.stored()
    }

    /// Stored position of the scale button's toggle.
    pub closed spec fn button_scale_stored(&self) -> nat {
        self.button_scale.stored()
    }

    /// Position of the group the CV last settled on.
    pub closed spec fn cv_group_position(&self) -> nat {
        self.cv_group as nat
    }

    /// Position of the scale the CV last settled on.
    pub closed spec fn cv_scale_position(&self) -> nat {
        self.cv_scale as nat
    }

    pub closed spec fn spec_cv_controls_group(&self) -> bool {
        self.cv_controls_group
    }

    pub closed spec fn spec_cv_controls_scale(&self) -> bool {
        self.cv_controls_scale
    }

    pub closed spec fn spec_cv_note_control(&self) -> bool {
        self.cv_note_control
    }

    /// Number of scales the scale button cycles through.
    pub closed spec fn spec_scale_options(&self) -> nat {
        self.button_scale.spec_values()
    }

    /// The selected group.
    pub closed spec fn group_id(&self) -> GroupId {
        if self.cv_controls_group {
            group_at(self.cv_group)
        } else {
            group_at(self.button_group.spec_selected() as usize)
        }
    }

    /// Position of the selected scale within its group.
    pub closed spec fn scale_index(&self) -> nat {
        if self.cv_controls_scale {
            self.cv_scale as nat
        } else {
            self.button_scale.spec_selected()
        }
    }

    /// The selected scale, projected onto the tonic.
    pub closed spec fn cache(&self) -> ProjectedScale {
        self.scale_cache
    }

    /// The group button cycles through the groups, a CV on the group
    /// points at one of them, and the scale button has at least one option.
    pub closed spec fn wf(&self) -> bool {
        &&& self.button_group.spec_values() == GROUPS
        &&& self.cv_controls_group ==> self.cv_group < GROUPS
        &&& self.button_scale.spec_values() > 0
    }

    /// The selection recovered from a save, with the scale projected onto
    /// the tonic; the scale options are those of the recovered group.
    pub fn new(config: ScalePersistentConfig, library: &Scales, tonic: Tonic) -> (r: Self)
        requires
            library.wf(),
        ensures
            r.wf(),
            !r.spec_cv_controls_group(),
            !r.spec_cv_controls_scale(),
            !r.spec_cv_note_control(),
            r.button_group_stored() == config.button_group.selected_value,
            r.button_scale_stored() == config.button_scale.selected_value,
            r.cv_group_position() == config.cv_group.selected_value,
            r.cv_scale_position() == config.cv_scale.selected_value,
            r.spec_scale_options() == scale_table(r.group_id()).len(),
            r.cache().steps() == scale_table(r.group_id())[fitted(
                r.scale_index() as int,
                scale_table(r.group_id()).len(),
            )],
            r.cache().spec_tonic() == tonic,
    {
        let button_group = Toggle::new(config.button_group, GROUPS);
        let group = GroupId::try_from(button_group.selected_value()).unwrap();
        let scales_in_group = library.number_of_scales(group);
        proof {
            lemma_groups_have_scales(group);
        }
        let button_scale = Toggle::new(config.button_scale, scales_in_group);
        let scale_cache = scale_at(library, group, button_scale.selected_value(), tonic);
        Scale {
            button_group,
            cv_group: config.cv_group.selected_value,
            cv_controls_group: false,
            button_scale,
            cv_scale: config.cv_scale.selected_value,
            cv_controls_scale: false,
            cv_note_control: false,
            scale_cache,
        }
    }

    /// The selected group.
    pub fn selected_group_id(&self) -> (r: GroupId)
        requires
            self.wf(),
        ensures
            r == self.group_id(),
    {
        if self.cv_controls_group {
            GroupId::try_from(self.cv_group).unwrap()
        } else {
            GroupId::try_from(self.button_group.selected_value()).unwrap()
        }
    }

    /// Position of the selected scale within its group.
    pub fn selected_scale_index(&self) -> (r: usize)
        requires
            self.wf(),
        ensures
            r == self.scale_index(),
    {
        if self.cv_controls_scale {
            self.cv_scale
        } else {
            self.button_scale.selected_value()
        }
    }

    /// The selected scale, projected onto the tonic.
    pub fn selected_scale(&self) -> (r: ProjectedScale)
        ensures
            r.steps() == self.cache().steps(),
            r.spec_tonic() == self.cache().spec_tonic(),
    {
        self.scale_cache.clone()
    }

    /// Number of notes in an octave of the selected scale.
    pub fn selected_scale_size(&self) -> (r: usize)
        ensures
            r == self.cache().steps().len(),
    {
        self.scale_cache.steps_in_octave() as usize
    }

    /// Number of scales the scale options span, for the scale CV's control.
    pub fn scale_options(&self) -> (r: usize)
        ensures
            r == self.spec_scale_options(),
    {
        self.button_scale.output_values()
    }

    /// Whether the tone CV steers the note.
    pub fn cv_note_control(&self) -> (r: bool)
        ensures
            r == self.spec_cv_note_control(),
    {
        self.cv_note_control
    }

    /// Takes what the buttons and the continuous controls settled on.
    ///
    /// A plugged CV steers the group or the scale from the position its
    /// control settled on, the button's tap otherwise. When the group
    /// changes, or its CV is plugged or unplugged, the scale options are
    /// resized to the scales of the selected group. When the group, the
    /// scale or the tonic changed, or a CV was plugged or unplugged, the
    /// scale is projected anew. With the tone CV plugged the note is not
    /// reported changed; without it, the octave is not.
    pub fn reconcile_scale_selection(
        &mut self,
        library: &Scales,
        group_tap: bool,
        scale_tap: bool,
        group_cv: Option<(bool, usize)>,
        scale_cv: Option<(bool, usize)>,
        tonic_changed: bool,
        tonic: Tonic,
        note: NoteReading,
    ) -> (r: ScaleChanges)
        requires
            old(self).wf(),
            library.wf(),
            group_cv matches Some((_, position)) ==> position < GROUPS,
            group_cv is None && group_tap ==> old(self).button_group_stored() < usize::MAX,
            scale_cv is None && scale_tap ==> old(self).button_scale_stored() < usize::MAX,
        ensures
            final(self).wf(),
            r.group == match group_cv {
                Some((changed, _)) => changed,
                None => group_tap,
            },
            r.scale == match scale_cv {
                Some((changed, _)) => changed,
                None => scale_tap,
            },
            r.tonic == tonic_changed,
            final(self).spec_cv_controls_group() == group_cv is Some,
            final(self).spec_cv_controls_scale() == scale_cv is Some,
            final(self).cv_group_position() == match group_cv {
                Some((_, position)) => position as nat,
                None => old(self).cv_group_position(),
            },
            final(self).cv_scale_position() == match scale_cv {
                Some((_, position)) => position as nat,
                None => old(self).cv_scale_position(),
            },
            final(self).button_group_stored() == if group_cv is None && group_tap {
                (old(self).button_group_stored() + 1) % GROUPS as nat
            } else {
                old(self).button_group_stored()
            },
            ({
                let resized = r.group || old(self).spec_cv_controls_group() != group_cv is Some;
                let options = if resized {
                    scale_table(final(self).group_id()).len()
                } else {
                    old(self).spec_scale_options()
                };
                &&& final(self).spec_scale_options() == options
                &&& final(self).button_scale_stored() == if scale_cv is None && scale_tap {
                    (old(self).button_scale_stored() + 1) % options
                } else {
                    old(self).button_scale_stored()
                }
            }),
            ({
                let switched = old(self).spec_cv_controls_group() != group_cv is Some
                    || old(self).spec_cv_controls_scale() != scale_cv is Some;
                if r.group || r.scale || tonic_changed || switched {
                    &&& final(self).cache().steps() == scale_table(final(self).group_id())[fitted(
                        final(self).scale_index() as int,
                        scale_table(final(self).group_id()).len(),
                    )]
                    &&& final(self).cache().spec_tonic() == tonic
                } else {
                    final(self).cache() == old(self).cache()
                }
            }),
            match note {
                NoteReading::Cv { octave_changed } => {
                    &&& !r.note
                    &&& r.octave == octave_changed
                    &&& final(self).spec_cv_note_control()
                },
                NoteReading::Pot { note_changed } => {
                    &&& r.note == note_changed
                    &&& !r.octave
                    &&& !final(self).spec_cv_note_control()
                },
            },
    {
        let old_cv_controls_group = self.cv_controls_group;
        let old_cv_controls_scale = self.cv_controls_scale;

        let switched_group_cv = old_cv_controls_group != group_cv.is_some();
        let switched_cv = switched_group_cv || old_cv_controls_scale != scale_cv.is_some();

        let changed_group = match group_cv {
            Some((changed, position)) => {
                self.cv_group = position;
                changed
            },
            None => self.button_group.reconcile(group_tap),
        };
        self.cv_controls_group = group_cv.is_some();

        if changed_group || switched_group_cv {
            let group = self.selected_group_id();
            let scales_in_group = library.number_of_scales(group);
            proof {
                lemma_groups_have_scales(group);
            }
            self.button_scale.set_output_values(scales_in_group);
        }

        let changed_scale = match scale_cv {
            Some((changed, position)) => {
                self.cv_scale = position;
                changed
            },
            None => self.button_scale.reconcile(scale_tap),
        };
        self.cv_controls_scale = scale_cv.is_some();

        if changed_group || changed_scale || tonic_changed || switched_cv {
            let group = self.selected_group_id();
            let index = self.selected_scale_index();
            self.scale_cache = scale_at(library, group, index, tonic);
        }

        let (changed_note, changed_octave) = match note {
            NoteReading::Cv { octave_changed } => {
                self.cv_note_control = true;
                (false, octave_changed)
            },
            NoteReading::Pot { note_changed } => {
                self.cv_note_control = false;
                (note_changed, false)
            },
        };

        ScaleChanges {
            note: changed_note,
            octave: changed_octave,
            group: changed_group,
            scale: changed_scale,
            tonic: tonic_changed,
        }
    }
}

/// Every group of the library holds at least one scale.
proof fn lemma_groups_have_scales(group: GroupId)
    ensures
        scale_table(group).len() > 0,
{
}

} // verus!
