use vstd::prelude::*;

verus! {

/// The pitch class a scale is built on.
#[derive(Clone, Copy, Debug, PartialEq, Eq, Structural)]
pub enum Tonic {
    C,
    CSharp,
    D,
    DSharp,
    E,
    F,
    FSharp,
    G,
    GSharp,
    A,
    ASharp,
    B,
}

/// Index of the last tonic, [`Tonic::B`].
pub const LAST_TONIC_INDEX: usize = 11;

impl Tonic {
    /// Position of the tonic within the chromatic octave, starting at C.
    pub fn index(self) -> (r: u8)
        ensures
            r == self as u8,
            r <= LAST_TONIC_INDEX,
    {
        self as u8
    }
}

/// The tonic at the given chromatic position.
pub open spec fn tonic_from_index(index: usize) -> Result<Tonic, ()> {
    match index {
        0 => Ok(Tonic::C),
        1 => Ok(Tonic::CSharp),
        2 => Ok(Tonic::D),
        3 => Ok(Tonic::DSharp),
        4 => Ok(Tonic::E),
        5 => Ok(Tonic::F),
        6 => Ok(Tonic::FSharp),
        7 => Ok(Tonic::G),
        8 => Ok(Tonic::GSharp),
        9 => Ok(Tonic::A),
        10 => Ok(Tonic::ASharp),
        11 => Ok(Tonic::B),
        _ => Err(()),
    }
}

impl TryFrom<usize> for Tonic {
    type Error = ();

    fn try_from(index: usize) -> (r: Result<Self, ()>)
        ensures
            r == tonic_from_index(index),
            r is Ok <==> index <= LAST_TONIC_INDEX,
            r matches Ok(t) ==> t as usize == index,
    {
        match index {
            0 => Ok(Tonic::C),
            1 => Ok(Tonic::CSharp),
            2 => Ok(Tonic::D),
            3 => Ok(Tonic::DSharp),
            4 => Ok(Tonic::E),
            5 => Ok(Tonic::F),
            6 => Ok(Tonic::FSharp),
            7 => Ok(Tonic::G),
            8 => Ok(Tonic::GSharp),
            9 => Ok(Tonic::A),
            10 => Ok(Tonic::ASharp),
            11 => Ok(Tonic::B),
            _ => Err(()),
        }
    }
}

impl vstd::std_specs::convert::TryFromSpecImpl<usize> for Tonic {
    open spec fn obeys_try_from_spec() -> bool {
        true
    }

    open spec fn try_from_spec(index: usize) -> Result<Self, ()> {
        tonic_from_index(index)
    }
}

} // verus!
