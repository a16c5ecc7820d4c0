use vstd::prelude::*;

verus! {

/// A CV input socket a parameter can be mapped to, or none.
#[derive(Clone, Copy, PartialEq, Eq, Debug, Structural)]
pub enum Socket {
    Unmapped,
    Tone,
    Chord,
    Resonance,
    Cutoff,
    Contour,
}

/// Number of sockets, [`Socket::Unmapped`] included.
pub const SOCKETS: usize = 6;

/// The socket at the given position.
pub open spec fn socket_from_index(index: usize) -> Result<Socket, ()> {
    match index {
        0 => Ok(Socket::Unmapped),
        1 => Ok(Socket::Tone),
        2 => Ok(Socket::Chord),
        3 => Ok(Socket::Resonance),
        4 => Ok(Socket::Cutoff),
        5 => Ok(Socket::Contour),
        _ => Err(()),
    }
}

impl Socket {
    pub fn is_some(&self) -> (r: bool)
        ensures
            r == !(*self is Unmapped),
    {
        !self.is_none()
    }

    pub fn is_none(&self) -> (r: bool)
        ensures
            r == (*self is Unmapped),
    {
        matches!(self, Socket::Unmapped)
    }
}

impl TryFrom<usize> for Socket {
    type Error = ();

    fn try_from(index: usize) -> (r: Result<Self, ()>)
        ensures
            r == socket_from_index(index),
            r is Ok <==> index < SOCKETS,
            r matches Ok(s) ==> s as usize == index,
    {
        match index {
            0 => Ok(Socket::Unmapped),
            1 => Ok(Socket::Tone),
            2 => Ok(Socket::Chord),
            3 => Ok(Socket::Resonance),
            4 => Ok(Socket::Cutoff),
            5 => Ok(Socket::Contour),
            _ => Err(()),
        }
    }
}

impl vstd::std_specs::convert::TryFromSpecImpl<usize> for Socket {
    open spec fn obeys_try_from_spec() -> bool {
        true
    }

    open spec fn try_from_spec(index: usize) -> Result<Self, ()> {
        socket_from_index(index)
    }
}

} // verus!
