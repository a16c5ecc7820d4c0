use vstd::prelude::*;

verus! {

/// A pitch on the quarter-tone grid, from C-1 up to C9.
///
/// Each semitone is split in two, so an octave spans 24 consecutive
/// variants. The variant's position on the grid is its [`QuarterTone::index`].
#[derive(Clone, Copy, Debug, PartialEq, Eq, Structural)]
pub enum QuarterTone {
    CMinus1,
    CQSharpMinus1,
    CSharpMinus1,
    C3QSharpMinus1,
    DMinus1,
    DQSharpMinus1,
    DSharpMinus1,
    D3QSharpMinus1,
    EMinus1,
    EQSharpMinus1,
    FMinus1,
    FQSharpMinus1,
    FSharpMinus1,
    F3QSharpMinus1,
    GMinus1,
    GQSharpMinus1,
    GSharpMinus1,
    G3QSharpMinus1,
    AMinus1,
    AQSharpMinus1,
    ASharpMinus1,
    A3QSharpMinus1,
    BMinus1,
    BQSharpMinus1,
    C0,
    CQSharp0,
    CSharp0,
    C3QSharp0,
    D0,
    DQSharp0,
    DSharp0,
    D3QSharp0,
    E0,
    EQSharp0,
    F0,
    FQSharp0,
    FSharp0,
    F3QSharp0,
    G0,
    GQSharp0,
    GSharp0,
    G3QSharp0,
    A0,
    AQSharp0,
    ASharp0,
    A3QSharp0,
    B0,
    BQSharp0,
    C1,
    CQSharp1,
    CSharp1,
    C3QSharp1,
    D1,
    DQSharp1,
    DSharp1,
    D3QSharp1,
    E1,
    EQSharp1,
    F1,
    FQSharp1,
    FSharp1,
    F3QSharp1,
    G1,
    GQSharp1,
    GSharp1,
    G3QSharp1,
    A1,
    AQSharp1,
    ASharp1,
    A3QSharp1,
    B1,
    BQSharp1,
    C2,
    CQSharp2,
    CSharp2,
    C3QSharp2,
    D2,
    DQSharp2,
    DSharp2,
    D3QSharp2,
    E2,
    EQSharp2,
    F2,
    FQSharp2,
    FSharp2,
    F3QSharp2,
    G2,
    GQSharp2,
    GSharp2,
    G3QSharp2,
    A2,
    AQSharp2,
    ASharp2,
    A3QSharp2,
    B2,
    BQSharp2,
    C3,
    CQSharp3,
    CSharp3,
    C3QSharp3,
    D3,
    DQSharp3,
    DSharp3,
    D3QSharp3,
    E3,
    EQSharp3,
    F3,
    FQSharp3,
    FSharp3,
    F3QSharp3,
    G3,
    GQSharp3,
    GSharp3,
    G3QSharp3,
    A3,
    AQSharp3,
    ASharp3,
    A3QSharp3,
    B3,
    BQSharp3,
    C4,
    CQSharp4,
    CSharp4,
    C3QSharp4,
    D4,
    DQSharp4,
    DSharp4,
    D3QSharp4,
    E4,
    EQSharp4,
    F4,
    FQSharp4,
    FSharp4,
    F3QSharp4,
    G4,
    GQSharp4,
    GSharp4,
    G3QSharp4,
    A4,
    AQSharp4,
    ASharp4,
    A3QSharp4,
    B4,
    BQSharp4,
    C5,
    CQSharp5,
    CSharp5,
    C3QSharp5,
    D5,
    DQSharp5,
    DSharp5,
    D3QSharp5,
    E5,
    EQSharp5,
    F5,
    FQSharp5,
    FSharp5,
    F3QSharp5,
    G5,
    GQSharp5,
    GSharp5,
    G3QSharp5,
    A5,
    AQSharp5,
    ASharp5,
    A3QSharp5,
    B5,
    BQSharp5,
    C6,
    CQSharp6,
    CSharp6,
    C3QSharp6,
    D6,
    DQSharp6,
    DSharp6,
    D3QSharp6,
    E6,
    EQSharp6,
    F6,
    FQSharp6,
    FSharp6,
    F3QSharp6,
    G6,
    GQSharp6,
    GSharp6,
    G3QSharp6,
    A6,
    AQSharp6,
    ASharp6,
    A3QSharp6,
    B6,
    BQSharp6,
    C7,
    CQSharp7,
    CSharp7,
    C3QSharp7,
    D7,
    DQSharp7,
    DSharp7,
    D3QSharp7,
    E7,
    EQSharp7,
    F7,
    FQSharp7,
    FSharp7,
    F3QSharp7,
    G7,
    GQSharp7,
    GSharp7,
    G3QSharp7,
    A7,
    AQSharp7,
    ASharp7,
    A3QSharp7,
    B7,
    BQSharp7,
    C8,
    CQSharp8,
    CSharp8,
    C3QSharp8,
    D8,
    DQSharp8,
    DSharp8,
    D3QSharp8,
    E8,
    EQSharp8,
    F8,
    FQSharp8,
    FSharp8,
    F3QSharp8,
    G8,
    GQSharp8,
    GSharp8,
    G3QSharp8,
    A8,
    AQSharp8,
    ASharp8,
    A3QSharp8,
    B8,
    BQSharp8,
    C9,
}

/// Index of the highest tone that can be reached through [`QuarterTone::try_from_u8`].
pub const HIGHEST_NOTE_INDEX: u8 = 239;

impl QuarterTone {
    /// The highest tone notes are allowed to reach.
    pub const HIGHEST_NOTE: QuarterTone = QuarterTone::BQSharp8;

    /// Position of the tone on the quarter-tone grid.
    pub fn index(self) -> (r: u8)
        ensures
            r == self as u8,
    {
        self as u8
    }

    /// The tone at the given position, if it is not above [`QuarterTone::HIGHEST_NOTE`].
    pub fn try_from_u8(index: u8) -> (r: Option<QuarterTone>)
        ensures
            r is Some <==> index <= HIGHEST_NOTE_INDEX,
            r matches Some(t) ==> t as u8 == index,
    {
        match index {
            0 => Some(QuarterTone::CMinus1),
            1 => Some(QuarterTone::CQSharpMinus1),
            2 => Some(QuarterTone::CSharpMinus1),
            3 => Some(QuarterTone::C3QSharpMinus1),
            4 => Some(QuarterTone::DMinus1),
            5 => Some(QuarterTone::DQSharpMinus1),
            6 => Some(QuarterTone::DSharpMinus1),
            7 => Some(QuarterTone::D3QSharpMinus1),
            8 => Some(QuarterTone::EMinus1),
            9 => Some(QuarterTone::EQSharpMinus1),
            10 => Some(QuarterTone::FMinus1),
            11 => Some(QuarterTone::FQSharpMinus1),
            12 => Some(QuarterTone::FSharpMinus1),
            13 => Some(QuarterTone::F3QSharpMinus1),
            14 => Some(QuarterTone::GMinus1),
            15 => Some(QuarterTone::GQSharpMinus1),
            16 => Some(QuarterTone::GSharpMinus1),
            17 => Some(QuarterTone::G3QSharpMinus1),
            18 => Some(QuarterTone::AMinus1),
            19 => Some(QuarterTone::AQSharpMinus1),
            20 => Some(QuarterTone::ASharpMinus1),
            21 => Some(QuarterTone::A3QSharpMinus1),
            22 => Some(QuarterTone::BMinus1),
            23 => Some(QuarterTone::BQSharpMinus1),
            24 => Some(QuarterTone::C0),
            25 => Some(QuarterTone::CQSharp0),
            26 => Some(QuarterTone::CSharp0),
            27 => Some(QuarterTone::C3QSharp0),
            28 => Some(QuarterTone::D0),
            29 => Some(QuarterTone::DQSharp0),
            30 => Some(QuarterTone::DSharp0),
            31 => Some(QuarterTone::D3QSharp0),
            32 => Some(QuarterTone::E0),
            33 => Some(QuarterTone::EQSharp0),
            34 => Some(QuarterTone::F0),
            35 => Some(QuarterTone::FQSharp0),
            36 => Some(QuarterTone::FSharp0),
            37 => Some(QuarterTone::F3QSharp0),
            38 => Some(QuarterTone::G0),
            39 => Some(QuarterTone::GQSharp0),
            40 => Some(QuarterTone::GSharp0),
            41 => Some(QuarterTone::G3QSharp0),
            42 => Some(QuarterTone::A0),
            43 => Some(QuarterTone::AQSharp0),
            44 => Some(QuarterTone::ASharp0),
            45 => Some(QuarterTone::A3QSharp0),
            46 => Some(QuarterTone::B0),
            47 => Some(QuarterTone::BQSharp0),
            48 => Some(QuarterTone::C1),
            49 => Some(QuarterTone::CQSharp1),
            50 => Some(QuarterTone::CSharp1),
            51 => Some(QuarterTone::C3QSharp1),
            52 => Some(QuarterTone::D1),
            53 => Some(QuarterTone::DQSharp1),
            54 => Some(QuarterTone::DSharp1),
            55 => Some(QuarterTone::D3QSharp1),
            56 => Some(QuarterTone::E1),
            57 => Some(QuarterTone::EQSharp1),
            58 => Some(QuarterTone::F1),
            59 => Some(QuarterTone::FQSharp1),
            60 => Some(QuarterTone::FSharp1),
            61 => Some(QuarterTone::F3QSharp1),
            62 => Some(QuarterTone::G1),
            63 => Some(QuarterTone::GQSharp1),
            64 => Some(QuarterTone::GSharp1),
            65 => Some(QuarterTone::G3QSharp1),
            66 => Some(QuarterTone::A1),
            67 => Some(QuarterTone::AQSharp1),
            68 => Some(QuarterTone::ASharp1),
            69 => Some(QuarterTone::A3QSharp1),
            70 => Some(QuarterTone::B1),
            71 => Some(QuarterTone::BQSharp1),
            72 => Some(QuarterTone::C2),
            73 => Some(QuarterTone::CQSharp2),
            74 => Some(QuarterTone::CSharp2),
            75 => Some(QuarterTone::C3QSharp2),
            76 => Some(QuarterTone::D2),
            77 => Some(QuarterTone::DQSharp2),
            78 => Some(QuarterTone::DSharp2),
            79 => Some(QuarterTone::D3QSharp2),
            80 => Some(QuarterTone::E2),
            81 => Some(QuarterTone::EQSharp2),
            82 => Some(QuarterTone::F2),
            83 => Some(QuarterTone::FQSharp2),
            84 => Some(QuarterTone::FSharp2),
            85 => Some(QuarterTone::F3QSharp2),
            86 => Some(QuarterTone::G2),
            87 => Some(QuarterTone::GQSharp2),
            88 => Some(QuarterTone::GSharp2),
            89 => Some(QuarterTone::G3QSharp2),
            90 => Some(QuarterTone::A2),
            91 => Some(QuarterTone::AQSharp2),
            92 => Some(QuarterTone::ASharp2),
            93 => Some(QuarterTone::A3QSharp2),
            94 => Some(QuarterTone::B2),
            95 => Some(QuarterTone::BQSharp2),
            96 => Some(QuarterTone::C3),
            97 => Some(QuarterTone::CQSharp3),
            98 => Some(QuarterTone::CSharp3),
            99 => Some(QuarterTone::C3QSharp3),
            100 => Some(QuarterTone::D3),
            101 => Some(QuarterTone::DQSharp3),
            102 => Some(QuarterTone::DSharp3),
            103 => Some(QuarterTone::D3QSharp3),
            104 => Some(QuarterTone::E3),
            105 => Some(QuarterTone::EQSharp3),
            106 => Some(QuarterTone::F3),
            107 => Some(QuarterTone::FQSharp3),
            108 => Some(QuarterTone::FSharp3),
            109 => Some(QuarterTone::F3QSharp3),
            110 => Some(QuarterTone::G3),
            111 => Some(QuarterTone::GQSharp3),
            112 => Some(QuarterTone::GSharp3),
            113 => Some(QuarterTone::G3QSharp3),
            114 => Some(QuarterTone::A3),
            115 => Some(QuarterTone::AQSharp3),
            116 => Some(QuarterTone::ASharp3),
            117 => Some(QuarterTone::A3QSharp3),
            118 => Some(QuarterTone::B3),
            119 => Some(QuarterTone::BQSharp3),
            120 => Some(QuarterTone::C4),
            121 => Some(QuarterTone::CQSharp4),
            122 => Some(QuarterTone::CSharp4),
            123 => Some(QuarterTone::C3QSharp4),
            124 => Some(QuarterTone::D4),
            125 => Some(QuarterTone::DQSharp4),
            126 => Some(QuarterTone::DSharp4),
            127 => Some(QuarterTone::D3QSharp4),
            128 => Some(QuarterTone::E4),
            129 => Some(QuarterTone::EQSharp4),
            130 => Some(QuarterTone::F4),
            131 => Some(QuarterTone::FQSharp4),
            132 => Some(QuarterTone::FSharp4),
            133 => Some(QuarterTone::F3QSharp4),
            134 => Some(QuarterTone::G4),
            135 => Some(QuarterTone::GQSharp4),
            136 => Some(QuarterTone::GSharp4),
            137 => Some(QuarterTone::G3QSharp4),
            138 => Some(QuarterTone::A4),
            139 => Some(QuarterTone::AQSharp4),
            140 => Some(QuarterTone::ASharp4),
            141 => Some(QuarterTone::A3QSharp4),
            142 => Some(QuarterTone::B4),
            143 => Some(QuarterTone::BQSharp4),
            144 => Some(QuarterTone::C5),
            145 => Some(QuarterTone::CQSharp5),
            146 => Some(QuarterTone::CSharp5),
            147 => Some(QuarterTone::C3QSharp5),
            148 => Some(QuarterTone::D5),
            149 => Some(QuarterTone::DQSharp5),
            150 => Some(QuarterTone::DSharp5),
            151 => Some(QuarterTone::D3QSharp5),
            152 => Some(QuarterTone::E5),
            153 => Some(QuarterTone::EQSharp5),
            154 => Some(QuarterTone::F5),
            155 => Some(QuarterTone::FQSharp5),
            156 => Some(QuarterTone::FSharp5),
            157 => Some(QuarterTone::F3QSharp5),
            158 => Some(QuarterTone::G5),
            159 => Some(QuarterTone::GQSharp5),
            160 => Some(QuarterTone::GSharp5),
            161 => Some(QuarterTone::G3QSharp5),
            162 => Some(QuarterTone::A5),
            163 => Some(QuarterTone::AQSharp5),
            164 => Some(QuarterTone::ASharp5),
            165 => Some(QuarterTone::A3QSharp5),
            166 => Some(QuarterTone::B5),
            167 => Some(QuarterTone::BQSharp5),
            168 => Some(QuarterTone::C6),
            169 => Some(QuarterTone::CQSharp6),
            170 => Some(QuarterTone::CSharp6),
            171 => Some(QuarterTone::C3QSharp6),
            172 => Some(QuarterTone::D6),
            173 => Some(QuarterTone::DQSharp6),
            174 => Some(QuarterTone::DSharp6),
            175 => Some(QuarterTone::D3QSharp6),
            176 => Some(QuarterTone::E6),
            177 => Some(QuarterTone::EQSharp6),
            178 => Some(QuarterTone::F6),
            179 => Some(QuarterTone::FQSharp6),
            180 => Some(QuarterTone::FSharp6),
            181 => Some(QuarterTone::F3QSharp6),
            182 => Some(QuarterTone::G6),
            183 => Some(QuarterTone::GQSharp6),
            184 => Some(QuarterTone::GSharp6),
            185 => Some(QuarterTone::G3QSharp6),
            186 => Some(QuarterTone::A6),
            187 => Some(QuarterTone::AQSharp6),
            188 => Some(QuarterTone::ASharp6),
            189 => Some(QuarterTone::A3QSharp6),
            190 => Some(QuarterTone::B6),
            191 => Some(QuarterTone::BQSharp6),
            192 => Some(QuarterTone::C7),
            193 => Some(QuarterTone::CQSharp7),
            194 => Some(QuarterTone::CSharp7),
            195 => Some(QuarterTone::C3QSharp7),
            196 => Some(QuarterTone::D7),
            197 => Some(QuarterTone::DQSharp7),
            198 => Some(QuarterTone::DSharp7),
            199 => Some(QuarterTone::D3QSharp7),
            200 => Some(QuarterTone::E7),
            201 => Some(QuarterTone::EQSharp7),
            202 => Some(QuarterTone::F7),
            203 => Some(QuarterTone::FQSharp7),
            204 => Some(QuarterTone::FSharp7),
            205 => Some(QuarterTone::F3QSharp7),
            206 => Some(QuarterTone::G7),
            207 => Some(QuarterTone::GQSharp7),
            208 => Some(QuarterTone::GSharp7),
            209 => Some(QuarterTone::G3QSharp7),
            210 => Some(QuarterTone::A7),
            211 => Some(QuarterTone::AQSharp7),
            212 => Some(QuarterTone::ASharp7),
            213 => Some(QuarterTone::A3QSharp7),
            214 => Some(QuarterTone::B7),
            215 => Some(QuarterTone::BQSharp7),
            216 => Some(QuarterTone::C8),
            217 => Some(QuarterTone::CQSharp8),
            218 => Some(QuarterTone::CSharp8),
            219 => Some(QuarterTone::C3QSharp8),
            220 => Some(QuarterTone::D8),
            221 => Some(QuarterTone::DQSharp8),
            222 => Some(QuarterTone::DSharp8),
            223 => Some(QuarterTone::D3QSharp8),
            224 => Some(QuarterTone::E8),
            225 => Some(QuarterTone::EQSharp8),
            226 => Some(QuarterTone::F8),
            227 => Some(QuarterTone::FQSharp8),
            228 => Some(QuarterTone::FSharp8),
            229 => Some(QuarterTone::F3QSharp8),
            230 => Some(QuarterTone::G8),
            231 => Some(QuarterTone::GQSharp8),
            232 => Some(QuarterTone::GSharp8),
            233 => Some(QuarterTone::G3QSharp8),
            234 => Some(QuarterTone::A8),
            235 => Some(QuarterTone::AQSharp8),
            236 => Some(QuarterTone::ASharp8),
            237 => Some(QuarterTone::A3QSharp8),
            238 => Some(QuarterTone::B8),
            239 => Some(QuarterTone::BQSharp8),
            _ => None,
        }
    }
}

} // verus!
