use vstd::prelude::*;

use crate::soil::SoilType;

verus! {

/// How many coefficient units make one: every coefficient is held as an
/// exact whole number of 10⁻¹⁰.
pub const UNITS_PER_ONE: i64 = 10_000_000_000;

/// The quadratic `vwc = a·x² + b·x + c` that turns a raw probe count `x` into
/// a volumetric water content. Each coefficient is a whole number of
/// `1 / UNITS_PER_ONE`, so `a == -30` stands for `-3.0e-9`.
#[derive(Debug, Clone, Copy, PartialEq, Eq, Structural)]
pub struct QuadraticCoeffs {
    pub a: i64,
    pub b: i64,
    pub c: i64,
}

/// The published calibration `(a, b, c)` of each soil type, in units of 10⁻¹⁰.
///
/// Sources: Wild et al. (2019), doi 10.1016/j.agrformet.2018.12.018, for the
/// first nine types; Kopecký et al. (2021), doi 10.1016/j.scitotenv.2020.143785,
/// for the universal curve; Vlček (2010), "Kalibrace vlhkostního čidla TST1",
/// for the three TMS1 types.
pub open spec fn calibration(t: SoilType) -> (int, int, int) {
    match t {
        SoilType::Sand => (-30, 1_611_920, -1_099_565_000),
        SoilType::LoamySandA => (-190, 2_656_100, -1_540_893_000),
        SoilType::LoamySandB => (-230, 2_824_730, -1_672_112_000),
        SoilType::SandyLoamA => (-380, 3_394_490, -2_149_218_000),
        SoilType::SandyLoamB => (-9, 2_618_470, -1_586_183_000),
        SoilType::Loam => (-510, 3_979_840, -2_910_464_000),
        SoilType::SiltLoam => (170, 1_181_190, -1_011_685_000),
        SoilType::Peat => (1_230, -1_446_440, 2_029_279_000),
        SoilType::Water => (0, 3_067_000, -1_349_279_000),
        SoilType::Universal => (-134, 2_496_220, -1_578_888_000),
        SoilType::SandTMS1 => (0, 2_600_000, -1_330_400_000),
        SoilType::LoamySandTMS1 => (0, 3_300_000, -1_938_900_000),
        SoilType::SiltLoamTMS1 => (0, 3_800_000, -2_942_700_000),
    }
}

impl SoilType {
    /// The coefficients of this soil type's calibration curve.
    pub fn coeffs(self) -> (r: QuadraticCoeffs)
        ensures
            (r.a as int, r.b as int, r.c as int) == calibration(self),
    {
        match self {
            SoilType::Sand => QuadraticCoeffs { a: -30, b: 1_611_920, c: -1_099_565_000 },
            SoilType::LoamySandA => QuadraticCoeffs { a: -190, b: 2_656_100, c: -1_540_893_000 },
            SoilType::LoamySandB => QuadraticCoeffs { a: -230, b: 2_824_730, c: -1_672_112_000 },
            SoilType::SandyLoamA => QuadraticCoeffs { a: -380, b: 3_394_490, c: -2_149_218_000 },
            SoilType::SandyLoamB => QuadraticCoeffs { a: -9, b: 2_618_470, c: -1_586_183_000 },
            SoilType::Loam => QuadraticCoeffs { a: -510, b: 3_979_840, c: -2_910_464_000 },
            SoilType::SiltLoam => QuadraticCoeffs { a: 170, b: 1_181_190, c: -1_011_685_000 },
            SoilType::Peat => QuadraticCoeffs { a: 1_230, b: -1_446_440, c: 2_029_279_000 },
            SoilType::Water => QuadraticCoeffs { a: 0, b: 3_067_000, c: -1_349_279_000 },
            SoilType::Universal => QuadraticCoeffs { a: -134, b: 2_496_220, c: -1_578_888_000 },
            SoilType::SandTMS1 => QuadraticCoeffs { a: 0, b: 2_600_000, c: -1_330_400_000 },
            SoilType::LoamySandTMS1 => QuadraticCoeffs { a: 0, b: 3_300_000, c: -1_938_900_000 },
            SoilType::SiltLoamTMS1 => QuadraticCoeffs { a: 0, b: 3_800_000, c: -2_942_700_000 },
        }
    }
}

} // verus!
