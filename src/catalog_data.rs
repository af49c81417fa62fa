//! Catalogs of rolled I-sections (HEB) and circular hollow sections (CHS).
//!
//! Each row holds the name of a section, its dimensions in tenths of a
//! millimetre and its tabulated properties in whole mm², mm³ and mm⁴. The
//! tables are stated once as spec functions, in parts; the functions that
//! build the rows are proved to give exactly those tables.
use vstd::prelude::*;
use crate::section::{CrossSection, CrsCHS, CrsHEB};

verus! {

/// Part 0 of the HEB catalog.
pub open spec fn heb_table_0() -> Seq<(&'static str, CrsHEB)> {
    seq![
        ("HEB 100", CrsHEB { width: 1000, height: 1000, thickness_web: 60, thickness_flange: 100, radius: 120, area: 2600, area_shear_y: 2000, w_elastic_y: 89_900, w_plastic_y: 104_000, inertia_y: 4_500_000, area_shear_z: 540, w_elastic_z: 33_500, w_plastic_z: 51_000, inertia_z: 1_670_000 }),
        ("HEB 120", CrsHEB { width: 1200, height: 1200, thickness_web: 65, thickness_flange: 110, radius: 120, area: 3400, area_shear_y: 2640, w_elastic_y: 144_000, w_plastic_y: 165_000, inertia_y: 8_640_000, area_shear_z: 708, w_elastic_z: 52_900, w_plastic_z: 81_000, inertia_z: 3_180_000 }),
        ("HEB 140", CrsHEB { width: 1400, height: 1400, thickness_web: 70, thickness_flange: 120, radius: 120, area: 4300, area_shear_y: 3360, w_elastic_y: 216_000, w_plastic_y: 246_000, inertia_y: 15_100_000, area_shear_z: 896, w_elastic_z: 78_500, w_plastic_z: 120_000, inertia_z: 5_500_000 }),
        ("HEB 160", CrsHEB { width: 1600, height: 1600, thickness_web: 80, thickness_flange: 130, radius: 150, area: 5430, area_shear_y: 4160, w_elastic_y: 311_000, w_plastic_y: 354_000, inertia_y: 24_900_000, area_shear_z: 1176, w_elastic_z: 111_000, w_plastic_z: 170_000, inertia_z: 8_890_000 }),
        ("HEB 180", CrsHEB { width: 1800, height: 1800, thickness_web: 85, thickness_flange: 140, radius: 150, area: 6530, area_shear_y: 5040, w_elastic_y: 426_000, w_plastic_y: 482_000, inertia_y: 38_300_000, area_shear_z: 1411, w_elastic_z: 151_000, w_plastic_z: 231_000, inertia_z: 13_600_000 }),
        ("HEB 200", CrsHEB { width: 2000, height: 2000, thickness_web: 90, thickness_flange: 150, radius: 180, area: 7810, area_shear_y: 6000, w_elastic_y: 570_000, w_plastic_y: 642_000, inertia_y: 57_000_000, area_shear_z: 1665, w_elastic_z: 200_000, w_plastic_z: 306_000, inertia_z: 20_000_000 }),
        ("HEB 220", CrsHEB { width: 2200, height: 2200, thickness_web: 95, thickness_flange: 160, radius: 180, area: 9100, area_shear_y: 7040, w_elastic_y: 736_000, w_plastic_y: 828_000, inertia_y: 80_900_000, area_shear_z: 1938, w_elastic_z: 258_000, w_plastic_z: 394_000, inertia_z: 28_400_000 }),
        ("HEB 240", CrsHEB { width: 2400, height: 2400, thickness_web: 100, thickness_flange: 170, radius: 210, area: 10_600, area_shear_y: 8160, w_elastic_y: 938_000, w_plastic_y: 1_050_000, inertia_y: 112_600_000, area_shear_z: 2230, w_elastic_z: 327_000, w_plastic_z: 499_000, inertia_z: 39_200_000 }),
        ("HEB 260", CrsHEB { width: 2600, height: 2600, thickness_web: 100, thickness_flange: 175, radius: 240, area: 11_800, area_shear_y: 9100, w_elastic_y: 1_150_000, w_plastic_y: 1_280_000, inertia_y: 149_200_000, area_shear_z: 2425, w_elastic_z: 395_000, w_plastic_z: 603_000, inertia_z: 51_300_000 }),
        ("HEB 280", CrsHEB { width: 2800, height: 2800, thickness_web: 105, thickness_flange: 180, radius: 240, area: 13_100, area_shear_y: 10_080, w_elastic_y: 1_380_000, w_plastic_y: 1_530_000, inertia_y: 192_700_000, area_shear_z: 2751, w_elastic_z: 471_000, w_plastic_z: 718_000, inertia_z: 65_900_000 }),
        ("HEB 300", CrsHEB { width: 3000, height: 3000, thickness_web: 110, thickness_flange: 190, radius: 270, area: 14_900, area_shear_y: 11_400, w_elastic_y: 1_680_000, w_plastic_y: 1_870_000, inertia_y: 251_700_000, area_shear_z: 3091, w_elastic_z: 571_000, w_plastic_z: 871_000, inertia_z: 85_600_000 }),
        ("HEB 320", CrsHEB { width: 3000, height: 3200, thickness_web: 115, thickness_flange: 205, radius: 270, area: 16_100, area_shear_y: 12_300, w_elastic_y: 1_930_000, w_plastic_y: 2_140_000, inertia_y: 308_200_000, area_shear_z: 3444, w_elastic_z: 616_000, w_plastic_z: 940_000, inertia_z: 92_400_000 }),
        ("HEB 340", CrsHEB { width: 3000, height: 3400, thickness_web: 120, thickness_flange: 215, radius: 270, area: 17_100, area_shear_y: 12_900, w_elastic_y: 2_160_000, w_plastic_y: 2_400_000, inertia_y: 366_600_000, area_shear_z: 3822, w_elastic_z: 646_000, w_plastic_z: 986_000, inertia_z: 96_900_000 }),
        ("HEB 360", CrsHEB { width: 3000, height: 3600, thickness_web: 125, thickness_flange: 225, radius: 270, area: 18_100, area_shear_y: 13_500, w_elastic_y: 2_400_000, w_plastic_y: 2_680_000, inertia_y: 431_900_000, area_shear_z: 4219, w_elastic_z: 676_000, w_plastic_z: 1_030_000, inertia_z: 101_400_000 }),
        ("HEB 400", CrsHEB { width: 3000, height: 4000, thickness_web: 135, thickness_flange: 240, radius: 270, area: 19_800, area_shear_y: 14_400, w_elastic_y: 2_880_000, w_plastic_y: 3_240_000, inertia_y: 576_800_000, area_shear_z: 5076, w_elastic_z: 721_000, w_plastic_z: 1_100_000, inertia_z: 108_200_000 }),
        ("HEB 450", CrsHEB { width: 3000, height: 4500, thickness_web: 140, thickness_flange: 260, radius: 270, area: 21_800, area_shear_y: 15_600, w_elastic_y: 3_550_000, w_plastic_y: 3_980_000, inertia_y: 798_900_000, area_shear_z: 5936, w_elastic_z: 781_000, w_plastic_z: 1_200_000, inertia_z: 117_200_000 }),
        ("HEB 500", CrsHEB { width: 3000, height: 5000, thickness_web: 145, thickness_flange: 280, radius: 270, area: 23_900, area_shear_y: 16_800, w_elastic_y: 4_290_000, w_plastic_y: 4_820_000, inertia_y: 1_072_000_000, area_shear_z: 6844, w_elastic_z: 842_000, w_plastic_z: 1_290_000, inertia_z: 126_200_000 }),
        ("HEB 550", CrsHEB { width: 3000, height: 5500, thickness_web: 150, thickness_flange: 290, radius: 270, area: 25_400, area_shear_y: 17_400, w_elastic_y: 4_970_000, w_plastic_y: 5_600_000, inertia_y: 1_367_000_000, area_shear_z: 7815, w_elastic_z: 872_000, w_plastic_z: 1_340_000, inertia_z: 130_800_000 }),
        ("HEB 600", CrsHEB { width: 3000, height: 6000, thickness_web: 155, thickness_flange: 300, radius: 270, area: 27_000, area_shear_y: 18_000, w_elastic_y: 5_700_000, w_plastic_y: 6_420_000, inertia_y: 1_710_000_000, area_shear_z: 8835, w_elastic_z: 902_000, w_plastic_z: 1_390_000, inertia_z: 135_300_000 }),
        ("HEB 650", CrsHEB { width: 3000, height: 6500, thickness_web: 160, thickness_flange: 310, radius: 270, area: 28_600, area_shear_y: 18_600, w_elastic_y: 6_480_000, w_plastic_y: 7_320_000, inertia_y: 2_106_000_000, area_shear_z: 9904, w_elastic_z: 932_000, w_plastic_z: 1_440_000, inertia_z: 139_800_000 }),
        ("HEB 700", CrsHEB { width: 3000, height: 7000, thickness_web: 170, thickness_flange: 320, radius: 270, area: 30_600, area_shear_y: 19_200, w_elastic_y: 7_340_000, w_plastic_y: 8_320_000, inertia_y: 2_569_000_000, area_shear_z: 11_356, w_elastic_z: 963_000, w_plastic_z: 1_490_000, inertia_z: 144_400_000 }),
        ("HEB 800", CrsHEB { width: 3000, height: 8000, thickness_web: 175, thickness_flange: 330, radius: 300, area: 33_400, area_shear_y: 19_800, w_elastic_y: 8_980_000, w_plastic_y: 10_220_000, inertia_y: 3_591_000_000, area_shear_z: 13_422, w_elastic_z: 994_000, w_plastic_z: 1_550_000, inertia_z: 149_000_000 }),
        ("HEB 900", CrsHEB { width: 3000, height: 9000, thickness_web: 185, thickness_flange: 350, radius: 300, area: 37_100, area_shear_y: 21_000, w_elastic_y: 10_980_000, w_plastic_y: 12_580_000, inertia_y: 4_941_000_000, area_shear_z: 16_002, w_elastic_z: 1_050_000, w_plastic_z: 1_660_000, inertia_z: 158_200_000 }),
        ("HEB 1000", CrsHEB { width: 3000, height: 10_000, thickness_web: 190, thickness_flange: 360, radius: 300, area: 40_000, area_shear_y: 21_600, w_elastic_y: 12_890_000, w_plastic_y: 14_860_000, inertia_y: 6_447_000_000, area_shear_z: 18_316, w_elastic_z: 1_090_000, w_plastic_z: 1_710_000, inertia_z: 162_800_000 }),
    ]
}

/// The HEB catalog, in catalog order.
pub open spec fn heb_table() -> Seq<(&'static str, CrsHEB)> {
    heb_table_0()
}

/// Part 0 of the CHS catalog.
pub open spec fn chs_table_0() -> Seq<(&'static str, CrsCHS)> {
    seq![
        ("CHS 21.3x2.6", CrsCHS { diameter: 213, thickness_wall: 26, area: 153, area_shear: 81, w_elastic: 640, w_plastic: 920, inertia: 6800, inertia_x: 13_600 }),
        ("CHS 21.3x2.9", CrsCHS { diameter: 213, thickness_wall: 29, area: 168, area_shear: 90, w_elastic: 680, w_plastic: 990, inertia: 7300, inertia_x: 14_500 }),
        ("CHS 21.3x3.2", CrsCHS { diameter: 213, thickness_wall: 32, area: 182, area_shear: 99, w_elastic: 720, w_plastic: 1060, inertia: 7700, inertia_x: 15_400 }),
        ("CHS 26.9x2.6", CrsCHS { diameter: 269, thickness_wall: 26, area: 198, area_shear: 103, w_elastic: 1100, w_plastic: 1540, inertia: 14_800, inertia_x: 29_600 }),
        ("CHS 26.9x2.9", CrsCHS { diameter: 269, thickness_wall: 29, area: 219, area_shear: 115, w_elastic: 1190, w_plastic: 1680, inertia: 16_000, inertia_x: 31_900 }),
        ("CHS 26.9x3.2", CrsCHS { diameter: 269, thickness_wall: 32, area: 238, area_shear: 126, w_elastic: 1270, w_plastic: 1810, inertia: 17_000, inertia_x: 34_100 }),
        ("CHS 26.9x3.6", CrsCHS { diameter: 269, thickness_wall: 36, area: 264, area_shear: 141, w_elastic: 1360, w_plastic: 1970, inertia: 18_300, inertia_x: 36_600 }),
        ("CHS 33.7x2.6", CrsCHS { diameter: 337, thickness_wall: 26, area: 254, area_shear: 130, w_elastic: 1840, w_plastic: 2520, inertia: 30_900, inertia_x: 61_900 }),
        ("CHS 33.7x2.9", CrsCHS { diameter: 337, thickness_wall: 29, area: 281, area_shear: 145, w_elastic: 1990, w_plastic: 2760, inertia: 33_600, inertia_x: 67_100 }),
        ("CHS 33.7x3.2", CrsCHS { diameter: 337, thickness_wall: 32, area: 307, area_shear: 159, w_elastic: 2140, w_plastic: 2990, inertia: 36_000, inertia_x: 72_100 }),
        ("CHS 33.7x3.6", CrsCHS { diameter: 337, thickness_wall: 36, area: 340, area_shear: 178, w_elastic: 2320, w_plastic: 3280, inertia: 39_100, inertia_x: 78_200 }),
        ("CHS 33.7x4", CrsCHS { diameter: 337, thickness_wall: 40, area: 373, area_shear: 198, w_elastic: 2490, w_plastic: 3550, inertia: 41_900, inertia_x: 83_800 }),
        ("CHS 33.7x4.5", CrsCHS { diameter: 337, thickness_wall: 45, area: 413, area_shear: 221, w_elastic: 2670, w_plastic: 3870, inertia: 45_000, inertia_x: 90_100 }),
        ("CHS 42.4x2.6", CrsCHS { diameter: 424, thickness_wall: 26, area: 325, area_shear: 166, w_elastic: 3050, w_plastic: 4120, inertia: 64_600, inertia_x: 129_000 }),
        ("CHS 42.4x2.9", CrsCHS { diameter: 424, thickness_wall: 29, area: 360, area_shear: 184, w_elastic: 3330, w_plastic: 4530, inertia: 70_600, inertia_x: 141_000 }),
        ("CHS 42.4x3.2", CrsCHS { diameter: 424, thickness_wall: 32, area: 394, area_shear: 203, w_elastic: 3590, w_plastic: 4930, inertia: 76_200, inertia_x: 152_000 }),
        ("CHS 42.4x3.6", CrsCHS { diameter: 424, thickness_wall: 36, area: 439, area_shear: 227, w_elastic: 3930, w_plastic: 5440, inertia: 83_300, inertia_x: 167_000 }),
        ("CHS 42.4x4", CrsCHS { diameter: 424, thickness_wall: 40, area: 483, area_shear: 251, w_elastic: 4240, w_plastic: 5920, inertia: 89_900, inertia_x: 180_000 }),
        ("CHS 42.4x4.5", CrsCHS { diameter: 424, thickness_wall: 45, area: 536, area_shear: 281, w_elastic: 4600, w_plastic: 6490, inertia: 97_600, inertia_x: 195_000 }),
        ("CHS 48.3x2.6", CrsCHS { diameter: 483, thickness_wall: 26, area: 373, area_shear: 190, w_elastic: 4050, w_plastic: 5440, inertia: 97_800, inertia_x: 196_000 }),
        ("CHS 48.3x2.9", CrsCHS { diameter: 483, thickness_wall: 29, area: 414, area_shear: 211, w_elastic: 4430, w_plastic: 5990, inertia: 107_000, inertia_x: 214_000 }),
        ("CHS 48.3x3.2", CrsCHS { diameter: 483, thickness_wall: 32, area: 453, area_shear: 232, w_elastic: 4800, w_plastic: 6520, inertia: 116_000, inertia_x: 232_000 }),
        ("CHS 48.3x3.6", CrsCHS { diameter: 483, thickness_wall: 36, area: 506, area_shear: 259, w_elastic: 5260, w_plastic: 7210, inertia: 127_000, inertia_x: 254_000 }),
        ("CHS 48.3x4", CrsCHS { diameter: 483, thickness_wall: 40, area: 557, area_shear: 289, w_elastic: 5700, w_plastic: 7870, inertia: 138_000, inertia_x: 275_000 }),
    ]
}

/// Part 1 of the CHS catalog.
pub open spec fn chs_table_1() -> Seq<(&'static str, CrsCHS)> {
    seq![
        ("CHS 48.3x4.5", CrsCHS { diameter: 483, thickness_wall: 45, area: 619, area_shear: 321, w_elastic: 6210, w_plastic: 8660, inertia: 150_000, inertia_x: 300_000 }),
        ("CHS 48.3x5", CrsCHS { diameter: 483, thickness_wall: 50, area: 680, area_shear: 358, w_elastic: 6690, w_plastic: 9420, inertia: 162_000, inertia_x: 323_000 }),
        ("CHS 48.3x5.6", CrsCHS { diameter: 483, thickness_wall: 56, area: 751, area_shear: 396, w_elastic: 7210, w_plastic: 10_300, inertia: 174_000, inertia_x: 348_000 }),
        ("CHS 48.3x6.3", CrsCHS { diameter: 483, thickness_wall: 63, area: 831, area_shear: 442, w_elastic: 7760, w_plastic: 11_200, inertia: 187_000, inertia_x: 375_000 }),
        ("CHS 60.3x2.6", CrsCHS { diameter: 603, thickness_wall: 26, area: 471, area_shear: 240, w_elastic: 6520, w_plastic: 8660, inertia: 197_000, inertia_x: 393_000 }),
        ("CHS 60.3x2.9", CrsCHS { diameter: 603, thickness_wall: 29, area: 523, area_shear: 265, w_elastic: 7160, w_plastic: 9560, inertia: 216_000, inertia_x: 432_000 }),
        ("CHS 60.3x3.2", CrsCHS { diameter: 603, thickness_wall: 32, area: 574, area_shear: 293, w_elastic: 7780, w_plastic: 10_400, inertia: 235_000, inertia_x: 469_000 }),
        ("CHS 60.3x3.6", CrsCHS { diameter: 603, thickness_wall: 36, area: 641, area_shear: 328, w_elastic: 8580, w_plastic: 11_600, inertia: 259_000, inertia_x: 517_000 }),
        ("CHS 60.3x4", CrsCHS { diameter: 603, thickness_wall: 40, area: 707, area_shear: 363, w_elastic: 9340, w_plastic: 12_700, inertia: 282_000, inertia_x: 563_000 }),
        ("CHS 60.3x4.5", CrsCHS { diameter: 603, thickness_wall: 45, area: 789, area_shear: 405, w_elastic: 10_200, w_plastic: 14_000, inertia: 309_000, inertia_x: 618_000 }),
        ("CHS 60.3x5", CrsCHS { diameter: 603, thickness_wall: 50, area: 869, area_shear: 449, w_elastic: 11_100, w_plastic: 15_300, inertia: 335_000, inertia_x: 670_000 }),
        ("CHS 60.3x5.6", CrsCHS { diameter: 603, thickness_wall: 56, area: 962, area_shear: 501, w_elastic: 12_100, w_plastic: 16_800, inertia: 364_000, inertia_x: 727_000 }),
        ("CHS 60.3x6.3", CrsCHS { diameter: 603, thickness_wall: 63, area: 1070, area_shear: 560, w_elastic: 13_100, w_plastic: 18_500, inertia: 395_000, inertia_x: 790_000 }),
        ("CHS 60.3x7.1", CrsCHS { diameter: 603, thickness_wall: 71, area: 1190, area_shear: 627, w_elastic: 14_200, w_plastic: 20_200, inertia: 427_000, inertia_x: 855_000 }),
        ("CHS 60.3x8", CrsCHS { diameter: 603, thickness_wall: 80, area: 1310, area_shear: 704, w_elastic: 15_300, w_plastic: 22_100, inertia: 460_000, inertia_x: 920_000 }),
        ("CHS 76.1x2.9", CrsCHS { diameter: 761, thickness_wall: 29, area: 667, area_shear: 336, w_elastic: 11_800, w_plastic: 15_500, inertia: 447_000, inertia_x: 895_000 }),
        ("CHS 76.1x3.2", CrsCHS { diameter: 761, thickness_wall: 32, area: 733, area_shear: 371, w_elastic: 12_800, w_plastic: 17_000, inertia: 488_000, inertia_x: 976_000 }),
        ("CHS 76.1x3.6", CrsCHS { diameter: 761, thickness_wall: 36, area: 820, area_shear: 416, w_elastic: 14_200, w_plastic: 18_900, inertia: 540_000, inertia_x: 1_080_000 }),
        ("CHS 76.1x4", CrsCHS { diameter: 761, thickness_wall: 40, area: 906, area_shear: 461, w_elastic: 15_500, w_plastic: 20_800, inertia: 591_000, inertia_x: 1_180_000 }),
        ("CHS 76.1x4.5", CrsCHS { diameter: 761, thickness_wall: 45, area: 1010, area_shear: 516, w_elastic: 17_100, w_plastic: 23_100, inertia: 651_000, inertia_x: 1_300_000 }),
        ("CHS 76.1x5", CrsCHS { diameter: 761, thickness_wall: 50, area: 1120, area_shear: 571, w_elastic: 18_600, w_plastic: 25_300, inertia: 709_000, inertia_x: 1_420_000 }),
        ("CHS 76.1x5.6", CrsCHS { diameter: 761, thickness_wall: 56, area: 1240, area_shear: 636, w_elastic: 20_400, w_plastic: 27_900, inertia: 775_000, inertia_x: 1_550_000 }),
        ("CHS 76.1x6.3", CrsCHS { diameter: 761, thickness_wall: 63, area: 1380, area_shear: 713, w_elastic: 22_300, w_plastic: 30_800, inertia: 848_000, inertia_x: 1_700_000 }),
        ("CHS 76.1x7.1", CrsCHS { diameter: 761, thickness_wall: 71, area: 1540, area_shear: 800, w_elastic: 24_300, w_plastic: 33_900, inertia: 926_000, inertia_x: 1_850_000 }),
    ]
}

/// Part 2 of the CHS catalog.
pub open spec fn chs_table_2() -> Seq<(&'static str, CrsCHS)> {
    seq![
        ("CHS 76.1x8", CrsCHS { diameter: 761, thickness_wall: 80, area: 1710, area_shear: 904, w_elastic: 26_400, w_plastic: 37_300, inertia: 1_010_000, inertia_x: 2_010_000 }),
        ("CHS 88.9x2.9", CrsCHS { diameter: 889, thickness_wall: 29, area: 784, area_shear: 395, w_elastic: 16_300, w_plastic: 21_500, inertia: 725_000, inertia_x: 1_450_000 }),
        ("CHS 88.9x3.2", CrsCHS { diameter: 889, thickness_wall: 32, area: 862, area_shear: 435, w_elastic: 17_800, w_plastic: 23_500, inertia: 792_000, inertia_x: 1_580_000 }),
        ("CHS 88.9x3.6", CrsCHS { diameter: 889, thickness_wall: 36, area: 965, area_shear: 488, w_elastic: 19_800, w_plastic: 26_200, inertia: 879_000, inertia_x: 1_760_000 }),
        ("CHS 88.9x4", CrsCHS { diameter: 889, thickness_wall: 40, area: 1070, area_shear: 540, w_elastic: 21_700, w_plastic: 28_900, inertia: 963_000, inertia_x: 1_930_000 }),
        ("CHS 88.9x4.5", CrsCHS { diameter: 889, thickness_wall: 45, area: 1190, area_shear: 611, w_elastic: 24_000, w_plastic: 32_100, inertia: 1_070_000, inertia_x: 2_130_000 }),
        ("CHS 88.9x5", CrsCHS { diameter: 889, thickness_wall: 50, area: 1320, area_shear: 667, w_elastic: 26_200, w_plastic: 35_200, inertia: 1_160_000, inertia_x: 2_330_000 }),
        ("CHS 88.9x5.6", CrsCHS { diameter: 889, thickness_wall: 56, area: 1470, area_shear: 752, w_elastic: 28_700, w_plastic: 38_900, inertia: 1_280_000, inertia_x: 2_550_000 }),
        ("CHS 88.9x6.3", CrsCHS { diameter: 889, thickness_wall: 63, area: 1630, area_shear: 835, w_elastic: 31_500, w_plastic: 43_100, inertia: 1_400_000, inertia_x: 2_800_000 }),
        ("CHS 88.9x7.1", CrsCHS { diameter: 889, thickness_wall: 71, area: 1820, area_shear: 943, w_elastic: 34_600, w_plastic: 47_600, inertia: 1_540_000, inertia_x: 3_080_000 }),
        ("CHS 88.9x8", CrsCHS { diameter: 889, thickness_wall: 80, area: 2030, area_shear: 1054, w_elastic: 37_800, w_plastic: 52_500, inertia: 1_680_000, inertia_x: 3_360_000 }),
        ("CHS 101.6x3.6", CrsCHS { diameter: 1016, thickness_wall: 36, area: 1110, area_shear: 557, w_elastic: 26_200, w_plastic: 34_600, inertia: 1_330_000, inertia_x: 2_660_000 }),
        ("CHS 101.6x4", CrsCHS { diameter: 1016, thickness_wall: 40, area: 1230, area_shear: 617, w_elastic: 28_800, w_plastic: 38_100, inertia: 1_460_000, inertia_x: 2_930_000 }),
        ("CHS 101.6x4.5", CrsCHS { diameter: 1016, thickness_wall: 45, area: 1370, area_shear: 694, w_elastic: 31_900, w_plastic: 42_500, inertia: 1_620_000, inertia_x: 3_240_000 }),
        ("CHS 101.6x5", CrsCHS { diameter: 1016, thickness_wall: 50, area: 1520, area_shear: 766, w_elastic: 34_900, w_plastic: 46_700, inertia: 1_770_000, inertia_x: 3_550_000 }),
        ("CHS 101.6x5.6", CrsCHS { diameter: 1016, thickness_wall: 56, area: 1690, area_shear: 857, w_elastic: 38_400, w_plastic: 51_700, inertia: 1_950_000, inertia_x: 3_900_000 }),
        ("CHS 101.6x6.3", CrsCHS { diameter: 1016, thickness_wall: 63, area: 1890, area_shear: 962, w_elastic: 42_300, w_plastic: 57_300, inertia: 2_150_000, inertia_x: 4_300_000 }),
        ("CHS 101.6x7.1", CrsCHS { diameter: 1016, thickness_wall: 71, area: 2110, area_shear: 1083, w_elastic: 46_600, w_plastic: 63_500, inertia: 2_370_000, inertia_x: 4_730_000 }),
        ("CHS 101.6x8", CrsCHS { diameter: 1016, thickness_wall: 80, area: 2350, area_shear: 1216, w_elastic: 51_100, w_plastic: 70_300, inertia: 2_600_000, inertia_x: 5_190_000 }),
        ("CHS 114.3x3.6", CrsCHS { diameter: 1143, thickness_wall: 36, area: 1250, area_shear: 631, w_elastic: 33_600, w_plastic: 44_100, inertia: 1_920_000, inertia_x: 3_840_000 }),
        ("CHS 114.3x4", CrsCHS { diameter: 1143, thickness_wall: 40, area: 1390, area_shear: 699, w_elastic: 36_900, w_plastic: 48_700, inertia: 2_110_000, inertia_x: 4_220_000 }),
        ("CHS 114.3x4.5", CrsCHS { diameter: 1143, thickness_wall: 45, area: 1550, area_shear: 782, w_elastic: 41_000, w_plastic: 54_300, inertia: 2_340_000, inertia_x: 4_690_000 }),
        ("CHS 114.3x5", CrsCHS { diameter: 1143, thickness_wall: 50, area: 1720, area_shear: 870, w_elastic: 45_000, w_plastic: 59_800, inertia: 2_570_000, inertia_x: 5_140_000 }),
        ("CHS 114.3x5.6", CrsCHS { diameter: 1143, thickness_wall: 56, area: 1910, area_shear: 969, w_elastic: 49_600, w_plastic: 66_200, inertia: 2_830_000, inertia_x: 5_660_000 }),
    ]
}

/// Part 3 of the CHS catalog.
pub open spec fn chs_table_3() -> Seq<(&'static str, CrsCHS)> {
    seq![
        ("CHS 114.3x6.3", CrsCHS { diameter: 1143, thickness_wall: 63, area: 2140, area_shear: 1090, w_elastic: 54_700, w_plastic: 73_600, inertia: 3_130_000, inertia_x: 6_250_000 }),
        ("CHS 114.3x7.1", CrsCHS { diameter: 1143, thickness_wall: 71, area: 2390, area_shear: 1221, w_elastic: 60_400, w_plastic: 81_700, inertia: 3_450_000, inertia_x: 6_900_000 }),
        ("CHS 114.3x8", CrsCHS { diameter: 1143, thickness_wall: 80, area: 2670, area_shear: 1365, w_elastic: 66_400, w_plastic: 90_600, inertia: 3_790_000, inertia_x: 7_590_000 }),
        ("CHS 139.7x3.6", CrsCHS { diameter: 1397, thickness_wall: 36, area: 1540, area_shear: 775, w_elastic: 51_100, w_plastic: 66_700, inertia: 3_570_000, inertia_x: 7_130_000 }),
        ("CHS 139.7x4", CrsCHS { diameter: 1397, thickness_wall: 40, area: 1710, area_shear: 859, w_elastic: 56_200, w_plastic: 73_700, inertia: 3_930_000, inertia_x: 7_860_000 }),
        ("CHS 139.7x4.5", CrsCHS { diameter: 1397, thickness_wall: 45, area: 1910, area_shear: 962, w_elastic: 62_600, w_plastic: 82_300, inertia: 4_370_000, inertia_x: 8_740_000 }),
        ("CHS 139.7x5", CrsCHS { diameter: 1397, thickness_wall: 50, area: 2120, area_shear: 1070, w_elastic: 68_800, w_plastic: 90_800, inertia: 4_810_000, inertia_x: 9_610_000 }),
        ("CHS 139.7x5.6", CrsCHS { diameter: 1397, thickness_wall: 56, area: 2360, area_shear: 1192, w_elastic: 76_100, w_plastic: 101_000, inertia: 5_310_000, inertia_x: 10_620_000 }),
        ("CHS 139.7x6.3", CrsCHS { diameter: 1397, thickness_wall: 63, area: 2640, area_shear: 1339, w_elastic: 84_300, w_plastic: 112_000, inertia: 5_890_000, inertia_x: 11_770_000 }),
        ("CHS 139.7x7.1", CrsCHS { diameter: 1397, thickness_wall: 71, area: 2960, area_shear: 1502, w_elastic: 93_300, w_plastic: 125_000, inertia: 6_520_000, inertia_x: 13_040_000 }),
        ("CHS 139.7x8", CrsCHS { diameter: 1397, thickness_wall: 80, area: 3310, area_shear: 1684, w_elastic: 103_000, w_plastic: 139_000, inertia: 7_200_000, inertia_x: 14_410_000 }),
        ("CHS 139.7x10", CrsCHS { diameter: 1397, thickness_wall: 100, area: 4070, area_shear: 2090, w_elastic: 123_000, w_plastic: 169_000, inertia: 8_620_000, inertia_x: 17_240_000 }),
        ("CHS 168.3x5", CrsCHS { diameter: 1683, thickness_wall: 50, area: 2570, area_shear: 1292, w_elastic: 102_000, w_plastic: 133_000, inertia: 8_560_000, inertia_x: 17_120_000 }),
        ("CHS 168.3x5.6", CrsCHS { diameter: 1683, thickness_wall: 56, area: 2860, area_shear: 1443, w_elastic: 113_000, w_plastic: 148_000, inertia: 9_480_000, inertia_x: 18_970_000 }),
        ("CHS 168.3x6.3", CrsCHS { diameter: 1683, thickness_wall: 63, area: 3210, area_shear: 1618, w_elastic: 125_000, w_plastic: 165_000, inertia: 10_530_000, inertia_x: 21_070_000 }),
        ("CHS 168.3x7.1", CrsCHS { diameter: 1683, thickness_wall: 71, area: 3600, area_shear: 1819, w_elastic: 139_000, w_plastic: 185_000, inertia: 11_700_000, inertia_x: 23_400_000 }),
        ("CHS 168.3x8", CrsCHS { diameter: 1683, thickness_wall: 80, area: 4030, area_shear: 2042, w_elastic: 154_000, w_plastic: 206_000, inertia: 12_970_000, inertia_x: 25_950_000 }),
        ("CHS 168.3x10", CrsCHS { diameter: 1683, thickness_wall: 100, area: 4970, area_shear: 2535, w_elastic: 186_000, w_plastic: 251_000, inertia: 15_640_000, inertia_x: 31_280_000 }),
        ("CHS 168.3x11", CrsCHS { diameter: 1683, thickness_wall: 110, area: 5440, area_shear: 2777, w_elastic: 201_000, w_plastic: 273_000, inertia: 16_890_000, inertia_x: 33_790_000 }),
        ("CHS 168.3x12.5", CrsCHS { diameter: 1683, thickness_wall: 125, area: 6120, area_shear: 3141, w_elastic: 222_000, w_plastic: 304_000, inertia: 18_680_000, inertia_x: 37_370_000 }),
        ("CHS 193.7x5", CrsCHS { diameter: 1937, thickness_wall: 50, area: 2960, area_shear: 1490, w_elastic: 136_000, w_plastic: 178_000, inertia: 13_200_000, inertia_x: 26_400_000 }),
        ("CHS 193.7x5.6", CrsCHS { diameter: 1937, thickness_wall: 56, area: 3310, area_shear: 1666, w_elastic: 151_000, w_plastic: 198_000, inertia: 14_650_000, inertia_x: 29_300_000 }),
        ("CHS 193.7x6.3", CrsCHS { diameter: 1937, thickness_wall: 63, area: 3710, area_shear: 1870, w_elastic: 168_000, w_plastic: 221_000, inertia: 16_300_000, inertia_x: 32_600_000 }),
        ("CHS 193.7x7.1", CrsCHS { diameter: 1937, thickness_wall: 71, area: 4160, area_shear: 2101, w_elastic: 187_000, w_plastic: 247_000, inertia: 18_140_000, inertia_x: 36_280_000 }),
    ]
}

/// Part 4 of the CHS catalog.
pub open spec fn chs_table_4() -> Seq<(&'static str, CrsCHS)> {
    seq![
        ("CHS 193.7x8", CrsCHS { diameter: 1937, thickness_wall: 80, area: 4670, area_shear: 2362, w_elastic: 208_000, w_plastic: 276_000, inertia: 20_160_000, inertia_x: 40_310_000 }),
        ("CHS 193.7x10", CrsCHS { diameter: 1937, thickness_wall: 100, area: 5770, area_shear: 2933, w_elastic: 252_000, w_plastic: 338_000, inertia: 24_420_000, inertia_x: 48_830_000 }),
        ("CHS 193.7x11", CrsCHS { diameter: 1937, thickness_wall: 110, area: 6310, area_shear: 3215, w_elastic: 273_000, w_plastic: 368_000, inertia: 26_440_000, inertia_x: 52_880_000 }),
        ("CHS 193.7x12.5", CrsCHS { diameter: 1937, thickness_wall: 125, area: 7120, area_shear: 3635, w_elastic: 303_000, w_plastic: 411_000, inertia: 29_340_000, inertia_x: 58_690_000 }),
        ("CHS 193.7x14.2", CrsCHS { diameter: 1937, thickness_wall: 142, area: 8010, area_shear: 4110, w_elastic: 335_000, w_plastic: 458_000, inertia: 32_450_000, inertia_x: 64_910_000 }),
        ("CHS 193.7x16", CrsCHS { diameter: 1937, thickness_wall: 160, area: 8930, area_shear: 4608, w_elastic: 367_000, w_plastic: 507_000, inertia: 35_540_000, inertia_x: 71_090_000 }),
        ("CHS 219.1x4.5", CrsCHS { diameter: 2191, thickness_wall: 45, area: 3030, area_shear: 1521, w_elastic: 159_000, w_plastic: 207_000, inertia: 17_470_000, inertia_x: 34_940_000 }),
        ("CHS 219.1x5", CrsCHS { diameter: 2191, thickness_wall: 50, area: 3360, area_shear: 1689, w_elastic: 176_000, w_plastic: 229_000, inertia: 19_280_000, inertia_x: 38_560_000 }),
        ("CHS 219.1x5.6", CrsCHS { diameter: 2191, thickness_wall: 56, area: 3760, area_shear: 1889, w_elastic: 195_000, w_plastic: 255_000, inertia: 21_420_000, inertia_x: 42_830_000 }),
        ("CHS 219.1x6.3", CrsCHS { diameter: 2191, thickness_wall: 63, area: 4210, area_shear: 2120, w_elastic: 218_000, w_plastic: 285_000, inertia: 23_860_000, inertia_x: 47_720_000 }),
        ("CHS 219.1x7.1", CrsCHS { diameter: 2191, thickness_wall: 71, area: 4730, area_shear: 2384, w_elastic: 243_000, w_plastic: 319_000, inertia: 26_600_000, inertia_x: 53_190_000 }),
        ("CHS 219.1x8", CrsCHS { diameter: 2191, thickness_wall: 80, area: 5310, area_shear: 2679, w_elastic: 270_000, w_plastic: 357_000, inertia: 29_600_000, inertia_x: 59_190_000 }),
        ("CHS 219.1x10", CrsCHS { diameter: 2191, thickness_wall: 100, area: 6570, area_shear: 3328, w_elastic: 328_000, w_plastic: 438_000, inertia: 35_980_000, inertia_x: 71_970_000 }),
        ("CHS 219.1x11", CrsCHS { diameter: 2191, thickness_wall: 110, area: 7190, area_shear: 3651, w_elastic: 356_000, w_plastic: 477_000, inertia: 39_040_000, inertia_x: 78_070_000 }),
        ("CHS 219.1x12.5", CrsCHS { diameter: 2191, thickness_wall: 125, area: 8110, area_shear: 4132, w_elastic: 397_000, w_plastic: 534_000, inertia: 43_450_000, inertia_x: 86_890_000 }),
        ("CHS 219.1x14.2", CrsCHS { diameter: 2191, thickness_wall: 142, area: 9140, area_shear: 4672, w_elastic: 440_000, w_plastic: 597_000, inertia: 48_200_000, inertia_x: 96_400_000 }),
        ("CHS 219.1x16", CrsCHS { diameter: 2191, thickness_wall: 160, area: 10_200, area_shear: 5240, w_elastic: 483_000, w_plastic: 661_000, inertia: 52_970_000, inertia_x: 105_930_000 }),
        ("CHS 244.5x5", CrsCHS { diameter: 2445, thickness_wall: 50, area: 3760, area_shear: 1888, w_elastic: 221_000, w_plastic: 287_000, inertia: 26_990_000, inertia_x: 53_970_000 }),
        ("CHS 244.5x5.6", CrsCHS { diameter: 2445, thickness_wall: 56, area: 4200, area_shear: 2110, w_elastic: 245_000, w_plastic: 320_000, inertia: 30_000_000, inertia_x: 60_000_000 }),
        ("CHS 244.5x6.3", CrsCHS { diameter: 2445, thickness_wall: 63, area: 4710, area_shear: 2370, w_elastic: 274_000, w_plastic: 358_000, inertia: 33_460_000, inertia_x: 66_920_000 }),
        ("CHS 244.5x7.1", CrsCHS { diameter: 2445, thickness_wall: 71, area: 5300, area_shear: 2666, w_elastic: 305_000, w_plastic: 400_000, inertia: 37_340_000, inertia_x: 74_680_000 }),
        ("CHS 244.5x8", CrsCHS { diameter: 2445, thickness_wall: 80, area: 5940, area_shear: 2996, w_elastic: 340_000, w_plastic: 448_000, inertia: 41_600_000, inertia_x: 83_210_000 }),
        ("CHS 244.5x10", CrsCHS { diameter: 2445, thickness_wall: 100, area: 7370, area_shear: 3726, w_elastic: 415_000, w_plastic: 550_000, inertia: 50_730_000, inertia_x: 101_460_000 }),
        ("CHS 244.5x11", CrsCHS { diameter: 2445, thickness_wall: 110, area: 8070, area_shear: 4088, w_elastic: 451_000, w_plastic: 600_000, inertia: 55_120_000, inertia_x: 110_230_000 }),
    ]
}

/// Part 5 of the CHS catalog.
pub open spec fn chs_table_5() -> Seq<(&'static str, CrsCHS)> {
    seq![
        ("CHS 244.5x12.5", CrsCHS { diameter: 2445, thickness_wall: 125, area: 9110, area_shear: 4626, w_elastic: 503_000, w_plastic: 673_000, inertia: 61_470_000, inertia_x: 122_950_000 }),
        ("CHS 244.5x14.2", CrsCHS { diameter: 2445, thickness_wall: 142, area: 10_300, area_shear: 5234, w_elastic: 559_000, w_plastic: 754_000, inertia: 68_370_000, inertia_x: 136_740_000 }),
        ("CHS 244.5x16", CrsCHS { diameter: 2445, thickness_wall: 160, area: 11_500, area_shear: 5872, w_elastic: 616_000, w_plastic: 837_000, inertia: 75_330_000, inertia_x: 150_660_000 }),
        ("CHS 273x5", CrsCHS { diameter: 2730, thickness_wall: 50, area: 4210, area_shear: 2110, w_elastic: 277_000, w_plastic: 359_000, inertia: 37_810_000, inertia_x: 75_620_000 }),
        ("CHS 273x5.6", CrsCHS { diameter: 2730, thickness_wall: 56, area: 4700, area_shear: 2360, w_elastic: 308_000, w_plastic: 400_000, inertia: 42_070_000, inertia_x: 84_130_000 }),
        ("CHS 273x6.3", CrsCHS { diameter: 2730, thickness_wall: 63, area: 5280, area_shear: 2651, w_elastic: 344_000, w_plastic: 448_000, inertia: 46_960_000, inertia_x: 93_920_000 }),
        ("CHS 273x7.1", CrsCHS { diameter: 2730, thickness_wall: 71, area: 5930, area_shear: 2982, w_elastic: 384_000, w_plastic: 502_000, inertia: 52_450_000, inertia_x: 104_910_000 }),
        ("CHS 273x8", CrsCHS { diameter: 2730, thickness_wall: 80, area: 6660, area_shear: 3353, w_elastic: 429_000, w_plastic: 562_000, inertia: 58_520_000, inertia_x: 117_030_000 }),
        ("CHS 273x10", CrsCHS { diameter: 2730, thickness_wall: 100, area: 8260, area_shear: 4172, w_elastic: 524_000, w_plastic: 692_000, inertia: 71_540_000, inertia_x: 143_080_000 }),
        ("CHS 273x11", CrsCHS { diameter: 2730, thickness_wall: 110, area: 9050, area_shear: 4578, w_elastic: 570_000, w_plastic: 756_000, inertia: 77_830_000, inertia_x: 155_650_000 }),
        ("CHS 273x12.5", CrsCHS { diameter: 2730, thickness_wall: 125, area: 10_200, area_shear: 5183, w_elastic: 637_000, w_plastic: 849_000, inertia: 86_970_000, inertia_x: 173_950_000 }),
        ("CHS 273x14.2", CrsCHS { diameter: 2730, thickness_wall: 142, area: 11_500, area_shear: 5866, w_elastic: 710_000, w_plastic: 952_000, inertia: 96_950_000, inertia_x: 193_900_000 }),
        ("CHS 273x16", CrsCHS { diameter: 2730, thickness_wall: 160, area: 12_900, area_shear: 6583, w_elastic: 784_000, w_plastic: 1_058_000, inertia: 107_070_000, inertia_x: 214_140_000 }),
        ("CHS 323.9x5", CrsCHS { diameter: 3239, thickness_wall: 50, area: 5010, area_shear: 2506, w_elastic: 393_000, w_plastic: 509_000, inertia: 63_690_000, inertia_x: 127_390_000 }),
        ("CHS 323.9x5.6", CrsCHS { diameter: 3239, thickness_wall: 56, area: 5600, area_shear: 2804, w_elastic: 438_000, w_plastic: 567_000, inertia: 70_940_000, inertia_x: 141_880_000 }),
        ("CHS 323.9x6.3", CrsCHS { diameter: 3239, thickness_wall: 63, area: 6290, area_shear: 3152, w_elastic: 490_000, w_plastic: 636_000, inertia: 79_290_000, inertia_x: 158_580_000 }),
        ("CHS 323.9x7.1", CrsCHS { diameter: 3239, thickness_wall: 71, area: 7070, area_shear: 3547, w_elastic: 548_000, w_plastic: 713_000, inertia: 88_690_000, inertia_x: 177_390_000 }),
        ("CHS 323.9x8", CrsCHS { diameter: 3239, thickness_wall: 80, area: 7940, area_shear: 3990, w_elastic: 612_000, w_plastic: 799_000, inertia: 99_100_000, inertia_x: 198_200_000 }),
        ("CHS 323.9x10", CrsCHS { diameter: 3239, thickness_wall: 100, area: 9860, area_shear: 4968, w_elastic: 751_000, w_plastic: 986_000, inertia: 121_580_000, inertia_x: 243_170_000 }),
        ("CHS 323.9x11", CrsCHS { diameter: 3239, thickness_wall: 110, area: 10_800, area_shear: 5454, w_elastic: 818_000, w_plastic: 1_077_000, inertia: 132_500_000, inertia_x: 264_990_000 }),
        ("CHS 323.9x12.5", CrsCHS { diameter: 3239, thickness_wall: 125, area: 12_200, area_shear: 6179, w_elastic: 917_000, w_plastic: 1_213_000, inertia: 148_470_000, inertia_x: 296_930_000 }),
        ("CHS 323.9x14.2", CrsCHS { diameter: 3239, thickness_wall: 142, area: 13_800, area_shear: 6995, w_elastic: 1_025_000, w_plastic: 1_363_000, inertia: 165_990_000, inertia_x: 331_980_000 }),
        ("CHS 323.9x16", CrsCHS { diameter: 3239, thickness_wall: 160, area: 15_500, area_shear: 7855, w_elastic: 1_136_000, w_plastic: 1_518_000, inertia: 183_900_000, inertia_x: 367_800_000 }),
        ("CHS 355.6x6.3", CrsCHS { diameter: 3556, thickness_wall: 63, area: 6910, area_shear: 3463, w_elastic: 593_000, w_plastic: 769_000, inertia: 105_470_000, inertia_x: 210_940_000 }),
    ]
}

/// Part 6 of the CHS catalog.
pub open spec fn chs_table_6() -> Seq<(&'static str, CrsCHS)> {
    seq![
        ("CHS 355.6x7.1", CrsCHS { diameter: 3556, thickness_wall: 71, area: 7770, area_shear: 3898, w_elastic: 664_000, w_plastic: 862_000, inertia: 118_060_000, inertia_x: 236_120_000 }),
        ("CHS 355.6x8", CrsCHS { diameter: 3556, thickness_wall: 80, area: 8740, area_shear: 4386, w_elastic: 742_000, w_plastic: 967_000, inertia: 132_010_000, inertia_x: 264_030_000 }),
        ("CHS 355.6x10", CrsCHS { diameter: 3556, thickness_wall: 100, area: 10_900, area_shear: 5463, w_elastic: 912_000, w_plastic: 1_195_000, inertia: 162_230_000, inertia_x: 324_470_000 }),
        ("CHS 355.6x11", CrsCHS { diameter: 3556, thickness_wall: 110, area: 11_900, area_shear: 5999, w_elastic: 995_000, w_plastic: 1_307_000, inertia: 176_950_000, inertia_x: 353_890_000 }),
        ("CHS 355.6x12.5", CrsCHS { diameter: 3556, thickness_wall: 125, area: 13_500, area_shear: 6799, w_elastic: 1_117_000, w_plastic: 1_472_000, inertia: 198_520_000, inertia_x: 397_040_000 }),
        ("CHS 355.6x14.2", CrsCHS { diameter: 3556, thickness_wall: 142, area: 15_200, area_shear: 7699, w_elastic: 1_250_000, w_plastic: 1_656_000, inertia: 222_270_000, inertia_x: 444_550_000 }),
        ("CHS 355.6x16", CrsCHS { diameter: 3556, thickness_wall: 160, area: 17_100, area_shear: 8647, w_elastic: 1_387_000, w_plastic: 1_847_000, inertia: 246_630_000, inertia_x: 493_260_000 }),
        ("CHS 406.4x10", CrsCHS { diameter: 4064, thickness_wall: 100, area: 12_500, area_shear: 6258, w_elastic: 1_205_000, w_plastic: 1_572_000, inertia: 244_760_000, inertia_x: 489_520_000 }),
        ("CHS 406.4x11", CrsCHS { diameter: 4064, thickness_wall: 110, area: 13_700, area_shear: 6873, w_elastic: 1_315_000, w_plastic: 1_720_000, inertia: 267_240_000, inertia_x: 534_480_000 }),
        ("CHS 406.4x12.5", CrsCHS { diameter: 4064, thickness_wall: 125, area: 15_500, area_shear: 7792, w_elastic: 1_478_000, w_plastic: 1_940_000, inertia: 300_310_000, inertia_x: 600_610_000 }),
        ("CHS 406.4x14.2", CrsCHS { diameter: 4064, thickness_wall: 142, area: 17_500, area_shear: 8828, w_elastic: 1_658_000, w_plastic: 2_185_000, inertia: 336_850_000, inertia_x: 673_710_000 }),
        ("CHS 406.4x16", CrsCHS { diameter: 4064, thickness_wall: 160, area: 19_600, area_shear: 9919, w_elastic: 1_843_000, w_plastic: 2_440_000, inertia: 374_490_000, inertia_x: 748_980_000 }),
        ("CHS 457x10", CrsCHS { diameter: 4570, thickness_wall: 100, area: 14_000, area_shear: 7048, w_elastic: 1_536_000, w_plastic: 1_998_000, inertia: 350_910_000, inertia_x: 701_830_000 }),
        ("CHS 457x11", CrsCHS { diameter: 4570, thickness_wall: 110, area: 15_400, area_shear: 7743, w_elastic: 1_678_000, w_plastic: 2_189_000, inertia: 383_460_000, inertia_x: 766_920_000 }),
        ("CHS 457x12.5", CrsCHS { diameter: 4570, thickness_wall: 125, area: 17_500, area_shear: 8781, w_elastic: 1_888_000, w_plastic: 2_470_000, inertia: 431_450_000, inertia_x: 862_900_000 }),
        ("CHS 457x14.2", CrsCHS { diameter: 4570, thickness_wall: 142, area: 19_800, area_shear: 9952, w_elastic: 2_121_000, w_plastic: 2_785_000, inertia: 484_640_000, inertia_x: 969_280_000 }),
        ("CHS 457x16", CrsCHS { diameter: 4570, thickness_wall: 160, area: 22_200, area_shear: 11_185, w_elastic: 2_361_000, w_plastic: 3_113_000, inertia: 539_590_000, inertia_x: 1_079_190_000 }),
        ("CHS 508x10", CrsCHS { diameter: 5080, thickness_wall: 100, area: 15_600, area_shear: 7845, w_elastic: 1_910_000, w_plastic: 2_480_000, inertia: 485_200_000, inertia_x: 970_400_000 }),
        ("CHS 508x11", CrsCHS { diameter: 5080, thickness_wall: 110, area: 17_200, area_shear: 8620, w_elastic: 2_089_000, w_plastic: 2_718_000, inertia: 530_560_000, inertia_x: 1_061_120_000 }),
        ("CHS 508x12.5", CrsCHS { diameter: 5080, thickness_wall: 125, area: 19_500, area_shear: 9778, w_elastic: 2_353_000, w_plastic: 3_070_000, inertia: 597_550_000, inertia_x: 1_195_110_000 }),
        ("CHS 508x14.2", CrsCHS { diameter: 5080, thickness_wall: 142, area: 22_000, area_shear: 11_085, w_elastic: 2_646_000, w_plastic: 3_463_000, inertia: 671_990_000, inertia_x: 1_343_970_000 }),
        ("CHS 508x16", CrsCHS { diameter: 5080, thickness_wall: 160, area: 24_700, area_shear: 12_461, w_elastic: 2_949_000, w_plastic: 3_874_000, inertia: 749_090_000, inertia_x: 1_498_180_000 }),
    ]
}

/// The CHS catalog, in catalog order.
pub open spec fn chs_table() -> Seq<(&'static str, CrsCHS)> {
    chs_table_0() + chs_table_1() + chs_table_2() + chs_table_3() + chs_table_4() + chs_table_5() + chs_table_6()
}

/// The names of a list of rows.
pub open spec fn row_names<T>(rows: Seq<(&'static str, T)>) -> Seq<&'static str> {
    rows.map_values(|e: (&'static str, T)| e.0)
}

/// The names of the HEB catalog, in catalog order.
pub open spec fn heb_names() -> Seq<&'static str> {
    row_names(heb_table())
}

/// The names of the CHS catalog, in catalog order.
pub open spec fn chs_names() -> Seq<&'static str> {
    row_names(chs_table())
}

fn push_heb_rows_0(v: &mut Vec<(&'static str, CrsHEB)>)
    requires
        forall|i: int| 0 <= i < old(v)@.len() ==> CrossSection::Heb(#[trigger] old(v)@[i].1).wf(),
    ensures
        final(v)@ == old(v)@ + heb_table_0(),
        forall|i: int| 0 <= i < final(v)@.len() ==> CrossSection::Heb(#[trigger] final(v)@[i].1).wf(),
{
    let ghost start = v@;
    v.push(("HEB 100", CrsHEB { width: 1000, height: 1000, thickness_web: 60, thickness_flange: 100, radius: 120, area: 2600, area_shear_y: 2000, w_elastic_y: 89_900, w_plastic_y: 104_000, inertia_y: 4_500_000, area_shear_z: 540, w_elastic_z: 33_500, w_plastic_z: 51_000, inertia_z: 1_670_000 }));
    v.push(("HEB 120", CrsHEB { width: 1200, height: 1200, thickness_web: 65, thickness_flange: 110, radius: 120, area: 3400, area_shear_y: 2640, w_elastic_y: 144_000, w_plastic_y: 165_000, inertia_y: 8_640_000, area_shear_z: 708, w_elastic_z: 52_900, w_plastic_z: 81_000, inertia_z: 3_180_000 }));
    v.push(("HEB 140", CrsHEB { width: 1400, height: 1400, thickness_web: 70, thickness_flange: 120, radius: 120, area: 4300, area_shear_y: 3360, w_elastic_y: 216_000, w_plastic_y: 246_000, inertia_y: 15_100_000, area_shear_z: 896, w_elastic_z: 78_500, w_plastic_z: 120_000, inertia_z: 5_500_000 }));
    v.push(("HEB 160", CrsHEB { width: 1600, height: 1600, thickness_web: 80, thickness_flange: 130, radius: 150, area: 5430, area_shear_y: 4160, w_elastic_y: 311_000, w_plastic_y: 354_000, inertia_y: 24_900_000, area_shear_z: 1176, w_elastic_z: 111_000, w_plastic_z: 170_000, inertia_z: 8_890_000 }));
    v.push(("HEB 180", CrsHEB { width: 1800, height: 1800, thickness_web: 85, thickness_flange: 140, radius: 150, area: 6530, area_shear_y: 5040, w_elastic_y: 426_000, w_plastic_y: 482_000, inertia_y: 38_300_000, area_shear_z: 1411, w_elastic_z: 151_000, w_plastic_z: 231_000, inertia_z: 13_600_000 }));
    v.push(("HEB 200", CrsHEB { width: 2000, height: 2000, thickness_web: 90, thickness_flange: 150, radius: 180, area: 7810, area_shear_y: 6000, w_elastic_y: 570_000, w_plastic_y: 642_000, inertia_y: 57_000_000, area_shear_z: 1665, w_elastic_z: 200_000, w_plastic_z: 306_000, inertia_z: 20_000_000 }));
    v.push(("HEB 220", CrsHEB { width: 2200, height: 2200, thickness_web: 95, thickness_flange: 160, radius: 180, area: 9100, area_shear_y: 7040, w_elastic_y: 736_000, w_plastic_y: 828_000, inertia_y: 80_900_000, area_shear_z: 1938, w_elastic_z: 258_000, w_plastic_z: 394_000, inertia_z: 28_400_000 }));
    v.push(("HEB 240", CrsHEB { width: 2400, height: 2400, thickness_web: 100, thickness_flange: 170, radius: 210, area: 10_600, area_shear_y: 8160, w_elastic_y: 938_000, w_plastic_y: 1_050_000, inertia_y: 112_600_000, area_shear_z: 2230, w_elastic_z: 327_000, w_plastic_z: 499_000, inertia_z: 39_200_000 }));
    v.push(("HEB 260", CrsHEB { width: 2600, height: 2600, thickness_web: 100, thickness_flange: 175, radius: 240, area: 11_800, area_shear_y: 9100, w_elastic_y: 1_150_000, w_plastic_y: 1_280_000, inertia_y: 149_200_000, area_shear_z: 2425, w_elastic_z: 395_000, w_plastic_z: 603_000, inertia_z: 51_300_000 }));
    v.push(("HEB 280", CrsHEB { width: 2800, height: 2800, thickness_web: 105, thickness_flange: 180, radius: 240, area: 13_100, area_shear_y: 10_080, w_elastic_y: 1_380_000, w_plastic_y: 1_530_000, inertia_y: 192_700_000, area_shear_z: 2751, w_elastic_z: 471_000, w_plastic_z: 718_000, inertia_z: 65_900_000 }));
    v.push(("HEB 300", CrsHEB { width: 3000, height: 3000, thickness_web: 110, thickness_flange: 190, radius: 270, area: 14_900, area_shear_y: 11_400, w_elastic_y: 1_680_000, w_plastic_y: 1_870_000, inertia_y: 251_700_000, area_shear_z: 3091, w_elastic_z: 571_000, w_plastic_z: 871_000, inertia_z: 85_600_000 }));
    v.push(("HEB 320", CrsHEB { width: 3000, height: 3200, thickness_web: 115, thickness_flange: 205, radius: 270, area: 16_100, area_shear_y: 12_300, w_elastic_y: 1_930_000, w_plastic_y: 2_140_000, inertia_y: 308_200_000, area_shear_z: 3444, w_elastic_z: 616_000, w_plastic_z: 940_000, inertia_z: 92_400_000 }));
    v.push(("HEB 340", CrsHEB { width: 3000, height: 3400, thickness_web: 120, thickness_flange: 215, radius: 270, area: 17_100, area_shear_y: 12_900, w_elastic_y: 2_160_000, w_plastic_y: 2_400_000, inertia_y: 366_600_000, area_shear_z: 3822, w_elastic_z: 646_000, w_plastic_z: 986_000, inertia_z: 96_900_000 }));
    v.push(("HEB 360", CrsHEB { width: 3000, height: 3600, thickness_web: 125, thickness_flange: 225, radius: 270, area: 18_100, area_shear_y: 13_500, w_elastic_y: 2_400_000, w_plastic_y: 2_680_000, inertia_y: 431_900_000, area_shear_z: 4219, w_elastic_z: 676_000, w_plastic_z: 1_030_000, inertia_z: 101_400_000 }));
    v.push(("HEB 400", CrsHEB { width: 3000, height: 4000, thickness_web: 135, thickness_flange: 240, radius: 270, area: 19_800, area_shear_y: 14_400, w_elastic_y: 2_880_000, w_plastic_y: 3_240_000, inertia_y: 576_800_000, area_shear_z: 5076, w_elastic_z: 721_000, w_plastic_z: 1_100_000, inertia_z: 108_200_000 }));
    v.push(("HEB 450", CrsHEB { width: 3000, height: 4500, thickness_web: 140, thickness_flange: 260, radius: 270, area: 21_800, area_shear_y: 15_600, w_elastic_y: 3_550_000, w_plastic_y: 3_980_000, inertia_y: 798_900_000, area_shear_z: 5936, w_elastic_z: 781_000, w_plastic_z: 1_200_000, inertia_z: 117_200_000 }));
    v.push(("HEB 500", CrsHEB { width: 3000, height: 5000, thickness_web: 145, thickness_flange: 280, radius: 270, area: 23_900, area_shear_y: 16_800, w_elastic_y: 4_290_000, w_plastic_y: 4_820_000, inertia_y: 1_072_000_000, area_shear_z: 6844, w_elastic_z: 842_000, w_plastic_z: 1_290_000, inertia_z: 126_200_000 }));
    v.push(("HEB 550", CrsHEB { width: 3000, height: 5500, thickness_web: 150, thickness_flange: 290, radius: 270, area: 25_400, area_shear_y: 17_400, w_elastic_y: 4_970_000, w_plastic_y: 5_600_000, inertia_y: 1_367_000_000, area_shear_z: 7815, w_elastic_z: 872_000, w_plastic_z: 1_340_000, inertia_z: 130_800_000 }));
    v.push(("HEB 600", CrsHEB { width: 3000, height: 6000, thickness_web: 155, thickness_flange: 300, radius: 270, area: 27_000, area_shear_y: 18_000, w_elastic_y: 5_700_000, w_plastic_y: 6_420_000, inertia_y: 1_710_000_000, area_shear_z: 8835, w_elastic_z: 902_000, w_plastic_z: 1_390_000, inertia_z: 135_300_000 }));
    v.push(("HEB 650", CrsHEB { width: 3000, height: 6500, thickness_web: 160, thickness_flange: 310, radius: 270, area: 28_600, area_shear_y: 18_600, w_elastic_y: 6_480_000, w_plastic_y: 7_320_000, inertia_y: 2_106_000_000, area_shear_z: 9904, w_elastic_z: 932_000, w_plastic_z: 1_440_000, inertia_z: 139_800_000 }));
    v.push(("HEB 700", CrsHEB { width: 3000, height: 7000, thickness_web: 170, thickness_flange: 320, radius: 270, area: 30_600, area_shear_y: 19_200, w_elastic_y: 7_340_000, w_plastic_y: 8_320_000, inertia_y: 2_569_000_000, area_shear_z: 11_356, w_elastic_z: 963_000, w_plastic_z: 1_490_000, inertia_z: 144_400_000 }));
    v.push(("HEB 800", CrsHEB { width: 3000, height: 8000, thickness_web: 175, thickness_flange: 330, radius: 300, area: 33_400, area_shear_y: 19_800, w_elastic_y: 8_980_000, w_plastic_y: 10_220_000, inertia_y: 3_591_000_000, area_shear_z: 13_422, w_elastic_z: 994_000, w_plastic_z: 1_550_000, inertia_z: 149_000_000 }));
    v.push(("HEB 900", CrsHEB { width: 3000, height: 9000, thickness_web: 185, thickness_flange: 350, radius: 300, area: 37_100, area_shear_y: 21_000, w_elastic_y: 10_980_000, w_plastic_y: 12_580_000, inertia_y: 4_941_000_000, area_shear_z: 16_002, w_elastic_z: 1_050_000, w_plastic_z: 1_660_000, inertia_z: 158_200_000 }));
    v.push(("HEB 1000", CrsHEB { width: 3000, height: 10_000, thickness_web: 190, thickness_flange: 360, radius: 300, area: 40_000, area_shear_y: 21_600, w_elastic_y: 12_890_000, w_plastic_y: 14_860_000, inertia_y: 6_447_000_000, area_shear_z: 18_316, w_elastic_z: 1_090_000, w_plastic_z: 1_710_000, inertia_z: 162_800_000 }));
    assert(v@ =~= start + heb_table_0());
}

/// The rows of the HEB catalog, in catalog order.
pub fn heb_rows() -> (r: Vec<(&'static str, CrsHEB)>)
    ensures
        r@ == heb_table(),
        forall|i: int| 0 <= i < r@.len() ==> CrossSection::Heb(#[trigger] r@[i].1).wf(),
{
    let mut v: Vec<(&'static str, CrsHEB)> = Vec::new();
    push_heb_rows_0(&mut v);
    assert(v@ =~= heb_table());
    v
}

fn push_chs_rows_0(v: &mut Vec<(&'static str, CrsCHS)>)
    requires
        forall|i: int| 0 <= i < old(v)@.len() ==> CrossSection::Chs(#[trigger] old(v)@[i].1).wf(),
    ensures
        final(v)@ == old(v)@ + chs_table_0(),
        forall|i: int| 0 <= i < final(v)@.len() ==> CrossSection::Chs(#[trigger] final(v)@[i].1).wf(),
{
    let ghost start = v@;
    v.push(("CHS 21.3x2.6", CrsCHS { diameter: 213, thickness_wall: 26, area: 153, area_shear: 81, w_elastic: 640, w_plastic: 920, inertia: 6800, inertia_x: 13_600 }));
    v.push(("CHS 21.3x2.9", CrsCHS { diameter: 213, thickness_wall: 29, area: 168, area_shear: 90, w_elastic: 680, w_plastic: 990, inertia: 7300, inertia_x: 14_500 }));
    v.push(("CHS 21.3x3.2", CrsCHS { diameter: 213, thickness_wall: 32, area: 182, area_shear: 99, w_elastic: 720, w_plastic: 1060, inertia: 7700, inertia_x: 15_400 }));
    v.push(("CHS 26.9x2.6", CrsCHS { diameter: 269, thickness_wall: 26, area: 198, area_shear: 103, w_elastic: 1100, w_plastic: 1540, inertia: 14_800, inertia_x: 29_600 }));
    v.push(("CHS 26.9x2.9", CrsCHS { diameter: 269, thickness_wall: 29, area: 219, area_shear: 115, w_elastic: 1190, w_plastic: 1680, inertia: 16_000, inertia_x: 31_900 }));
    v.push(("CHS 26.9x3.2", CrsCHS { diameter: 269, thickness_wall: 32, area: 238, area_shear: 126, w_elastic: 1270, w_plastic: 1810, inertia: 17_000, inertia_x: 34_100 }));
    v.push(("CHS 26.9x3.6", CrsCHS { diameter: 269, thickness_wall: 36, area: 264, area_shear: 141, w_elastic: 1360, w_plastic: 1970, inertia: 18_300, inertia_x: 36_600 }));
    v.push(("CHS 33.7x2.6", CrsCHS { diameter: 337, thickness_wall: 26, area: 254, area_shear: 130, w_elastic: 1840, w_plastic: 2520, inertia: 30_900, inertia_x: 61_900 }));
    v.push(("CHS 33.7x2.9", CrsCHS { diameter: 337, thickness_wall: 29, area: 281, area_shear: 145, w_elastic: 1990, w_plastic: 2760, inertia: 33_600, inertia_x: 67_100 }));
    v.push(("CHS 33.7x3.2", CrsCHS { diameter: 337, thickness_wall: 32, area: 307, area_shear: 159, w_elastic: 2140, w_plastic: 2990, inertia: 36_000, inertia_x: 72_100 }));
    v.push(("CHS 33.7x3.6", CrsCHS { diameter: 337, thickness_wall: 36, area: 340, area_shear: 178, w_elastic: 2320, w_plastic: 3280, inertia: 39_100, inertia_x: 78_200 }));
    v.push(("CHS 33.7x4", CrsCHS { diameter: 337, thickness_wall: 40, area: 373, area_shear: 198, w_elastic: 2490, w_plastic: 3550, inertia: 41_900, inertia_x: 83_800 }));
    v.push(("CHS 33.7x4.5", CrsCHS { diameter: 337, thickness_wall: 45, area: 413, area_shear: 221, w_elastic: 2670, w_plastic: 3870, inertia: 45_000, inertia_x: 90_100 }));
    v.push(("CHS 42.4x2.6", CrsCHS { diameter: 424, thickness_wall: 26, area: 325, area_shear: 166, w_elastic: 3050, w_plastic: 4120, inertia: 64_600, inertia_x: 129_000 }));
    v.push(("CHS 42.4x2.9", CrsCHS { diameter: 424, thickness_wall: 29, area: 360, area_shear: 184, w_elastic: 3330, w_plastic: 4530, inertia: 70_600, inertia_x: 141_000 }));
    v.push(("CHS 42.4x3.2", CrsCHS { diameter: 424, thickness_wall: 32, area: 394, area_shear: 203, w_elastic: 3590, w_plastic: 4930, inertia: 76_200, inertia_x: 152_000 }));
    v.push(("CHS 42.4x3.6", CrsCHS { diameter: 424, thickness_wall: 36, area: 439, area_shear: 227, w_elastic: 3930, w_plastic: 5440, inertia: 83_300, inertia_x: 167_000 }));
    v.push(("CHS 42.4x4", CrsCHS { diameter: 424, thickness_wall: 40, area: 483, area_shear: 251, w_elastic: 4240, w_plastic: 5920, inertia: 89_900, inertia_x: 180_000 }));
    v.push(("CHS 42.4x4.5", CrsCHS { diameter: 424, thickness_wall: 45, area: 536, area_shear: 281, w_elastic: 4600, w_plastic: 6490, inertia: 97_600, inertia_x: 195_000 }));
    v.push(("CHS 48.3x2.6", CrsCHS { diameter: 483, thickness_wall: 26, area: 373, area_shear: 190, w_elastic: 4050, w_plastic: 5440, inertia: 97_800, inertia_x: 196_000 }));
    v.push(("CHS 48.3x2.9", CrsCHS { diameter: 483, thickness_wall: 29, area: 414, area_shear: 211, w_elastic: 4430, w_plastic: 5990, inertia: 107_000, inertia_x: 214_000 }));
    v.push(("CHS 48.3x3.2", CrsCHS { diameter: 483, thickness_wall: 32, area: 453, area_shear: 232, w_elastic: 4800, w_plastic: 6520, inertia: 116_000, inertia_x: 232_000 }));
    v.push(("CHS 48.3x3.6", CrsCHS { diameter: 483, thickness_wall: 36, area: 506, area_shear: 259, w_elastic: 5260, w_plastic: 7210, inertia: 127_000, inertia_x: 254_000 }));
    v.push(("CHS 48.3x4", CrsCHS { diameter: 483, thickness_wall: 40, area: 557, area_shear: 289, w_elastic: 5700, w_plastic: 7870, inertia: 138_000, inertia_x: 275_000 }));
    assert(v@ =~= start + chs_table_0());
}

fn push_chs_rows_1(v: &mut Vec<(&'static str, CrsCHS)>)
    requires
        forall|i: int| 0 <= i < old(v)@.len() ==> CrossSection::Chs(#[trigger] old(v)@[i].1).wf(),
    ensures
        final(v)@ == old(v)@ + chs_table_1(),
        forall|i: int| 0 <= i < final(v)@.len() ==> CrossSection::Chs(#[trigger] final(v)@[i].1).wf(),
{
    let ghost start = v@;
    v.push(("CHS 48.3x4.5", CrsCHS { diameter: 483, thickness_wall: 45, area: 619, area_shear: 321, w_elastic: 6210, w_plastic: 8660, inertia: 150_000, inertia_x: 300_000 }));
    v.push(("CHS 48.3x5", CrsCHS { diameter: 483, thickness_wall: 50, area: 680, area_shear: 358, w_elastic: 6690, w_plastic: 9420, inertia: 162_000, inertia_x: 323_000 }));
    v.push(("CHS 48.3x5.6", CrsCHS { diameter: 483, thickness_wall: 56, area: 751, area_shear: 396, w_elastic: 7210, w_plastic: 10_300, inertia: 174_000, inertia_x: 348_000 }));
    v.push(("CHS 48.3x6.3", CrsCHS { diameter: 483, thickness_wall: 63, area: 831, area_shear: 442, w_elastic: 7760, w_plastic: 11_200, inertia: 187_000, inertia_x: 375_000 }));
    v.push(("CHS 60.3x2.6", CrsCHS { diameter: 603, thickness_wall: 26, area: 471, area_shear: 240, w_elastic: 6520, w_plastic: 8660, inertia: 197_000, inertia_x: 393_000 }));
    v.push(("CHS 60.3x2.9", CrsCHS { diameter: 603, thickness_wall: 29, area: 523, area_shear: 265, w_elastic: 7160, w_plastic: 9560, inertia: 216_000, inertia_x: 432_000 }));
    v.push(("CHS 60.3x3.2", CrsCHS { diameter: 603, thickness_wall: 32, area: 574, area_shear: 293, w_elastic: 7780, w_plastic: 10_400, inertia: 235_000, inertia_x: 469_000 }));
    v.push(("CHS 60.3x3.6", CrsCHS { diameter: 603, thickness_wall: 36, area: 641, area_shear: 328, w_elastic: 8580, w_plastic: 11_600, inertia: 259_000, inertia_x: 517_000 }));
    v.push(("CHS 60.3x4", CrsCHS { diameter: 603, thickness_wall: 40, area: 707, area_shear: 363, w_elastic: 9340, w_plastic: 12_700, inertia: 282_000, inertia_x: 563_000 }));
    v.push(("CHS 60.3x4.5", CrsCHS { diameter: 603, thickness_wall: 45, area: 789, area_shear: 405, w_elastic: 10_200, w_plastic: 14_000, inertia: 309_000, inertia_x: 618_000 }));
    v.push(("CHS 60.3x5", CrsCHS { diameter: 603, thickness_wall: 50, area: 869, area_shear: 449, w_elastic: 11_100, w_plastic: 15_300, inertia: 335_000, inertia_x: 670_000 }));
    v.push(("CHS 60.3x5.6", CrsCHS { diameter: 603, thickness_wall: 56, area: 962, area_shear: 501, w_elastic: 12_100, w_plastic: 16_800, inertia: 364_000, inertia_x: 727_000 }));
    v.push(("CHS 60.3x6.3", CrsCHS { diameter: 603, thickness_wall: 63, area: 1070, area_shear: 560, w_elastic: 13_100, w_plastic: 18_500, inertia: 395_000, inertia_x: 790_000 }));
    v.push(("CHS 60.3x7.1", CrsCHS { diameter: 603, thickness_wall: 71, area: 1190, area_shear: 627, w_elastic: 14_200, w_plastic: 20_200, inertia: 427_000, inertia_x: 855_000 }));
    v.push(("CHS 60.3x8", CrsCHS { diameter: 603, thickness_wall: 80, area: 1310, area_shear: 704, w_elastic: 15_300, w_plastic: 22_100, inertia: 460_000, inertia_x: 920_000 }));
    v.push(("CHS 76.1x2.9", CrsCHS { diameter: 761, thickness_wall: 29, area: 667, area_shear: 336, w_elastic: 11_800, w_plastic: 15_500, inertia: 447_000, inertia_x: 895_000 }));
    v.push(("CHS 76.1x3.2", CrsCHS { diameter: 761, thickness_wall: 32, area: 733, area_shear: 371, w_elastic: 12_800, w_plastic: 17_000, inertia: 488_000, inertia_x: 976_000 }));
    v.push(("CHS 76.1x3.6", CrsCHS { diameter: 761, thickness_wall: 36, area: 820, area_shear: 416, w_elastic: 14_200, w_plastic: 18_900, inertia: 540_000, inertia_x: 1_080_000 }));
    v.push(("CHS 76.1x4", CrsCHS { diameter: 761, thickness_wall: 40, area: 906, area_shear: 461, w_elastic: 15_500, w_plastic: 20_800, inertia: 591_000, inertia_x: 1_180_000 }));
    v.push(("CHS 76.1x4.5", CrsCHS { diameter: 761, thickness_wall: 45, area: 1010, area_shear: 516, w_elastic: 17_100, w_plastic: 23_100, inertia: 651_000, inertia_x: 1_300_000 }));
    v.push(("CHS 76.1x5", CrsCHS { diameter: 761, thickness_wall: 50, area: 1120, area_shear: 571, w_elastic: 18_600, w_plastic: 25_300, inertia: 709_000, inertia_x: 1_420_000 }));
    v.push(("CHS 76.1x5.6", CrsCHS { diameter: 761, thickness_wall: 56, area: 1240, area_shear: 636, w_elastic: 20_400, w_plastic: 27_900, inertia: 775_000, inertia_x: 1_550_000 }));
    v.push(("CHS 76.1x6.3", CrsCHS { diameter: 761, thickness_wall: 63, area: 1380, area_shear: 713, w_elastic: 22_300, w_plastic: 30_800, inertia: 848_000, inertia_x: 1_700_000 }));
    v.push(("CHS 76.1x7.1", CrsCHS { diameter: 761, thickness_wall: 71, area: 1540, area_shear: 800, w_elastic: 24_300, w_plastic: 33_900, inertia: 926_000, inertia_x: 1_850_000 }));
    assert(v@ =~= start + chs_table_1());
}

fn push_chs_rows_2(v: &mut Vec<(&'static str, CrsCHS)>)
    requires
        forall|i: int| 0 <= i < old(v)@.len() ==> CrossSection::Chs(#[trigger] old(v)@[i].1).wf(),
    ensures
        final(v)@ == old(v)@ + chs_table_2(),
        forall|i: int| 0 <= i < final(v)@.len() ==> CrossSection::Chs(#[trigger] final(v)@[i].1).wf(),
{
    let ghost start = v@;
    v.push(("CHS 76.1x8", CrsCHS { diameter: 761, thickness_wall: 80, area: 1710, area_shear: 904, w_elastic: 26_400, w_plastic: 37_300, inertia: 1_010_000, inertia_x: 2_010_000 }));
    v.push(("CHS 88.9x2.9", CrsCHS { diameter: 889, thickness_wall: 29, area: 784, area_shear: 395, w_elastic: 16_300, w_plastic: 21_500, inertia: 725_000, inertia_x: 1_450_000 }));
    v.push(("CHS 88.9x3.2", CrsCHS { diameter: 889, thickness_wall: 32, area: 862, area_shear: 435, w_elastic: 17_800, w_plastic: 23_500, inertia: 792_000, inertia_x: 1_580_000 }));
    v.push(("CHS 88.9x3.6", CrsCHS { diameter: 889, thickness_wall: 36, area: 965, area_shear: 488, w_elastic: 19_800, w_plastic: 26_200, inertia: 879_000, inertia_x: 1_760_000 }));
    v.push(("CHS 88.9x4", CrsCHS { diameter: 889, thickness_wall: 40, area: 1070, area_shear: 540, w_elastic: 21_700, w_plastic: 28_900, inertia: 963_000, inertia_x: 1_930_000 }));
    v.push(("CHS 88.9x4.5", CrsCHS { diameter: 889, thickness_wall: 45, area: 1190, area_shear: 611, w_elastic: 24_000, w_plastic: 32_100, inertia: 1_070_000, inertia_x: 2_130_000 }));
    v.push(("CHS 88.9x5", CrsCHS { diameter: 889, thickness_wall: 50, area: 1320, area_shear: 667, w_elastic: 26_200, w_plastic: 35_200, inertia: 1_160_000, inertia_x: 2_330_000 }));
    v.push(("CHS 88.9x5.6", CrsCHS { diameter: 889, thickness_wall: 56, area: 1470, area_shear: 752, w_elastic: 28_700, w_plastic: 38_900, inertia: 1_280_000, inertia_x: 2_550_000 }));
    v.push(("CHS 88.9x6.3", CrsCHS { diameter: 889, thickness_wall: 63, area: 1630, area_shear: 835, w_elastic: 31_500, w_plastic: 43_100, inertia: 1_400_000, inertia_x: 2_800_000 }));
    v.push(("CHS 88.9x7.1", CrsCHS { diameter: 889, thickness_wall: 71, area: 1820, area_shear: 943, w_elastic: 34_600, w_plastic: 47_600, inertia: 1_540_000, inertia_x: 3_080_000 }));
    v.push(("CHS 88.9x8", CrsCHS { diameter: 889, thickness_wall: 80, area: 2030, area_shear: 1054, w_elastic: 37_800, w_plastic: 52_500, inertia: 1_680_000, inertia_x: 3_360_000 }));
    v.push(("CHS 101.6x3.6", CrsCHS { diameter: 1016, thickness_wall: 36, area: 1110, area_shear: 557, w_elastic: 26_200, w_plastic: 34_600, inertia: 1_330_000, inertia_x: 2_660_000 }));
    v.push(("CHS 101.6x4", CrsCHS { diameter: 1016, thickness_wall: 40, area: 1230, area_shear: 617, w_elastic: 28_800, w_plastic: 38_100, inertia: 1_460_000, inertia_x: 2_930_000 }));
    v.push(("CHS 101.6x4.5", CrsCHS { diameter: 1016, thickness_wall: 45, area: 1370, area_shear: 694, w_elastic: 31_900, w_plastic: 42_500, inertia: 1_620_000, inertia_x: 3_240_000 }));
    v.push(("CHS 101.6x5", CrsCHS { diameter: 1016, thickness_wall: 50, area: 1520, area_shear: 766, w_elastic: 34_900, w_plastic: 46_700, inertia: 1_770_000, inertia_x: 3_550_000 }));
    v.push(("CHS 101.6x5.6", CrsCHS { diameter: 1016, thickness_wall: 56, area: 1690, area_shear: 857, w_elastic: 38_400, w_plastic: 51_700, inertia: 1_950_000, inertia_x: 3_900_000 }));
    v.push(("CHS 101.6x6.3", CrsCHS { diameter: 1016, thickness_wall: 63, area: 1890, area_shear: 962, w_elastic: 42_300, w_plastic: 57_300, inertia: 2_150_000, inertia_x: 4_300_000 }));
    v.push(("CHS 101.6x7.1", CrsCHS { diameter: 1016, thickness_wall: 71, area: 2110, area_shear: 1083, w_elastic: 46_600, w_plastic: 63_500, inertia: 2_370_000, inertia_x: 4_730_000 }));
    v.push(("CHS 101.6x8", CrsCHS { diameter: 1016, thickness_wall: 80, area: 2350, area_shear: 1216, w_elastic: 51_100, w_plastic: 70_300, inertia: 2_600_000, inertia_x: 5_190_000 }));
    v.push(("CHS 114.3x3.6", CrsCHS { diameter: 1143, thickness_wall: 36, area: 1250, area_shear: 631, w_elastic: 33_600, w_plastic: 44_100, inertia: 1_920_000, inertia_x: 3_840_000 }));
    v.push(("CHS 114.3x4", CrsCHS { diameter: 1143, thickness_wall: 40, area: 1390, area_shear: 699, w_elastic: 36_900, w_plastic: 48_700, inertia: 2_110_000, inertia_x: 4_220_000 }));
    v.push(("CHS 114.3x4.5", CrsCHS { diameter: 1143, thickness_wall: 45, area: 1550, area_shear: 782, w_elastic: 41_000, w_plastic: 54_300, inertia: 2_340_000, inertia_x: 4_690_000 }));
    v.push(("CHS 114.3x5", CrsCHS { diameter: 1143, thickness_wall: 50, area: 1720, area_shear: 870, w_elastic: 45_000, w_plastic: 59_800, inertia: 2_570_000, inertia_x: 5_140_000 }));
    v.push(("CHS 114.3x5.6", CrsCHS { diameter: 1143, thickness_wall: 56, area: 1910, area_shear: 969, w_elastic: 49_600, w_plastic: 66_200, inertia: 2_830_000, inertia_x: 5_660_000 }));
    assert(v@ =~= start + chs_table_2());
}

fn push_chs_rows_3(v: &mut Vec<(&'static str, CrsCHS)>)
    requires
        forall|i: int| 0 <= i < old(v)@.len() ==> CrossSection::Chs(#[trigger] old(v)@[i].1).wf(),
    ensures
        final(v)@ == old(v)@ + chs_table_3(),
        forall|i: int| 0 <= i < final(v)@.len() ==> CrossSection::Chs(#[trigger] final(v)@[i].1).wf(),
{
    let ghost start = v@;
    v.push(("CHS 114.3x6.3", CrsCHS { diameter: 1143, thickness_wall: 63, area: 2140, area_shear: 1090, w_elastic: 54_700, w_plastic: 73_600, inertia: 3_130_000, inertia_x: 6_250_000 }));
    v.push(("CHS 114.3x7.1", CrsCHS { diameter: 1143, thickness_wall: 71, area: 2390, area_shear: 1221, w_elastic: 60_400, w_plastic: 81_700, inertia: 3_450_000, inertia_x: 6_900_000 }));
    v.push(("CHS 114.3x8", CrsCHS { diameter: 1143, thickness_wall: 80, area: 2670, area_shear: 1365, w_elastic: 66_400, w_plastic: 90_600, inertia: 3_790_000, inertia_x: 7_590_000 }));
    v.push(("CHS 139.7x3.6", CrsCHS { diameter: 1397, thickness_wall: 36, area: 1540, area_shear: 775, w_elastic: 51_100, w_plastic: 66_700, inertia: 3_570_000, inertia_x: 7_130_000 }));
    v.push(("CHS 139.7x4", CrsCHS { diameter: 1397, thickness_wall: 40, area: 1710, area_shear: 859, w_elastic: 56_200, w_plastic: 73_700, inertia: 3_930_000, inertia_x: 7_860_000 }));
    v.push(("CHS 139.7x4.5", CrsCHS { diameter: 1397, thickness_wall: 45, area: 1910, area_shear: 962, w_elastic: 62_600, w_plastic: 82_300, inertia: 4_370_000, inertia_x: 8_740_000 }));
    v.push(("CHS 139.7x5", CrsCHS { diameter: 1397, thickness_wall: 50, area: 2120, area_shear: 1070, w_elastic: 68_800, w_plastic: 90_800, inertia: 4_810_000, inertia_x: 9_610_000 }));
    v.push(("CHS 139.7x5.6", CrsCHS { diameter: 1397, thickness_wall: 56, area: 2360, area_shear: 1192, w_elastic: 76_100, w_plastic: 101_000, inertia: 5_310_000, inertia_x: 10_620_000 }));
    v.push(("CHS 139.7x6.3", CrsCHS { diameter: 1397, thickness_wall: 63, area: 2640, area_shear: 1339, w_elastic: 84_300, w_plastic: 112_000, inertia: 5_890_000, inertia_x: 11_770_000 }));
    v.push(("CHS 139.7x7.1", CrsCHS { diameter: 1397, thickness_wall: 71, area: 2960, area_shear: 1502, w_elastic: 93_300, w_plastic: 125_000, inertia: 6_520_000, inertia_x: 13_040_000 }));
    v.push(("CHS 139.7x8", CrsCHS { diameter: 1397, thickness_wall: 80, area: 3310, area_shear: 1684, w_elastic: 103_000, w_plastic: 139_000, inertia: 7_200_000, inertia_x: 14_410_000 }));
    v.push(("CHS 139.7x10", CrsCHS { diameter: 1397, thickness_wall: 100, area: 4070, area_shear: 2090, w_elastic: 123_000, w_plastic: 169_000, inertia: 8_620_000, inertia_x: 17_240_000 }));
    v.push(("CHS 168.3x5", CrsCHS { diameter: 1683, thickness_wall: 50, area: 2570, area_shear: 1292, w_elastic: 102_000, w_plastic: 133_000, inertia: 8_560_000, inertia_x: 17_120_000 }));
    v.push(("CHS 168.3x5.6", CrsCHS { diameter: 1683, thickness_wall: 56, area: 2860, area_shear: 1443, w_elastic: 113_000, w_plastic: 148_000, inertia: 9_480_000, inertia_x: 18_970_000 }));
    v.push(("CHS 168.3x6.3", CrsCHS { diameter: 1683, thickness_wall: 63, area: 3210, area_shear: 1618, w_elastic: 125_000, w_plastic: 165_000, inertia: 10_530_000, inertia_x: 21_070_000 }));
    v.push(("CHS 168.3x7.1", CrsCHS { diameter: 1683, thickness_wall: 71, area: 3600, area_shear: 1819, w_elastic: 139_000, w_plastic: 185_000, inertia: 11_700_000, inertia_x: 23_400_000 }));
    v.push(("CHS 168.3x8", CrsCHS { diameter: 1683, thickness_wall: 80, area: 4030, area_shear: 2042, w_elastic: 154_000, w_plastic: 206_000, inertia: 12_970_000, inertia_x: 25_950_000 }));
    v.push(("CHS 168.3x10", CrsCHS { diameter: 1683, thickness_wall: 100, area: 4970, area_shear: 2535, w_elastic: 186_000, w_plastic: 251_000, inertia: 15_640_000, inertia_x: 31_280_000 }));
    v.push(("CHS 168.3x11", CrsCHS { diameter: 1683, thickness_wall: 110, area: 5440, area_shear: 2777, w_elastic: 201_000, w_plastic: 273_000, inertia: 16_890_000, inertia_x: 33_790_000 }));
    v.push(("CHS 168.3x12.5", CrsCHS { diameter: 1683, thickness_wall: 125, area: 6120, area_shear: 3141, w_elastic: 222_000, w_plastic: 304_000, inertia: 18_680_000, inertia_x: 37_370_000 }));
    v.push(("CHS 193.7x5", CrsCHS { diameter: 1937, thickness_wall: 50, area: 2960, area_shear: 1490, w_elastic: 136_000, w_plastic: 178_000, inertia: 13_200_000, inertia_x: 26_400_000 }));
    v.push(("CHS 193.7x5.6", CrsCHS { diameter: 1937, thickness_wall: 56, area: 3310, area_shear: 1666, w_elastic: 151_000, w_plastic: 198_000, inertia: 14_650_000, inertia_x: 29_300_000 }));
    v.push(("CHS 193.7x6.3", CrsCHS { diameter: 1937, thickness_wall: 63, area: 3710, area_shear: 1870, w_elastic: 168_000, w_plastic: 221_000, inertia: 16_300_000, inertia_x: 32_600_000 }));
    v.push(("CHS 193.7x7.1", CrsCHS { diameter: 1937, thickness_wall: 71, area: 4160, area_shear: 2101, w_elastic: 187_000, w_plastic: 247_000, inertia: 18_140_000, inertia_x: 36_280_000 }));
    assert(v@ =~= start + chs_table_3());
}

fn push_chs_rows_4(v: &mut Vec<(&'static str, CrsCHS)>)
    requires
        forall|i: int| 0 <= i < old(v)@.len() ==> CrossSection::Chs(#[trigger] old(v)@[i].1).wf(),
    ensures
        final(v)@ == old(v)@ + chs_table_4(),
        forall|i: int| 0 <= i < final(v)@.len() ==> CrossSection::Chs(#[trigger] final(v)@[i].1).wf(),
{
    let ghost start = v@;
    v.push(("CHS 193.7x8", CrsCHS { diameter: 1937, thickness_wall: 80, area: 4670, area_shear: 2362, w_elastic: 208_000, w_plastic: 276_000, inertia: 20_160_000, inertia_x: 40_310_000 }));
    v.push(("CHS 193.7x10", CrsCHS { diameter: 1937, thickness_wall: 100, area: 5770, area_shear: 2933, w_elastic: 252_000, w_plastic: 338_000, inertia: 24_420_000, inertia_x: 48_830_000 }));
    v.push(("CHS 193.7x11", CrsCHS { diameter: 1937, thickness_wall: 110, area: 6310, area_shear: 3215, w_elastic: 273_000, w_plastic: 368_000, inertia: 26_440_000, inertia_x: 52_880_000 }));
    v.push(("CHS 193.7x12.5", CrsCHS { diameter: 1937, thickness_wall: 125, area: 7120, area_shear: 3635, w_elastic: 303_000, w_plastic: 411_000, inertia: 29_340_000, inertia_x: 58_690_000 }));
    v.push(("CHS 193.7x14.2", CrsCHS { diameter: 1937, thickness_wall: 142, area: 8010, area_shear: 4110, w_elastic: 335_000, w_plastic: 458_000, inertia: 32_450_000, inertia_x: 64_910_000 }));
    v.push(("CHS 193.7x16", CrsCHS { diameter: 1937, thickness_wall: 160, area: 8930, area_shear: 4608, w_elastic: 367_000, w_plastic: 507_000, inertia: 35_540_000, inertia_x: 71_090_000 }));
    v.push(("CHS 219.1x4.5", CrsCHS { diameter: 2191, thickness_wall: 45, area: 3030, area_shear: 1521, w_elastic: 159_000, w_plastic: 207_000, inertia: 17_470_000, inertia_x: 34_940_000 }));
    v.push(("CHS 219.1x5", CrsCHS { diameter: 2191, thickness_wall: 50, area: 3360, area_shear: 1689, w_elastic: 176_000, w_plastic: 229_000, inertia: 19_280_000, inertia_x: 38_560_000 }));
    v.push(("CHS 219.1x5.6", CrsCHS { diameter: 2191, thickness_wall: 56, area: 3760, area_shear: 1889, w_elastic: 195_000, w_plastic: 255_000, inertia: 21_420_000, inertia_x: 42_830_000 }));
    v.push(("CHS 219.1x6.3", CrsCHS { diameter: 2191, thickness_wall: 63, area: 4210, area_shear: 2120, w_elastic: 218_000, w_plastic: 285_000, inertia: 23_860_000, inertia_x: 47_720_000 }));
    v.push(("CHS 219.1x7.1", CrsCHS { diameter: 2191, thickness_wall: 71, area: 4730, area_shear: 2384, w_elastic: 243_000, w_plastic: 319_000, inertia: 26_600_000, inertia_x: 53_190_000 }));
    v.push(("CHS 219.1x8", CrsCHS { diameter: 2191, thickness_wall: 80, area: 5310, area_shear: 2679, w_elastic: 270_000, w_plastic: 357_000, inertia: 29_600_000, inertia_x: 59_190_000 }));
    v.push(("CHS 219.1x10", CrsCHS { diameter: 2191, thickness_wall: 100, area: 6570, area_shear: 3328, w_elastic: 328_000, w_plastic: 438_000, inertia: 35_980_000, inertia_x: 71_970_000 }));
    v.push(("CHS 219.1x11", CrsCHS { diameter: 2191, thickness_wall: 110, area: 7190, area_shear: 3651, w_elastic: 356_000, w_plastic: 477_000, inertia: 39_040_000, inertia_x: 78_070_000 }));
    v.push(("CHS 219.1x12.5", CrsCHS { diameter: 2191, thickness_wall: 125, area: 8110, area_shear: 4132, w_elastic: 397_000, w_plastic: 534_000, inertia: 43_450_000, inertia_x: 86_890_000 }));
    v.push(("CHS 219.1x14.2", CrsCHS { diameter: 2191, thickness_wall: 142, area: 9140, area_shear: 4672, w_elastic: 440_000, w_plastic: 597_000, inertia: 48_200_000, inertia_x: 96_400_000 }));
    v.push(("CHS 219.1x16", CrsCHS { diameter: 2191, thickness_wall: 160, area: 10_200, area_shear: 5240, w_elastic: 483_000, w_plastic: 661_000, inertia: 52_970_000, inertia_x: 105_930_000 }));
    v.push(("CHS 244.5x5", CrsCHS { diameter: 2445, thickness_wall: 50, area: 3760, area_shear: 1888, w_elastic: 221_000, w_plastic: 287_000, inertia: 26_990_000, inertia_x: 53_970_000 }));
    v.push(("CHS 244.5x5.6", CrsCHS { diameter: 2445, thickness_wall: 56, area: 4200, area_shear: 2110, w_elastic: 245_000, w_plastic: 320_000, inertia: 30_000_000, inertia_x: 60_000_000 }));
    v.push(("CHS 244.5x6.3", CrsCHS { diameter: 2445, thickness_wall: 63, area: 4710, area_shear: 2370, w_elastic: 274_000, w_plastic: 358_000, inertia: 33_460_000, inertia_x: 66_920_000 }));
    v.push(("CHS 244.5x7.1", CrsCHS { diameter: 2445, thickness_wall: 71, area: 5300, area_shear: 2666, w_elastic: 305_000, w_plastic: 400_000, inertia: 37_340_000, inertia_x: 74_680_000 }));
    v.push(("CHS 244.5x8", CrsCHS { diameter: 2445, thickness_wall: 80, area: 5940, area_shear: 2996, w_elastic: 340_000, w_plastic: 448_000, inertia: 41_600_000, inertia_x: 83_210_000 }));
    v.push(("CHS 244.5x10", CrsCHS { diameter: 2445, thickness_wall: 100, area: 7370, area_shear: 3726, w_elastic: 415_000, w_plastic: 550_000, inertia: 50_730_000, inertia_x: 101_460_000 }));
    v.push(("CHS 244.5x11", CrsCHS { diameter: 2445, thickness_wall: 110, area: 8070, area_shear: 4088, w_elastic: 451_000, w_plastic: 600_000, inertia: 55_120_000, inertia_x: 110_230_000 }));
    assert(v@ =~= start + chs_table_4());
}

fn push_chs_rows_5(v: &mut Vec<(&'static str, CrsCHS)>)
    requires
        forall|i: int| 0 <= i < old(v)@.len() ==> CrossSection::Chs(#[trigger] old(v)@[i].1).wf(),
    ensures
        final(v)@ == old(v)@ + chs_table_5(),
        forall|i: int| 0 <= i < final(v)@.len() ==> CrossSection::Chs(#[trigger] final(v)@[i].1).wf(),
{
    let ghost start = v@;
    v.push(("CHS 244.5x12.5", CrsCHS { diameter: 2445, thickness_wall: 125, area: 9110, area_shear: 4626, w_elastic: 503_000, w_plastic: 673_000, inertia: 61_470_000, inertia_x: 122_950_000 }));
    v.push(("CHS 244.5x14.2", CrsCHS { diameter: 2445, thickness_wall: 142, area: 10_300, area_shear: 5234, w_elastic: 559_000, w_plastic: 754_000, inertia: 68_370_000, inertia_x: 136_740_000 }));
    v.push(("CHS 244.5x16", CrsCHS { diameter: 2445, thickness_wall: 160, area: 11_500, area_shear: 5872, w_elastic: 616_000, w_plastic: 837_000, inertia: 75_330_000, inertia_x: 150_660_000 }));
    v.push(("CHS 273x5", CrsCHS { diameter: 2730, thickness_wall: 50, area: 4210, area_shear: 2110, w_elastic: 277_000, w_plastic: 359_000, inertia: 37_810_000, inertia_x: 75_620_000 }));
    v.push(("CHS 273x5.6", CrsCHS { diameter: 2730, thickness_wall: 56, area: 4700, area_shear: 2360, w_elastic: 308_000, w_plastic: 400_000, inertia: 42_070_000, inertia_x: 84_130_000 }));
    v.push(("CHS 273x6.3", CrsCHS { diameter: 2730, thickness_wall: 63, area: 5280, area_shear: 2651, w_elastic: 344_000, w_plastic: 448_000, inertia: 46_960_000, inertia_x: 93_920_000 }));
    v.push(("CHS 273x7.1", CrsCHS { diameter: 2730, thickness_wall: 71, area: 5930, area_shear: 2982, w_elastic: 384_000, w_plastic: 502_000, inertia: 52_450_000, inertia_x: 104_910_000 }));
    v.push(("CHS 273x8", CrsCHS { diameter: 2730, thickness_wall: 80, area: 6660, area_shear: 3353, w_elastic: 429_000, w_plastic: 562_000, inertia: 58_520_000, inertia_x: 117_030_000 }));
    v.push(("CHS 273x10", CrsCHS { diameter: 2730, thickness_wall: 100, area: 8260, area_shear: 4172, w_elastic: 524_000, w_plastic: 692_000, inertia: 71_540_000, inertia_x: 143_080_000 }));
    v.push(("CHS 273x11", CrsCHS { diameter: 2730, thickness_wall: 110, area: 9050, area_shear: 4578, w_elastic: 570_000, w_plastic: 756_000, inertia: 77_830_000, inertia_x: 155_650_000 }));
    v.push(("CHS 273x12.5", CrsCHS { diameter: 2730, thickness_wall: 125, area: 10_200, area_shear: 5183, w_elastic: 637_000, w_plastic: 849_000, inertia: 86_970_000, inertia_x: 173_950_000 }));
    v.push(("CHS 273x14.2", CrsCHS { diameter: 2730, thickness_wall: 142, area: 11_500, area_shear: 5866, w_elastic: 710_000, w_plastic: 952_000, inertia: 96_950_000, inertia_x: 193_900_000 }));
    v.push(("CHS 273x16", CrsCHS { diameter: 2730, thickness_wall: 160, area: 12_900, area_shear: 6583, w_elastic: 784_000, w_plastic: 1_058_000, inertia: 107_070_000, inertia_x: 214_140_000 }));
    v.push(("CHS 323.9x5", CrsCHS { diameter: 3239, thickness_wall: 50, area: 5010, area_shear: 2506, w_elastic: 393_000, w_plastic: 509_000, inertia: 63_690_000, inertia_x: 127_390_000 }));
    v.push(("CHS 323.9x5.6", CrsCHS { diameter: 3239, thickness_wall: 56, area: 5600, area_shear: 2804, w_elastic: 438_000, w_plastic: 567_000, inertia: 70_940_000, inertia_x: 141_880_000 }));
    v.push(("CHS 323.9x6.3", CrsCHS { diameter: 3239, thickness_wall: 63, area: 6290, area_shear: 3152, w_elastic: 490_000, w_plastic: 636_000, inertia: 79_290_000, inertia_x: 158_580_000 }));
    v.push(("CHS 323.9x7.1", CrsCHS { diameter: 3239, thickness_wall: 71, area: 7070, area_shear: 3547, w_elastic: 548_000, w_plastic: 713_000, inertia: 88_690_000, inertia_x: 177_390_000 }));
    v.push(("CHS 323.9x8", CrsCHS { diameter: 3239, thickness_wall: 80, area: 7940, area_shear: 3990, w_elastic: 612_000, w_plastic: 799_000, inertia: 99_100_000, inertia_x: 198_200_000 }));
    v.push(("CHS 323.9x10", CrsCHS { diameter: 3239, thickness_wall: 100, area: 9860, area_shear: 4968, w_elastic: 751_000, w_plastic: 986_000, inertia: 121_580_000, inertia_x: 243_170_000 }));
    v.push(("CHS 323.9x11", CrsCHS { diameter: 3239, thickness_wall: 110, area: 10_800, area_shear: 5454, w_elastic: 818_000, w_plastic: 1_077_000, inertia: 132_500_000, inertia_x: 264_990_000 }));
    v.push(("CHS 323.9x12.5", CrsCHS { diameter: 3239, thickness_wall: 125, area: 12_200, area_shear: 6179, w_elastic: 917_000, w_plastic: 1_213_000, inertia: 148_470_000, inertia_x: 296_930_000 }));
    v.push(("CHS 323.9x14.2", CrsCHS { diameter: 3239, thickness_wall: 142, area: 13_800, area_shear: 6995, w_elastic: 1_025_000, w_plastic: 1_363_000, inertia: 165_990_000, inertia_x: 331_980_000 }));
    v.push(("CHS 323.9x16", CrsCHS { diameter: 3239, thickness_wall: 160, area: 15_500, area_shear: 7855, w_elastic: 1_136_000, w_plastic: 1_518_000, inertia: 183_900_000, inertia_x: 367_800_000 }));
    v.push(("CHS 355.6x6.3", CrsCHS { diameter: 3556, thickness_wall: 63, area: 6910, area_shear: 3463, w_elastic: 593_000, w_plastic: 769_000, inertia: 105_470_000, inertia_x: 210_940_000 }));
    assert(v@ =~= start + chs_table_5());
}

fn push_chs_rows_6(v: &mut Vec<(&'static str, CrsCHS)>)
    requires
        forall|i: int| 0 <= i < old(v)@.len() ==> CrossSection::Chs(#[trigger] old(v)@[i].1).wf(),
    ensures
        final(v)@ == old(v)@ + chs_table_6(),
        forall|i: int| 0 <= i < final(v)@.len() ==> CrossSection::Chs(#[trigger] final(v)@[i].1).wf(),
{
    let ghost start = v@;
    v.push(("CHS 355.6x7.1", CrsCHS { diameter: 3556, thickness_wall: 71, area: 7770, area_shear: 3898, w_elastic: 664_000, w_plastic: 862_000, inertia: 118_060_000, inertia_x: 236_120_000 }));
    v.push(("CHS 355.6x8", CrsCHS { diameter: 3556, thickness_wall: 80, area: 8740, area_shear: 4386, w_elastic: 742_000, w_plastic: 967_000, inertia: 132_010_000, inertia_x: 264_030_000 }));
    v.push(("CHS 355.6x10", CrsCHS { diameter: 3556, thickness_wall: 100, area: 10_900, area_shear: 5463, w_elastic: 912_000, w_plastic: 1_195_000, inertia: 162_230_000, inertia_x: 324_470_000 }));
    v.push(("CHS 355.6x11", CrsCHS { diameter: 3556, thickness_wall: 110, area: 11_900, area_shear: 5999, w_elastic: 995_000, w_plastic: 1_307_000, inertia: 176_950_000, inertia_x: 353_890_000 }));
    v.push(("CHS 355.6x12.5", CrsCHS { diameter: 3556, thickness_wall: 125, area: 13_500, area_shear: 6799, w_elastic: 1_117_000, w_plastic: 1_472_000, inertia: 198_520_000, inertia_x: 397_040_000 }));
    v.push(("CHS 355.6x14.2", CrsCHS { diameter: 3556, thickness_wall: 142, area: 15_200, area_shear: 7699, w_elastic: 1_250_000, w_plastic: 1_656_000, inertia: 222_270_000, inertia_x: 444_550_000 }));
    v.push(("CHS 355.6x16", CrsCHS { diameter: 3556, thickness_wall: 160, area: 17_100, area_shear: 8647, w_elastic: 1_387_000, w_plastic: 1_847_000, inertia: 246_630_000, inertia_x: 493_260_000 }));
    v.push(("CHS 406.4x10", CrsCHS { diameter: 4064, thickness_wall: 100, area: 12_500, area_shear: 6258, w_elastic: 1_205_000, w_plastic: 1_572_000, inertia: 244_760_000, inertia_x: 489_520_000 }));
    v.push(("CHS 406.4x11", CrsCHS { diameter: 4064, thickness_wall: 110, area: 13_700, area_shear: 6873, w_elastic: 1_315_000, w_plastic: 1_720_000, inertia: 267_240_000, inertia_x: 534_480_000 }));
    v.push(("CHS 406.4x12.5", CrsCHS { diameter: 4064, thickness_wall: 125, area: 15_500, area_shear: 7792, w_elastic: 1_478_000, w_plastic: 1_940_000, inertia: 300_310_000, inertia_x: 600_610_000 }));
    v.push(("CHS 406.4x14.2", CrsCHS { diameter: 4064, thickness_wall: 142, area: 17_500, area_shear: 8828, w_elastic: 1_658_000, w_plastic: 2_185_000, inertia: 336_850_000, inertia_x: 673_710_000 }));
    v.push(("CHS 406.4x16", CrsCHS { diameter: 4064, thickness_wall: 160, area: 19_600, area_shear: 9919, w_elastic: 1_843_000, w_plastic: 2_440_000, inertia: 374_490_000, inertia_x: 748_980_000 }));
    v.push(("CHS 457x10", CrsCHS { diameter: 4570, thickness_wall: 100, area: 14_000, area_shear: 7048, w_elastic: 1_536_000, w_plastic: 1_998_000, inertia: 350_910_000, inertia_x: 701_830_000 }));
    v.push(("CHS 457x11", CrsCHS { diameter: 4570, thickness_wall: 110, area: 15_400, area_shear: 7743, w_elastic: 1_678_000, w_plastic: 2_189_000, inertia: 383_460_000, inertia_x: 766_920_000 }));
    v.push(("CHS 457x12.5", CrsCHS { diameter: 4570, thickness_wall: 125, area: 17_500, area_shear: 8781, w_elastic: 1_888_000, w_plastic: 2_470_000, inertia: 431_450_000, inertia_x: 862_900_000 }));
    v.push(("CHS 457x14.2", CrsCHS { diameter: 4570, thickness_wall: 142, area: 19_800, area_shear: 9952, w_elastic: 2_121_000, w_plastic: 2_785_000, inertia: 484_640_000, inertia_x: 969_280_000 }));
    v.push(("CHS 457x16", CrsCHS { diameter: 4570, thickness_wall: 160, area: 22_200, area_shear: 11_185, w_elastic: 2_361_000, w_plastic: 3_113_000, inertia: 539_590_000, inertia_x: 1_079_190_000 }));
    v.push(("CHS 508x10", CrsCHS { diameter: 5080, thickness_wall: 100, area: 15_600, area_shear: 7845, w_elastic: 1_910_000, w_plastic: 2_480_000, inertia: 485_200_000, inertia_x: 970_400_000 }));
    v.push(("CHS 508x11", CrsCHS { diameter: 5080, thickness_wall: 110, area: 17_200, area_shear: 8620, w_elastic: 2_089_000, w_plastic: 2_718_000, inertia: 530_560_000, inertia_x: 1_061_120_000 }));
    v.push(("CHS 508x12.5", CrsCHS { diameter: 5080, thickness_wall: 125, area: 19_500, area_shear: 9778, w_elastic: 2_353_000, w_plastic: 3_070_000, inertia: 597_550_000, inertia_x: 1_195_110_000 }));
    v.push(("CHS 508x14.2", CrsCHS { diameter: 5080, thickness_wall: 142, area: 22_000, area_shear: 11_085, w_elastic: 2_646_000, w_plastic: 3_463_000, inertia: 671_990_000, inertia_x: 1_343_970_000 }));
    v.push(("CHS 508x16", CrsCHS { diameter: 5080, thickness_wall: 160, area: 24_700, area_shear: 12_461, w_elastic: 2_949_000, w_plastic: 3_874_000, inertia: 749_090_000, inertia_x: 1_498_180_000 }));
    assert(v@ =~= start + chs_table_6());
}

/// The rows of the CHS catalog, in catalog order.
pub fn chs_rows() -> (r: Vec<(&'static str, CrsCHS)>)
    ensures
        r@ == chs_table(),
        forall|i: int| 0 <= i < r@.len() ==> CrossSection::Chs(#[trigger] r@[i].1).wf(),
{
    let mut v: Vec<(&'static str, CrsCHS)> = Vec::new();
    push_chs_rows_0(&mut v);
    push_chs_rows_1(&mut v);
    push_chs_rows_2(&mut v);
    push_chs_rows_3(&mut v);
    push_chs_rows_4(&mut v);
    push_chs_rows_5(&mut v);
    push_chs_rows_6(&mut v);
    assert(v@ =~= chs_table());
    v
}

} // verus!
